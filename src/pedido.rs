use vstd::prelude::*;

use crate::decimal::DecimalFijo;
use crate::error::{msg, AppError, AppResult};
use crate::plataforma::{ahora_ms, nuevo_id, texto_uuid, uuid_simple};
use crate::texto::mismo_texto;

verus! {

broadcast use vstd::seq::Seq::lemma_filter_push;

/// Status of an order.
#[derive(Debug, Clone, Copy, PartialEq, Eq, Structural)]
pub enum EstadoPedido {
    Pendiente,
    Confirmado,
    EnTransito,
    Entregado,
    Cancelado,
}

/// The edges of the order lifecycle graph.
pub open spec fn transicion_permitida(actual: EstadoPedido, nuevo: EstadoPedido) -> bool {
    match actual {
        EstadoPedido::Pendiente => nuevo == EstadoPedido::Confirmado || nuevo
            == EstadoPedido::Cancelado,
        EstadoPedido::Confirmado => nuevo == EstadoPedido::EnTransito || nuevo
            == EstadoPedido::Cancelado,
        EstadoPedido::EnTransito => nuevo == EstadoPedido::Entregado || nuevo
            == EstadoPedido::Cancelado,
        EstadoPedido::Entregado => false,
        EstadoPedido::Cancelado => false,
    }
}

/// A status without outgoing edges.
pub open spec fn es_terminal(e: EstadoPedido) -> bool {
    e == EstadoPedido::Entregado || e == EstadoPedido::Cancelado
}

/// A lookup table that lists, for every status, exactly its allowed successors.
pub open spec fn tabla_correcta(t: Seq<(EstadoPedido, Vec<EstadoPedido>)>) -> bool {
    &&& forall|i: int, n: EstadoPedido|
        0 <= i < t.len() ==> (#[trigger] t[i].1@.contains(n) <==> transicion_permitida(t[i].0, n))
    &&& forall|a: EstadoPedido| #[trigger] tiene_fila(t, a)
}

/// Some row of the table is keyed by `a`.
pub open spec fn tiene_fila(t: Seq<(EstadoPedido, Vec<EstadoPedido>)>, a: EstadoPedido) -> bool {
    exists|i: int| 0 <= i < t.len() && #[trigger] t[i].0 == a
}

/// The transition table, kept as data: each status with the statuses it may move to.
pub fn tabla_transiciones() -> (t: Vec<(EstadoPedido, Vec<EstadoPedido>)>)
    ensures
        tabla_correcta(t@),
{
    let t = vec![
        (EstadoPedido::Pendiente, vec![EstadoPedido::Confirmado, EstadoPedido::Cancelado]),
        (EstadoPedido::Confirmado, vec![EstadoPedido::EnTransito, EstadoPedido::Cancelado]),
        (EstadoPedido::EnTransito, vec![EstadoPedido::Entregado, EstadoPedido::Cancelado]),
        (EstadoPedido::Entregado, Vec::new()),
        (EstadoPedido::Cancelado, Vec::new()),
    ];
    assert forall|a: EstadoPedido| #[trigger] tiene_fila(t@, a) by {
        match a {
            EstadoPedido::Pendiente => assert(t@[0].0 == a),
            EstadoPedido::Confirmado => assert(t@[1].0 == a),
            EstadoPedido::EnTransito => assert(t@[2].0 == a),
            EstadoPedido::Entregado => assert(t@[3].0 == a),
            EstadoPedido::Cancelado => assert(t@[4].0 == a),
        }
    }
    t
}

fn contiene(v: &Vec<EstadoPedido>, e: EstadoPedido) -> (r: bool)
    ensures
        r == v@.contains(e),
{
    let mut i: usize = 0;
    while i < v.len()
        invariant
            0 <= i <= v@.len(),
            forall|j: int| 0 <= j < i ==> v@[j] != e,
        decreases v@.len() - i,
    {
        if v[i] == e {
            return true;
        }
        i = i + 1;
    }
    false
}

/// Checks a status change against the transition table.
pub fn validar_transicion_estado(actual: EstadoPedido, nuevo: EstadoPedido) -> (r: AppResult<()>)
    ensures
        r is Ok <==> transicion_permitida(actual, nuevo),
        r is Err ==> r matches Err(AppError::Conflict(_)),
{
    let tabla = tabla_transiciones();
    let mut i: usize = 0;
    while i < tabla.len()
        invariant
            0 <= i <= tabla@.len(),
            tabla_correcta(tabla@),
            forall|j: int| 0 <= j < i ==> tabla@[j].0 != actual,
        decreases tabla@.len() - i,
    {
        if tabla[i].0 == actual {
            assert(tabla@[i as int].1@.contains(nuevo) <==> transicion_permitida(actual, nuevo));
            if contiene(&tabla[i].1, nuevo) {
                return Ok(());
            } else {
                return Err(AppError::Conflict(msg("Transición de estado no permitida")));
            }
        }
        i = i + 1;
    }
    assert(tiene_fila(tabla@, actual));
    Err(AppError::Conflict(msg("Transición de estado no permitida")))
}

/// The status named by a text, if any.
pub open spec fn estado_de_texto(t: Seq<char>) -> Option<EstadoPedido> {
    if t == "pendiente"@ {
        Some(EstadoPedido::Pendiente)
    } else if t == "confirmado"@ {
        Some(EstadoPedido::Confirmado)
    } else if t == "en_transito"@ {
        Some(EstadoPedido::EnTransito)
    } else if t == "entregado"@ {
        Some(EstadoPedido::Entregado)
    } else if t == "cancelado"@ {
        Some(EstadoPedido::Cancelado)
    } else {
        None
    }
}

/// The text that names a status.
pub open spec fn texto_de_estado(e: EstadoPedido) -> Seq<char> {
    match e {
        EstadoPedido::Pendiente => "pendiente"@,
        EstadoPedido::Confirmado => "confirmado"@,
        EstadoPedido::EnTransito => "en_transito"@,
        EstadoPedido::Entregado => "entregado"@,
        EstadoPedido::Cancelado => "cancelado"@,
    }
}

impl EstadoPedido {
    /// Reads a status from its text.
    pub fn parse(t: &str) -> (r: Option<EstadoPedido>)
        ensures
            r == estado_de_texto(t@),
    {
        if mismo_texto(t, "pendiente") {
            Some(EstadoPedido::Pendiente)
        } else if mismo_texto(t, "confirmado") {
            Some(EstadoPedido::Confirmado)
        } else if mismo_texto(t, "en_transito") {
            Some(EstadoPedido::EnTransito)
        } else if mismo_texto(t, "entregado") {
            Some(EstadoPedido::Entregado)
        } else if mismo_texto(t, "cancelado") {
            Some(EstadoPedido::Cancelado)
        } else {
            None
        }
    }

    /// The text of a status.
    pub fn as_str(&self) -> (r: &'static str)
        ensures
            r@ == texto_de_estado(*self),
    {
        match self {
            EstadoPedido::Pendiente => "pendiente",
            EstadoPedido::Confirmado => "confirmado",
            EstadoPedido::EnTransito => "en_transito",
            EstadoPedido::Entregado => "entregado",
            EstadoPedido::Cancelado => "cancelado",
        }
    }
}

/// An order.
#[derive(Debug, Clone)]
pub struct Pedido {
    pub id_pedido: u128,
    pub numero_tracking: String,
    pub id_perfil: u128,
    pub id_transportista: Option<u128>,
    pub id_direccion_origen: u128,
    pub id_direccion_destino: u128,
    pub estado: EstadoPedido,
    /// Milliseconds since the Unix epoch.
    pub fecha_entrega_estimada: Option<i64>,
    pub fecha_entrega_real: Option<i64>,
    pub monto_total: DecimalFijo,
    pub created_at: i64,
    pub updated_at: i64,
}

impl Pedido {
    /// A field-by-field copy.
    pub fn copia(&self) -> (r: Pedido)
        ensures
            r == *self,
    {
        Pedido {
            id_pedido: self.id_pedido,
            numero_tracking: self.numero_tracking.clone(),
            id_perfil: self.id_perfil,
            id_transportista: self.id_transportista,
            id_direccion_origen: self.id_direccion_origen,
            id_direccion_destino: self.id_direccion_destino,
            estado: self.estado,
            fecha_entrega_estimada: self.fecha_entrega_estimada,
            fecha_entrega_real: self.fecha_entrega_real,
            monto_total: self.monto_total,
            created_at: self.created_at,
            updated_at: self.updated_at,
        }
    }
}

/// Request to create an order for a profile.
pub struct CreatePedidoDTO {
    pub id_direccion_origen: u128,
    pub id_direccion_destino: u128,
    pub monto_total: DecimalFijo,
}

/// Request to move an order to the status named by `estado`.
pub struct UpdateEstadoPedidoDTO {
    pub estado: String,
}

/// Request to assign a carrier to an order.
pub struct AsignarTransportistaDTO {
    pub id_transportista: u128,
}

/// No two orders share an id.
pub open spec fn ids_unicos(s: Seq<Pedido>) -> bool {
    forall|i: int, j: int|
        0 <= i < s.len() && 0 <= j < s.len() && #[trigger] s[i].id_pedido == #[trigger] s[j].id_pedido
            ==> i == j
}

pub open spec fn contiene_id(s: Seq<Pedido>, id: u128) -> bool {
    exists|i: int| 0 <= i < s.len() && #[trigger] s[i].id_pedido == id
}

/// One step of the record set: orders are never removed nor reordered, each
/// keeps its status or moves along an edge of the graph, and new orders are
/// pending.
pub open spec fn paso_valido(antes: Seq<Pedido>, despues: Seq<Pedido>) -> bool {
    &&& antes.len() <= despues.len()
    &&& forall|i: int|
        0 <= i < antes.len() ==> {
            &&& #[trigger] despues[i].id_pedido == antes[i].id_pedido
            &&& (despues[i].estado == antes[i].estado || transicion_permitida(
                antes[i].estado,
                despues[i].estado,
            ))
        }
    &&& forall|i: int| antes.len() <= i < despues.len() ==> #[trigger] despues[i].estado
        == EstadoPedido::Pendiente
}

/// The record with a new status and update time.
pub open spec fn con_estado(p: Pedido, e: EstadoPedido, t: i64) -> Pedido {
    Pedido { estado: e, updated_at: t, ..p }
}

/// The record with a carrier and a new update time.
pub open spec fn con_transportista(p: Pedido, c: u128, t: i64) -> Pedido {
    Pedido { id_transportista: Some(c), updated_at: t, ..p }
}

/// The orders of a record set, kept in memory: the persistence gateway of the
/// order lifecycle. Orders are appended and never removed.
pub struct PedidoRepository {
    pedidos: Vec<Pedido>,
}

impl View for PedidoRepository {
    type V = Seq<Pedido>;

    closed spec fn view(&self) -> Seq<Pedido> {
        self.pedidos@
    }
}

impl PedidoRepository {
    pub open spec fn wf(&self) -> bool {
        ids_unicos(self@)
    }

    pub fn new() -> (r: PedidoRepository)
        ensures
            r.wf(),
            r@ == Seq::<Pedido>::empty(),
    {
        PedidoRepository { pedidos: Vec::new() }
    }

    /// Position of the order with id `id`.
    pub fn posicion(&self, id: u128) -> (r: Option<usize>)
        requires
            self.wf(),
        ensures
            r is None <==> !contiene_id(self@, id),
            r matches Some(i) ==> i < self@.len() && self@[i as int].id_pedido == id,
    {
        let mut i: usize = 0;
        while i < self.pedidos.len()
            invariant
                0 <= i <= self@.len(),
                self@ == self.pedidos@,
                forall|j: int| 0 <= j < i ==> self@[j].id_pedido != id,
            decreases self@.len() - i,
        {
            if self.pedidos[i].id_pedido == id {
                return Some(i);
            }
            i = i + 1;
        }
        None
    }

    pub fn find_by_id(&self, id: u128) -> (r: Option<Pedido>)
        requires
            self.wf(),
        ensures
            r is None <==> !contiene_id(self@, id),
            r matches Some(p) ==> p.id_pedido == id && self@.contains(p),
    {
        match self.posicion(id) {
            Some(i) => Some(self.pedidos[i].copia()),
            None => None,
        }
    }

    /// The orders of a profile, in the order they were stored.
    pub fn find_by_perfil(&self, id_perfil: u128) -> (r: Vec<Pedido>)
        ensures
            r@ == self@.filter(|p: Pedido| p.id_perfil == id_perfil),
    {
        let mut r: Vec<Pedido> = Vec::new();
        let mut i: usize = 0;
        while i < self.pedidos.len()
            invariant
                0 <= i <= self@.len(),
                self@ == self.pedidos@,
                r@ == self@.take(i as int).filter(|p: Pedido| p.id_perfil == id_perfil),
            decreases self@.len() - i,
        {
            assert(self@.take(i + 1) == self@.take(i as int).push(self@[i as int]));
            if self.pedidos[i].id_perfil == id_perfil {
                r.push(self.pedidos[i].copia());
            }
            i = i + 1;
        }
        assert(self@.take(self@.len() as int) == self@);
        r
    }

    /// The orders assigned to a carrier, in the order they were stored.
    pub fn find_by_transportista(&self, id_transportista: u128) -> (r: Vec<Pedido>)
        ensures
            r@ == self@.filter(|p: Pedido| p.id_transportista == Some(id_transportista)),
    {
        let mut r: Vec<Pedido> = Vec::new();
        let mut i: usize = 0;
        while i < self.pedidos.len()
            invariant
                0 <= i <= self@.len(),
                self@ == self.pedidos@,
                r@ == self@.take(i as int).filter(
                    |p: Pedido| p.id_transportista == Some(id_transportista),
                ),
            decreases self@.len() - i,
        {
            assert(self@.take(i + 1) == self@.take(i as int).push(self@[i as int]));
            if self.pedidos[i].id_transportista == Some(id_transportista) {
                r.push(self.pedidos[i].copia());
            }
            i = i + 1;
        }
        assert(self@.take(self@.len() as int) == self@);
        r
    }

    /// Stores a new pending order under `id`, with `id`'s text as tracking
    /// number; a taken id is refused as a storage failure.
    pub fn create(
        &mut self,
        id: u128,
        ahora: i64,
        id_perfil: u128,
        id_direccion_origen: u128,
        id_direccion_destino: u128,
        monto_total: DecimalFijo,
    ) -> (r: AppResult<Pedido>)
        requires
            old(self).wf(),
        ensures
            final(self).wf(),
            paso_valido(old(self)@, final(self)@),
            contiene_id(old(self)@, id) ==> (r matches Err(AppError::Database(_)) && final(self)@
                == old(self)@),
            !contiene_id(old(self)@, id) ==> (r matches Ok(p) && final(self)@ == old(self)@.push(p)
                && p == (Pedido {
                id_pedido: id,
                numero_tracking: p.numero_tracking,
                id_perfil,
                id_transportista: None,
                id_direccion_origen,
                id_direccion_destino,
                estado: EstadoPedido::Pendiente,
                fecha_entrega_estimada: None,
                fecha_entrega_real: None,
                monto_total,
                created_at: ahora,
                updated_at: ahora,
            }) && p.numero_tracking@ == texto_uuid(id)),
    {
        if self.posicion(id).is_some() {
            return Err(AppError::Database(msg("Clave duplicada")));
        }
        let p = Pedido {
            id_pedido: id,
            numero_tracking: uuid_simple(id),
            id_perfil,
            id_transportista: None,
            id_direccion_origen,
            id_direccion_destino,
            estado: EstadoPedido::Pendiente,
            fecha_entrega_estimada: None,
            fecha_entrega_real: None,
            monto_total,
            created_at: ahora,
            updated_at: ahora,
        };
        let ghost antes = self@;
        self.pedidos.push(p.copia());
        assert forall|i: int, j: int|
            0 <= i < self@.len() && 0 <= j < self@.len() && #[trigger] self@[i].id_pedido
                == #[trigger] self@[j].id_pedido implies i == j by {
            if i < antes.len() && j == antes.len() {
                assert(antes[i].id_pedido == id);
            }
            if j < antes.len() && i == antes.len() {
                assert(antes[j].id_pedido == id);
            }
        }
        Ok(p)
    }

    /// Replaces the record at `i`, keeping its id.
    fn reemplazar(&mut self, i: usize, p: Pedido)
        requires
            old(self).wf(),
            i < old(self)@.len(),
            p.id_pedido == old(self)@[i as int].id_pedido,
        ensures
            final(self).wf(),
            final(self)@ == old(self)@.update(i as int, p),
    {
        self.pedidos.set(i, p);
    }
}

/// The order lifecycle: creation, status transitions, carrier assignment
/// and cancellation, over the order record set.
pub struct PedidoService {
    repository: PedidoRepository,
}

impl View for PedidoService {
    type V = Seq<Pedido>;

    closed spec fn view(&self) -> Seq<Pedido> {
        self.repository@
    }
}

impl PedidoService {
    pub open spec fn wf(&self) -> bool {
        ids_unicos(self@)
    }

    pub fn new(repository: PedidoRepository) -> (r: PedidoService)
        requires
            repository.wf(),
        ensures
            r.wf(),
            r@ == repository@,
    {
        PedidoService { repository }
    }

    /// The order with id `id`.
    pub fn get_by_id(&self, id: u128) -> (r: AppResult<Pedido>)
        requires
            self.wf(),
        ensures
            r is Err <==> !contiene_id(self@, id),
            r is Err ==> r matches Err(AppError::NotFound(_)),
            r matches Ok(p) ==> p.id_pedido == id && self@.contains(p),
    {
        match self.repository.find_by_id(id) {
            Some(p) => Ok(p),
            None => Err(AppError::NotFound(msg("Pedido no encontrado"))),
        }
    }

    /// The orders of a profile.
    pub fn list_by_user(&self, id_perfil: u128) -> (r: Vec<Pedido>)
        ensures
            r@ == self@.filter(|p: Pedido| p.id_perfil == id_perfil),
    {
        self.repository.find_by_perfil(id_perfil)
    }

    /// The orders assigned to a carrier.
    pub fn list_by_transportista(&self, id_transportista: u128) -> (r: Vec<Pedido>)
        ensures
            r@ == self@.filter(|p: Pedido| p.id_transportista == Some(id_transportista)),
    {
        self.repository.find_by_transportista(id_transportista)
    }

    /// Creates a pending order; the amount must be positive. The id is drawn
    /// at random and the clock gives the timestamps.
    pub fn create(&mut self, id_perfil: u128, dto: CreatePedidoDTO) -> (r: AppResult<Pedido>)
        requires
            old(self).wf(),
        ensures
            final(self).wf(),
            paso_valido(old(self)@, final(self)@),
            !dto.monto_total.es_positivo() ==> r matches Err(AppError::BadRequest(_)),
            dto.monto_total.es_positivo() ==> r is Ok || r matches Err(AppError::Database(_)),
            r is Err ==> final(self)@ == old(self)@,
            r matches Ok(p) ==> {
                &&& !contiene_id(old(self)@, p.id_pedido)
                &&& final(self)@ == old(self)@.push(p)
                &&& p.estado == EstadoPedido::Pendiente
                &&& p.id_perfil == id_perfil
                &&& p.id_transportista is None
                &&& p.id_direccion_origen == dto.id_direccion_origen
                &&& p.id_direccion_destino == dto.id_direccion_destino
                &&& p.monto_total == dto.monto_total
                &&& p.numero_tracking@ == texto_uuid(p.id_pedido)
            },
    {
        if !dto.monto_total.positivo() {
            return Err(AppError::BadRequest(msg("El monto total debe ser mayor a 0")));
        }
        let id = nuevo_id();
        let ahora = ahora_ms();
        self.repository.create(
            id,
            ahora,
            id_perfil,
            dto.id_direccion_origen,
            dto.id_direccion_destino,
            dto.monto_total,
        )
    }

    /// Moves an order to the status named in `dto`, along an edge of the
    /// transition table.
    pub fn update_estado(&mut self, id: u128, dto: UpdateEstadoPedidoDTO) -> (r: AppResult<Pedido>)
        requires
            old(self).wf(),
        ensures
            final(self).wf(),
            paso_valido(old(self)@, final(self)@),
            r is Err ==> final(self)@ == old(self)@,
            estado_de_texto(dto.estado@) is None ==> r matches Err(AppError::BadRequest(_)),
            estado_de_texto(dto.estado@) is Some && !contiene_id(old(self)@, id) ==> r matches Err(
                AppError::NotFound(_),
            ),
            forall|i: int|
                0 <= i < old(self)@.len() && #[trigger] old(self)@[i].id_pedido == id
                    && estado_de_texto(dto.estado@) is Some ==> {
                    let e = estado_de_texto(dto.estado@)->0;
                    &&& !transicion_permitida(old(self)@[i].estado, e) ==> (r matches Err(
                        AppError::Conflict(_),
                    ))
                    &&& transicion_permitida(old(self)@[i].estado, e) ==> (r matches Ok(p) && p
                        == con_estado(old(self)@[i], e, p.updated_at) && final(self)@ == old(self)@.update(i, p))
                },
    {
        let nuevo = match EstadoPedido::parse(dto.estado.as_str()) {
            Some(e) => e,
            None => {
                return Err(
                    AppError::BadRequest(
                        msg(
                            "Estado inválido. Estados válidos: pendiente, confirmado, en_transito, entregado, cancelado",
                        ),
                    ),
                );
            },
        };
        let i = match self.repository.posicion(id) {
            Some(i) => i,
            None => {
                return Err(AppError::NotFound(msg("Pedido no encontrado")));
            },
        };
        let actual = self.repository.pedidos[i].copia();
        match validar_transicion_estado(actual.estado, nuevo) {
            Ok(()) => {},
            Err(e) => {
                return Err(e);
            },
        }
        let ahora = ahora_ms();
        let p = Pedido { estado: nuevo, updated_at: ahora, ..actual };
        self.repository.reemplazar(i, p.copia());
        Ok(p)
    }

    /// Assigns a carrier to a pending or confirmed order.
    pub fn assign_transportista(&mut self, id: u128, dto: AsignarTransportistaDTO) -> (r: AppResult<
        Pedido,
    >)
        requires
            old(self).wf(),
        ensures
            final(self).wf(),
            paso_valido(old(self)@, final(self)@),
            r is Err ==> final(self)@ == old(self)@,
            !contiene_id(old(self)@, id) ==> r matches Err(AppError::NotFound(_)),
            forall|i: int|
                0 <= i < old(self)@.len() && #[trigger] old(self)@[i].id_pedido == id ==> {
                    let e = old(self)@[i].estado;
                    &&& !(e == EstadoPedido::Pendiente || e == EstadoPedido::Confirmado) ==> (r matches Err(
                        AppError::Conflict(_),
                    ))
                    &&& (e == EstadoPedido::Pendiente || e == EstadoPedido::Confirmado) ==> (r matches Ok(
                        p,
                    ) && p == con_transportista(old(self)@[i], dto.id_transportista, p.updated_at)
                        && final(self)@ == old(self)@.update(i, p))
                },
    {
        let i = match self.repository.posicion(id) {
            Some(i) => i,
            None => {
                return Err(AppError::NotFound(msg("Pedido no encontrado")));
            },
        };
        let actual = self.repository.pedidos[i].copia();
        if actual.estado != EstadoPedido::Pendiente && actual.estado != EstadoPedido::Confirmado {
            return Err(
                AppError::Conflict(
                    msg("Solo se puede asignar transportista a pedidos pendientes o confirmados"),
                ),
            );
        }
        let ahora = ahora_ms();
        let p = Pedido { id_transportista: Some(dto.id_transportista), updated_at: ahora, ..actual };
        self.repository.reemplazar(i, p.copia());
        Ok(p)
    }

    /// Cancels an order. A delivered order cannot be cancelled, and
    /// cancelling an order that is already cancelled is refused too: the
    /// table lists no edge from `cancelado` to itself.
    pub fn cancel(&mut self, id: u128) -> (r: AppResult<()>)
        requires
            old(self).wf(),
        ensures
            final(self).wf(),
            paso_valido(old(self)@, final(self)@),
            r is Err ==> final(self)@ == old(self)@,
            !contiene_id(old(self)@, id) ==> r matches Err(AppError::NotFound(_)),
            forall|i: int|
                0 <= i < old(self)@.len() && #[trigger] old(self)@[i].id_pedido == id ==> {
                    &&& es_terminal(old(self)@[i].estado) ==> (r matches Err(AppError::Conflict(_)))
                    &&& !es_terminal(old(self)@[i].estado) ==> r is Ok && final(self)@.len()
                        == old(self)@.len() && final(self)@[i] == con_estado(
                        old(self)@[i],
                        EstadoPedido::Cancelado,
                        final(self)@[i].updated_at,
                    ) && forall|j: int|
                        0 <= j < old(self)@.len() && j != i ==> final(self)@[j] == old(self)@[j]
                },
    {
        let i = match self.repository.posicion(id) {
            Some(i) => i,
            None => {
                return Err(AppError::NotFound(msg("Pedido no encontrado")));
            },
        };
        let actual = self.repository.pedidos[i].copia();
        if actual.estado == EstadoPedido::Entregado {
            return Err(AppError::Conflict(msg("No se puede cancelar un pedido ya entregado")));
        }
        if actual.estado == EstadoPedido::Cancelado {
            return Err(AppError::Conflict(msg("El pedido ya está cancelado")));
        }
        let ahora = ahora_ms();
        let p = Pedido { estado: EstadoPedido::Cancelado, updated_at: ahora, ..actual };
        self.repository.reemplazar(i, p);
        Ok(())
    }
}

/// Along a history of the order record set in which every state follows from
/// the one before by a valid step, the order at position `i` keeps its id,
/// each of its status changes is an edge of the transition graph, and once it
/// is delivered or cancelled its status never changes again.
pub proof fn lemma_recorrido_valido(historia: Seq<Seq<Pedido>>, k: int, l: int, i: int)
    requires
        forall|m: int|
            0 <= m < historia.len() - 1 ==> #[trigger] paso_valido(historia[m], historia[m + 1]),
        0 <= k <= l < historia.len(),
        0 <= i < historia[k].len(),
    ensures
        i < historia[l].len(),
        historia[l][i].id_pedido == historia[k][i].id_pedido,
        l == k + 1 ==> historia[l][i].estado == historia[k][i].estado || transicion_permitida(
            historia[k][i].estado,
            historia[l][i].estado,
        ),
        es_terminal(historia[k][i].estado) ==> historia[l][i].estado == historia[k][i].estado,
    decreases l - k,
{
    if l > k {
        let m = l - 1;
        lemma_recorrido_valido(historia, k, m, i);
        assert(paso_valido(historia[m], historia[m + 1]));
        assert(historia[m + 1][i].id_pedido == historia[m][i].id_pedido);
    }
}

} // verus!

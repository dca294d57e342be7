use vstd::prelude::*;

use crate::decimal::DecimalFijo;
use crate::error::{msg, AppError, AppResult};
use crate::plataforma::{ahora_ms, nuevo_id};
use crate::texto::{copia_opcion, mismo_texto, recortado, recortar, vista_opcion};
use crate::validacion::{coordenadas_validas, validar_coordenadas};
use vstd::string::StringExecFns;

verus! {

broadcast use vstd::seq::Seq::lemma_filter_push;

/// The two shapes of an address: a customer's, owned by a profile, or a
/// warehouse, owned by nobody.
#[derive(Debug, Clone, Copy, PartialEq, Eq, Structural)]
pub enum TipoDireccion {
    Cliente,
    Almacen,
}

impl Default for TipoDireccion {
    fn default() -> (r: TipoDireccion)
        ensures
            r == TipoDireccion::Cliente,
    {
        TipoDireccion::Cliente
    }
}

/// A customer address or a warehouse.
#[derive(Debug, Clone)]
pub struct Direccion {
    pub id_direccion: u128,
    /// The owning profile; none for a warehouse.
    pub id_perfil: Option<u128>,
    pub tipo: TipoDireccion,
    pub calle: String,
    pub ciudad: String,
    pub referencias_adicionales: Option<String>,
    pub pais: String,
    pub latitud: DecimalFijo,
    pub longitud: DecimalFijo,
    pub es_predeterminada: bool,
    pub activo: bool,
    pub created_at: i64,
    pub updated_at: i64,
}

impl Direccion {
    /// A field-by-field copy.
    pub fn copia(&self) -> (r: Direccion)
        ensures
            r == *self,
    {
        Direccion {
            id_direccion: self.id_direccion,
            id_perfil: self.id_perfil,
            tipo: self.tipo,
            calle: self.calle.clone(),
            ciudad: self.ciudad.clone(),
            referencias_adicionales: copia_opcion(&self.referencias_adicionales),
            pais: self.pais.clone(),
            latitud: self.latitud,
            longitud: self.longitud,
            es_predeterminada: self.es_predeterminada,
            activo: self.activo,
            created_at: self.created_at,
            updated_at: self.updated_at,
        }
    }
}

/// The address is the active default customer address of profile `p`.
pub open spec fn es_predeterminada_de(d: Direccion, p: u128) -> bool {
    &&& d.tipo == TipoDireccion::Cliente
    &&& d.id_perfil == Some(p)
    &&& d.activo
    &&& d.es_predeterminada
}

/// The shape rules of one address: a customer address has an owner; a
/// warehouse has none and is never a default; a default is active.
pub open spec fn forma_valida(d: Direccion) -> bool {
    &&& d.tipo == TipoDireccion::Cliente ==> d.id_perfil is Some
    &&& d.tipo == TipoDireccion::Almacen ==> d.id_perfil is None && !d.es_predeterminada
    &&& d.es_predeterminada ==> d.activo
}

pub open spec fn ids_unicos(s: Seq<Direccion>) -> bool {
    forall|i: int, j: int|
        0 <= i < s.len() && 0 <= j < s.len() && #[trigger] s[i].id_direccion
            == #[trigger] s[j].id_direccion ==> i == j
}

/// No profile has two active default addresses.
pub open spec fn un_predeterminado(s: Seq<Direccion>) -> bool {
    forall|i: int, j: int, p: u128|
        0 <= i < s.len() && 0 <= j < s.len() && #[trigger] es_predeterminada_de(s[i], p)
            && #[trigger] es_predeterminada_de(s[j], p) ==> i == j
}

pub open spec fn libreta_valida(s: Seq<Direccion>) -> bool {
    &&& ids_unicos(s)
    &&& forall|i: int| 0 <= i < s.len() ==> forma_valida(#[trigger] s[i])
    &&& un_predeterminado(s)
}

pub open spec fn contiene_id(s: Seq<Direccion>, id: u128) -> bool {
    exists|i: int| 0 <= i < s.len() && #[trigger] s[i].id_direccion == id
}

/// The active default addresses of profile `p`.
pub open spec fn predeterminadas(s: Seq<Direccion>, p: u128) -> Seq<Direccion> {
    s.filter(|d: Direccion| es_predeterminada_de(d, p))
}

/// The active addresses of profile `p`.
pub open spec fn activas_de(s: Seq<Direccion>, p: u128) -> Seq<Direccion> {
    s.filter(|d: Direccion| d.id_perfil == Some(p) && d.activo)
}

/// The address with its default flag cleared at time `t`.
pub open spec fn sin_flag(d: Direccion, t: i64) -> Direccion {
    Direccion { es_predeterminada: false, updated_at: t, ..d }
}

/// The record set with every default flag of profile `p` cleared at time `t`.
pub open spec fn limpiar(s: Seq<Direccion>, p: u128, t: i64) -> Seq<Direccion> {
    Seq::new(
        s.len(),
        |k: int|
            if s[k].id_perfil == Some(p) && s[k].es_predeterminada {
                sin_flag(s[k], t)
            } else {
                s[k]
            },
    )
}

/// The record set after address `i` became the single default of profile `p`.
pub open spec fn promovida(s: Seq<Direccion>, i: int, p: u128, t: i64) -> Seq<Direccion> {
    limpiar(s, p, t).update(i, Direccion { es_predeterminada: true, updated_at: t, ..s[i] })
}

/// Under the record-set invariant each profile has at most one active
/// default customer address.
pub proof fn lemma_a_lo_sumo_una_predeterminada(s: Seq<Direccion>, p: u128)
    requires
        un_predeterminado(s),
    ensures
        predeterminadas(s, p).len() <= 1,
    decreases s.len(),
{
    if s.len() > 0 {
        let r = s.drop_last();
        assert(s == r.push(s.last()));
        assert(un_predeterminado(r)) by {
            assert forall|i: int, j: int, q: u128|
                0 <= i < r.len() && 0 <= j < r.len() && #[trigger] es_predeterminada_de(r[i], q)
                    && #[trigger] es_predeterminada_de(r[j], q) implies i == j by {
                assert(es_predeterminada_de(s[i], q) && es_predeterminada_de(s[j], q));
            }
        }
        lemma_a_lo_sumo_una_predeterminada(r, p);
        if es_predeterminada_de(s.last(), p) {
            assert forall|k: int| 0 <= k < r.len() implies !es_predeterminada_de(#[trigger] r[k], p) by {
                if es_predeterminada_de(r[k], p) {
                    assert(es_predeterminada_de(s[k], p) && es_predeterminada_de(
                        s[s.len() - 1],
                        p,
                    ));
                }
            }
            r.lemma_all_neg_filter_empty(|d: Direccion| es_predeterminada_de(d, p));
        }
    }
}

/// A change of the record set that keeps every position's id and shape and
/// makes no address a default that was not one keeps the invariant.
proof fn lemma_sin_nuevas_predeterminadas(s: Seq<Direccion>, s2: Seq<Direccion>)
    requires
        libreta_valida(s),
        s2.len() == s.len(),
        forall|k: int|
            0 <= k < s.len() ==> (#[trigger] s2[k]).id_direccion == s[k].id_direccion
                && forma_valida(s2[k]),
        forall|k: int, q: u128|
            0 <= k < s.len() && #[trigger] es_predeterminada_de(s2[k], q) ==> es_predeterminada_de(
                s[k],
                q,
            ),
    ensures
        libreta_valida(s2),
{
    assert forall|i: int, j: int|
        0 <= i < s2.len() && 0 <= j < s2.len() && #[trigger] s2[i].id_direccion
            == #[trigger] s2[j].id_direccion implies i == j by {
        assert(s[i].id_direccion == s[j].id_direccion);
    }
    assert forall|i: int, j: int, q: u128|
        0 <= i < s2.len() && 0 <= j < s2.len() && #[trigger] es_predeterminada_de(s2[i], q)
            && #[trigger] es_predeterminada_de(s2[j], q) implies i == j by {
        assert(es_predeterminada_de(s[i], q) && es_predeterminada_de(s[j], q));
    }
}

/// Clearing the defaults of a profile keeps the invariant and leaves the
/// profile without a default.
proof fn lemma_limpiar(s: Seq<Direccion>, p: u128, t: i64)
    requires
        libreta_valida(s),
    ensures
        libreta_valida(limpiar(s, p, t)),
        forall|k: int| 0 <= k < s.len() ==> !es_predeterminada_de(#[trigger] limpiar(s, p, t)[k], p),
{
    let s2 = limpiar(s, p, t);
    assert forall|k: int| 0 <= k < s.len() implies (#[trigger] s2[k]).id_direccion
        == s[k].id_direccion && forma_valida(s2[k]) by {
        assert(forma_valida(s[k]));
    }
    lemma_sin_nuevas_predeterminadas(s, s2);
}

/// Making an active address of profile `p` its single default keeps the invariant.
proof fn lemma_promovida(s: Seq<Direccion>, i: int, p: u128, t: i64)
    requires
        libreta_valida(s),
        0 <= i < s.len(),
        s[i].id_perfil == Some(p),
        s[i].activo,
    ensures
        libreta_valida(promovida(s, i, p, t)),
        es_predeterminada_de(promovida(s, i, p, t)[i], p),
{
    lemma_limpiar(s, p, t);
    let l = limpiar(s, p, t);
    let s2 = promovida(s, i, p, t);
    assert(forma_valida(s[i]));
    assert forall|a: int, b: int|
        0 <= a < s2.len() && 0 <= b < s2.len() && #[trigger] s2[a].id_direccion
            == #[trigger] s2[b].id_direccion implies a == b by {
        assert(l[a].id_direccion == l[b].id_direccion);
    }
    assert forall|a: int| 0 <= a < s2.len() implies forma_valida(#[trigger] s2[a]) by {
        assert(forma_valida(l[a]));
    }
    assert forall|a: int, b: int, q: u128|
        0 <= a < s2.len() && 0 <= b < s2.len() && #[trigger] es_predeterminada_de(s2[a], q)
            && #[trigger] es_predeterminada_de(s2[b], q) implies a == b by {
        if a != i && b != i {
            assert(es_predeterminada_de(l[a], q) && es_predeterminada_de(l[b], q));
        } else if a == i && b != i {
            assert(es_predeterminada_de(l[b], p));
        } else if b == i && a != i {
            assert(es_predeterminada_de(l[a], p));
        }
    }
}

/// Request to create a customer address. `tipo` defaults to `cliente`,
/// the only kind a customer may create; `pais` defaults to Ecuador.
pub struct CreateDireccionDTO {
    pub calle: String,
    pub ciudad: String,
    pub pais: Option<String>,
    pub referencias_adicionales: Option<String>,
    pub latitud: DecimalFijo,
    pub longitud: DecimalFijo,
    pub tipo: Option<String>,
    pub es_predeterminada: Option<bool>,
}

/// Request to change the given descriptive fields of an address.
pub struct UpdateDireccionDTO {
    pub calle: Option<String>,
    pub ciudad: Option<String>,
    pub pais: Option<String>,
    pub referencias_adicionales: Option<String>,
    pub latitud: Option<DecimalFijo>,
    pub longitud: Option<DecimalFijo>,
}

/// Request to create a warehouse; its name is kept in front of the street.
pub struct CreateAlmacenDTO {
    pub nombre: String,
    pub calle: String,
    pub ciudad: String,
    pub pais: Option<String>,
    pub referencias_adicionales: Option<String>,
    pub latitud: DecimalFijo,
    pub longitud: DecimalFijo,
}

/// The address after an update request changed its descriptive fields.
pub open spec fn con_cambios(d: Direccion, dto: UpdateDireccionDTO, t: i64) -> Direccion {
    Direccion {
        calle: match dto.calle {
            Some(x) => x,
            None => d.calle,
        },
        ciudad: match dto.ciudad {
            Some(x) => x,
            None => d.ciudad,
        },
        pais: match dto.pais {
            Some(x) => x,
            None => d.pais,
        },
        referencias_adicionales: match dto.referencias_adicionales {
            Some(x) => Some(x),
            None => d.referencias_adicionales,
        },
        latitud: match dto.latitud {
            Some(x) => x,
            None => d.latitud,
        },
        longitud: match dto.longitud {
            Some(x) => x,
            None => d.longitud,
        },
        updated_at: t,
        ..d
    }
}

/// Customer addresses and warehouses, kept in memory: the persistence
/// gateway of the default-address rule.
pub struct DireccionRepository {
    direcciones: Vec<Direccion>,
}

impl View for DireccionRepository {
    type V = Seq<Direccion>;

    closed spec fn view(&self) -> Seq<Direccion> {
        self.direcciones@
    }
}

impl DireccionRepository {
    pub open spec fn wf(&self) -> bool {
        libreta_valida(self@)
    }

    pub fn new() -> (r: DireccionRepository)
        ensures
            r.wf(),
            r@ == Seq::<Direccion>::empty(),
    {
        DireccionRepository { direcciones: Vec::new() }
    }

    /// Position of the address with id `id`.
    pub fn posicion(&self, id: u128) -> (r: Option<usize>)
        ensures
            r is None <==> !contiene_id(self@, id),
            r matches Some(i) ==> i < self@.len() && self@[i as int].id_direccion == id,
    {
        let mut i: usize = 0;
        while i < self.direcciones.len()
            invariant
                0 <= i <= self@.len(),
                self@ == self.direcciones@,
                forall|j: int| 0 <= j < i ==> self@[j].id_direccion != id,
            decreases self@.len() - i,
        {
            if self.direcciones[i].id_direccion == id {
                return Some(i);
            }
            i = i + 1;
        }
        None
    }

    pub fn find_by_id(&self, id: u128) -> (r: Option<Direccion>)
        ensures
            r is None <==> !contiene_id(self@, id),
            r matches Some(d) ==> d.id_direccion == id && self@.contains(d),
    {
        match self.posicion(id) {
            Some(i) => Some(self.direcciones[i].copia()),
            None => None,
        }
    }

    /// The active default address of profile `p`, if any.
    pub fn find_predeterminada(&self, p: u128) -> (r: Option<Direccion>)
        ensures
            r is None <==> forall|i: int|
                0 <= i < self@.len() ==> !es_predeterminada_de(#[trigger] self@[i], p),
            r matches Some(d) ==> es_predeterminada_de(d, p) && self@.contains(d),
    {
        let mut i: usize = 0;
        while i < self.direcciones.len()
            invariant
                0 <= i <= self@.len(),
                self@ == self.direcciones@,
                forall|j: int| 0 <= j < i ==> !es_predeterminada_de(#[trigger] self@[j], p),
            decreases self@.len() - i,
        {
            let d = &self.direcciones[i];
            if d.tipo == TipoDireccion::Cliente && d.id_perfil == Some(p) && d.activo
                && d.es_predeterminada {
                return Some(d.copia());
            }
            i = i + 1;
        }
        None
    }

    /// Whether address `id` is owned by profile `p`.
    pub fn belongs_to_perfil(&self, id: u128, p: u128) -> (r: bool)
        requires
            self.wf(),
        ensures
            r == exists|i: int|
                0 <= i < self@.len() && #[trigger] self@[i].id_direccion == id && self@[i].id_perfil
                    == Some(p),
    {
        match self.posicion(id) {
            Some(i) => {
                let r = self.direcciones[i].id_perfil == Some(p);
                proof {
                    if !r {
                        assert forall|k: int|
                            0 <= k < self@.len() && #[trigger] self@[k].id_direccion == id
                                implies self@[k].id_perfil != Some(p) by {
                            assert(self@[i as int].id_direccion == self@[k].id_direccion);
                        }
                    }
                }
                r
            },
            None => false,
        }
    }

    /// The addresses of profile `p`, in the order they were stored.
    pub fn find_all_by_perfil(&self, p: u128) -> (r: Vec<Direccion>)
        ensures
            r@ == self@.filter(|d: Direccion| d.id_perfil == Some(p)),
    {
        let mut r: Vec<Direccion> = Vec::new();
        let mut i: usize = 0;
        while i < self.direcciones.len()
            invariant
                0 <= i <= self@.len(),
                self@ == self.direcciones@,
                r@ == self@.take(i as int).filter(|d: Direccion| d.id_perfil == Some(p)),
            decreases self@.len() - i,
        {
            assert(self@.take(i + 1) == self@.take(i as int).push(self@[i as int]));
            if self.direcciones[i].id_perfil == Some(p) {
                r.push(self.direcciones[i].copia());
            }
            i = i + 1;
        }
        assert(self@.take(self@.len() as int) == self@);
        r
    }

    /// The active addresses of profile `p`, in the order they were stored.
    pub fn find_by_perfil(&self, p: u128) -> (r: Vec<Direccion>)
        ensures
            r@ == activas_de(self@, p),
    {
        let mut r: Vec<Direccion> = Vec::new();
        let mut i: usize = 0;
        while i < self.direcciones.len()
            invariant
                0 <= i <= self@.len(),
                self@ == self.direcciones@,
                r@ == self@.take(i as int).filter(|d: Direccion| d.id_perfil == Some(p) && d.activo),
            decreases self@.len() - i,
        {
            assert(self@.take(i + 1) == self@.take(i as int).push(self@[i as int]));
            if self.direcciones[i].id_perfil == Some(p) && self.direcciones[i].activo {
                r.push(self.direcciones[i].copia());
            }
            i = i + 1;
        }
        assert(self@.take(self@.len() as int) == self@);
        r
    }

    /// Number of active addresses of profile `p`.
    pub fn count_by_perfil(&self, p: u128) -> (r: usize)
        ensures
            r == activas_de(self@, p).len(),
    {
        let mut k: usize = 0;
        let mut i: usize = 0;
        while i < self.direcciones.len()
            invariant
                0 <= i <= self@.len(),
                self@ == self.direcciones@,
                k == self@.take(i as int).filter(|d: Direccion| d.id_perfil == Some(p) && d.activo).len(),
                k <= i,
            decreases self@.len() - i,
        {
            assert(self@.take(i + 1) == self@.take(i as int).push(self@[i as int]));
            if self.direcciones[i].id_perfil == Some(p) && self.direcciones[i].activo {
                k = k + 1;
            }
            i = i + 1;
        }
        assert(self@.take(self@.len() as int) == self@);
        k
    }

    /// The active warehouses, in the order they were stored.
    pub fn find_almacenes(&self) -> (r: Vec<Direccion>)
        ensures
            r@ == self@.filter(|d: Direccion| d.tipo == TipoDireccion::Almacen && d.activo),
    {
        let mut r: Vec<Direccion> = Vec::new();
        let mut i: usize = 0;
        while i < self.direcciones.len()
            invariant
                0 <= i <= self@.len(),
                self@ == self.direcciones@,
                r@ == self@.take(i as int).filter(|d: Direccion| d.tipo == TipoDireccion::Almacen && d.activo),
            decreases self@.len() - i,
        {
            assert(self@.take(i + 1) == self@.take(i as int).push(self@[i as int]));
            let d = &self.direcciones[i];
            if d.tipo == TipoDireccion::Almacen && d.activo {
                r.push(d.copia());
            }
            i = i + 1;
        }
        assert(self@.take(self@.len() as int) == self@);
        r
    }

    /// Every warehouse, active or not, in the order they were stored.
    pub fn find_all_almacenes(&self) -> (r: Vec<Direccion>)
        ensures
            r@ == self@.filter(|d: Direccion| d.tipo == TipoDireccion::Almacen),
    {
        let mut r: Vec<Direccion> = Vec::new();
        let mut i: usize = 0;
        while i < self.direcciones.len()
            invariant
                0 <= i <= self@.len(),
                self@ == self.direcciones@,
                r@ == self@.take(i as int).filter(|d: Direccion| d.tipo == TipoDireccion::Almacen),
            decreases self@.len() - i,
        {
            assert(self@.take(i + 1) == self@.take(i as int).push(self@[i as int]));
            let d = &self.direcciones[i];
            if d.tipo == TipoDireccion::Almacen {
                r.push(d.copia());
            }
            i = i + 1;
        }
        assert(self@.take(self@.len() as int) == self@);
        r
    }

    /// Clears every default flag of profile `p`.
    fn limpiar_predeterminadas(&mut self, p: u128, t: i64)
        requires
            old(self).wf(),
        ensures
            final(self).wf(),
            final(self)@ == limpiar(old(self)@, p, t),
    {
        let ghost antes = self@;
        let mut i: usize = 0;
        while i < self.direcciones.len()
            invariant
                self@.len() == antes.len(),
                0 <= i <= self@.len(),
                forall|k: int| 0 <= k < i ==> #[trigger] self@[k] == limpiar(antes, p, t)[k],
                forall|k: int| i <= k < self@.len() ==> #[trigger] self@[k] == antes[k],
            decreases self@.len() - i,
        {
            if self.direcciones[i].id_perfil == Some(p) && self.direcciones[i].es_predeterminada {
                let d = self.direcciones[i].copia();
                self.direcciones.set(i, Direccion { es_predeterminada: false, updated_at: t, ..d });
            }
            i = i + 1;
        }
        assert(self@ =~= limpiar(antes, p, t));
        proof {
            lemma_limpiar(antes, p, t);
        }
    }

    /// Stores a new address. When it is a default, the profile's current
    /// default is cleared in the same step, so that no state shows the
    /// profile with two defaults. A taken id or a record of invalid shape is
    /// refused as the storage constraints refuse them.
    pub fn create(&mut self, d: Direccion) -> (r: AppResult<Direccion>)
        requires
            old(self).wf(),
        ensures
            final(self).wf(),
            r is Err <==> contiene_id(old(self)@, d.id_direccion) || !forma_valida(d),
            r is Err ==> final(self)@ == old(self)@ && r matches Err(AppError::Database(_)),
            r is Ok ==> r == Ok::<Direccion, AppError>(d),
            r is Ok && !d.es_predeterminada ==> final(self)@ == old(self)@.push(d),
            r is Ok && d.es_predeterminada ==> final(self)@ == limpiar(
                old(self)@,
                d.id_perfil->0,
                d.created_at,
            ).push(d),
    {
        if self.posicion(d.id_direccion).is_some() {
            return Err(AppError::Database(msg("Clave duplicada")));
        }
        let forma = match d.tipo {
            TipoDireccion::Cliente => d.id_perfil.is_some(),
            TipoDireccion::Almacen => d.id_perfil.is_none() && !d.es_predeterminada,
        } && (!d.es_predeterminada || d.activo);
        if !forma {
            return Err(AppError::Database(msg("Dirección con forma inválida")));
        }
        let ghost antes = self@;
        if d.es_predeterminada {
            match d.id_perfil {
                Some(p) => {
                    self.limpiar_predeterminadas(p, d.created_at);
                },
                None => {},
            }
        }
        let ghost medio = self@;
        proof {
            if d.es_predeterminada {
                lemma_limpiar(antes, d.id_perfil->0, d.created_at);
            }
            assert forall|k: int| 0 <= k < medio.len() implies #[trigger] medio[k].id_direccion
                == antes[k].id_direccion by {}
        }
        self.direcciones.push(d.copia());
        proof {
            let s2 = self@;
            assert forall|i: int, j: int|
                0 <= i < s2.len() && 0 <= j < s2.len() && #[trigger] s2[i].id_direccion
                    == #[trigger] s2[j].id_direccion implies i == j by {
                if i < medio.len() && j == medio.len() {
                    assert(antes[i].id_direccion == d.id_direccion);
                }
                if j < medio.len() && i == medio.len() {
                    assert(antes[j].id_direccion == d.id_direccion);
                }
            }
            assert forall|i: int| 0 <= i < s2.len() implies forma_valida(#[trigger] s2[i]) by {
                if i < medio.len() {
                    assert(forma_valida(medio[i]));
                }
            }
            assert forall|i: int, j: int, q: u128|
                0 <= i < s2.len() && 0 <= j < s2.len() && #[trigger] es_predeterminada_de(s2[i], q)
                    && #[trigger] es_predeterminada_de(s2[j], q) implies i == j by {
                if i < medio.len() && j < medio.len() {
                    assert(es_predeterminada_de(medio[i], q) && es_predeterminada_de(medio[j], q));
                } else if i < medio.len() {
                    assert(es_predeterminada_de(medio[i], q));
                } else if j < medio.len() {
                    assert(es_predeterminada_de(medio[j], q));
                }
            }
        }
        Ok(d)
    }

    /// Makes address `id` the single default of profile `p`: in one step the
    /// profile's current default is cleared and the target is set. Only an
    /// active address of that profile can be promoted.
    pub fn set_predeterminada(&mut self, id: u128, p: u128, t: i64) -> (r: AppResult<Direccion>)
        requires
            old(self).wf(),
        ensures
            final(self).wf(),
            r is Err ==> final(self)@ == old(self)@,
            !contiene_id(old(self)@, id) ==> r matches Err(AppError::NotFound(_)),
            forall|i: int|
                0 <= i < old(self)@.len() && #[trigger] old(self)@[i].id_direccion == id ==> {
                    &&& old(self)@[i].id_perfil != Some(p) ==> (r matches Err(AppError::Forbidden(_)))
                    &&& old(self)@[i].id_perfil == Some(p) && !old(self)@[i].activo ==> (r matches Err(
                        AppError::Conflict(_),
                    ))
                    &&& old(self)@[i].id_perfil == Some(p) && old(self)@[i].activo ==> (r matches Ok(
                        d,
                    ) && final(self)@ == promovida(old(self)@, i, p, t) && d == final(self)@[i])
                },
    {
        let i = match self.posicion(id) {
            Some(i) => i,
            None => {
                return Err(AppError::NotFound(msg("Dirección no encontrada")));
            },
        };
        let actual = self.direcciones[i].copia();
        if actual.id_perfil != Some(p) {
            return Err(AppError::Forbidden(msg("No tiene acceso a esta dirección")));
        }
        if !actual.activo {
            return Err(
                AppError::Conflict(
                    msg("No puede establecer como predeterminada una dirección inactiva"),
                ),
            );
        }
        let ghost antes = self@;
        self.limpiar_predeterminadas(p, t);
        let d = self.direcciones[i].copia();
        let nueva = Direccion { es_predeterminada: true, updated_at: t, ..d };
        self.direcciones.set(i, nueva.copia());
        proof {
            lemma_promovida(antes, i as int, p, t);
            assert(self@ =~= promovida(antes, i as int, p, t));
        }
        Ok(nueva)
    }

    /// Deactivates address `id`; an inactive address is never a default, so
    /// the flag is cleared in the same step.
    pub fn deactivate(&mut self, id: u128, t: i64) -> (r: AppResult<()>)
        requires
            old(self).wf(),
        ensures
            final(self).wf(),
            r is Err <==> !contiene_id(old(self)@, id),
            r is Err ==> final(self)@ == old(self)@ && r matches Err(AppError::NotFound(_)),
            forall|i: int|
                0 <= i < old(self)@.len() && #[trigger] old(self)@[i].id_direccion == id
                    ==> final(self)@ == old(self)@.update(
                    i,
                    Direccion { activo: false, es_predeterminada: false, updated_at: t, ..old(self)@[i] },
                ),
    {
        let i = match self.posicion(id) {
            Some(i) => i,
            None => {
                return Err(AppError::NotFound(msg("Dirección no encontrada")));
            },
        };
        let ghost antes = self@;
        let d = self.direcciones[i].copia();
        self.direcciones.set(i, Direccion { activo: false, es_predeterminada: false, updated_at: t, ..d });
        proof {
            assert forall|k: int| 0 <= k < antes.len() implies (#[trigger] self@[k]).id_direccion
                == antes[k].id_direccion && forma_valida(self@[k]) by {
                assert(forma_valida(antes[k]));
            }
            lemma_sin_nuevas_predeterminadas(antes, self@);
        }
        Ok(())
    }

    /// Reactivates address `id`; its default flag is not restored.
    pub fn activate(&mut self, id: u128, t: i64) -> (r: AppResult<Direccion>)
        requires
            old(self).wf(),
        ensures
            final(self).wf(),
            r is Err <==> !contiene_id(old(self)@, id),
            r is Err ==> final(self)@ == old(self)@ && r matches Err(AppError::NotFound(_)),
            forall|i: int|
                0 <= i < old(self)@.len() && #[trigger] old(self)@[i].id_direccion == id ==> (r matches Ok(
                    d,
                ) && d == (Direccion { activo: true, updated_at: t, ..old(self)@[i] }) && final(self)@
                    == old(self)@.update(i, d)),
    {
        let i = match self.posicion(id) {
            Some(i) => i,
            None => {
                return Err(AppError::NotFound(msg("Dirección no encontrada")));
            },
        };
        let ghost antes = self@;
        let d = self.direcciones[i].copia();
        let nueva = Direccion { activo: true, updated_at: t, ..d };
        self.direcciones.set(i, nueva.copia());
        proof {
            assert forall|k: int| 0 <= k < antes.len() implies (#[trigger] self@[k]).id_direccion
                == antes[k].id_direccion && forma_valida(self@[k]) by {
                assert(forma_valida(antes[k]));
            }
            assert forall|k: int, q: u128|
                0 <= k < antes.len() && #[trigger] es_predeterminada_de(self@[k], q)
                    implies es_predeterminada_de(antes[k], q) by {
                assert(forma_valida(antes[k]));
            }
            lemma_sin_nuevas_predeterminadas(antes, self@);
        }
        Ok(nueva)
    }

    /// Changes the given descriptive fields of address `id`.
    pub fn update(&mut self, id: u128, dto: UpdateDireccionDTO, t: i64) -> (r: AppResult<Direccion>)
        requires
            old(self).wf(),
        ensures
            final(self).wf(),
            r is Err <==> !contiene_id(old(self)@, id),
            r is Err ==> final(self)@ == old(self)@ && r matches Err(AppError::NotFound(_)),
            forall|i: int|
                0 <= i < old(self)@.len() && #[trigger] old(self)@[i].id_direccion == id ==> (r matches Ok(
                    d,
                ) && d == con_cambios(old(self)@[i], dto, t) && final(self)@ == old(self)@.update(
                    i,
                    d,
                )),
    {
        let i = match self.posicion(id) {
            Some(i) => i,
            None => {
                return Err(AppError::NotFound(msg("Dirección no encontrada")));
            },
        };
        let ghost antes = self@;
        let d = self.direcciones[i].copia();
        let nueva = Direccion {
            calle: match dto.calle {
                Some(x) => x,
                None => d.calle,
            },
            ciudad: match dto.ciudad {
                Some(x) => x,
                None => d.ciudad,
            },
            pais: match dto.pais {
                Some(x) => x,
                None => d.pais,
            },
            referencias_adicionales: match dto.referencias_adicionales {
                Some(x) => Some(x),
                None => d.referencias_adicionales,
            },
            latitud: match dto.latitud {
                Some(x) => x,
                None => d.latitud,
            },
            longitud: match dto.longitud {
                Some(x) => x,
                None => d.longitud,
            },
            updated_at: t,
            ..d
        };
        self.direcciones.set(i, nueva.copia());
        proof {
            assert forall|k: int| 0 <= k < antes.len() implies (#[trigger] self@[k]).id_direccion
                == antes[k].id_direccion && forma_valida(self@[k]) by {
                assert(forma_valida(antes[k]));
            }
            lemma_sin_nuevas_predeterminadas(antes, self@);
        }
        Ok(nueva)
    }

    /// Removes address `id` for good. Whether an order still refers to it is
    /// not checked.
    pub fn delete(&mut self, id: u128) -> (r: AppResult<()>)
        requires
            old(self).wf(),
        ensures
            final(self).wf(),
            r is Err <==> !contiene_id(old(self)@, id),
            r is Err ==> final(self)@ == old(self)@ && r matches Err(AppError::NotFound(_)),
            forall|i: int|
                0 <= i < old(self)@.len() && #[trigger] old(self)@[i].id_direccion == id
                    ==> final(self)@ == old(self)@.remove(i),
    {
        let i = match self.posicion(id) {
            Some(i) => i,
            None => {
                return Err(AppError::NotFound(msg("Dirección no encontrada")));
            },
        };
        let ghost antes = self@;
        self.direcciones.remove(i);
        proof {
            let s2 = self@;
            assert forall|a: int, b: int|
                0 <= a < s2.len() && 0 <= b < s2.len() && #[trigger] s2[a].id_direccion
                    == #[trigger] s2[b].id_direccion implies a == b by {
                let a2 = if a < i { a } else { a + 1 };
                let b2 = if b < i { b } else { b + 1 };
                assert(antes[a2].id_direccion == antes[b2].id_direccion);
            }
            assert forall|a: int| 0 <= a < s2.len() implies forma_valida(#[trigger] s2[a]) by {
                let a2 = if a < i { a } else { a + 1 };
                assert(forma_valida(antes[a2]));
            }
            assert forall|a: int, b: int, q: u128|
                0 <= a < s2.len() && 0 <= b < s2.len() && #[trigger] es_predeterminada_de(s2[a], q)
                    && #[trigger] es_predeterminada_de(s2[b], q) implies a == b by {
                let a2 = if a < i { a } else { a + 1 };
                let b2 = if b < i { b } else { b + 1 };
                assert(es_predeterminada_de(antes[a2], q) && es_predeterminada_de(antes[b2], q));
            }
        }
        Ok(())
    }
}

/// Most active addresses a profile may hold.
pub const MAX_DIRECCIONES_POR_PERFIL: usize = 10;

/// Address `id` exists and is owned by profile `p`.
pub open spec fn posee(s: Seq<Direccion>, id: u128, p: u128) -> bool {
    exists|i: int| 0 <= i < s.len() && #[trigger] s[i].id_direccion == id && s[i].id_perfil == Some(p)
}

/// The kind named in a creation request is the customer kind.
pub open spec fn tipo_cliente(t: Option<Seq<char>>) -> bool {
    match t {
        Some(x) => x == "cliente"@,
        None => true,
    }
}

/// The country of a request, Ecuador when none is given.
pub open spec fn pais_de(o: Option<String>) -> Seq<char> {
    match o {
        Some(x) => x@,
        None => "Ecuador"@,
    }
}

/// A customer address request passes the field checks.
pub open spec fn campos_validos(dto: CreateDireccionDTO) -> bool {
    &&& recortado(dto.calle@).len() > 0
    &&& recortado(dto.ciudad@).len() > 0
    &&& coordenadas_validas(dto.latitud, dto.longitud)
    &&& tipo_cliente(vista_opcion(dto.tipo))
}

/// The coordinates given in an update request are in range.
pub open spec fn coordenadas_dadas_validas(dto: UpdateDireccionDTO) -> bool {
    &&& (dto.latitud matches Some(x) ==> x.acotado_por(90))
    &&& (dto.longitud matches Some(y) ==> y.acotado_por(180))
}

/// A warehouse request passes the field checks.
pub open spec fn almacen_valido(dto: CreateAlmacenDTO) -> bool {
    &&& recortado(dto.nombre@).len() > 0
    &&& recortado(dto.calle@).len() > 0
    &&& recortado(dto.ciudad@).len() > 0
    &&& coordenadas_validas(dto.latitud, dto.longitud)
}

fn pais_o_defecto(o: Option<String>) -> (r: String)
    ensures
        r@ == pais_de(o),
{
    match o {
        Some(x) => x,
        None => "Ecuador".to_owned(),
    }
}

/// The default-address rule and the address lifecycle, over the record set
/// of customer addresses and warehouses.
pub struct DireccionService {
    repository: DireccionRepository,
}

impl View for DireccionService {
    type V = Seq<Direccion>;

    closed spec fn view(&self) -> Seq<Direccion> {
        self.repository@
    }
}

impl DireccionService {
    pub open spec fn wf(&self) -> bool {
        libreta_valida(self@)
    }

    pub fn new(repository: DireccionRepository) -> (r: DireccionService)
        requires
            repository.wf(),
        ensures
            r.wf(),
            r@ == repository@,
    {
        DireccionService { repository }
    }

    /// The active addresses of a profile.
    pub fn list_my_direcciones(&self, id_perfil: u128) -> (r: Vec<Direccion>)
        ensures
            r@ == activas_de(self@, id_perfil),
    {
        self.repository.find_by_perfil(id_perfil)
    }

    /// Every address of a profile, active or not.
    pub fn list_all_my_direcciones(&self, id_perfil: u128) -> (r: Vec<Direccion>)
        ensures
            r@ == self@.filter(|d: Direccion| d.id_perfil == Some(id_perfil)),
    {
        self.repository.find_all_by_perfil(id_perfil)
    }

    /// An address seen by a profile: its own customer addresses and any warehouse.
    pub fn get_direccion(&self, id: u128, id_perfil: u128) -> (r: AppResult<Direccion>)
        requires
            self.wf(),
        ensures
            !contiene_id(self@, id) ==> r matches Err(AppError::NotFound(_)),
            forall|i: int|
                0 <= i < self@.len() && #[trigger] self@[i].id_direccion == id ==> {
                    let d = self@[i];
                    &&& d.tipo == TipoDireccion::Cliente && d.id_perfil != Some(id_perfil) ==> (r matches Err(
                        AppError::Forbidden(_),
                    ))
                    &&& !(d.tipo == TipoDireccion::Cliente && d.id_perfil != Some(id_perfil)) ==> (r matches Ok(
                        e,
                    ) && e.id_direccion == id && self@.contains(e))
                },
    {
        let d = match self.repository.find_by_id(id) {
            Some(d) => d,
            None => {
                return Err(AppError::NotFound(msg("Dirección no encontrada")));
            },
        };
        proof {
            if self@.len() > 0 {
                assert forall|i: int| 0 <= i < self@.len() && #[trigger] self@[i].id_direccion == id
                    implies self@[i] == d by {
                    let k = choose|k: int| 0 <= k < self@.len() && self@[k] == d;
                    assert(self@[k].id_direccion == self@[i].id_direccion);
                }
            }
        }
        if d.tipo == TipoDireccion::Cliente && d.id_perfil != Some(id_perfil) {
            return Err(AppError::Forbidden(msg("No tiene acceso a esta dirección")));
        }
        Ok(d)
    }

    /// The active default address of a profile.
    pub fn get_predeterminada(&self, id_perfil: u128) -> (r: AppResult<Direccion>)
        ensures
            r is Err <==> predeterminadas(self@, id_perfil).len() == 0,
            r is Err ==> r matches Err(AppError::NotFound(_)),
            r matches Ok(d) ==> es_predeterminada_de(d, id_perfil) && self@.contains(d),
    {
        match self.repository.find_predeterminada(id_perfil) {
            Some(d) => {
                proof {
                    let k = choose|k: int| 0 <= k < self@.len() && self@[k] == d;
                    self@.lemma_filter_contains(|x: Direccion| es_predeterminada_de(x, id_perfil), k);
                }
                Ok(d)
            },
            None => {
                proof {
                    self@.lemma_all_neg_filter_empty(|x: Direccion| es_predeterminada_de(x, id_perfil));
                }
                Err(AppError::NotFound(msg("No tiene dirección predeterminada")))
            },
        }
    }

    /// The active warehouses.
    pub fn list_almacenes(&self) -> (r: Vec<Direccion>)
        ensures
            r@ == self@.filter(|d: Direccion| d.tipo == TipoDireccion::Almacen && d.activo),
    {
        self.repository.find_almacenes()
    }

    /// Every warehouse, active or not.
    pub fn list_all_almacenes(&self) -> (r: Vec<Direccion>)
        ensures
            r@ == self@.filter(|d: Direccion| d.tipo == TipoDireccion::Almacen),
    {
        self.repository.find_all_almacenes()
    }

    /// Creates a customer address for a profile. It becomes the profile's
    /// default when asked to, and always when the profile has no active
    /// address; the former default is cleared in the same step.
    pub fn create_direccion(&mut self, id_perfil: u128, dto: CreateDireccionDTO) -> (r: AppResult<
        Direccion,
    >)
        requires
            old(self).wf(),
        ensures
            final(self).wf(),
            r is Err ==> final(self)@ == old(self)@,
            activas_de(old(self)@, id_perfil).len() >= MAX_DIRECCIONES_POR_PERFIL ==> (r matches Err(
                AppError::Conflict(_),
            )),
            activas_de(old(self)@, id_perfil).len() < MAX_DIRECCIONES_POR_PERFIL && !campos_validos(
                dto,
            ) ==> (r matches Err(AppError::BadRequest(_))),
            activas_de(old(self)@, id_perfil).len() < MAX_DIRECCIONES_POR_PERFIL && campos_validos(
                dto,
            ) ==> r is Ok || (r matches Err(AppError::Database(_))),
            r matches Ok(d) ==> {
                &&& !contiene_id(old(self)@, d.id_direccion)
                &&& d.id_perfil == Some(id_perfil)
                &&& d.tipo == TipoDireccion::Cliente
                &&& d.activo
                &&& d.es_predeterminada == (dto.es_predeterminada == Some(true) || activas_de(
                    old(self)@,
                    id_perfil,
                ).len() == 0)
                &&& d.calle@ == recortado(dto.calle@)
                &&& d.ciudad@ == recortado(dto.ciudad@)
                &&& d.pais@ == pais_de(dto.pais)
                &&& d.referencias_adicionales == dto.referencias_adicionales
                &&& d.latitud == dto.latitud
                &&& d.longitud == dto.longitud
                &&& !d.es_predeterminada ==> final(self)@ == old(self)@.push(d)
                &&& d.es_predeterminada ==> final(self)@ == limpiar(
                    old(self)@,
                    id_perfil,
                    d.created_at,
                ).push(d)
            },
    {
        let count = self.repository.count_by_perfil(id_perfil);
        if count >= MAX_DIRECCIONES_POR_PERFIL {
            return Err(AppError::Conflict(msg("Límite de direcciones alcanzado")));
        }
        let calle = recortar(dto.calle.as_str());
        if calle.is_empty() {
            return Err(AppError::BadRequest(msg("La calle es requerida")));
        }
        let ciudad = recortar(dto.ciudad.as_str());
        if ciudad.is_empty() {
            return Err(AppError::BadRequest(msg("La ciudad es requerida")));
        }
        match validar_coordenadas(&dto.latitud, &dto.longitud) {
            Ok(()) => {},
            Err(e) => {
                return Err(e);
            },
        }
        let es_cliente = match &dto.tipo {
            Some(t) => mismo_texto(t.as_str(), "cliente"),
            None => true,
        };
        if !es_cliente {
            return Err(AppError::BadRequest(msg("Solo puede crear direcciones de tipo cliente")));
        }
        let pedida = match dto.es_predeterminada {
            Some(b) => b,
            None => false,
        };
        let calle = calle.to_owned();
        let ciudad = ciudad.to_owned();
        let id = nuevo_id();
        let ahora = ahora_ms();
        let d = Direccion {
            id_direccion: id,
            id_perfil: Some(id_perfil),
            tipo: TipoDireccion::Cliente,
            calle,
            ciudad,
            referencias_adicionales: dto.referencias_adicionales,
            pais: pais_o_defecto(dto.pais),
            latitud: dto.latitud,
            longitud: dto.longitud,
            es_predeterminada: pedida || count == 0,
            activo: true,
            created_at: ahora,
            updated_at: ahora,
        };
        self.repository.create(d)
    }

    /// Changes the descriptive fields of an address of the profile; given
    /// coordinates must be in range.
    pub fn update_direccion(&mut self, id: u128, id_perfil: u128, dto: UpdateDireccionDTO) -> (r:
        AppResult<Direccion>)
        requires
            old(self).wf(),
        ensures
            final(self).wf(),
            r is Err ==> final(self)@ == old(self)@,
            !posee(old(self)@, id, id_perfil) ==> (r matches Err(AppError::Forbidden(_))),
            posee(old(self)@, id, id_perfil) && !coordenadas_dadas_validas(dto) ==> (r matches Err(
                AppError::BadRequest(_),
            )),
            forall|i: int|
                0 <= i < old(self)@.len() && #[trigger] old(self)@[i].id_direccion == id
                    && old(self)@[i].id_perfil == Some(id_perfil) && coordenadas_dadas_validas(dto)
                    ==> (r matches Ok(d) && d == con_cambios(old(self)@[i], dto, d.updated_at)
                    && final(self)@ == old(self)@.update(i, d)),
    {
        if !self.repository.belongs_to_perfil(id, id_perfil) {
            return Err(AppError::Forbidden(msg("No tiene acceso a esta dirección")));
        }
        match dto.latitud {
            Some(x) => {
                if !x.dentro_de(90) {
                    return Err(AppError::BadRequest(msg("Latitud debe estar entre -90 y 90")));
                }
            },
            None => {},
        }
        match dto.longitud {
            Some(y) => {
                if !y.dentro_de(180) {
                    return Err(AppError::BadRequest(msg("Longitud debe estar entre -180 y 180")));
                }
            },
            None => {},
        }
        let ahora = ahora_ms();
        self.repository.update(id, dto, ahora)
    }

    /// Makes an active address of the profile its single default.
    pub fn set_predeterminada(&mut self, id: u128, id_perfil: u128) -> (r: AppResult<Direccion>)
        requires
            old(self).wf(),
        ensures
            final(self).wf(),
            r is Err ==> final(self)@ == old(self)@,
            !posee(old(self)@, id, id_perfil) ==> (r matches Err(AppError::Forbidden(_))),
            forall|i: int|
                0 <= i < old(self)@.len() && #[trigger] old(self)@[i].id_direccion == id
                    && old(self)@[i].id_perfil == Some(id_perfil) ==> {
                    &&& !old(self)@[i].activo ==> (r matches Err(AppError::Conflict(_)))
                    &&& old(self)@[i].activo ==> (r matches Ok(d) && final(self)@ == promovida(
                        old(self)@,
                        i,
                        id_perfil,
                        d.updated_at,
                    ) && d == final(self)@[i])
                },
    {
        if !self.repository.belongs_to_perfil(id, id_perfil) {
            return Err(AppError::Forbidden(msg("No tiene acceso a esta dirección")));
        }
        let ahora = ahora_ms();
        let r = self.repository.set_predeterminada(id, id_perfil, ahora);
        proof {
            if r is Ok {
                assert forall|i: int|
                    0 <= i < old(self)@.len() && #[trigger] old(self)@[i].id_direccion == id
                        && old(self)@[i].id_perfil == Some(id_perfil) && old(self)@[i].activo
                        implies r->Ok_0.updated_at == ahora by {
                    assert(promovida(old(self)@, i, id_perfil, ahora)[i].updated_at == ahora);
                }
            }
        }
        r
    }

    /// Deactivates an address of the profile; it stops being the default.
    pub fn deactivate_direccion(&mut self, id: u128, id_perfil: u128) -> (r: AppResult<()>)
        requires
            old(self).wf(),
        ensures
            final(self).wf(),
            r is Err <==> !posee(old(self)@, id, id_perfil),
            r is Err ==> final(self)@ == old(self)@ && r matches Err(AppError::Forbidden(_)),
            forall|i: int|
                0 <= i < old(self)@.len() && #[trigger] old(self)@[i].id_direccion == id
                    && old(self)@[i].id_perfil == Some(id_perfil) ==> final(self)@.len() == old(self)@.len() && !final(self)@[i].activo && !final(self)@[i].es_predeterminada
                    && final(self)@[i] == (Direccion {
                    activo: false,
                    es_predeterminada: false,
                    updated_at: final(self)@[i].updated_at,
                    ..old(self)@[i]
                }) && forall|k: int|
                    0 <= k < old(self)@.len() && k != i ==> final(self)@[k] == old(self)@[k],
    {
        if !self.repository.belongs_to_perfil(id, id_perfil) {
            return Err(AppError::Forbidden(msg("No tiene acceso a esta dirección")));
        }
        let ahora = ahora_ms();
        self.repository.deactivate(id, ahora)
    }

    /// Reactivates an address of the profile, without making it the default.
    pub fn activate_direccion(&mut self, id: u128, id_perfil: u128) -> (r: AppResult<Direccion>)
        requires
            old(self).wf(),
        ensures
            final(self).wf(),
            r is Err <==> !posee(old(self)@, id, id_perfil),
            r is Err ==> final(self)@ == old(self)@ && r matches Err(AppError::Forbidden(_)),
            forall|i: int|
                0 <= i < old(self)@.len() && #[trigger] old(self)@[i].id_direccion == id
                    && old(self)@[i].id_perfil == Some(id_perfil) ==> (r matches Ok(d) && d == (
                Direccion { activo: true, updated_at: d.updated_at, ..old(self)@[i] }) && final(self)@ == old(self)@.update(i, d)),
    {
        if !self.repository.belongs_to_perfil(id, id_perfil) {
            return Err(AppError::Forbidden(msg("No tiene acceso a esta dirección")));
        }
        let ahora = ahora_ms();
        self.repository.activate(id, ahora)
    }

    /// Removes an address of the profile for good; orders that refer to it
    /// are not checked.
    pub fn delete_direccion(&mut self, id: u128, id_perfil: u128) -> (r: AppResult<()>)
        requires
            old(self).wf(),
        ensures
            final(self).wf(),
            r is Err <==> !posee(old(self)@, id, id_perfil),
            r is Err ==> final(self)@ == old(self)@ && r matches Err(AppError::Forbidden(_)),
            forall|i: int|
                0 <= i < old(self)@.len() && #[trigger] old(self)@[i].id_direccion == id
                    && old(self)@[i].id_perfil == Some(id_perfil) ==> final(self)@ == old(self)@.remove(i),
    {
        if !self.repository.belongs_to_perfil(id, id_perfil) {
            return Err(AppError::Forbidden(msg("No tiene acceso a esta dirección")));
        }
        self.repository.delete(id)
    }

    /// Creates a warehouse: no owner, never a default. Its street is stored
    /// as the trimmed name, ` - `, and the trimmed street.
    pub fn create_almacen(&mut self, dto: CreateAlmacenDTO) -> (r: AppResult<Direccion>)
        requires
            old(self).wf(),
        ensures
            final(self).wf(),
            r is Err ==> final(self)@ == old(self)@,
            !almacen_valido(dto) ==> (r matches Err(AppError::BadRequest(_))),
            almacen_valido(dto) ==> r is Ok || (r matches Err(AppError::Database(_))),
            r matches Ok(d) ==> {
                &&& !contiene_id(old(self)@, d.id_direccion)
                &&& final(self)@ == old(self)@.push(d)
                &&& d.id_perfil is None
                &&& d.tipo == TipoDireccion::Almacen
                &&& d.activo
                &&& !d.es_predeterminada
                &&& d.calle@ == recortado(dto.nombre@) + " - "@ + recortado(dto.calle@)
                &&& d.ciudad@ == recortado(dto.ciudad@)
                &&& d.pais@ == pais_de(dto.pais)
                &&& d.referencias_adicionales == dto.referencias_adicionales
                &&& d.latitud == dto.latitud
                &&& d.longitud == dto.longitud
            },
    {
        let nombre = recortar(dto.nombre.as_str());
        if nombre.is_empty() {
            return Err(AppError::BadRequest(msg("El nombre del almacén es requerido")));
        }
        let calle = recortar(dto.calle.as_str());
        if calle.is_empty() {
            return Err(AppError::BadRequest(msg("La calle es requerida")));
        }
        let ciudad = recortar(dto.ciudad.as_str());
        if ciudad.is_empty() {
            return Err(AppError::BadRequest(msg("La ciudad es requerida")));
        }
        match validar_coordenadas(&dto.latitud, &dto.longitud) {
            Ok(()) => {},
            Err(e) => {
                return Err(e);
            },
        }
        let mut calle_completa = nombre.to_owned();
        calle_completa.append(" - ");
        calle_completa.append(calle);
        let ciudad = ciudad.to_owned();
        let id = nuevo_id();
        let ahora = ahora_ms();
        let d = Direccion {
            id_direccion: id,
            id_perfil: None,
            tipo: TipoDireccion::Almacen,
            calle: calle_completa,
            ciudad,
            referencias_adicionales: dto.referencias_adicionales,
            pais: pais_o_defecto(dto.pais),
            latitud: dto.latitud,
            longitud: dto.longitud,
            es_predeterminada: false,
            activo: true,
            created_at: ahora,
            updated_at: ahora,
        };
        self.repository.create(d)
    }

    /// Position of warehouse `id`: NotFound when absent, BadRequest when the
    /// address is a customer's.
    fn posicion_almacen(&self, id: u128) -> (r: AppResult<usize>)
        requires
            self.wf(),
        ensures
            !contiene_id(self@, id) ==> (r matches Err(AppError::NotFound(_))),
            r matches Ok(i) ==> i < self@.len() && self@[i as int].id_direccion == id
                && self@[i as int].tipo == TipoDireccion::Almacen,
            forall|i: int|
                0 <= i < self@.len() && #[trigger] self@[i].id_direccion == id ==> (self@[i].tipo
                    == TipoDireccion::Almacen <==> r is Ok),
            r is Err && contiene_id(self@, id) ==> (r matches Err(AppError::BadRequest(_))),
    {
        match self.repository.posicion(id) {
            Some(i) => {
                if self.repository.direcciones[i].tipo == TipoDireccion::Almacen {
                    Ok(i)
                } else {
                    proof {
                        assert forall|k: int|
                            0 <= k < self@.len() && #[trigger] self@[k].id_direccion == id
                                implies k == i by {
                            assert(self@[k].id_direccion == self@[i as int].id_direccion);
                        }
                    }
                    Err(AppError::BadRequest(msg("La dirección no es un almacén")))
                }
            },
            None => Err(AppError::NotFound(msg("Almacén no encontrado"))),
        }
    }

    /// Deactivates a warehouse.
    pub fn deactivate_almacen(&mut self, id: u128) -> (r: AppResult<()>)
        requires
            old(self).wf(),
        ensures
            final(self).wf(),
            r is Err ==> final(self)@ == old(self)@,
            !contiene_id(old(self)@, id) ==> (r matches Err(AppError::NotFound(_))),
            forall|i: int|
                0 <= i < old(self)@.len() && #[trigger] old(self)@[i].id_direccion == id ==> {
                    &&& old(self)@[i].tipo != TipoDireccion::Almacen ==> (r matches Err(
                        AppError::BadRequest(_),
                    ))
                    &&& old(self)@[i].tipo == TipoDireccion::Almacen ==> r is Ok && final(self)@.len()
                        == old(self)@.len() && !final(self)@[i].activo && final(self)@[i] == (
                    Direccion {
                        activo: false,
                        es_predeterminada: false,
                        updated_at: final(self)@[i].updated_at,
                        ..old(self)@[i]
                    }) && forall|k: int|
                        0 <= k < old(self)@.len() && k != i ==> final(self)@[k] == old(self)@[k]
                },
    {
        match self.posicion_almacen(id) {
            Ok(_) => {},
            Err(e) => {
                return Err(e);
            },
        }
        let ahora = ahora_ms();
        self.repository.deactivate(id, ahora)
    }

    /// Reactivates a warehouse.
    pub fn activate_almacen(&mut self, id: u128) -> (r: AppResult<Direccion>)
        requires
            old(self).wf(),
        ensures
            final(self).wf(),
            r is Err ==> final(self)@ == old(self)@,
            !contiene_id(old(self)@, id) ==> (r matches Err(AppError::NotFound(_))),
            forall|i: int|
                0 <= i < old(self)@.len() && #[trigger] old(self)@[i].id_direccion == id ==> {
                    &&& old(self)@[i].tipo != TipoDireccion::Almacen ==> (r matches Err(
                        AppError::BadRequest(_),
                    ))
                    &&& old(self)@[i].tipo == TipoDireccion::Almacen ==> (r matches Ok(d) && d == (
                    Direccion { activo: true, updated_at: d.updated_at, ..old(self)@[i] })
                        && final(self)@ == old(self)@.update(i, d))
                },
    {
        match self.posicion_almacen(id) {
            Ok(_) => {},
            Err(e) => {
                return Err(e);
            },
        }
        let ahora = ahora_ms();
        self.repository.activate(id, ahora)
    }

    /// Removes a warehouse for good; orders that refer to it are not checked.
    pub fn delete_almacen(&mut self, id: u128) -> (r: AppResult<()>)
        requires
            old(self).wf(),
        ensures
            final(self).wf(),
            r is Err ==> final(self)@ == old(self)@,
            !contiene_id(old(self)@, id) ==> (r matches Err(AppError::NotFound(_))),
            forall|i: int|
                0 <= i < old(self)@.len() && #[trigger] old(self)@[i].id_direccion == id ==> {
                    &&& old(self)@[i].tipo != TipoDireccion::Almacen ==> (r matches Err(
                        AppError::BadRequest(_),
                    ))
                    &&& old(self)@[i].tipo == TipoDireccion::Almacen ==> r is Ok && final(self)@
                        == old(self)@.remove(i)
                },
    {
        match self.posicion_almacen(id) {
            Ok(_) => {},
            Err(e) => {
                return Err(e);
            },
        }
        self.repository.delete(id)
    }
}

} // verus!

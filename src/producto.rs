use vstd::prelude::*;

use crate::decimal::DecimalFijo;
use crate::error::{msg, AppError, AppResult};
use crate::plataforma::{ahora_ms, nuevo_id};
use crate::texto::{
    a_minusculas, contiene_subtexto, copia_opcion, es_subtexto, minusculas, opcion_es,
    recortado, recortar, vista_opcion,
};
use crate::validacion::{sku_valido, validar_sku};

verus! {

broadcast use vstd::seq::Seq::lemma_filter_push;

/// A catalog product.
#[derive(Debug, Clone)]
pub struct Producto {
    pub id_producto: u128,
    pub nombre_producto: String,
    pub descripcion: Option<String>,
    pub precio: DecimalFijo,
    pub stock: i32,
    pub categoria: Option<String>,
    pub sku: Option<String>,
    /// Whether the product is active.
    pub estado: bool,
    pub created_at: i64,
    pub updated_at: i64,
}

impl Producto {
    /// A field-by-field copy.
    pub fn copia(&self) -> (r: Producto)
        ensures
            r == *self,
    {
        Producto {
            id_producto: self.id_producto,
            nombre_producto: self.nombre_producto.clone(),
            descripcion: copia_opcion(&self.descripcion),
            precio: self.precio,
            stock: self.stock,
            categoria: copia_opcion(&self.categoria),
            sku: copia_opcion(&self.sku),
            estado: self.estado,
            created_at: self.created_at,
            updated_at: self.updated_at,
        }
    }
}

/// Request to create a product; `stock` defaults to zero.
pub struct CreateProductoDTO {
    pub nombre_producto: String,
    pub descripcion: Option<String>,
    pub precio: DecimalFijo,
    pub stock: Option<i32>,
    pub categoria: Option<String>,
    pub sku: Option<String>,
}

/// Request to change the given fields of a product.
pub struct UpdateProductoDTO {
    pub nombre_producto: Option<String>,
    pub descripcion: Option<String>,
    pub precio: Option<DecimalFijo>,
    pub categoria: Option<String>,
    pub sku: Option<String>,
}

/// A signed stock adjustment, with an optional reason.
pub struct UpdateStockDTO {
    pub cantidad: i32,
    pub motivo: Option<String>,
}

/// Request to activate or deactivate a product.
pub struct UpdateEstadoProductoDTO {
    pub estado: bool,
}

pub open spec fn ids_unicos(s: Seq<Producto>) -> bool {
    forall|i: int, j: int|
        0 <= i < s.len() && 0 <= j < s.len() && #[trigger] s[i].id_producto
            == #[trigger] s[j].id_producto ==> i == j
}

/// No two products carry the same SKU.
pub open spec fn skus_unicos(s: Seq<Producto>) -> bool {
    forall|i: int, j: int|
        0 <= i < s.len() && 0 <= j < s.len() && i != j && (#[trigger] s[i].sku) is Some ==> vista_opcion(
            s[i].sku,
        ) != vista_opcion(#[trigger] s[j].sku)
}

/// No product has negative stock.
pub open spec fn stock_no_negativo(s: Seq<Producto>) -> bool {
    forall|i: int| 0 <= i < s.len() ==> (#[trigger] s[i]).stock >= 0
}

pub open spec fn catalogo_valido(s: Seq<Producto>) -> bool {
    &&& ids_unicos(s)
    &&& skus_unicos(s)
    &&& stock_no_negativo(s)
}

pub open spec fn contiene_id(s: Seq<Producto>, id: u128) -> bool {
    exists|i: int| 0 <= i < s.len() && #[trigger] s[i].id_producto == id
}

/// Some product other than the one at `salvo` carries SKU `k`.
pub open spec fn sku_en_uso(s: Seq<Producto>, k: Seq<char>, salvo: int) -> bool {
    exists|i: int| 0 <= i < s.len() && i != salvo && #[trigger] vista_opcion(s[i].sku) == Some(k)
}

/// The product matches a search text: active, and the lowercased text occurs
/// in its lowercased name, SKU or description.
pub open spec fn coincide(p: Producto, q: Seq<char>) -> bool {
    let m = minusculas(q);
    &&& p.estado
    &&& (es_subtexto(minusculas(p.nombre_producto@), m) || (vista_opcion(p.sku) matches Some(k)
        && es_subtexto(minusculas(k), m)) || (vista_opcion(p.descripcion) matches Some(d)
        && es_subtexto(minusculas(d), m)))
}

/// The product after a stock adjustment.
pub open spec fn con_stock(p: Producto, stock: i32, t: i64) -> Producto {
    Producto { stock, updated_at: t, ..p }
}

/// The product after its fields were changed by an update request.
pub open spec fn con_cambios(p: Producto, dto: UpdateProductoDTO, t: i64) -> Producto {
    Producto {
        nombre_producto: match dto.nombre_producto {
            Some(n) => n,
            None => p.nombre_producto,
        },
        descripcion: match dto.descripcion {
            Some(d) => Some(d),
            None => p.descripcion,
        },
        precio: match dto.precio {
            Some(x) => x,
            None => p.precio,
        },
        categoria: match dto.categoria {
            Some(c) => Some(c),
            None => p.categoria,
        },
        sku: match dto.sku {
            Some(k) => Some(k),
            None => p.sku,
        },
        updated_at: t,
        ..p
    }
}

/// The products of the catalog, kept in memory: the persistence gateway of
/// the stock ledger. Ids and SKUs are unique and no stock is negative.
pub struct ProductoRepository {
    productos: Vec<Producto>,
}

impl View for ProductoRepository {
    type V = Seq<Producto>;

    closed spec fn view(&self) -> Seq<Producto> {
        self.productos@
    }
}

impl ProductoRepository {
    pub open spec fn wf(&self) -> bool {
        catalogo_valido(self@)
    }

    pub fn new() -> (r: ProductoRepository)
        ensures
            r.wf(),
            r@ == Seq::<Producto>::empty(),
    {
        ProductoRepository { productos: Vec::new() }
    }

    /// Position of the product with id `id`.
    pub fn posicion(&self, id: u128) -> (r: Option<usize>)
        ensures
            r is None <==> !contiene_id(self@, id),
            r matches Some(i) ==> i < self@.len() && self@[i as int].id_producto == id,
    {
        let mut i: usize = 0;
        while i < self.productos.len()
            invariant
                0 <= i <= self@.len(),
                self@ == self.productos@,
                forall|j: int| 0 <= j < i ==> self@[j].id_producto != id,
            decreases self@.len() - i,
        {
            if self.productos[i].id_producto == id {
                return Some(i);
            }
            i = i + 1;
        }
        None
    }

    /// Position of the product with SKU `sku`.
    pub fn posicion_sku(&self, sku: &str) -> (r: Option<usize>)
        ensures
            r is None <==> !sku_en_uso(self@, sku@, -1),
            r matches Some(i) ==> i < self@.len() && vista_opcion(self@[i as int].sku) == Some(
                sku@,
            ),
    {
        let mut i: usize = 0;
        while i < self.productos.len()
            invariant
                0 <= i <= self@.len(),
                self@ == self.productos@,
                forall|j: int| 0 <= j < i ==> vista_opcion(#[trigger] self@[j].sku) != Some(sku@),
            decreases self@.len() - i,
        {
            if opcion_es(&self.productos[i].sku, sku) {
                return Some(i);
            }
            i = i + 1;
        }
        None
    }

    pub fn find_by_id(&self, id: u128) -> (r: Option<Producto>)
        ensures
            r is None <==> !contiene_id(self@, id),
            r matches Some(p) ==> p.id_producto == id && self@.contains(p),
    {
        match self.posicion(id) {
            Some(i) => Some(self.productos[i].copia()),
            None => None,
        }
    }

    pub fn find_by_sku(&self, sku: &str) -> (r: Option<Producto>)
        ensures
            r is None <==> !sku_en_uso(self@, sku@, -1),
            r matches Some(p) ==> vista_opcion(p.sku) == Some(sku@) && self@.contains(p),
    {
        match self.posicion_sku(sku) {
            Some(i) => Some(self.productos[i].copia()),
            None => None,
        }
    }

    /// Every product, in the order they were stored.
    pub fn find_all(&self) -> (r: Vec<Producto>)
        ensures
            r@ == self@,
    {
        let mut r: Vec<Producto> = Vec::new();
        let mut i: usize = 0;
        while i < self.productos.len()
            invariant
                0 <= i <= self@.len(),
                self@ == self.productos@,
                r@ == self@.take(i as int),
            decreases self@.len() - i,
        {
            assert(self@.take(i + 1) == self@.take(i as int).push(self@[i as int]));
            r.push(self.productos[i].copia());
            i = i + 1;
        }
        assert(self@.take(self@.len() as int) == self@);
        r
    }

    /// The active products.
    pub fn find_activos(&self) -> (r: Vec<Producto>)
        ensures
            r@ == self@.filter(|p: Producto| p.estado),
    {
        let mut r: Vec<Producto> = Vec::new();
        let mut i: usize = 0;
        while i < self.productos.len()
            invariant
                0 <= i <= self@.len(),
                self@ == self.productos@,
                r@ == self@.take(i as int).filter(|p: Producto| p.estado),
            decreases self@.len() - i,
        {
            assert(self@.take(i + 1) == self@.take(i as int).push(self@[i as int]));
            if self.productos[i].estado {
                r.push(self.productos[i].copia());
            }
            i = i + 1;
        }
        assert(self@.take(self@.len() as int) == self@);
        r
    }

    /// The products of a category.
    pub fn find_by_categoria(&self, categoria: &str) -> (r: Vec<Producto>)
        ensures
            r@ == self@.filter(|p: Producto| vista_opcion(p.categoria) == Some(categoria@)),
    {
        let mut r: Vec<Producto> = Vec::new();
        let mut i: usize = 0;
        while i < self.productos.len()
            invariant
                0 <= i <= self@.len(),
                self@ == self.productos@,
                r@ == self@.take(i as int).filter(
                    |p: Producto| vista_opcion(p.categoria) == Some(categoria@),
                ),
            decreases self@.len() - i,
        {
            assert(self@.take(i + 1) == self@.take(i as int).push(self@[i as int]));
            if opcion_es(&self.productos[i].categoria, categoria) {
                r.push(self.productos[i].copia());
            }
            i = i + 1;
        }
        assert(self@.take(self@.len() as int) == self@);
        r
    }

    /// Stores a new active product under `id`. A taken id or SKU, or a
    /// negative stock, is refused as the storage constraints refuse them.
    pub fn create(
        &mut self,
        id: u128,
        ahora: i64,
        nombre_producto: String,
        descripcion: Option<String>,
        precio: DecimalFijo,
        stock: i32,
        categoria: Option<String>,
        sku: Option<String>,
    ) -> (r: AppResult<Producto>)
        requires
            old(self).wf(),
        ensures
            final(self).wf(),
            r is Err ==> final(self)@ == old(self)@ && r matches Err(AppError::Database(_)),
            r is Err <==> contiene_id(old(self)@, id) || stock < 0 || (vista_opcion(sku) matches Some(
                k,
            ) && sku_en_uso(old(self)@, k, -1)),
            r matches Ok(p) ==> final(self)@ == old(self)@.push(p) && p == (Producto {
                id_producto: id,
                nombre_producto,
                descripcion,
                precio,
                stock,
                categoria,
                sku,
                estado: true,
                created_at: ahora,
                updated_at: ahora,
            }),
    {
        if self.posicion(id).is_some() {
            return Err(AppError::Database(msg("Clave duplicada")));
        }
        if stock < 0 {
            return Err(AppError::Database(msg("Stock negativo")));
        }
        let libre = match &sku {
            Some(k) => self.posicion_sku(k.as_str()).is_none(),
            None => true,
        };
        if !libre {
            return Err(AppError::Database(msg("SKU duplicado")));
        }
        let p = Producto {
            id_producto: id,
            nombre_producto,
            descripcion,
            precio,
            stock,
            categoria,
            sku,
            estado: true,
            created_at: ahora,
            updated_at: ahora,
        };
        let ghost antes = self@;
        self.productos.push(p.copia());
        assert forall|i: int, j: int|
            0 <= i < self@.len() && 0 <= j < self@.len() && #[trigger] self@[i].id_producto
                == #[trigger] self@[j].id_producto implies i == j by {
            if i < antes.len() && j == antes.len() {
                assert(antes[i].id_producto == id);
            }
            if j < antes.len() && i == antes.len() {
                assert(antes[j].id_producto == id);
            }
        }
        assert forall|i: int, j: int|
            0 <= i < self@.len() && 0 <= j < self@.len() && i != j && (#[trigger] self@[i].sku) is Some
                implies vista_opcion(self@[i].sku) != vista_opcion(#[trigger] self@[j].sku) by {
            if i < antes.len() && j == antes.len() {
                assert(vista_opcion(antes[i].sku) != vista_opcion(p.sku));
            }
            if j < antes.len() && i == antes.len() {
                assert(vista_opcion(antes[j].sku) != vista_opcion(p.sku));
            }
        }
        Ok(p)
    }

    /// The atomic check-and-write of the stock ledger: adds `cantidad` to the
    /// stock of product `id` unless the result would be negative.
    pub fn update_stock(&mut self, id: u128, cantidad: i32, ahora: i64) -> (r: AppResult<Producto>)
        requires
            old(self).wf(),
        ensures
            final(self).wf(),
            r is Err ==> final(self)@ == old(self)@,
            !contiene_id(old(self)@, id) ==> r matches Err(AppError::NotFound(_)),
            forall|i: int|
                0 <= i < old(self)@.len() && #[trigger] old(self)@[i].id_producto == id ==> {
                    let nuevo = old(self)@[i].stock + cantidad;
                    &&& nuevo < 0 ==> (r matches Err(AppError::Conflict(_)))
                    &&& nuevo > i32::MAX ==> (r matches Err(AppError::Database(_)))
                    &&& 0 <= nuevo <= i32::MAX ==> (r matches Ok(p) && p == con_stock(
                        old(self)@[i],
                        nuevo as i32,
                        ahora,
                    ) && final(self)@ == old(self)@.update(i, p))
                },
    {
        let i = match self.posicion(id) {
            Some(i) => i,
            None => {
                return Err(AppError::NotFound(msg("Producto no encontrado")));
            },
        };
        let actual = self.productos[i].copia();
        let nuevo: i64 = actual.stock as i64 + cantidad as i64;
        if nuevo < 0 {
            return Err(AppError::Conflict(msg("Stock insuficiente")));
        }
        if nuevo > i32::MAX as i64 {
            return Err(AppError::Database(msg("Stock fuera de rango")));
        }
        let p = Producto { stock: nuevo as i32, updated_at: ahora, ..actual };
        let ghost antes = self@;
        self.productos.set(i, p.copia());
        assert forall|a: int, b: int|
            0 <= a < self@.len() && 0 <= b < self@.len() && a != b && (#[trigger] self@[a].sku) is Some
                implies vista_opcion(self@[a].sku) != vista_opcion(#[trigger] self@[b].sku) by {
            assert(antes[a].sku is Some);
        }
        Ok(p)
    }

    /// Activates or deactivates product `id`.
    pub fn update_estado(&mut self, id: u128, estado: bool, ahora: i64) -> (r: AppResult<Producto>)
        requires
            old(self).wf(),
        ensures
            final(self).wf(),
            r is Err <==> !contiene_id(old(self)@, id),
            r is Err ==> final(self)@ == old(self)@ && r matches Err(AppError::NotFound(_)),
            forall|i: int|
                0 <= i < old(self)@.len() && #[trigger] old(self)@[i].id_producto == id ==> (r matches Ok(
                    p,
                ) && p == (Producto { estado, updated_at: ahora, ..old(self)@[i] }) && final(self)@
                    == old(self)@.update(i, p)),
    {
        let i = match self.posicion(id) {
            Some(i) => i,
            None => {
                return Err(AppError::NotFound(msg("Producto no encontrado")));
            },
        };
        let actual = self.productos[i].copia();
        let p = Producto { estado, updated_at: ahora, ..actual };
        let ghost antes = self@;
        self.productos.set(i, p.copia());
        assert forall|a: int, b: int|
            0 <= a < self@.len() && 0 <= b < self@.len() && a != b && (#[trigger] self@[a].sku) is Some
                implies vista_opcion(self@[a].sku) != vista_opcion(#[trigger] self@[b].sku) by {
            assert(antes[a].sku is Some);
        }
        Ok(p)
    }

    /// Changes the given fields of product `id`; a SKU carried by another
    /// product is refused as the uniqueness constraint refuses it.
    pub fn update(&mut self, id: u128, dto: UpdateProductoDTO, ahora: i64) -> (r: AppResult<Producto>)
        requires
            old(self).wf(),
        ensures
            final(self).wf(),
            r is Err ==> final(self)@ == old(self)@,
            !contiene_id(old(self)@, id) ==> r matches Err(AppError::NotFound(_)),
            forall|i: int|
                0 <= i < old(self)@.len() && #[trigger] old(self)@[i].id_producto == id ==> {
                    &&& (vista_opcion(dto.sku) matches Some(k) && sku_en_uso(old(self)@, k, i))
                        ==> (r matches Err(AppError::Database(_)))
                    &&& !(vista_opcion(dto.sku) matches Some(k) && sku_en_uso(old(self)@, k, i))
                        ==> (r matches Ok(p) && p == con_cambios(old(self)@[i], dto, ahora)
                        && final(self)@ == old(self)@.update(i, p))
                },
    {
        let i = match self.posicion(id) {
            Some(i) => i,
            None => {
                return Err(AppError::NotFound(msg("Producto no encontrado")));
            },
        };
        let ghost antes = self@;
        match &dto.sku {
            Some(k) => {
                match self.posicion_sku(k.as_str()) {
                    Some(j) => {
                        if j != i {
                            return Err(AppError::Database(msg("SKU duplicado")));
                        }
                        proof {
                            assert forall|m: int|
                                0 <= m < antes.len() && m != i && #[trigger] vista_opcion(
                                    antes[m].sku,
                                ) == Some(k@) implies false by {
                                assert(antes[m].sku is Some);
                            }
                        }
                    },
                    None => {},
                }
            },
            None => {},
        }
        let actual = self.productos[i].copia();
        let p = Producto {
            nombre_producto: match dto.nombre_producto {
                Some(n) => n,
                None => actual.nombre_producto,
            },
            descripcion: match dto.descripcion {
                Some(d) => Some(d),
                None => actual.descripcion,
            },
            precio: match dto.precio {
                Some(x) => x,
                None => actual.precio,
            },
            categoria: match dto.categoria {
                Some(c) => Some(c),
                None => actual.categoria,
            },
            sku: match dto.sku {
                Some(k) => Some(k),
                None => actual.sku,
            },
            updated_at: ahora,
            ..actual
        };
        self.productos.set(i, p.copia());
        assert forall|a: int, b: int|
            0 <= a < self@.len() && 0 <= b < self@.len() && a != b && (#[trigger] self@[a].sku) is Some
                implies vista_opcion(self@[a].sku) != vista_opcion(#[trigger] self@[b].sku) by {
            if a != i && b != i {
                assert(antes[a].sku is Some);
            } else if a == i {
                assert(vista_opcion(self@[b].sku) == vista_opcion(antes[b].sku));
                if vista_opcion(antes[b].sku) == vista_opcion(self@[a].sku) {
                    if vista_opcion(dto.sku) is Some {
                        assert(sku_en_uso(antes, vista_opcion(dto.sku)->0, i as int));
                    } else {
                        assert(antes[a].sku is Some);
                    }
                }
            } else {
                assert(vista_opcion(self@[a].sku) == vista_opcion(antes[a].sku));
                if vista_opcion(antes[a].sku) == vista_opcion(self@[b].sku) {
                    if vista_opcion(dto.sku) is Some {
                        assert(sku_en_uso(antes, vista_opcion(dto.sku)->0, i as int));
                    } else {
                        assert(antes[a].sku is Some);
                    }
                }
            }
        }
        Ok(p)
    }

    /// Removes product `id` for good.
    pub fn delete(&mut self, id: u128) -> (r: AppResult<()>)
        requires
            old(self).wf(),
        ensures
            final(self).wf(),
            r is Err <==> !contiene_id(old(self)@, id),
            r is Err ==> final(self)@ == old(self)@ && r matches Err(AppError::NotFound(_)),
            forall|i: int|
                0 <= i < old(self)@.len() && #[trigger] old(self)@[i].id_producto == id
                    ==> final(self)@ == old(self)@.remove(i),
    {
        let i = match self.posicion(id) {
            Some(i) => i,
            None => {
                return Err(AppError::NotFound(msg("Producto no encontrado")));
            },
        };
        let ghost antes = self@;
        self.productos.remove(i);
        assert forall|a: int, b: int|
            0 <= a < self@.len() && 0 <= b < self@.len() && #[trigger] self@[a].id_producto
                == #[trigger] self@[b].id_producto implies a == b by {
            let a2 = if a < i { a } else { a + 1 };
            let b2 = if b < i { b } else { b + 1 };
            assert(antes[a2].id_producto == antes[b2].id_producto);
        }
        assert forall|a: int, b: int|
            0 <= a < self@.len() && 0 <= b < self@.len() && a != b && (#[trigger] self@[a].sku) is Some
                implies vista_opcion(self@[a].sku) != vista_opcion(#[trigger] self@[b].sku) by {
            let a2 = if a < i { a } else { a + 1 };
            let b2 = if b < i { b } else { b + 1 };
            assert(antes[a2].sku is Some);
            assert(vista_opcion(antes[a2].sku) != vista_opcion(antes[b2].sku));
        }
        assert forall|a: int| 0 <= a < self@.len() implies (#[trigger] self@[a]).stock >= 0 by {
            let a2 = if a < i { a } else { a + 1 };
            assert(antes[a2].stock >= 0);
        }
        Ok(())
    }

    /// Whether a product matches a search text.
    fn coincide_con(p: &Producto, q: &str) -> (r: bool)
        ensures
            r == coincide(*p, q@),
    {
        if !p.estado {
            return false;
        }
        let m = a_minusculas(q);
        let nombre = a_minusculas(p.nombre_producto.as_str());
        if contiene_subtexto(nombre.as_str(), m.as_str()) {
            return true;
        }
        let en_sku = match &p.sku {
            Some(k) => {
                let k2 = a_minusculas(k.as_str());
                contiene_subtexto(k2.as_str(), m.as_str())
            },
            None => false,
        };
        if en_sku {
            return true;
        }
        match &p.descripcion {
            Some(d) => {
                let d2 = a_minusculas(d.as_str());
                contiene_subtexto(d2.as_str(), m.as_str())
            },
            None => false,
        }
    }

    /// The active products whose name, SKU or description contains `q`,
    /// ignoring case, in the order they were stored.
    pub fn search(&self, q: &str) -> (r: Vec<Producto>)
        ensures
            r@ == self@.filter(|p: Producto| coincide(p, q@)),
    {
        let mut r: Vec<Producto> = Vec::new();
        let mut i: usize = 0;
        while i < self.productos.len()
            invariant
                0 <= i <= self@.len(),
                self@ == self.productos@,
                r@ == self@.take(i as int).filter(|p: Producto| coincide(p, q@)),
            decreases self@.len() - i,
        {
            assert(self@.take(i + 1) == self@.take(i as int).push(self@[i as int]));
            if Self::coincide_con(&self.productos[i], q) {
                r.push(self.productos[i].copia());
            }
            i = i + 1;
        }
        assert(self@.take(self@.len() as int) == self@);
        r
    }
}

/// The initial stock of a creation request.
pub open spec fn stock_inicial(dto: CreateProductoDTO) -> int {
    match dto.stock {
        Some(x) => x as int,
        None => 0,
    }
}

/// A requested SKU passes the checks: empty, or well formed and carried by
/// no product other than the one at `salvo`.
pub open spec fn sku_aceptable(s: Seq<Producto>, o: Option<Seq<char>>, salvo: int) -> bool {
    match o {
        Some(k) => k.len() == 0 || (!sku_en_uso(s, k, salvo) && sku_valido(k)),
        None => true,
    }
}

/// A creation request passes validation against the catalog `s`.
pub open spec fn alta_valida(s: Seq<Producto>, dto: CreateProductoDTO) -> bool {
    &&& recortado(dto.nombre_producto@).len() > 0
    &&& dto.precio.es_positivo()
    &&& stock_inicial(dto) >= 0
    &&& sku_aceptable(s, vista_opcion(dto.sku), -1)
}

/// An update request passes validation for the product at `i` of `s`.
pub open spec fn cambio_valido(s: Seq<Producto>, i: int, dto: UpdateProductoDTO) -> bool {
    &&& (dto.precio matches Some(x) ==> x.es_positivo())
    &&& sku_aceptable(s, vista_opcion(dto.sku), i)
}

/// Checks a requested SKU: empty, or well formed and not carried by another product.
fn revisar_sku(repo: &ProductoRepository, sku: &Option<String>, salvo: Option<usize>) -> (r: AppResult<()>)
    requires
        repo.wf(),
        salvo matches Some(i) ==> i < repo@.len(),
    ensures
        r is Ok <==> sku_aceptable(
            repo@,
            vista_opcion(*sku),
            match salvo {
                Some(i) => i as int,
                None => -1,
            },
        ),
        r is Err ==> r matches Err(AppError::BadRequest(_)),
{
    let ghost s: int = match salvo {
        Some(i) => i as int,
        None => -1,
    };
    match sku {
        Some(k) => {
            if k.as_str().is_empty() {
                return Ok(());
            }
            match repo.posicion_sku(k.as_str()) {
                Some(j) => {
                    let otro = match salvo {
                        Some(i) => j != i,
                        None => true,
                    };
                    if otro {
                        assert(sku_en_uso(repo@, k@, s));
                        return Err(AppError::BadRequest(msg("Ya existe un producto con ese SKU")));
                    }
                    assert forall|m: int|
                        0 <= m < repo@.len() && m != s implies #[trigger] vista_opcion(
                            repo@[m].sku,
                        ) != Some(k@) by {
                        if vista_opcion(repo@[m].sku) == Some(k@) {
                            assert(repo@[j as int].sku is Some);
                        }
                    }
                },
                None => {},
            }
            if !validar_sku(k.as_str()) {
                return Err(
                    AppError::BadRequest(
                        msg("El SKU solo puede contener letras, números y guiones"),
                    ),
                );
            }
            Ok(())
        },
        None => Ok(()),
    }
}

/// The text of a product search.
pub struct SearchQuery {
    pub q: String,
}

/// The category of a product listing.
pub struct CategoriaQuery {
    pub categoria: String,
}

/// Catalog rules over the product record set: validated creation and
/// updates, and the stock ledger.
pub struct ProductoService {
    repository: ProductoRepository,
}

impl View for ProductoService {
    type V = Seq<Producto>;

    closed spec fn view(&self) -> Seq<Producto> {
        self.repository@
    }
}

impl ProductoService {
    pub open spec fn wf(&self) -> bool {
        catalogo_valido(self@)
    }

    pub fn new(repository: ProductoRepository) -> (r: ProductoService)
        requires
            repository.wf(),
        ensures
            r.wf(),
            r@ == repository@,
    {
        ProductoService { repository }
    }

    /// The active products.
    pub fn list_productos(&self) -> (r: Vec<Producto>)
        ensures
            r@ == self@.filter(|p: Producto| p.estado),
    {
        self.repository.find_activos()
    }

    /// Every product, active or not.
    pub fn list_all_productos(&self) -> (r: Vec<Producto>)
        ensures
            r@ == self@,
    {
        self.repository.find_all()
    }

    pub fn get_producto(&self, id: u128) -> (r: AppResult<Producto>)
        ensures
            r is Err <==> !contiene_id(self@, id),
            r is Err ==> r matches Err(AppError::NotFound(_)),
            r matches Ok(p) ==> p.id_producto == id && self@.contains(p),
    {
        match self.repository.find_by_id(id) {
            Some(p) => Ok(p),
            None => Err(AppError::NotFound(msg("Producto no encontrado"))),
        }
    }

    pub fn get_producto_by_sku(&self, sku: &str) -> (r: AppResult<Producto>)
        ensures
            r is Err <==> !sku_en_uso(self@, sku@, -1),
            r is Err ==> r matches Err(AppError::NotFound(_)),
            r matches Ok(p) ==> vista_opcion(p.sku) == Some(sku@) && self@.contains(p),
    {
        match self.repository.find_by_sku(sku) {
            Some(p) => Ok(p),
            None => Err(AppError::NotFound(msg("Producto no encontrado"))),
        }
    }

    /// The products of a category.
    pub fn get_by_categoria(&self, categoria: &str) -> (r: Vec<Producto>)
        ensures
            r@ == self@.filter(|p: Producto| vista_opcion(p.categoria) == Some(categoria@)),
    {
        self.repository.find_by_categoria(categoria)
    }

    /// The active products matching a search text; a blank text is refused.
    pub fn search_productos(&self, query: &str) -> (r: AppResult<Vec<Producto>>)
        ensures
            r is Err <==> recortado(query@).len() == 0,
            r is Err ==> r matches Err(AppError::BadRequest(_)),
            r matches Ok(v) ==> v@ == self@.filter(|p: Producto| coincide(p, query@)),
    {
        if recortar(query).is_empty() {
            return Err(AppError::BadRequest(msg("El término de búsqueda no puede estar vacío")));
        }
        Ok(self.repository.search(query))
    }

    /// Creates an active product from a validated request. The name is
    /// stored trimmed; the id is drawn at random.
    pub fn create_producto(&mut self, dto: CreateProductoDTO) -> (r: AppResult<Producto>)
        requires
            old(self).wf(),
        ensures
            final(self).wf(),
            r is Err ==> final(self)@ == old(self)@,
            !alta_valida(old(self)@, dto) ==> r matches Err(AppError::BadRequest(_)),
            alta_valida(old(self)@, dto) ==> r is Ok || r matches Err(AppError::Database(_)),
            r matches Ok(p) ==> {
                &&& final(self)@ == old(self)@.push(p)
                &&& !contiene_id(old(self)@, p.id_producto)
                &&& p.nombre_producto@ == recortado(dto.nombre_producto@)
                &&& p.descripcion == dto.descripcion
                &&& p.precio == dto.precio
                &&& p.stock == stock_inicial(dto)
                &&& p.categoria == dto.categoria
                &&& p.sku == dto.sku
                &&& p.estado
            },
    {
        let nombre = recortar(dto.nombre_producto.as_str());
        if nombre.is_empty() {
            return Err(AppError::BadRequest(msg("El nombre del producto es requerido")));
        }
        if !dto.precio.positivo() {
            return Err(AppError::BadRequest(msg("El precio debe ser mayor a 0")));
        }
        let stock = match dto.stock {
            Some(x) => x,
            None => 0,
        };
        if stock < 0 {
            return Err(AppError::BadRequest(msg("El stock no puede ser negativo")));
        }
        match revisar_sku(&self.repository, &dto.sku, None) {
            Ok(()) => {},
            Err(e) => {
                return Err(e);
            },
        }
        let nombre = nombre.to_owned();
        let id = nuevo_id();
        let ahora = ahora_ms();
        self.repository.create(
            id,
            ahora,
            nombre,
            dto.descripcion,
            dto.precio,
            stock,
            dto.categoria,
            dto.sku,
        )
    }

    /// Changes the given fields of a product after validating them.
    pub fn update_producto(&mut self, id: u128, dto: UpdateProductoDTO) -> (r: AppResult<Producto>)
        requires
            old(self).wf(),
        ensures
            final(self).wf(),
            r is Err ==> final(self)@ == old(self)@,
            !contiene_id(old(self)@, id) ==> r matches Err(AppError::NotFound(_)),
            forall|i: int|
                0 <= i < old(self)@.len() && #[trigger] old(self)@[i].id_producto == id ==> {
                    &&& !cambio_valido(old(self)@, i, dto) ==> (r matches Err(AppError::BadRequest(_)))
                    &&& cambio_valido(old(self)@, i, dto) && (vista_opcion(dto.sku) matches Some(k)
                        && sku_en_uso(old(self)@, k, i)) ==> (r matches Err(AppError::Database(_)))
                    &&& cambio_valido(old(self)@, i, dto) && !(vista_opcion(dto.sku) matches Some(k)
                        && sku_en_uso(old(self)@, k, i)) ==> (r matches Ok(p) && p == con_cambios(
                        old(self)@[i],
                        dto,
                        p.updated_at,
                    ) && final(self)@ == old(self)@.update(i, p))
                },
    {
        let i = match self.repository.posicion(id) {
            Some(i) => i,
            None => {
                return Err(AppError::NotFound(msg("Producto no encontrado")));
            },
        };
        match dto.precio {
            Some(x) => {
                if !x.positivo() {
                    return Err(AppError::BadRequest(msg("El precio debe ser mayor a 0")));
                }
            },
            None => {},
        }
        match revisar_sku(&self.repository, &dto.sku, Some(i)) {
            Ok(()) => {},
            Err(e) => {
                return Err(e);
            },
        }
        let ahora = ahora_ms();
        self.repository.update(id, dto, ahora)
    }

    /// Applies a signed stock adjustment, atomically: a result below zero is
    /// refused and leaves the stock as it was.
    pub fn update_stock(&mut self, id: u128, dto: UpdateStockDTO) -> (r: AppResult<Producto>)
        requires
            old(self).wf(),
        ensures
            final(self).wf(),
            r is Err ==> final(self)@ == old(self)@,
            !contiene_id(old(self)@, id) ==> r matches Err(AppError::NotFound(_)),
            forall|i: int|
                0 <= i < old(self)@.len() && #[trigger] old(self)@[i].id_producto == id ==> {
                    let nuevo = old(self)@[i].stock + dto.cantidad;
                    &&& nuevo < 0 ==> (r matches Err(AppError::Conflict(_)))
                    &&& nuevo > i32::MAX ==> (r matches Err(AppError::Database(_)))
                    &&& 0 <= nuevo <= i32::MAX ==> (r matches Ok(p) && p == con_stock(
                        old(self)@[i],
                        nuevo as i32,
                        p.updated_at,
                    ) && final(self)@ == old(self)@.update(i, p))
                },
    {
        let ahora = ahora_ms();
        self.repository.update_stock(id, dto.cantidad, ahora)
    }

    /// Activates or deactivates a product; its stock is untouched.
    pub fn update_estado(&mut self, id: u128, dto: UpdateEstadoProductoDTO) -> (r: AppResult<Producto>)
        requires
            old(self).wf(),
        ensures
            final(self).wf(),
            r is Err <==> !contiene_id(old(self)@, id),
            r is Err ==> final(self)@ == old(self)@ && r matches Err(AppError::NotFound(_)),
            forall|i: int|
                0 <= i < old(self)@.len() && #[trigger] old(self)@[i].id_producto == id ==> (r matches Ok(
                    p,
                ) && p == (Producto { estado: dto.estado, updated_at: p.updated_at, ..old(self)@[i] })
                    && final(self)@ == old(self)@.update(i, p)),
    {
        let ahora = ahora_ms();
        self.repository.update_estado(id, dto.estado, ahora)
    }

    /// Removes a product for good.
    pub fn delete_producto(&mut self, id: u128) -> (r: AppResult<()>)
        requires
            old(self).wf(),
        ensures
            final(self).wf(),
            r is Err <==> !contiene_id(old(self)@, id),
            r is Err ==> final(self)@ == old(self)@ && r matches Err(AppError::NotFound(_)),
            forall|i: int|
                0 <= i < old(self)@.len() && #[trigger] old(self)@[i].id_producto == id
                    ==> final(self)@ == old(self)@.remove(i),
    {
        self.repository.delete(id)
    }
}

} // verus!

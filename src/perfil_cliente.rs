use vstd::prelude::*;

use crate::error::{msg, AppError, AppResult};
use crate::plataforma::{ahora_ms, nuevo_id};
use crate::texto::{copia_opcion, opcion_es, vista_opcion};
use crate::validacion::{documento_valido, telefono_valido, validar_documento, validar_telefono};

verus! {

/// The customer data of a user.
#[derive(Debug, Clone)]
pub struct PerfilCliente {
    pub id_perfil: u128,
    pub id_usuario: u128,
    pub documento_identidad: Option<String>,
    pub telefono: Option<String>,
    pub created_at: i64,
    pub updated_at: i64,
}

impl PerfilCliente {
    /// A field-by-field copy.
    pub fn copia(&self) -> (r: PerfilCliente)
        ensures
            r == *self,
    {
        PerfilCliente {
            id_perfil: self.id_perfil,
            id_usuario: self.id_usuario,
            documento_identidad: copia_opcion(&self.documento_identidad),
            telefono: copia_opcion(&self.telefono),
            created_at: self.created_at,
            updated_at: self.updated_at,
        }
    }
}

/// Request to create the profile of the calling user.
pub struct CreatePerfilClienteDTO {
    pub documento_identidad: Option<String>,
    pub telefono: Option<String>,
}

/// Request to change the given fields of a profile.
pub struct UpdatePerfilClienteDTO {
    pub documento_identidad: Option<String>,
    pub telefono: Option<String>,
}

/// Ids are unique, each user has at most one profile and no two profiles
/// carry the same identity document.
pub open spec fn perfiles_validos(s: Seq<PerfilCliente>) -> bool {
    &&& forall|i: int, j: int|
        0 <= i < s.len() && 0 <= j < s.len() && #[trigger] s[i].id_perfil == #[trigger] s[j].id_perfil
            ==> i == j
    &&& forall|i: int, j: int|
        0 <= i < s.len() && 0 <= j < s.len() && #[trigger] s[i].id_usuario
            == #[trigger] s[j].id_usuario ==> i == j
    &&& forall|i: int, j: int|
        0 <= i < s.len() && 0 <= j < s.len() && i != j && (#[trigger] s[i].documento_identidad) is Some
            ==> vista_opcion(s[i].documento_identidad) != vista_opcion(
            #[trigger] s[j].documento_identidad,
        )
}

pub open spec fn contiene_id(s: Seq<PerfilCliente>, id: u128) -> bool {
    exists|i: int| 0 <= i < s.len() && #[trigger] s[i].id_perfil == id
}

pub open spec fn tiene_perfil(s: Seq<PerfilCliente>, usuario: u128) -> bool {
    exists|i: int| 0 <= i < s.len() && #[trigger] s[i].id_usuario == usuario
}

/// A profile other than the one at `salvo` carries document `d`.
pub open spec fn documento_en_uso(s: Seq<PerfilCliente>, d: Seq<char>, salvo: int) -> bool {
    exists|i: int|
        0 <= i < s.len() && i != salvo && #[trigger] vista_opcion(s[i].documento_identidad) == Some(d)
}

/// A requested document and phone pass the checks: an empty value is
/// accepted as given, a document must be free and 5 to 20 characters long,
/// and a phone must be well formed.
pub open spec fn datos_validos(
    s: Seq<PerfilCliente>,
    documento: Option<Seq<char>>,
    telefono: Option<Seq<char>>,
    salvo: int,
) -> bool {
    &&& match documento {
        Some(d) => d.len() > 0 ==> !documento_en_uso(s, d, salvo) && documento_valido(d),
        None => true,
    }
    &&& match telefono {
        Some(t) => t.len() > 0 ==> telefono_valido(t),
        None => true,
    }
}

/// The profile after an update request changed its fields.
pub open spec fn con_cambios(p: PerfilCliente, dto: UpdatePerfilClienteDTO, t: i64) -> PerfilCliente {
    PerfilCliente {
        documento_identidad: match dto.documento_identidad {
            Some(d) => Some(d),
            None => p.documento_identidad,
        },
        telefono: match dto.telefono {
            Some(x) => Some(x),
            None => p.telefono,
        },
        updated_at: t,
        ..p
    }
}

/// Customer profiles, kept in memory.
pub struct PerfilClienteRepository {
    perfiles: Vec<PerfilCliente>,
}

impl View for PerfilClienteRepository {
    type V = Seq<PerfilCliente>;

    closed spec fn view(&self) -> Seq<PerfilCliente> {
        self.perfiles@
    }
}

impl PerfilClienteRepository {
    pub open spec fn wf(&self) -> bool {
        perfiles_validos(self@)
    }

    pub fn new() -> (r: PerfilClienteRepository)
        ensures
            r.wf(),
            r@ == Seq::<PerfilCliente>::empty(),
    {
        PerfilClienteRepository { perfiles: Vec::new() }
    }

    pub fn posicion(&self, id: u128) -> (r: Option<usize>)
        ensures
            r is None <==> !contiene_id(self@, id),
            r matches Some(i) ==> i < self@.len() && self@[i as int].id_perfil == id,
    {
        let mut i: usize = 0;
        while i < self.perfiles.len()
            invariant
                0 <= i <= self@.len(),
                self@ == self.perfiles@,
                forall|j: int| 0 <= j < i ==> self@[j].id_perfil != id,
            decreases self@.len() - i,
        {
            if self.perfiles[i].id_perfil == id {
                return Some(i);
            }
            i = i + 1;
        }
        None
    }

    pub fn posicion_usuario(&self, usuario: u128) -> (r: Option<usize>)
        ensures
            r is None <==> !tiene_perfil(self@, usuario),
            r matches Some(i) ==> i < self@.len() && self@[i as int].id_usuario == usuario,
    {
        let mut i: usize = 0;
        while i < self.perfiles.len()
            invariant
                0 <= i <= self@.len(),
                self@ == self.perfiles@,
                forall|j: int| 0 <= j < i ==> self@[j].id_usuario != usuario,
            decreases self@.len() - i,
        {
            if self.perfiles[i].id_usuario == usuario {
                return Some(i);
            }
            i = i + 1;
        }
        None
    }

    pub fn posicion_documento(&self, documento: &str) -> (r: Option<usize>)
        ensures
            r is None <==> !documento_en_uso(self@, documento@, -1),
            r matches Some(i) ==> i < self@.len() && vista_opcion(
                self@[i as int].documento_identidad,
            ) == Some(documento@),
    {
        let mut i: usize = 0;
        while i < self.perfiles.len()
            invariant
                0 <= i <= self@.len(),
                self@ == self.perfiles@,
                forall|j: int|
                    0 <= j < i ==> vista_opcion(#[trigger] self@[j].documento_identidad) != Some(
                        documento@,
                    ),
            decreases self@.len() - i,
        {
            if opcion_es(&self.perfiles[i].documento_identidad, documento) {
                return Some(i);
            }
            i = i + 1;
        }
        None
    }

    /// Every profile, in the order they were stored.
    pub fn find_all(&self) -> (r: Vec<PerfilCliente>)
        ensures
            r@ == self@,
    {
        let mut r: Vec<PerfilCliente> = Vec::new();
        let mut i: usize = 0;
        while i < self.perfiles.len()
            invariant
                0 <= i <= self@.len(),
                self@ == self.perfiles@,
                r@ == self@.take(i as int),
            decreases self@.len() - i,
        {
            assert(self@.take(i + 1) == self@.take(i as int).push(self@[i as int]));
            r.push(self.perfiles[i].copia());
            i = i + 1;
        }
        assert(self@.take(self@.len() as int) == self@);
        r
    }

    /// Stores a new profile; a taken id, a user that already has a profile
    /// or a document already carried is refused as the storage constraints
    /// refuse them.
    pub fn create(&mut self, p: PerfilCliente) -> (r: AppResult<PerfilCliente>)
        requires
            old(self).wf(),
        ensures
            final(self).wf(),
            r is Err <==> contiene_id(old(self)@, p.id_perfil) || tiene_perfil(old(self)@, p.id_usuario)
                || (vista_opcion(p.documento_identidad) matches Some(d) && documento_en_uso(
                old(self)@,
                d,
                -1,
            )),
            r is Err ==> final(self)@ == old(self)@ && r matches Err(AppError::Database(_)),
            r is Ok ==> r == Ok::<PerfilCliente, AppError>(p) && final(self)@ == old(self)@.push(p),
    {
        if self.posicion(p.id_perfil).is_some() || self.posicion_usuario(p.id_usuario).is_some() {
            return Err(AppError::Database(msg("Clave duplicada")));
        }
        let libre = match &p.documento_identidad {
            Some(d) => self.posicion_documento(d.as_str()).is_none(),
            None => true,
        };
        if !libre {
            return Err(AppError::Database(msg("Documento duplicado")));
        }
        let ghost antes = self@;
        self.perfiles.push(p.copia());
        proof {
            let s2 = self@;
            assert forall|i: int, j: int|
                0 <= i < s2.len() && 0 <= j < s2.len() && #[trigger] s2[i].id_perfil
                    == #[trigger] s2[j].id_perfil implies i == j by {
                if i < antes.len() && j == antes.len() {
                    assert(antes[i].id_perfil == p.id_perfil);
                }
                if j < antes.len() && i == antes.len() {
                    assert(antes[j].id_perfil == p.id_perfil);
                }
            }
            assert forall|i: int, j: int|
                0 <= i < s2.len() && 0 <= j < s2.len() && #[trigger] s2[i].id_usuario
                    == #[trigger] s2[j].id_usuario implies i == j by {
                if i < antes.len() && j == antes.len() {
                    assert(antes[i].id_usuario == p.id_usuario);
                }
                if j < antes.len() && i == antes.len() {
                    assert(antes[j].id_usuario == p.id_usuario);
                }
            }
            assert forall|i: int, j: int|
                0 <= i < s2.len() && 0 <= j < s2.len() && i != j
                    && (#[trigger] s2[i].documento_identidad) is Some implies vista_opcion(
                s2[i].documento_identidad,
            ) != vista_opcion(#[trigger] s2[j].documento_identidad) by {
                if i < antes.len() && j == antes.len() {
                    assert(vista_opcion(antes[i].documento_identidad) != vista_opcion(
                        p.documento_identidad,
                    ));
                }
                if j < antes.len() && i == antes.len() {
                    assert(vista_opcion(antes[j].documento_identidad) != vista_opcion(
                        p.documento_identidad,
                    ));
                }
            }
        }
        Ok(p)
    }

    /// Changes the given fields of the profile at `i`; a document carried by
    /// another profile is refused as the uniqueness constraint refuses it.
    fn update_en(&mut self, i: usize, dto: UpdatePerfilClienteDTO, t: i64) -> (r: AppResult<
        PerfilCliente,
    >)
        requires
            old(self).wf(),
            i < old(self)@.len(),
        ensures
            final(self).wf(),
            r is Err ==> final(self)@ == old(self)@,
            (vista_opcion(dto.documento_identidad) matches Some(d) && documento_en_uso(
                old(self)@,
                d,
                i as int,
            )) ==> (r matches Err(AppError::Database(_))),
            !(vista_opcion(dto.documento_identidad) matches Some(d) && documento_en_uso(
                old(self)@,
                d,
                i as int,
            )) ==> (r matches Ok(p) && p == con_cambios(old(self)@[i as int], dto, t)
                && final(self)@ == old(self)@.update(i as int, p)),
    {
        let ghost antes = self@;
        match &dto.documento_identidad {
            Some(d) => {
                match self.posicion_documento(d.as_str()) {
                    Some(j) => {
                        if j != i {
                            return Err(AppError::Database(msg("Documento duplicado")));
                        }
                        assert forall|m: int|
                            0 <= m < antes.len() && m != i implies #[trigger] vista_opcion(
                                antes[m].documento_identidad,
                            ) != Some(d@) by {
                            if vista_opcion(antes[m].documento_identidad) == Some(d@) {
                                assert(antes[m].documento_identidad is Some);
                            }
                        }
                    },
                    None => {},
                }
            },
            None => {},
        }
        let actual = self.perfiles[i].copia();
        let p = PerfilCliente {
            documento_identidad: match dto.documento_identidad {
                Some(d) => Some(d),
                None => actual.documento_identidad,
            },
            telefono: match dto.telefono {
                Some(x) => Some(x),
                None => actual.telefono,
            },
            updated_at: t,
            ..actual
        };
        self.perfiles.set(i, p.copia());
        proof {
            let s2 = self@;
            assert forall|a: int, b: int|
                0 <= a < s2.len() && 0 <= b < s2.len() && a != b
                    && (#[trigger] s2[a].documento_identidad) is Some implies vista_opcion(
                s2[a].documento_identidad,
            ) != vista_opcion(#[trigger] s2[b].documento_identidad) by {
                if a != i && b != i {
                    assert(antes[a].documento_identidad is Some);
                } else if a == i {
                    if vista_opcion(dto.documento_identidad) is Some {
                        assert(!documento_en_uso(antes, vista_opcion(dto.documento_identidad)->0, i as int));
                        assert(vista_opcion(antes[b].documento_identidad) != vista_opcion(dto.documento_identidad));
                    } else {
                        assert(antes[a].documento_identidad is Some);
                    }
                } else {
                    if vista_opcion(dto.documento_identidad) is Some {
                        assert(!documento_en_uso(antes, vista_opcion(dto.documento_identidad)->0, i as int));
                        if antes[a].documento_identidad is Some {
                            assert(vista_opcion(antes[a].documento_identidad) != vista_opcion(dto.documento_identidad));
                        }
                    } else {
                        if antes[a].documento_identidad is Some {
                            assert(vista_opcion(antes[a].documento_identidad) != vista_opcion(antes[b].documento_identidad));
                        }
                    }
                }
            }
        }
        Ok(p)
    }

    /// Removes the profile at `i`.
    fn delete_en(&mut self, i: usize)
        requires
            old(self).wf(),
            i < old(self)@.len(),
        ensures
            final(self).wf(),
            final(self)@ == old(self)@.remove(i as int),
    {
        let ghost antes = self@;
        self.perfiles.remove(i);
        proof {
            let s2 = self@;
            assert forall|a: int, b: int|
                0 <= a < s2.len() && 0 <= b < s2.len() && #[trigger] s2[a].id_perfil
                    == #[trigger] s2[b].id_perfil implies a == b by {
                let a2 = if a < i { a } else { a + 1 };
                let b2 = if b < i { b } else { b + 1 };
                assert(antes[a2].id_perfil == antes[b2].id_perfil);
            }
            assert forall|a: int, b: int|
                0 <= a < s2.len() && 0 <= b < s2.len() && #[trigger] s2[a].id_usuario
                    == #[trigger] s2[b].id_usuario implies a == b by {
                let a2 = if a < i { a } else { a + 1 };
                let b2 = if b < i { b } else { b + 1 };
                assert(antes[a2].id_usuario == antes[b2].id_usuario);
            }
            assert forall|a: int, b: int|
                0 <= a < s2.len() && 0 <= b < s2.len() && a != b
                    && (#[trigger] s2[a].documento_identidad) is Some implies vista_opcion(
                s2[a].documento_identidad,
            ) != vista_opcion(#[trigger] s2[b].documento_identidad) by {
                let a2 = if a < i { a } else { a + 1 };
                let b2 = if b < i { b } else { b + 1 };
                assert(antes[a2].documento_identidad is Some);
            }
        }
    }
}

/// Checks a requested document and phone against the profiles.
fn revisar_datos(
    repo: &PerfilClienteRepository,
    documento: &Option<String>,
    telefono: &Option<String>,
    salvo: Option<usize>,
) -> (r: AppResult<()>)
    requires
        repo.wf(),
        salvo matches Some(i) ==> i < repo@.len(),
    ensures
        r is Ok <==> datos_validos(
            repo@,
            vista_opcion(*documento),
            vista_opcion(*telefono),
            match salvo {
                Some(i) => i as int,
                None => -1,
            },
        ),
        r is Err ==> r matches Err(AppError::BadRequest(_)),
{
    let ghost s: int = match salvo {
        Some(i) => i as int,
        None => -1,
    };
    match documento {
        Some(d) => {
            if !d.as_str().is_empty() {
                match repo.posicion_documento(d.as_str()) {
                    Some(j) => {
                        let otro = match salvo {
                            Some(i) => j != i,
                            None => true,
                        };
                        if otro {
                            assert(documento_en_uso(repo@, d@, s));
                            return Err(
                                AppError::BadRequest(
                                    msg("El documento de identidad ya está registrado"),
                                ),
                            );
                        }
                        assert forall|m: int|
                            0 <= m < repo@.len() && m != s implies #[trigger] vista_opcion(
                                repo@[m].documento_identidad,
                            ) != Some(d@) by {
                            if vista_opcion(repo@[m].documento_identidad) == Some(d@) {
                                assert(repo@[j as int].documento_identidad is Some);
                            }
                        }
                    },
                    None => {},
                }
                if !validar_documento(d.as_str()) {
                    return Err(
                        AppError::BadRequest(
                            msg("El documento de identidad debe tener entre 5 y 20 caracteres"),
                        ),
                    );
                }
            }
        },
        None => {},
    }
    match telefono {
        Some(t) => {
            if !t.as_str().is_empty() && !validar_telefono(t.as_str()) {
                return Err(
                    AppError::BadRequest(
                        msg("Formato de teléfono inválido. Use formato internacional (+593...)"),
                    ),
                );
            }
        },
        None => {},
    }
    Ok(())
}

/// Checks that a requested non-empty document is carried by no profile but
/// the one at `i`.
fn documento_libre(repo: &PerfilClienteRepository, documento: &Option<String>, i: usize) -> (r:
    AppResult<()>)
    requires
        repo.wf(),
        i < repo@.len(),
    ensures
        r is Err <==> (vista_opcion(*documento) matches Some(d) && d.len() > 0 && documento_en_uso(
            repo@,
            d,
            i as int,
        )),
        r is Err ==> r matches Err(AppError::BadRequest(_)),
{
    match documento {
        Some(d) => {
            if d.as_str().is_empty() {
                return Ok(());
            }
            match repo.posicion_documento(d.as_str()) {
                Some(j) => {
                    if j != i {
                        assert(documento_en_uso(repo@, d@, i as int));
                        return Err(
                            AppError::BadRequest(msg("El documento de identidad ya está registrado")),
                        );
                    }
                    assert forall|m: int|
                        0 <= m < repo@.len() && m != i implies #[trigger] vista_opcion(
                            repo@[m].documento_identidad,
                        ) != Some(d@) by {
                        if vista_opcion(repo@[m].documento_identidad) == Some(d@) {
                            assert(repo@[j as int].documento_identidad is Some);
                        }
                    }
                    Ok(())
                },
                None => Ok(()),
            }
        },
        None => Ok(()),
    }
}

/// Customer profile rules: one profile per user, unique identity
/// documents, and format checks on documents and phones.
pub struct PerfilClienteService {
    repository: PerfilClienteRepository,
}

impl View for PerfilClienteService {
    type V = Seq<PerfilCliente>;

    closed spec fn view(&self) -> Seq<PerfilCliente> {
        self.repository@
    }
}

impl PerfilClienteService {
    pub open spec fn wf(&self) -> bool {
        perfiles_validos(self@)
    }

    pub fn new(repository: PerfilClienteRepository) -> (r: PerfilClienteService)
        requires
            repository.wf(),
        ensures
            r.wf(),
            r@ == repository@,
    {
        PerfilClienteService { repository }
    }

    /// The profile of a user.
    pub fn get_my_perfil(&self, user_id: u128) -> (r: AppResult<PerfilCliente>)
        ensures
            r is Err <==> !tiene_perfil(self@, user_id),
            r is Err ==> r matches Err(AppError::NotFound(_)),
            r matches Ok(p) ==> p.id_usuario == user_id && self@.contains(p),
    {
        match self.repository.posicion_usuario(user_id) {
            Some(i) => Ok(self.repository.perfiles[i].copia()),
            None => Err(AppError::NotFound(msg("Perfil no encontrado. Debe crear uno primero."))),
        }
    }

    pub fn get_perfil_by_id(&self, id: u128) -> (r: AppResult<PerfilCliente>)
        ensures
            r is Err <==> !contiene_id(self@, id),
            r is Err ==> r matches Err(AppError::NotFound(_)),
            r matches Ok(p) ==> p.id_perfil == id && self@.contains(p),
    {
        match self.repository.posicion(id) {
            Some(i) => Ok(self.repository.perfiles[i].copia()),
            None => Err(AppError::NotFound(msg("Perfil no encontrado"))),
        }
    }

    /// Every profile.
    pub fn list_perfiles(&self) -> (r: Vec<PerfilCliente>)
        ensures
            r@ == self@,
    {
        self.repository.find_all()
    }

    /// Creates the profile of a user that has none.
    pub fn create_perfil(&mut self, user_id: u128, dto: CreatePerfilClienteDTO) -> (r: AppResult<
        PerfilCliente,
    >)
        requires
            old(self).wf(),
        ensures
            final(self).wf(),
            r is Err ==> final(self)@ == old(self)@,
            tiene_perfil(old(self)@, user_id) ==> (r matches Err(AppError::BadRequest(_))),
            !tiene_perfil(old(self)@, user_id) && !datos_validos(
                old(self)@,
                vista_opcion(dto.documento_identidad),
                vista_opcion(dto.telefono),
                -1,
            ) ==> (r matches Err(AppError::BadRequest(_))),
            !tiene_perfil(old(self)@, user_id) && datos_validos(
                old(self)@,
                vista_opcion(dto.documento_identidad),
                vista_opcion(dto.telefono),
                -1,
            ) ==> r is Ok || (r matches Err(AppError::Database(_))),
            r matches Ok(p) ==> final(self)@ == old(self)@.push(p) && p.id_usuario == user_id
                && p.documento_identidad == dto.documento_identidad && p.telefono == dto.telefono,
    {
        if self.repository.posicion_usuario(user_id).is_some() {
            return Err(AppError::BadRequest(msg("Ya existe un perfil para este usuario")));
        }
        match revisar_datos(&self.repository, &dto.documento_identidad, &dto.telefono, None) {
            Ok(()) => {},
            Err(e) => {
                return Err(e);
            },
        }
        let ahora = ahora_ms();
        let p = PerfilCliente {
            id_perfil: nuevo_id(),
            id_usuario: user_id,
            documento_identidad: dto.documento_identidad,
            telefono: dto.telefono,
            created_at: ahora,
            updated_at: ahora,
        };
        self.repository.create(p)
    }

    /// Changes the document or phone of a user's profile, with the checks.
    pub fn update_my_perfil(&mut self, user_id: u128, dto: UpdatePerfilClienteDTO) -> (r: AppResult<
        PerfilCliente,
    >)
        requires
            old(self).wf(),
        ensures
            final(self).wf(),
            r is Err ==> final(self)@ == old(self)@,
            !tiene_perfil(old(self)@, user_id) ==> (r matches Err(AppError::NotFound(_))),
            forall|i: int|
                0 <= i < old(self)@.len() && #[trigger] old(self)@[i].id_usuario == user_id ==> {
                    let s = old(self)@;
                    let doc = vista_opcion(dto.documento_identidad);
                    &&& !datos_validos(s, doc, vista_opcion(dto.telefono), i) ==> (r matches Err(
                        AppError::BadRequest(_),
                    ))
                    &&& datos_validos(s, doc, vista_opcion(dto.telefono), i) && (doc matches Some(d)
                        && documento_en_uso(s, d, i)) ==> (r matches Err(AppError::Database(_)))
                    &&& datos_validos(s, doc, vista_opcion(dto.telefono), i) && !(doc matches Some(d)
                        && documento_en_uso(s, d, i)) ==> (r matches Ok(p) && p == con_cambios(
                        s[i],
                        dto,
                        p.updated_at,
                    ) && final(self)@ == s.update(i, p))
                },
    {
        let i = match self.repository.posicion_usuario(user_id) {
            Some(i) => i,
            None => {
                return Err(AppError::NotFound(msg("Perfil no encontrado")));
            },
        };
        match revisar_datos(&self.repository, &dto.documento_identidad, &dto.telefono, Some(i)) {
            Ok(()) => {},
            Err(e) => {
                return Err(e);
            },
        }
        let ahora = ahora_ms();
        self.repository.update_en(i, dto, ahora)
    }

    /// Changes the document or phone of any profile; only the document's
    /// uniqueness is checked.
    pub fn update_perfil_by_id(&mut self, id: u128, dto: UpdatePerfilClienteDTO) -> (r: AppResult<
        PerfilCliente,
    >)
        requires
            old(self).wf(),
        ensures
            final(self).wf(),
            r is Err ==> final(self)@ == old(self)@,
            !contiene_id(old(self)@, id) ==> (r matches Err(AppError::NotFound(_))),
            forall|i: int|
                0 <= i < old(self)@.len() && #[trigger] old(self)@[i].id_perfil == id ==> {
                    let s = old(self)@;
                    let doc = vista_opcion(dto.documento_identidad);
                    &&& (doc matches Some(d) && d.len() > 0 && documento_en_uso(s, d, i)) ==> (r matches Err(
                        AppError::BadRequest(_),
                    ))
                    &&& (doc matches Some(d) && d.len() == 0 && documento_en_uso(s, d, i)) ==> (r matches Err(
                        AppError::Database(_),
                    ))
                    &&& !(doc matches Some(d) && documento_en_uso(s, d, i)) ==> (r matches Ok(p) && p
                        == con_cambios(s[i], dto, p.updated_at) && final(self)@ == s.update(i, p))
                },
    {
        let i = match self.repository.posicion(id) {
            Some(i) => i,
            None => {
                return Err(AppError::NotFound(msg("Perfil no encontrado")));
            },
        };
        match documento_libre(&self.repository, &dto.documento_identidad, i) {
            Ok(()) => {},
            Err(e) => {
                return Err(e);
            },
        }
        let ahora = ahora_ms();
        self.repository.update_en(i, dto, ahora)
    }

    /// The profile of a user is removed.
    pub fn delete_my_perfil(&mut self, user_id: u128) -> (r: AppResult<()>)
        requires
            old(self).wf(),
        ensures
            final(self).wf(),
            r is Err <==> !tiene_perfil(old(self)@, user_id),
            r is Err ==> final(self)@ == old(self)@ && r matches Err(AppError::NotFound(_)),
            forall|i: int|
                0 <= i < old(self)@.len() && #[trigger] old(self)@[i].id_usuario == user_id
                    ==> final(self)@ == old(self)@.remove(i),
    {
        match self.repository.posicion_usuario(user_id) {
            Some(i) => {
                self.repository.delete_en(i);
                Ok(())
            },
            None => Err(AppError::NotFound(msg("Perfil no encontrado"))),
        }
    }

    /// Any profile is removed.
    pub fn delete_perfil_by_id(&mut self, id: u128) -> (r: AppResult<()>)
        requires
            old(self).wf(),
        ensures
            final(self).wf(),
            r is Err <==> !contiene_id(old(self)@, id),
            r is Err ==> final(self)@ == old(self)@ && r matches Err(AppError::NotFound(_)),
            forall|i: int|
                0 <= i < old(self)@.len() && #[trigger] old(self)@[i].id_perfil == id
                    ==> final(self)@ == old(self)@.remove(i),
    {
        match self.repository.posicion(id) {
            Some(i) => {
                self.repository.delete_en(i);
                Ok(())
            },
            None => Err(AppError::NotFound(msg("Perfil no encontrado"))),
        }
    }
}

} // verus!

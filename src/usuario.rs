use vstd::prelude::*;

use crate::error::{msg, AppError, AppResult};
use crate::plataforma::{ahora_ms, nuevo_id};
use crate::texto::{copia_opcion, opcion_es, vista_opcion};

verus! {

broadcast use vstd::seq::Seq::lemma_filter_push;

/// A user account.
#[derive(Debug, Clone)]
pub struct User {
    pub id: u128,
    pub email: Option<String>,
    pub nombre: Option<String>,
    pub apellido: Option<String>,
    pub rol: String,
    pub foto_perfil: Option<String>,
    pub activo: bool,
    pub created_at: i64,
    pub updated_at: i64,
}

impl User {
    /// A field-by-field copy.
    pub fn copia(&self) -> (r: User)
        ensures
            r == *self,
    {
        User {
            id: self.id,
            email: copia_opcion(&self.email),
            nombre: copia_opcion(&self.nombre),
            apellido: copia_opcion(&self.apellido),
            rol: self.rol.clone(),
            foto_perfil: copia_opcion(&self.foto_perfil),
            activo: self.activo,
            created_at: self.created_at,
            updated_at: self.updated_at,
        }
    }
}

/// The role given to a user created without one.
pub fn default_role() -> (r: String)
    ensures
        r@ == "cliente"@,
{
    "cliente".to_owned()
}

/// Request to create a user.
pub struct CreateUserDTO {
    pub email: String,
    pub nombre: Option<String>,
    pub apellido: Option<String>,
    pub rol: String,
}

/// Request to change the given fields of a user.
pub struct UpdateUserDTO {
    pub email: Option<String>,
    pub nombre: Option<String>,
    pub apellido: Option<String>,
    pub rol: Option<String>,
    pub foto_perfil: Option<String>,
}

/// Request to change the role of a user.
pub struct UpdateUserRoleDTO {
    pub rol: String,
}

/// Request to activate or suspend a user.
pub struct UpdateUserStatusDTO {
    pub activo: bool,
}

/// A page of users with the number of active users.
pub struct UsersListResponseDTO {
    pub total: i64,
    pub users: Vec<User>,
}

pub open spec fn ids_unicos(s: Seq<User>) -> bool {
    forall|i: int, j: int|
        0 <= i < s.len() && 0 <= j < s.len() && #[trigger] s[i].id == #[trigger] s[j].id ==> i == j
}

pub open spec fn contiene_id(s: Seq<User>, id: u128) -> bool {
    exists|i: int| 0 <= i < s.len() && #[trigger] s[i].id == id
}

pub open spec fn usa_email(s: Seq<User>, email: Seq<char>) -> bool {
    exists|i: int| 0 <= i < s.len() && #[trigger] vista_opcion(s[i].email) == Some(email)
}

pub open spec fn activos(s: Seq<User>) -> Seq<User> {
    s.filter(|u: User| u.activo)
}

/// The user after an update request changed its fields.
pub open spec fn con_cambios(u: User, dto: UpdateUserDTO, t: i64) -> User {
    User {
        email: match dto.email {
            Some(x) => Some(x),
            None => u.email,
        },
        nombre: match dto.nombre {
            Some(x) => Some(x),
            None => u.nombre,
        },
        apellido: match dto.apellido {
            Some(x) => Some(x),
            None => u.apellido,
        },
        rol: match dto.rol {
            Some(x) => x,
            None => u.rol,
        },
        foto_perfil: match dto.foto_perfil {
            Some(x) => Some(x),
            None => u.foto_perfil,
        },
        updated_at: t,
        ..u
    }
}

/// User accounts, kept in memory.
pub struct UserRepository {
    users: Vec<User>,
}

impl View for UserRepository {
    type V = Seq<User>;

    closed spec fn view(&self) -> Seq<User> {
        self.users@
    }
}

impl UserRepository {
    pub open spec fn wf(&self) -> bool {
        ids_unicos(self@)
    }

    pub fn new() -> (r: UserRepository)
        ensures
            r.wf(),
            r@ == Seq::<User>::empty(),
    {
        UserRepository { users: Vec::new() }
    }

    pub fn posicion(&self, id: u128) -> (r: Option<usize>)
        ensures
            r is None <==> !contiene_id(self@, id),
            r matches Some(i) ==> i < self@.len() && self@[i as int].id == id,
    {
        let mut i: usize = 0;
        while i < self.users.len()
            invariant
                0 <= i <= self@.len(),
                self@ == self.users@,
                forall|j: int| 0 <= j < i ==> self@[j].id != id,
            decreases self@.len() - i,
        {
            if self.users[i].id == id {
                return Some(i);
            }
            i = i + 1;
        }
        None
    }

    /// The first user with e-mail `email`.
    pub fn find_by_email(&self, email: &str) -> (r: Option<User>)
        ensures
            r is None <==> !usa_email(self@, email@),
            r matches Some(u) ==> vista_opcion(u.email) == Some(email@) && self@.contains(u),
    {
        let mut i: usize = 0;
        while i < self.users.len()
            invariant
                0 <= i <= self@.len(),
                self@ == self.users@,
                forall|j: int| 0 <= j < i ==> vista_opcion(#[trigger] self@[j].email) != Some(email@),
            decreases self@.len() - i,
        {
            if opcion_es(&self.users[i].email, email) {
                return Some(self.users[i].copia());
            }
            i = i + 1;
        }
        None
    }

    /// The active users, in the order they were stored.
    pub fn find_all(&self) -> (r: Vec<User>)
        ensures
            r@ == activos(self@),
    {
        let mut r: Vec<User> = Vec::new();
        let mut i: usize = 0;
        while i < self.users.len()
            invariant
                0 <= i <= self@.len(),
                self@ == self.users@,
                r@ == self@.take(i as int).filter(|u: User| u.activo),
            decreases self@.len() - i,
        {
            assert(self@.take(i + 1) == self@.take(i as int).push(self@[i as int]));
            if self.users[i].activo {
                r.push(self.users[i].copia());
            }
            i = i + 1;
        }
        assert(self@.take(self@.len() as int) == self@);
        r
    }

    /// Stores a new user; a taken id is refused.
    pub fn create(&mut self, u: User) -> (r: AppResult<User>)
        requires
            old(self).wf(),
        ensures
            final(self).wf(),
            r is Err <==> contiene_id(old(self)@, u.id),
            r is Err ==> final(self)@ == old(self)@ && r matches Err(AppError::Database(_)),
            r is Ok ==> r == Ok::<User, AppError>(u) && final(self)@ == old(self)@.push(u),
    {
        if self.posicion(u.id).is_some() {
            return Err(AppError::Database(msg("Clave duplicada")));
        }
        let ghost antes = self@;
        self.users.push(u.copia());
        assert forall|i: int, j: int|
            0 <= i < self@.len() && 0 <= j < self@.len() && #[trigger] self@[i].id == #[trigger] self@[j].id
                implies i == j by {
            if i < antes.len() && j == antes.len() {
                assert(antes[i].id == u.id);
            }
            if j < antes.len() && i == antes.len() {
                assert(antes[j].id == u.id);
            }
        }
        Ok(u)
    }

    /// Replaces the user at `i`, keeping its id.
    fn reemplazar(&mut self, i: usize, u: User)
        requires
            old(self).wf(),
            i < old(self)@.len(),
            u.id == old(self)@[i as int].id,
        ensures
            final(self).wf(),
            final(self)@ == old(self)@.update(i as int, u),
    {
        self.users.set(i, u);
    }
}

/// User account rules over the user record set.
pub struct UserService {
    repository: UserRepository,
}

impl View for UserService {
    type V = Seq<User>;

    closed spec fn view(&self) -> Seq<User> {
        self.repository@
    }
}

impl UserService {
    pub open spec fn wf(&self) -> bool {
        ids_unicos(self@)
    }

    pub fn new(repository: UserRepository) -> (r: UserService)
        requires
            repository.wf(),
        ensures
            r.wf(),
            r@ == repository@,
    {
        UserService { repository }
    }

    pub fn get_user(&self, id: u128) -> (r: AppResult<User>)
        ensures
            r is Err <==> !contiene_id(self@, id),
            r is Err ==> r matches Err(AppError::NotFound(_)),
            r matches Ok(u) ==> u.id == id && self@.contains(u),
    {
        match self.repository.posicion(id) {
            Some(i) => Ok(self.repository.users[i].copia()),
            None => Err(AppError::NotFound(msg("Usuario no encontrado"))),
        }
    }

    pub fn get_user_by_email(&self, email: &str) -> (r: AppResult<Option<User>>)
        ensures
            r matches Ok(o) && (o is None <==> !usa_email(self@, email@)),
            r matches Ok(Some(u)) ==> vista_opcion(u.email) == Some(email@) && self@.contains(u),
    {
        Ok(self.repository.find_by_email(email))
    }

    /// The active users and their number.
    pub fn list_users(&self) -> (r: AppResult<UsersListResponseDTO>)
        ensures
            r is Err <==> activos(self@).len() > i64::MAX,
            r is Err ==> r matches Err(AppError::Internal(_)),
            r matches Ok(l) ==> l.users@ == activos(self@) && l.total == activos(self@).len(),
    {
        let users = self.repository.find_all();
        let n = users.len();
        if n as u64 > i64::MAX as u64 {
            return Err(AppError::Internal(msg("Error al listar usuarios")));
        }
        Ok(UsersListResponseDTO { total: n as i64, users })
    }

    /// A page of the active users: at most `limit` of them, after skipping
    /// `offset`; negative bounds are refused as the query refuses them.
    pub fn list_users_paginated(&self, limit: i64, offset: i64) -> (r: AppResult<UsersListResponseDTO>)
        ensures
            r is Err <==> limit < 0 || offset < 0 || activos(self@).len() > i64::MAX,
            r is Err ==> r matches Err(AppError::Internal(_)),
            r matches Ok(l) ==> {
                let a = activos(self@);
                let desde = if offset < a.len() { offset as int } else { a.len() as int };
                let hasta = if offset + limit < a.len() { offset + limit } else { a.len() as int };
                &&& l.total == a.len()
                &&& l.users@ == a.subrange(desde, hasta)
            },
    {
        if limit < 0 || offset < 0 {
            return Err(AppError::Internal(msg("Error al listar usuarios")));
        }
        let todos = self.repository.find_all();
        let n = todos.len();
        if n as u64 > i64::MAX as u64 {
            return Err(AppError::Internal(msg("Error al listar usuarios")));
        }
        let desde: usize = if (offset as u64) < (n as u64) {
            offset as usize
        } else {
            n
        };
        let fin: u64 = offset as u64 + limit as u64;
        let hasta: usize = if fin < n as u64 {
            fin as usize
        } else {
            n
        };
        let mut users: Vec<User> = Vec::new();
        let mut i: usize = desde;
        while i < hasta
            invariant
                desde <= i <= hasta <= n,
                n == todos@.len(),
                users@ == todos@.subrange(desde as int, i as int),
            decreases hasta - i,
        {
            users.push(todos[i].copia());
            assert(todos@.subrange(desde as int, i + 1) == todos@.subrange(desde as int, i as int).push(todos@[i as int]));
            i = i + 1;
        }
        Ok(UsersListResponseDTO { total: n as i64, users })
    }

    /// Creates an active user, unless the e-mail is already registered.
    pub fn create_user(&mut self, dto: CreateUserDTO) -> (r: AppResult<User>)
        requires
            old(self).wf(),
        ensures
            final(self).wf(),
            r is Err ==> final(self)@ == old(self)@,
            usa_email(old(self)@, dto.email@) ==> (r matches Err(AppError::BadRequest(_))),
            !usa_email(old(self)@, dto.email@) ==> r is Ok || (r matches Err(AppError::Internal(_))),
            r matches Ok(u) ==> final(self)@ == old(self)@.push(u) && u.email == Some(dto.email)
                && u.nombre == dto.nombre && u.apellido == dto.apellido && u.rol == dto.rol
                && u.foto_perfil is None && u.activo,
    {
        if self.repository.find_by_email(dto.email.as_str()).is_some() {
            return Err(AppError::BadRequest(msg("Usuario ya existe")));
        }
        let ahora = ahora_ms();
        let u = User {
            id: nuevo_id(),
            email: Some(dto.email),
            nombre: dto.nombre,
            apellido: dto.apellido,
            rol: dto.rol,
            foto_perfil: None,
            activo: true,
            created_at: ahora,
            updated_at: ahora,
        };
        match self.repository.create(u) {
            Ok(u) => Ok(u),
            Err(_) => Err(AppError::Internal(msg("Error al crear usuario"))),
        }
    }

    /// Changes the given fields of a user.
    pub fn update_user(&mut self, id: u128, dto: UpdateUserDTO) -> (r: AppResult<User>)
        requires
            old(self).wf(),
        ensures
            final(self).wf(),
            r is Err <==> !contiene_id(old(self)@, id),
            r is Err ==> final(self)@ == old(self)@ && r matches Err(AppError::NotFound(_)),
            forall|i: int|
                0 <= i < old(self)@.len() && #[trigger] old(self)@[i].id == id ==> (r matches Ok(u) && u
                    == con_cambios(old(self)@[i], dto, u.updated_at) && final(self)@ == old(self)@.update(
                    i,
                    u,
                )),
    {
        let i = match self.repository.posicion(id) {
            Some(i) => i,
            None => {
                return Err(AppError::NotFound(msg("Usuario no encontrado")));
            },
        };
        let actual = self.repository.users[i].copia();
        let ahora = ahora_ms();
        let u = User {
            email: match dto.email {
                Some(x) => Some(x),
                None => actual.email,
            },
            nombre: match dto.nombre {
                Some(x) => Some(x),
                None => actual.nombre,
            },
            apellido: match dto.apellido {
                Some(x) => Some(x),
                None => actual.apellido,
            },
            rol: match dto.rol {
                Some(x) => x,
                None => actual.rol,
            },
            foto_perfil: match dto.foto_perfil {
                Some(x) => Some(x),
                None => actual.foto_perfil,
            },
            updated_at: ahora,
            ..actual
        };
        self.repository.reemplazar(i, u.copia());
        Ok(u)
    }

    /// Changes the role of a user; an unknown user is reported as a failure
    /// of the update.
    pub fn update_user_role(&mut self, id: u128, dto: UpdateUserRoleDTO) -> (r: AppResult<User>)
        requires
            old(self).wf(),
        ensures
            final(self).wf(),
            r is Err <==> !contiene_id(old(self)@, id),
            r is Err ==> final(self)@ == old(self)@ && r matches Err(AppError::Internal(_)),
            forall|i: int|
                0 <= i < old(self)@.len() && #[trigger] old(self)@[i].id == id ==> (r matches Ok(u) && u
                    == (User { rol: dto.rol, updated_at: u.updated_at, ..old(self)@[i] }) && final(self)@
                    == old(self)@.update(i, u)),
    {
        let i = match self.repository.posicion(id) {
            Some(i) => i,
            None => {
                return Err(AppError::Internal(msg("Error al actualizar rol")));
            },
        };
        let actual = self.repository.users[i].copia();
        let u = User { rol: dto.rol, updated_at: ahora_ms(), ..actual };
        self.repository.reemplazar(i, u.copia());
        Ok(u)
    }

    /// Activates or suspends a user; an unknown user is reported as a
    /// failure of the update.
    pub fn update_user_status(&mut self, id: u128, dto: UpdateUserStatusDTO) -> (r: AppResult<User>)
        requires
            old(self).wf(),
        ensures
            final(self).wf(),
            r is Err <==> !contiene_id(old(self)@, id),
            r is Err ==> final(self)@ == old(self)@ && r matches Err(AppError::Internal(_)),
            forall|i: int|
                0 <= i < old(self)@.len() && #[trigger] old(self)@[i].id == id ==> (r matches Ok(u) && u
                    == (User { activo: dto.activo, updated_at: u.updated_at, ..old(self)@[i] })
                    && final(self)@ == old(self)@.update(i, u)),
    {
        let i = match self.repository.posicion(id) {
            Some(i) => i,
            None => {
                return Err(AppError::Internal(msg("Error al actualizar estado")));
            },
        };
        let actual = self.repository.users[i].copia();
        let u = User { activo: dto.activo, updated_at: ahora_ms(), ..actual };
        self.repository.reemplazar(i, u.copia());
        Ok(u)
    }

    /// Suspends a user (the account is kept); an unknown id changes nothing.
    pub fn delete_user(&mut self, id: u128) -> (r: AppResult<()>)
        requires
            old(self).wf(),
        ensures
            final(self).wf(),
            r is Ok,
            !contiene_id(old(self)@, id) ==> final(self)@ == old(self)@,
            forall|i: int|
                0 <= i < old(self)@.len() && #[trigger] old(self)@[i].id == id ==> final(self)@.len()
                    == old(self)@.len() && final(self)@[i] == (User {
                    activo: false,
                    updated_at: final(self)@[i].updated_at,
                    ..old(self)@[i]
                }) && forall|k: int| 0 <= k < old(self)@.len() && k != i ==> final(self)@[k] == old(self)@[k],
    {
        match self.repository.posicion(id) {
            Some(i) => {
                let actual = self.repository.users[i].copia();
                let u = User { activo: false, updated_at: ahora_ms(), ..actual };
                self.repository.reemplazar(i, u);
            },
            None => {},
        }
        Ok(())
    }
}

} // verus!

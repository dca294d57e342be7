use logistica::auth::{AuthenticatedUser, Claims};
use logistica::config::AppConfig;
use logistica::decimal::DecimalFijo;
use logistica::direccion::TipoDireccion;
use logistica::error::AppError;
use logistica::pedido::{tabla_transiciones, validar_transicion_estado, EstadoPedido};
use logistica::perfil_cliente::{
    CreatePerfilClienteDTO, PerfilClienteRepository, PerfilClienteService, UpdatePerfilClienteDTO,
};
use logistica::texto::{contiene_subtexto, mismo_texto};
use logistica::usuario::{
    default_role, CreateUserDTO, UpdateUserDTO, UpdateUserRoleDTO, UpdateUserStatusDTO,
    UserRepository, UserService,
};
use logistica::validacion::{
    contar_digitos, validar_coordenadas, validar_documento, validar_sku, validar_telefono,
};

const TODOS: [EstadoPedido; 5] = [
    EstadoPedido::Pendiente,
    EstadoPedido::Confirmado,
    EstadoPedido::EnTransito,
    EstadoPedido::Entregado,
    EstadoPedido::Cancelado,
];

#[test]
fn transition_table_lists_exactly_the_edges() {
    let permitidas = [
        (EstadoPedido::Pendiente, EstadoPedido::Confirmado),
        (EstadoPedido::Pendiente, EstadoPedido::Cancelado),
        (EstadoPedido::Confirmado, EstadoPedido::EnTransito),
        (EstadoPedido::Confirmado, EstadoPedido::Cancelado),
        (EstadoPedido::EnTransito, EstadoPedido::Entregado),
        (EstadoPedido::EnTransito, EstadoPedido::Cancelado),
    ];
    for a in TODOS {
        for b in TODOS {
            let r = validar_transicion_estado(a, b);
            if permitidas.contains(&(a, b)) {
                assert!(r.is_ok());
            } else {
                assert!(matches!(r, Err(AppError::Conflict(_))));
            }
        }
    }
    let t = tabla_transiciones();
    assert_eq!(t.len(), 5);
    assert!(t.iter().any(|(e, s)| *e == EstadoPedido::Entregado && s.is_empty()));
}

#[test]
fn status_names_round_trip() {
    for e in TODOS {
        assert_eq!(EstadoPedido::parse(e.as_str()), Some(e));
    }
    assert_eq!(EstadoPedido::parse("en_transito"), Some(EstadoPedido::EnTransito));
    assert_eq!(EstadoPedido::parse("Pendiente"), None);
    assert_eq!(EstadoPedido::parse(""), None);
}

#[test]
fn sku_format() {
    assert!(validar_sku("DELL-XPS15_2024"));
    assert!(validar_sku("Ñandú9"));
    assert!(!validar_sku(""));
    assert!(!validar_sku("A B"));
    assert!(!validar_sku("A.B"));
    assert!(validar_sku(&"A".repeat(50)));
    assert!(!validar_sku(&"A".repeat(51)));
}

#[test]
fn phone_format() {
    assert_eq!(contar_digitos("+593 99-912-3456"), 12);
    assert!(validar_telefono("+593999123456"));
    assert!(!validar_telefono("+593999123"));
    assert!(validar_telefono("099912345"));
    assert!(!validar_telefono("09991234"));
    assert!(validar_telefono("123456789012345"));
    assert!(!validar_telefono("1234567890123456"));
}

#[test]
fn document_length() {
    assert!(!validar_documento("1234"));
    assert!(validar_documento("12345"));
    assert!(validar_documento(&"9".repeat(20)));
    assert!(!validar_documento(&"9".repeat(21)));
}

#[test]
fn coordinate_bounds() {
    let d = |m: i128, e: u32| DecimalFijo { mantisa: m, escala: e };
    assert!(validar_coordenadas(&d(90, 0), &d(-180, 0)).is_ok());
    assert!(validar_coordenadas(&d(-900000, 4), &d(1800000, 4)).is_ok());
    assert!(matches!(validar_coordenadas(&d(900001, 4), &d(0, 0)), Err(AppError::BadRequest(_))));
    assert!(matches!(validar_coordenadas(&d(0, 0), &d(-1800001, 4)), Err(AppError::BadRequest(_))));
    assert!(validar_coordenadas(&d(i128::MAX, 38), &d(i128::MIN, 38)).is_ok());
    assert!(d(1, 0).positivo());
    assert!(!d(0, 3).positivo());
    assert!(!d(-1, 3).positivo());
}

#[test]
fn text_helpers() {
    assert!(mismo_texto("año", "año"));
    assert!(!mismo_texto("año", "ano"));
    assert!(contiene_subtexto("logística", "gís"));
    assert!(contiene_subtexto("abc", ""));
    assert!(!contiene_subtexto("ab", "abc"));
}

#[test]
fn address_kind_defaults_to_customer() {
    assert_eq!(TipoDireccion::default(), TipoDireccion::Cliente);
}

#[test]
fn config_defaults_and_requirements() {
    let c = AppConfig::from_values(
        Some("postgres://db".to_string()),
        None,
        None,
        None,
        None,
        Some("SECRET-REDACTED".to_string()),
    )
    .unwrap();
    assert_eq!(c.server_host, "0.0.0.0");
    assert_eq!(c.server_port, 3000);
    assert_eq!(c.environment, "development");
    assert_eq!(c.supabase_url, "");
    let p = AppConfig::from_values(
        Some("x".to_string()),
        Some("127.0.0.1".to_string()),
        Some("8080".to_string()),
        Some("production".to_string()),
        None,
        Some("s".to_string()),
    )
    .unwrap();
    assert_eq!(p.server_port, 8080);
    assert_eq!(p.server_host, "127.0.0.1");
    assert!(matches!(
        AppConfig::from_values(None, None, None, None, None, Some("s".to_string())),
        Err(AppError::Internal(_))
    ));
    assert!(AppConfig::from_values(Some("x".to_string()), None, Some("70000".to_string()), None, None, Some("s".to_string())).is_err());
    assert!(AppConfig::from_values(Some("x".to_string()), None, None, None, None, None).is_err());
}

#[test]
fn token_expiry() {
    let c = Claims {
        aud: "authenticated".to_string(),
        exp: 1_000,
        iat: 0,
        iss: "auth".to_string(),
        sub: 42,
        email: Some("a@b.c".to_string()),
        role: None,
    };
    assert!(c.is_expired_at(1_001));
    assert!(!c.is_expired_at(1_000));
    assert!(c.is_expired());
    assert_eq!(c.user_id(), 42);
    let u = AuthenticatedUser::from(c.clone());
    assert_eq!(u.id, 42);
    assert_eq!(u.email.as_deref(), Some("a@b.c"));
}

#[test]
fn profile_rules() {
    let mut s = PerfilClienteService::new(PerfilClienteRepository::new());
    let dto = |doc: Option<&str>, tel: Option<&str>| CreatePerfilClienteDTO {
        documento_identidad: doc.map(|x| x.to_string()),
        telefono: tel.map(|x| x.to_string()),
    };
    assert!(matches!(s.create_perfil(1, dto(Some("123"), None)), Err(AppError::BadRequest(_))));
    assert!(matches!(s.create_perfil(1, dto(None, Some("12"))), Err(AppError::BadRequest(_))));
    let p = s.create_perfil(1, dto(Some("1234567890"), Some("+593999123456"))).unwrap();
    assert_eq!(p.id_usuario, 1);
    assert!(matches!(s.create_perfil(1, dto(None, None)), Err(AppError::BadRequest(_))));
    assert!(matches!(s.create_perfil(2, dto(Some("1234567890"), None)), Err(AppError::BadRequest(_))));
    let q = s.create_perfil(2, dto(Some("0987654321"), None)).unwrap();
    let cambio = UpdatePerfilClienteDTO { documento_identidad: Some("1234567890".to_string()), telefono: None };
    assert!(matches!(s.update_my_perfil(2, cambio), Err(AppError::BadRequest(_))));
    let tel = UpdatePerfilClienteDTO { documento_identidad: None, telefono: Some("0999123456".to_string()) };
    assert_eq!(s.update_my_perfil(2, tel).unwrap().telefono.as_deref(), Some("0999123456"));
    let corto = UpdatePerfilClienteDTO { documento_identidad: Some("12".to_string()), telefono: None };
    assert_eq!(s.update_perfil_by_id(q.id_perfil, corto).unwrap().documento_identidad.as_deref(), Some("12"));
    assert_eq!(s.get_my_perfil(1).unwrap().id_perfil, p.id_perfil);
    assert!(matches!(s.get_my_perfil(3), Err(AppError::NotFound(_))));
    assert_eq!(s.list_perfiles().len(), 2);
    s.delete_my_perfil(1).unwrap();
    assert!(matches!(s.get_perfil_by_id(p.id_perfil), Err(AppError::NotFound(_))));
    s.delete_perfil_by_id(q.id_perfil).unwrap();
    assert!(s.list_perfiles().is_empty());
}

#[test]
fn user_rules() {
    assert_eq!(default_role(), "cliente");
    let mut s = UserService::new(UserRepository::new());
    let nuevo = |email: &str| CreateUserDTO {
        email: email.to_string(),
        nombre: Some("Ana".to_string()),
        apellido: None,
        rol: default_role(),
    };
    let a = s.create_user(nuevo("a@x.ec")).unwrap();
    assert!(a.activo);
    assert_eq!(a.rol, "cliente");
    assert!(matches!(s.create_user(nuevo("a@x.ec")), Err(AppError::BadRequest(_))));
    let b = s.create_user(nuevo("b@x.ec")).unwrap();
    let c = s.create_user(nuevo("c@x.ec")).unwrap();
    assert_eq!(s.get_user_by_email("b@x.ec").unwrap().unwrap().id, b.id);
    assert!(s.get_user_by_email("z@x.ec").unwrap().is_none());
    let r = s.update_user_role(a.id, UpdateUserRoleDTO { rol: "admin".to_string() }).unwrap();
    assert_eq!(r.rol, "admin");
    assert!(matches!(s.update_user_role(0, UpdateUserRoleDTO { rol: "admin".to_string() }), Err(AppError::Internal(_))));
    let u = s
        .update_user(b.id, UpdateUserDTO { email: None, nombre: None, apellido: Some("Paz".to_string()), rol: None, foto_perfil: None })
        .unwrap();
    assert_eq!(u.apellido.as_deref(), Some("Paz"));
    assert_eq!(u.nombre.as_deref(), Some("Ana"));
    s.update_user_status(c.id, UpdateUserStatusDTO { activo: false }).unwrap();
    let l = s.list_users().unwrap();
    assert_eq!(l.total, 2);
    let pag = s.list_users_paginated(1, 1).unwrap();
    assert_eq!(pag.total, 2);
    assert_eq!(pag.users.len(), 1);
    assert_eq!(pag.users[0].id, b.id);
    assert_eq!(s.list_users_paginated(10, 5).unwrap().users.len(), 0);
    assert!(matches!(s.list_users_paginated(-1, 0), Err(AppError::Internal(_))));
    s.delete_user(a.id).unwrap();
    assert!(!s.get_user(a.id).unwrap().activo);
    assert!(s.delete_user(0).is_ok());
    assert!(matches!(s.get_user(0), Err(AppError::NotFound(_))));
}

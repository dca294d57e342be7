use logistica::decimal::DecimalFijo;
use logistica::direccion::{
    CreateAlmacenDTO, CreateDireccionDTO, Direccion, DireccionRepository, DireccionService,
    TipoDireccion, UpdateDireccionDTO,
};
use logistica::error::AppError;
use logistica::pedido::{
    AsignarTransportistaDTO, CreatePedidoDTO, EstadoPedido, PedidoRepository, PedidoService,
    UpdateEstadoPedidoDTO,
};
use logistica::producto::{
    CreateProductoDTO, ProductoRepository, ProductoService, UpdateEstadoProductoDTO,
    UpdateProductoDTO, UpdateStockDTO,
};

fn coord(m: i128, e: u32) -> DecimalFijo {
    DecimalFijo { mantisa: m, escala: e }
}

fn nueva_direccion(calle: &str, predeterminada: Option<bool>) -> CreateDireccionDTO {
    CreateDireccionDTO {
        calle: calle.to_string(),
        ciudad: "Quito".to_string(),
        pais: None,
        referencias_adicionales: None,
        latitud: coord(-2189, 4),
        longitud: coord(-788, 1),
        tipo: None,
        es_predeterminada: predeterminada,
    }
}

fn buscar(v: &[Direccion], id: u128) -> &Direccion {
    v.iter().find(|d| d.id_direccion == id).unwrap()
}

fn predeterminadas(v: &[Direccion]) -> usize {
    v.iter().filter(|d| d.activo && d.es_predeterminada).count()
}

fn pedidos() -> PedidoService {
    PedidoService::new(PedidoRepository::new())
}

fn nuevo_pedido(s: &mut PedidoService) -> u128 {
    let dto = CreatePedidoDTO {
        id_direccion_origen: 1,
        id_direccion_destino: 2,
        monto_total: coord(1999, 2),
    };
    s.create(7, dto).unwrap().id_pedido
}

fn estado(e: &str) -> UpdateEstadoPedidoDTO {
    UpdateEstadoPedidoDTO { estado: e.to_string() }
}

fn producto(nombre: &str, stock: i32, sku: Option<&str>) -> CreateProductoDTO {
    CreateProductoDTO {
        nombre_producto: nombre.to_string(),
        descripcion: None,
        precio: coord(129999, 2),
        stock: Some(stock),
        categoria: Some("Electrónicos".to_string()),
        sku: sku.map(|s| s.to_string()),
    }
}

#[test]
fn first_address_becomes_default() {
    let mut s = DireccionService::new(DireccionRepository::new());
    let a = s.create_direccion(1, nueva_direccion("Av. Amazonas", Some(false))).unwrap();
    assert!(a.es_predeterminada);
    assert!(a.activo);
    assert_eq!(a.id_perfil, Some(1));
    assert_eq!(a.tipo, TipoDireccion::Cliente);
    assert_eq!(a.pais, "Ecuador");
}

#[test]
fn requested_default_replaces_previous_default() {
    let mut s = DireccionService::new(DireccionRepository::new());
    let a = s.create_direccion(1, nueva_direccion("A", None)).unwrap();
    let b = s.create_direccion(1, nueva_direccion("B", Some(true))).unwrap();
    let todas = s.list_all_my_direcciones(1);
    assert!(!buscar(&todas, a.id_direccion).es_predeterminada);
    assert!(buscar(&todas, b.id_direccion).es_predeterminada);
    assert_eq!(predeterminadas(&todas), 1);
    assert_eq!(s.get_predeterminada(1).unwrap().id_direccion, b.id_direccion);
}

#[test]
fn second_address_without_request_is_not_default() {
    let mut s = DireccionService::new(DireccionRepository::new());
    let a = s.create_direccion(1, nueva_direccion("A", None)).unwrap();
    let b = s.create_direccion(1, nueva_direccion("B", None)).unwrap();
    assert!(!b.es_predeterminada);
    let todas = s.list_all_my_direcciones(1);
    assert!(buscar(&todas, a.id_direccion).es_predeterminada);
    assert_eq!(predeterminadas(&todas), 1);
}

#[test]
fn defaults_of_other_profiles_are_untouched() {
    let mut s = DireccionService::new(DireccionRepository::new());
    let a = s.create_direccion(1, nueva_direccion("A", None)).unwrap();
    let b = s.create_direccion(2, nueva_direccion("B", Some(true))).unwrap();
    assert!(buscar(&s.list_all_my_direcciones(1), a.id_direccion).es_predeterminada);
    assert!(buscar(&s.list_all_my_direcciones(2), b.id_direccion).es_predeterminada);
}

#[test]
fn deactivating_the_default_clears_it() {
    let mut s = DireccionService::new(DireccionRepository::new());
    let a = s.create_direccion(1, nueva_direccion("A", None)).unwrap();
    assert!(s.deactivate_direccion(a.id_direccion, 1).is_ok());
    let d = s.get_direccion(a.id_direccion, 1).unwrap();
    assert!(!d.activo);
    assert!(!d.es_predeterminada);
    assert!(matches!(s.get_predeterminada(1), Err(AppError::NotFound(_))));
    let r = s.activate_direccion(a.id_direccion, 1).unwrap();
    assert!(r.activo);
    assert!(!r.es_predeterminada);
}

#[test]
fn promote_moves_the_default() {
    let mut s = DireccionService::new(DireccionRepository::new());
    let a = s.create_direccion(1, nueva_direccion("A", None)).unwrap();
    let b = s.create_direccion(1, nueva_direccion("B", None)).unwrap();
    let p = s.set_predeterminada(b.id_direccion, 1).unwrap();
    assert!(p.es_predeterminada);
    let todas = s.list_all_my_direcciones(1);
    assert!(!buscar(&todas, a.id_direccion).es_predeterminada);
    assert_eq!(predeterminadas(&todas), 1);
}

#[test]
fn promote_inactive_is_conflict() {
    let mut s = DireccionService::new(DireccionRepository::new());
    let _a = s.create_direccion(1, nueva_direccion("A", None)).unwrap();
    let b = s.create_direccion(1, nueva_direccion("B", None)).unwrap();
    s.deactivate_direccion(b.id_direccion, 1).unwrap();
    assert!(matches!(s.set_predeterminada(b.id_direccion, 1), Err(AppError::Conflict(_))));
}

#[test]
fn another_profile_is_forbidden() {
    let mut s = DireccionService::new(DireccionRepository::new());
    let a = s.create_direccion(1, nueva_direccion("A", None)).unwrap();
    assert!(matches!(s.set_predeterminada(a.id_direccion, 2), Err(AppError::Forbidden(_))));
    assert!(matches!(s.deactivate_direccion(a.id_direccion, 2), Err(AppError::Forbidden(_))));
    assert!(matches!(s.delete_direccion(a.id_direccion, 2), Err(AppError::Forbidden(_))));
    assert!(matches!(s.get_direccion(a.id_direccion, 2), Err(AppError::Forbidden(_))));
    assert!(matches!(s.get_direccion(12345, 1), Err(AppError::NotFound(_))));
}

#[test]
fn address_quota_is_conflict() {
    let mut s = DireccionService::new(DireccionRepository::new());
    for i in 0..10 {
        assert!(s.create_direccion(1, nueva_direccion(&format!("Calle {}", i), None)).is_ok());
    }
    assert_eq!(s.list_my_direcciones(1).len(), 10);
    assert!(matches!(
        s.create_direccion(1, nueva_direccion("Otra", None)),
        Err(AppError::Conflict(_))
    ));
    assert_eq!(s.list_all_my_direcciones(1).len(), 10);
}

#[test]
fn address_fields_are_validated_and_trimmed() {
    let mut s = DireccionService::new(DireccionRepository::new());
    assert!(matches!(s.create_direccion(1, nueva_direccion("   ", None)), Err(AppError::BadRequest(_))));
    let mut fuera = nueva_direccion("A", None);
    fuera.latitud = coord(9001, 2);
    assert!(matches!(s.create_direccion(1, fuera), Err(AppError::BadRequest(_))));
    let mut almacen = nueva_direccion("A", None);
    almacen.tipo = Some("almacen".to_string());
    assert!(matches!(s.create_direccion(1, almacen), Err(AppError::BadRequest(_))));
    let a = s.create_direccion(1, nueva_direccion("  Av. Colón  ", None)).unwrap();
    assert_eq!(a.calle, "Av. Colón");
    assert!(s.list_all_my_direcciones(1).len() == 1);
}

#[test]
fn address_update_checks_coordinates() {
    let mut s = DireccionService::new(DireccionRepository::new());
    let a = s.create_direccion(1, nueva_direccion("A", None)).unwrap();
    let malo = UpdateDireccionDTO {
        calle: None,
        ciudad: None,
        pais: None,
        referencias_adicionales: None,
        latitud: None,
        longitud: Some(coord(-1801, 1)),
    };
    assert!(matches!(s.update_direccion(a.id_direccion, 1, malo), Err(AppError::BadRequest(_))));
    let bueno = UpdateDireccionDTO {
        calle: Some("Nueva".to_string()),
        ciudad: None,
        pais: None,
        referencias_adicionales: Some("Casa azul".to_string()),
        latitud: None,
        longitud: Some(coord(-1800, 1)),
    };
    let d = s.update_direccion(a.id_direccion, 1, bueno).unwrap();
    assert_eq!(d.calle, "Nueva");
    assert_eq!(d.ciudad, "Quito");
    assert_eq!(d.referencias_adicionales.as_deref(), Some("Casa azul"));
    assert!(d.es_predeterminada);
}

#[test]
fn delete_address_is_permanent() {
    let mut s = DireccionService::new(DireccionRepository::new());
    let a = s.create_direccion(1, nueva_direccion("A", None)).unwrap();
    assert!(s.delete_direccion(a.id_direccion, 1).is_ok());
    assert!(s.list_all_my_direcciones(1).is_empty());
    assert!(matches!(s.delete_direccion(a.id_direccion, 1), Err(AppError::Forbidden(_))));
}

#[test]
fn warehouse_lifecycle() {
    let mut s = DireccionService::new(DireccionRepository::new());
    let dto = CreateAlmacenDTO {
        nombre: " Central ".to_string(),
        calle: " Av. 6 de Diciembre ".to_string(),
        ciudad: "Quito".to_string(),
        pais: Some("Perú".to_string()),
        referencias_adicionales: None,
        latitud: coord(0, 0),
        longitud: coord(0, 0),
    };
    let w = s.create_almacen(dto).unwrap();
    assert_eq!(w.calle, "Central - Av. 6 de Diciembre");
    assert_eq!(w.pais, "Perú");
    assert_eq!(w.id_perfil, None);
    assert_eq!(w.tipo, TipoDireccion::Almacen);
    assert!(!w.es_predeterminada);
    assert_eq!(s.list_almacenes().len(), 1);
    s.deactivate_almacen(w.id_direccion).unwrap();
    assert_eq!(s.list_almacenes().len(), 0);
    assert_eq!(s.list_all_almacenes().len(), 1);
    assert!(s.activate_almacen(w.id_direccion).unwrap().activo);
    assert!(s.get_direccion(w.id_direccion, 99).is_ok());
    assert!(matches!(s.set_predeterminada(w.id_direccion, 1), Err(AppError::Forbidden(_))));
    let c = s.create_direccion(1, nueva_direccion("A", None)).unwrap();
    assert!(matches!(s.deactivate_almacen(c.id_direccion), Err(AppError::BadRequest(_))));
    assert!(matches!(s.delete_almacen(77), Err(AppError::NotFound(_))));
    s.delete_almacen(w.id_direccion).unwrap();
    assert_eq!(s.list_all_almacenes().len(), 0);
}

#[test]
fn confirmed_order_cannot_go_back_to_pending() {
    let mut s = pedidos();
    let id = nuevo_pedido(&mut s);
    let p = s.update_estado(id, estado("confirmado")).unwrap();
    assert_eq!(p.estado, EstadoPedido::Confirmado);
    assert!(matches!(s.update_estado(id, estado("pendiente")), Err(AppError::Conflict(_))));
    assert_eq!(s.get_by_id(id).unwrap().estado, EstadoPedido::Confirmado);
}

#[test]
fn carrier_cannot_be_assigned_in_transit() {
    let mut s = pedidos();
    let id = nuevo_pedido(&mut s);
    s.update_estado(id, estado("confirmado")).unwrap();
    let p = s.assign_transportista(id, AsignarTransportistaDTO { id_transportista: 5 }).unwrap();
    assert_eq!(p.id_transportista, Some(5));
    s.update_estado(id, estado("en_transito")).unwrap();
    assert!(matches!(
        s.assign_transportista(id, AsignarTransportistaDTO { id_transportista: 6 }),
        Err(AppError::Conflict(_))
    ));
    assert_eq!(s.list_by_transportista(5).len(), 1);
    assert_eq!(s.list_by_transportista(6).len(), 0);
}

#[test]
fn order_creation_rules() {
    let mut s = pedidos();
    let cero = CreatePedidoDTO { id_direccion_origen: 1, id_direccion_destino: 2, monto_total: coord(0, 2) };
    assert!(matches!(s.create(7, cero), Err(AppError::BadRequest(_))));
    let id = nuevo_pedido(&mut s);
    let p = s.get_by_id(id).unwrap();
    assert_eq!(p.estado, EstadoPedido::Pendiente);
    assert_eq!(p.id_perfil, 7);
    assert_eq!(p.numero_tracking.len(), 32);
    assert_eq!(p.numero_tracking, format!("{:032x}", id));
    assert_eq!(s.list_by_user(7).len(), 1);
    assert_eq!(s.list_by_user(8).len(), 0);
    assert!(matches!(s.get_by_id(id.wrapping_add(1)), Err(AppError::NotFound(_))));
}

#[test]
fn status_text_is_checked() {
    let mut s = pedidos();
    let id = nuevo_pedido(&mut s);
    assert!(matches!(s.update_estado(id, estado("enviado")), Err(AppError::BadRequest(_))));
    assert!(matches!(s.update_estado(id.wrapping_add(1), estado("confirmado")), Err(AppError::NotFound(_))));
}

#[test]
fn terminal_orders_stay_terminal() {
    let mut s = pedidos();
    let id = nuevo_pedido(&mut s);
    for e in ["confirmado", "en_transito", "entregado"] {
        s.update_estado(id, estado(e)).unwrap();
    }
    for e in ["pendiente", "confirmado", "en_transito", "entregado", "cancelado"] {
        assert!(matches!(s.update_estado(id, estado(e)), Err(AppError::Conflict(_))));
    }
    assert!(matches!(s.cancel(id), Err(AppError::Conflict(_))));
    assert_eq!(s.get_by_id(id).unwrap().estado, EstadoPedido::Entregado);
}

#[test]
fn cancel_rules() {
    let mut s = pedidos();
    let id = nuevo_pedido(&mut s);
    assert!(s.cancel(id).is_ok());
    assert_eq!(s.get_by_id(id).unwrap().estado, EstadoPedido::Cancelado);
    assert!(matches!(s.cancel(id), Err(AppError::Conflict(_))));
    assert!(matches!(s.cancel(id.wrapping_add(1)), Err(AppError::NotFound(_))));
}

#[test]
fn rejected_adjustment_keeps_stock() {
    let mut s = ProductoService::new(ProductoRepository::new());
    let p = s.create_producto(producto("Laptop", 5, None)).unwrap();
    let r = s.update_stock(p.id_producto, UpdateStockDTO { cantidad: -10, motivo: None });
    assert!(matches!(r, Err(AppError::Conflict(_))));
    assert_eq!(s.get_producto(p.id_producto).unwrap().stock, 5);
    let q = s.update_stock(p.id_producto, UpdateStockDTO { cantidad: -5, motivo: Some("venta".to_string()) }).unwrap();
    assert_eq!(q.stock, 0);
    assert_eq!(s.get_producto(p.id_producto).unwrap().stock, 0);
    assert!(matches!(s.update_stock(77, UpdateStockDTO { cantidad: 1, motivo: None }), Err(AppError::NotFound(_))));
}

#[test]
fn stock_overflow_is_refused() {
    let mut s = ProductoService::new(ProductoRepository::new());
    let p = s.create_producto(producto("Tornillo", i32::MAX, None)).unwrap();
    assert!(matches!(
        s.update_stock(p.id_producto, UpdateStockDTO { cantidad: 1, motivo: None }),
        Err(AppError::Database(_))
    ));
    assert_eq!(s.get_producto(p.id_producto).unwrap().stock, i32::MAX);
}

#[test]
fn product_creation_rules() {
    let mut s = ProductoService::new(ProductoRepository::new());
    assert!(matches!(s.create_producto(producto("  ", 1, None)), Err(AppError::BadRequest(_))));
    assert!(matches!(s.create_producto(producto("X", -1, None)), Err(AppError::BadRequest(_))));
    let mut gratis = producto("X", 1, None);
    gratis.precio = coord(0, 0);
    assert!(matches!(s.create_producto(gratis), Err(AppError::BadRequest(_))));
    assert!(matches!(s.create_producto(producto("X", 1, Some("A B"))), Err(AppError::BadRequest(_))));
    let p = s.create_producto(producto("  Laptop Dell  ", 3, Some("DELL-XPS_15"))).unwrap();
    assert_eq!(p.nombre_producto, "Laptop Dell");
    assert!(p.estado);
    assert!(matches!(s.create_producto(producto("Otra", 1, Some("DELL-XPS_15"))), Err(AppError::BadRequest(_))));
    assert_eq!(s.get_producto_by_sku("DELL-XPS_15").unwrap().id_producto, p.id_producto);
    assert!(matches!(s.get_producto_by_sku("NADA"), Err(AppError::NotFound(_))));
    let sin_stock = CreateProductoDTO { stock: None, ..producto("Mouse", 0, None) };
    assert_eq!(s.create_producto(sin_stock).unwrap().stock, 0);
}

#[test]
fn product_update_rules() {
    let mut s = ProductoService::new(ProductoRepository::new());
    let a = s.create_producto(producto("A", 1, Some("SKU-A"))).unwrap();
    let b = s.create_producto(producto("B", 1, Some("SKU-B"))).unwrap();
    let cambio = |sku: Option<&str>, precio: Option<DecimalFijo>| UpdateProductoDTO {
        nombre_producto: None,
        descripcion: Some("nueva".to_string()),
        precio,
        categoria: None,
        sku: sku.map(|x| x.to_string()),
    };
    assert!(matches!(s.update_producto(b.id_producto, cambio(Some("SKU-A"), None)), Err(AppError::BadRequest(_))));
    assert!(matches!(s.update_producto(b.id_producto, cambio(None, Some(coord(-1, 0)))), Err(AppError::BadRequest(_))));
    assert!(matches!(s.update_producto(99, cambio(None, None)), Err(AppError::NotFound(_))));
    let r = s.update_producto(a.id_producto, cambio(Some("SKU-A"), Some(coord(5, 0)))).unwrap();
    assert_eq!(r.descripcion.as_deref(), Some("nueva"));
    assert_eq!(r.precio, coord(5, 0));
    assert_eq!(r.nombre_producto, "A");
    let off = s.update_estado(a.id_producto, UpdateEstadoProductoDTO { estado: false }).unwrap();
    assert!(!off.estado);
    assert_eq!(off.stock, 1);
    assert_eq!(s.list_productos().len(), 1);
    assert_eq!(s.list_all_productos().len(), 2);
    s.delete_producto(a.id_producto).unwrap();
    assert!(matches!(s.delete_producto(a.id_producto), Err(AppError::NotFound(_))));
    assert_eq!(s.get_by_categoria("Electrónicos").len(), 1);
    assert_eq!(s.get_by_categoria("Ropa").len(), 0);
}

#[test]
fn search_ignores_case() {
    let mut s = ProductoService::new(ProductoRepository::new());
    let mut d = producto("Laptop Dell XPS", 1, Some("DELL-1"));
    d.descripcion = Some("Procesador Intel".to_string());
    s.create_producto(d).unwrap();
    s.create_producto(producto("Mouse", 1, None)).unwrap();
    assert_eq!(s.search_productos("LAPTOP").unwrap().len(), 1);
    assert_eq!(s.search_productos("intel").unwrap().len(), 1);
    assert_eq!(s.search_productos("dell-1").unwrap().len(), 1);
    assert_eq!(s.search_productos("o").unwrap().len(), 2);
    assert_eq!(s.search_productos("teclado").unwrap().len(), 0);
    assert!(matches!(s.search_productos("   "), Err(AppError::BadRequest(_))));
}

#[test]
fn address_used_by_an_order_can_still_be_deleted() {
    let mut d = DireccionService::new(DireccionRepository::new());
    let a = d.create_direccion(1, nueva_direccion("A", None)).unwrap();
    let mut s = pedidos();
    let dto = CreatePedidoDTO {
        id_direccion_origen: a.id_direccion,
        id_direccion_destino: a.id_direccion,
        monto_total: coord(10, 0),
    };
    let p = s.create(1, dto).unwrap();
    assert!(d.delete_direccion(a.id_direccion, 1).is_ok());
    assert_eq!(s.get_by_id(p.id_pedido).unwrap().id_direccion_destino, a.id_direccion);
}

#[test]
fn stock_never_negative_over_a_sequence() {
    let mut s = ProductoService::new(ProductoRepository::new());
    let p = s.create_producto(producto("Caja", 3, None)).unwrap();
    let mut esperado: i64 = 3;
    for cantidad in [-2, -2, 5, -6, -1, 4, -4, -1, 0] {
        let r = s.update_stock(p.id_producto, UpdateStockDTO { cantidad, motivo: None });
        if esperado + cantidad as i64 >= 0 {
            esperado += cantidad as i64;
            assert_eq!(r.unwrap().stock as i64, esperado);
        } else {
            assert!(matches!(r, Err(AppError::Conflict(_))));
        }
        let stock = s.get_producto(p.id_producto).unwrap().stock;
        assert!(stock >= 0);
        assert_eq!(stock as i64, esperado);
    }
}

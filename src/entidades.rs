use vstd::prelude::*;

use crate::decimal::DecimalFijo;

verus! {

// Records of the data model that no rule of the core reads. Amounts are
// fixed-point decimals and times are milliseconds since the Unix epoch.

/// An invoice of an order.
#[derive(Debug, Clone)]
pub struct Factura {
    pub id_factura: u128,
    pub id_pedido: u128,
    pub numero_factura: String,
    pub subtotal: DecimalFijo,
    pub impuestos: DecimalFijo,
    pub total: Option<DecimalFijo>,
    pub estado: String,
    pub fecha_emision: i64,
    pub created_at: i64,
    pub updated_at: i64,
}

/// A payment of an invoice.
#[derive(Debug, Clone)]
pub struct Pago {
    pub id_pago: u128,
    pub id_factura: u128,
    pub monto: DecimalFijo,
    pub metodo_pago: String,
    pub estado: String,
    pub referencia_externa: Option<String>,
    pub fecha_pago: Option<i64>,
    pub created_at: i64,
    pub updated_at: i64,
}

/// A carrier that delivers orders.
#[derive(Debug, Clone)]
pub struct Transportista {
    pub id_transportista: u128,
    pub id_usuario: u128,
    pub tipo_vehiculo: String,
    pub placa_vehiculo: String,
    pub capacidad_carga: DecimalFijo,
    pub estado: String,
    pub id_zona_asignada: Option<u128>,
    pub calificacion_promedio: Option<DecimalFijo>,
    pub created_at: i64,
    pub updated_at: i64,
}

/// A delivery zone.
#[derive(Debug, Clone)]
pub struct Zona {
    pub id_zona: u128,
    pub nombre: String,
    pub ciudad: String,
    pub estado: bool,
    pub created_at: i64,
    pub updated_at: i64,
}

} // verus!

//! Business rules of a logistics backend: the order lifecycle, the
//! single-default-address rule of each customer profile and the
//! non-negative stock ledger of the product catalog, each over an in-memory
//! record set that plays the part of the persistence gateway.

pub mod error;
pub mod decimal;
pub mod texto;
pub mod plataforma;
pub mod validacion;
pub mod pedido;
pub mod direccion;
pub mod producto;
pub mod perfil_cliente;
pub mod usuario;
pub mod entidades;
pub mod auth;
pub mod config;

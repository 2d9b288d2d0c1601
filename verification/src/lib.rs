//! Bóveda de contraseñas: el modelo de datos en memoria, el sobre cifrado
//! bajo una clave maestra y las decisiones que rodean su persistencia.

pub mod boveda;
pub mod persistencia;
pub mod servicio;
pub mod sobre;
pub mod tablas;

pub use boveda::{Boveda, Entrada, EntradaVista, ErrorBoveda};

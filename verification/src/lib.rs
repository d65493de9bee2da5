//! State-transition core of a peer-to-peer marketplace.
//!
//! The crate keeps a ledger of users, product listings and purchase orders.
//! Every mutation is one call made on behalf of an authenticated caller; a
//! call either commits as a whole or leaves the ledger as it found it.
//!
//! The modules, leaves first:
//!
//! * [`cuenta`]: the account identity that callers are known by;
//! * [`tipos`]: roles, order states, error kinds and the three records;
//! * [`registro`]: the identity and role registry;
//! * [`catalogo`]: the published products and their stock;
//! * [`libro`]: the order ledger and its state machine;
//! * [`guardia`]: the checks that precede every mutation;
//! * [`modelo`]: the mathematical model of the ledger and of each operation;
//! * [`coherencia`]: when stored records stand for a state of the ledger;
//! * [`notificaciones`]: the records handed to outside observers;
//! * [`marketplace`]: the callable operations;
//! * [`leyes`]: what holds of every run of operations.

pub mod catalogo;
pub mod coherencia;
pub mod cuenta;
pub mod guardia;
pub mod leyes;
pub mod libro;
pub mod marketplace;
pub mod modelo;
pub mod notificaciones;
pub mod registro;
pub mod tipos;

pub use marketplace::MarketplacePrincipal;
pub use notificaciones::{EstadoOrdenCambiado, OrdenCreada};
pub use tipos::{Balance, EstadoOrden, Orden, Producto, RolUsuario, SistemaError, Usuario};

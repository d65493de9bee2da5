//! The records that tell outside observers what happened: that an order
//! was placed, and that an order changed its state. How they reach the
//! observers is the host's business.

use crate::tipos::{EstadoOrden, Orden};
use ink::primitives::AccountId;
use vstd::prelude::*;

verus! {

/// An order was placed.
#[derive(Debug, Clone, Copy, PartialEq, Eq)]
pub struct OrdenCreada {
    pub id: u32,
    pub comprador: AccountId,
    pub vendedor: AccountId,
    pub producto_id: u32,
    pub cantidad: u32,
}

/// An order changed its state.
#[derive(Debug, Clone, Copy, PartialEq, Eq)]
pub struct EstadoOrdenCambiado {
    pub id: u32,
    pub comprador: AccountId,
    pub nuevo_estado: EstadoOrden,
}

impl OrdenCreada {
    /// The record of the placing of `orden`.
    pub fn de_orden(orden: &Orden) -> (aviso: OrdenCreada)
        ensures
            aviso == (OrdenCreada {
                id: orden.id,
                comprador: orden.comprador,
                vendedor: orden.vendedor,
                producto_id: orden.producto_id,
                cantidad: orden.cantidad,
            }),
    {
        OrdenCreada {
            id: orden.id,
            comprador: orden.comprador,
            vendedor: orden.vendedor,
            producto_id: orden.producto_id,
            cantidad: orden.cantidad,
        }
    }
}

impl EstadoOrdenCambiado {
    /// The record of what a call did to the state of an order, given the
    /// order as it was before the call and as it is after it: none where
    /// the state is the same.
    pub fn entre(antes: &Orden, despues: &Orden) -> (aviso: Option<EstadoOrdenCambiado>)
        ensures
            aviso == if antes.estado == despues.estado {
                None
            } else {
                Some(
                    EstadoOrdenCambiado {
                        id: despues.id,
                        comprador: despues.comprador,
                        nuevo_estado: despues.estado,
                    },
                )
            },
    {
        if antes.estado == despues.estado {
            None
        } else {
            Some(
                EstadoOrdenCambiado {
                    id: despues.id,
                    comprador: despues.comprador,
                    nuevo_estado: despues.estado,
                },
            )
        }
    }
}

} // verus!

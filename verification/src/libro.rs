//! The order ledger: the purchase orders, in the order in which they were
//! placed, and the state machine that each of them follows.
//!
//! An order starts as `Pendiente`. Its seller may ship it, and its buyer may
//! then confirm that it arrived. While it is pending either party may ask to
//! cancel it; it is cancelled once both have asked. An order's id is its
//! position in the ledger, and none is ever removed.

use crate::tipos::{veredicto, EstadoOrden, Orden, OrdenVista, SistemaError};
use ink::primitives::AccountId;
use vstd::prelude::*;

verus! {

/// The orders of a ledger, by id.
pub type Asientos = Seq<OrdenVista>;

/// The views of `ordenes`, one for one.
pub open spec fn vista_de(ordenes: Seq<Orden>) -> Asientos {
    ordenes.map_values(|o: Orden| o@)
}

/// Each of `ordenes` carries its position as id, and the ids fit in a
/// `u32`.
pub open spec fn numeradas(ordenes: Seq<Orden>) -> bool {
    &&& ordenes.len() <= u32::MAX
    &&& forall|i: int| 0 <= i < ordenes.len() ==> (#[trigger] ordenes[i]).id == i
}

/// The ledger after an order of `comprador` for `cantidad` units of product
/// `producto_id`, sold by `vendedor`, has been placed: the order stands at
/// the end, under the next id, pending.
pub open spec fn tras_creacion(
    asientos: Asientos,
    comprador: AccountId,
    vendedor: AccountId,
    producto_id: nat,
    cantidad: nat,
) -> Asientos {
    asientos.push(OrdenVista::nueva(asientos.len(), comprador, vendedor, producto_id, cantidad))
}

/// Why `llamador` cannot mark order `id` as shipped: there is no such
/// order, `llamador` is not its seller, or it is not pending. The first of
/// these that applies is the one reported.
pub open spec fn error_de_envio(asientos: Asientos, llamador: AccountId, id: nat) -> Option<
    SistemaError,
> {
    if id >= asientos.len() {
        Some(SistemaError::OrdenNoExiste)
    } else if llamador != asientos[id as int].vendedor {
        Some(SistemaError::NoAutorizado)
    } else if asientos[id as int].estado != EstadoOrden::Pendiente {
        Some(SistemaError::EstadoInvalido)
    } else {
        None
    }
}

/// The ledger after `llamador` has asked to mark order `id` as shipped.
pub open spec fn tras_envio(asientos: Asientos, llamador: AccountId, id: nat) -> Asientos {
    if error_de_envio(asientos, llamador, id) is None {
        asientos.update(
            id as int,
            OrdenVista { estado: EstadoOrden::Enviada, ..asientos[id as int] },
        )
    } else {
        asientos
    }
}

/// Why `llamador` cannot mark order `id` as received: there is no such
/// order, `llamador` is not its buyer, or it has not been shipped. The
/// first of these that applies is the one reported.
pub open spec fn error_de_recepcion(asientos: Asientos, llamador: AccountId, id: nat) -> Option<
    SistemaError,
> {
    if id >= asientos.len() {
        Some(SistemaError::OrdenNoExiste)
    } else if llamador != asientos[id as int].comprador {
        Some(SistemaError::NoAutorizado)
    } else if asientos[id as int].estado != EstadoOrden::Enviada {
        Some(SistemaError::EstadoInvalido)
    } else {
        None
    }
}

/// The ledger after `llamador` has asked to mark order `id` as received.
pub open spec fn tras_recepcion(asientos: Asientos, llamador: AccountId, id: nat) -> Asientos {
    if error_de_recepcion(asientos, llamador, id) is None {
        asientos.update(
            id as int,
            OrdenVista { estado: EstadoOrden::Recibida, ..asientos[id as int] },
        )
    } else {
        asientos
    }
}

/// Why `llamador` cannot ask to cancel order `id`: there is no such order,
/// it is not pending, or `llamador` is neither its buyer nor its seller.
/// The first of these that applies is the one reported.
pub open spec fn error_de_cancelacion(asientos: Asientos, llamador: AccountId, id: nat) -> Option<
    SistemaError,
> {
    if id >= asientos.len() {
        Some(SistemaError::OrdenNoExiste)
    } else if asientos[id as int].estado != EstadoOrden::Pendiente {
        Some(SistemaError::EstadoInvalido)
    } else if llamador != asientos[id as int].comprador && llamador != asientos[id as int].vendedor {
        Some(SistemaError::NoAutorizado)
    } else {
        None
    }
}

/// `orden` with the request to cancel of `llamador` on record. An account
/// that is both the buyer and the seller of an order asks as its buyer.
pub open spec fn con_pedido(orden: OrdenVista, llamador: AccountId) -> OrdenVista {
    if llamador == orden.comprador {
        OrdenVista { comprador_cancela: true, ..orden }
    } else {
        OrdenVista { vendedor_cancela: true, ..orden }
    }
}

/// The request to cancel order `id` that `llamador` makes is accepted and
/// is the one that completes the agreement: with it both parties have asked.
pub open spec fn cancelacion_acordada(asientos: Asientos, llamador: AccountId, id: nat) -> bool {
    &&& error_de_cancelacion(asientos, llamador, id) is None
    &&& con_pedido(asientos[id as int], llamador).comprador_cancela
    &&& con_pedido(asientos[id as int], llamador).vendedor_cancela
}

/// The ledger after `llamador` has asked to cancel order `id`: the request
/// is on record, and the order is cancelled if both parties have now asked.
pub open spec fn tras_cancelacion(asientos: Asientos, llamador: AccountId, id: nat) -> Asientos {
    if error_de_cancelacion(asientos, llamador, id) is None {
        let con = con_pedido(asientos[id as int], llamador);
        if cancelacion_acordada(asientos, llamador, id) {
            asientos.update(id as int, OrdenVista { estado: EstadoOrden::Cancelada, ..con })
        } else {
            asientos.update(id as int, con)
        }
    } else {
        asientos
    }
}

/// The order ledger. Its view is the sequence of its orders, by id.
///
/// A ledger is well formed at every point of the program: a method that
/// changes it takes the orders out, changes them and puts them back.
pub struct LibroOrdenes {
    ordenes: Vec<Orden>,
}

impl View for LibroOrdenes {
    type V = Asientos;

    closed spec fn view(&self) -> Asientos {
        vista_de(self.ordenes@)
    }
}

impl LibroOrdenes {
    #[verifier::type_invariant]
    spec fn bien_formado(self) -> bool {
        numeradas(self.ordenes@)
    }

    /// A ledger without orders.
    pub fn new() -> (libro: LibroOrdenes)
        ensures
            libro@ == Seq::<OrdenVista>::empty(),
    {
        LibroOrdenes { ordenes: Vec::new() }
    }

    /// The ledger of the given orders, where each carries its position as
    /// id; none else.
    pub fn desde(ordenes: Vec<Orden>) -> (r: Option<LibroOrdenes>)
        ensures
            r is Some <==> numeradas(ordenes@),
            r matches Some(libro) ==> libro@ == vista_de(ordenes@),
    {
        if ordenes.len() > u32::MAX as usize {
            return None;
        }
        let mut i: usize = 0;
        while i < ordenes.len()
            invariant
                0 <= i <= ordenes@.len() <= u32::MAX,
                forall|k: int| 0 <= k < i ==> (#[trigger] ordenes@[k]).id == k,
            decreases ordenes@.len() - i,
        {
            if ordenes[i].id != i as u32 {
                return None;
            }
            i += 1;
        }
        Some(LibroOrdenes { ordenes })
    }

    /// The orders, by id.
    pub fn ordenes(&self) -> (copia: Vec<Orden>)
        ensures
            numeradas(copia@),
            vista_de(copia@) == self@,
    {
        proof {
            use_type_invariant(self);
        }
        let mut copia: Vec<Orden> = Vec::new();
        let mut i: usize = 0;
        while i < self.ordenes.len()
            invariant
                0 <= i <= self.ordenes@.len(),
                copia@ == self.ordenes@.take(i as int),
            decreases self.ordenes@.len() - i,
        {
            copia.push(self.ordenes[i]);
            assert(self.ordenes@.take(i + 1) =~= self.ordenes@.take(i as int).push(
                self.ordenes@[i as int],
            ));
            i += 1;
        }
        copia
    }

    /// How many orders have been placed.
    pub fn total(&self) -> (n: usize)
        ensures
            n == self@.len(),
            n <= u32::MAX,
    {
        proof {
            use_type_invariant(self);
        }
        self.ordenes.len()
    }

    /// The order with the given id, if there is one.
    pub fn obtener(&self, id: u32) -> (hallada: Option<Orden>)
        ensures
            hallada is Some <==> id < self@.len(),
            hallada matches Some(o) ==> o@ == self@[id as int] && o.id == id,
    {
        proof {
            use_type_invariant(self);
        }
        let i: usize = id as usize;
        if i < self.ordenes.len() {
            Some(self.ordenes[i])
        } else {
            None
        }
    }

    /// Places a pending order under the next id and returns that id.
    pub fn crear(
        &mut self,
        comprador: AccountId,
        vendedor: AccountId,
        producto_id: u32,
        cantidad: u32,
    ) -> (id: u32)
        requires
            old(self)@.len() < u32::MAX,
        ensures
            id == old(self)@.len(),
            final(self)@ == tras_creacion(
                old(self)@,
                comprador,
                vendedor,
                producto_id as nat,
                cantidad as nat,
            ),
    {
        proof {
            use_type_invariant(&*self);
        }
        let id: u32 = self.ordenes.len() as u32;
        let nueva = Orden::new(id, comprador, vendedor, producto_id, cantidad);
        let mut previo = LibroOrdenes::new();
        std::mem::swap(self, &mut previo);
        let LibroOrdenes { mut ordenes } = previo;
        ordenes.push(nueva);
        *self = LibroOrdenes { ordenes };
        id
    }

    /// Marks a pending order as shipped, on behalf of its seller. Where the
    /// call fails the ledger stays as it is.
    pub fn marcar_enviada(&mut self, llamador: AccountId, id: u32) -> (r: Result<(), SistemaError>)
        ensures
            r == veredicto(error_de_envio(old(self)@, llamador, id as nat), ()),
            final(self)@ == tras_envio(old(self)@, llamador, id as nat),
            r is Err ==> final(self)@ == old(self)@,
    {
        proof {
            use_type_invariant(&*self);
        }
        let i: usize = id as usize;
        if i >= self.ordenes.len() {
            return Err(SistemaError::OrdenNoExiste);
        }
        if llamador != self.ordenes[i].vendedor {
            return Err(SistemaError::NoAutorizado);
        }
        if self.ordenes[i].estado != EstadoOrden::Pendiente {
            return Err(SistemaError::EstadoInvalido);
        }
        let mut previo = LibroOrdenes::new();
        std::mem::swap(self, &mut previo);
        let LibroOrdenes { mut ordenes } = previo;
        ordenes[i].estado = EstadoOrden::Enviada;
        *self = LibroOrdenes { ordenes };
        Ok(())
    }

    /// Marks a shipped order as received, on behalf of its buyer. Where the
    /// call fails the ledger stays as it is.
    pub fn marcar_recibida(&mut self, llamador: AccountId, id: u32) -> (r: Result<(), SistemaError>)
        ensures
            r == veredicto(error_de_recepcion(old(self)@, llamador, id as nat), ()),
            final(self)@ == tras_recepcion(old(self)@, llamador, id as nat),
            r is Err ==> final(self)@ == old(self)@,
    {
        proof {
            use_type_invariant(&*self);
        }
        let i: usize = id as usize;
        if i >= self.ordenes.len() {
            return Err(SistemaError::OrdenNoExiste);
        }
        if llamador != self.ordenes[i].comprador {
            return Err(SistemaError::NoAutorizado);
        }
        if self.ordenes[i].estado != EstadoOrden::Enviada {
            return Err(SistemaError::EstadoInvalido);
        }
        let mut previo = LibroOrdenes::new();
        std::mem::swap(self, &mut previo);
        let LibroOrdenes { mut ordenes } = previo;
        ordenes[i].estado = EstadoOrden::Recibida;
        *self = LibroOrdenes { ordenes };
        Ok(())
    }

    /// Records that `llamador`, a party of the pending order `id`, asks to
    /// cancel it, and cancels the order if both parties have now asked.
    /// Returns whether this call cancelled the order. Asking again is
    /// accepted and changes nothing. Where the call fails the ledger stays
    /// as it is.
    pub fn solicitar_cancelacion(&mut self, llamador: AccountId, id: u32) -> (r: Result<
        bool,
        SistemaError,
    >)
        ensures
            r == veredicto(
                error_de_cancelacion(old(self)@, llamador, id as nat),
                cancelacion_acordada(old(self)@, llamador, id as nat),
            ),
            final(self)@ == tras_cancelacion(old(self)@, llamador, id as nat),
            r is Err ==> final(self)@ == old(self)@,
    {
        proof {
            use_type_invariant(&*self);
        }
        let i: usize = id as usize;
        if i >= self.ordenes.len() {
            return Err(SistemaError::OrdenNoExiste);
        }
        if self.ordenes[i].estado != EstadoOrden::Pendiente {
            return Err(SistemaError::EstadoInvalido);
        }
        let es_comprador = llamador == self.ordenes[i].comprador;
        if !es_comprador && llamador != self.ordenes[i].vendedor {
            return Err(SistemaError::NoAutorizado);
        }
        let mut previo = LibroOrdenes::new();
        std::mem::swap(self, &mut previo);
        let LibroOrdenes { mut ordenes } = previo;
        if es_comprador {
            ordenes[i].comprador_cancela = true;
        } else {
            ordenes[i].vendedor_cancela = true;
        }
        let acordada = ordenes[i].comprador_cancela && ordenes[i].vendedor_cancela;
        if acordada {
            ordenes[i].estado = EstadoOrden::Cancelada;
        }
        *self = LibroOrdenes { ordenes };
        Ok(acordada)
    }
}

} // verus!

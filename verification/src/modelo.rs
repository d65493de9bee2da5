//! The marketplace as a mathematical object: a state made of profiles,
//! products and orders, and for each operation the error that a call meets
//! and the state that it leaves behind.
//!
//! Nothing here runs. The callable operations are proved against these
//! definitions, and the laws of the marketplace are proved from them.

use crate::catalogo::{error_de_reserva, tras_liberacion, tras_publicacion, tras_reserva, Listado};
use crate::guardia::{error_de_acceso, error_de_registro, primero};
use crate::libro::{
    cancelacion_acordada, error_de_cancelacion, error_de_envio, error_de_recepcion,
    tras_cancelacion, tras_creacion, tras_envio, tras_recepcion, Asientos,
};
use crate::registro::{error_de_alta, tiene_rol, tras_alta, Perfiles};
use crate::tipos::{EstadoOrden, OrdenVista, RolUsuario, SistemaError};
use ink::primitives::AccountId;
use vstd::prelude::*;

verus! {

/// The units of product `producto_id` that `orden` keeps out of the stock:
/// what it ordered, until it is cancelled.
pub open spec fn retiene(orden: OrdenVista, producto_id: nat) -> nat {
    if orden.producto_id == producto_id && orden.estado != EstadoOrden::Cancelada {
        orden.cantidad
    } else {
        0
    }
}

/// The units of product `producto_id` that the orders of `asientos` keep
/// out of the stock, all together.
pub open spec fn reservado(asientos: Asientos, producto_id: nat) -> nat
    decreases asientos.len(),
{
    if asientos.len() == 0 {
        0
    } else {
        reservado(asientos.drop_last(), producto_id) + retiene(asientos.last(), producto_id)
    }
}

/// The state of the marketplace.
pub ghost struct Mercado {
    pub perfiles: Perfiles,
    pub productos: Listado,
    pub ordenes: Asientos,
}

/// What a caller may ask of the marketplace.
pub ghost enum Operacion {
    Registrar { rol: RolUsuario },
    Publicar {
        nombre: Seq<char>,
        descripcion: Seq<char>,
        precio: nat,
        cantidad: nat,
        categoria: Seq<char>,
    },
    Ordenar { producto_id: nat, cantidad: nat },
    Enviar { orden_id: nat },
    Recibir { orden_id: nat },
    Cancelar { orden_id: nat },
}

/// One call: who asks, and what.
pub ghost struct Llamada {
    pub llamador: AccountId,
    pub operacion: Operacion,
}

impl Mercado {
    /// The marketplace before anything has happened.
    pub open spec fn vacio() -> Mercado {
        Mercado { perfiles: Map::empty(), productos: Seq::empty(), ordenes: Seq::empty() }
    }

    /// Why `llamador` cannot register.
    pub open spec fn error_al_registrar(self, llamador: AccountId) -> Option<SistemaError> {
        error_de_alta(self.perfiles, llamador)
    }

    /// The state after `llamador` has asked to register with `rol`.
    pub open spec fn tras_registrar(self, llamador: AccountId, rol: RolUsuario) -> Mercado {
        Mercado { perfiles: tras_alta(self.perfiles, llamador, rol), ..self }
    }

    /// Why `llamador` cannot publish a product with `cantidad` units: it
    /// has no profile, it is no seller, or there are no units.
    pub open spec fn error_al_publicar(self, llamador: AccountId, cantidad: nat) -> Option<
        SistemaError,
    > {
        error_de_acceso(self.perfiles, llamador, RolUsuario::Vendedor, cantidad)
    }

    /// The state after `llamador` has asked to publish a product.
    pub open spec fn tras_publicar(
        self,
        llamador: AccountId,
        nombre: Seq<char>,
        descripcion: Seq<char>,
        precio: nat,
        cantidad: nat,
        categoria: Seq<char>,
    ) -> Mercado {
        if self.error_al_publicar(llamador, cantidad) is None {
            Mercado {
                productos: tras_publicacion(
                    self.productos,
                    llamador,
                    nombre,
                    descripcion,
                    precio,
                    cantidad,
                    categoria,
                ),
                ..self
            }
        } else {
            self
        }
    }

    /// Why `llamador` cannot order `cantidad` units of product
    /// `producto_id`: it has no profile, it is no buyer, it asks for no
    /// units, there is no such product, or the product has fewer units left.
    pub open spec fn error_al_ordenar(self, llamador: AccountId, producto_id: nat, cantidad: nat) -> Option<
        SistemaError,
    > {
        primero(
            error_de_acceso(self.perfiles, llamador, RolUsuario::Comprador, cantidad),
            error_de_reserva(self.productos, producto_id, cantidad),
        )
    }

    /// The state after `llamador` has asked to order `cantidad` units of
    /// product `producto_id`: the units have left the stock and a pending
    /// order holds them, unless the call fails.
    pub open spec fn tras_ordenar(self, llamador: AccountId, producto_id: nat, cantidad: nat) -> Mercado {
        if self.error_al_ordenar(llamador, producto_id, cantidad) is None {
            Mercado {
                productos: tras_reserva(self.productos, producto_id, cantidad),
                ordenes: tras_creacion(
                    self.ordenes,
                    llamador,
                    self.productos[producto_id as int].vendedor,
                    producto_id,
                    cantidad,
                ),
                ..self
            }
        } else {
            self
        }
    }

    /// Why `llamador` cannot mark order `orden_id` as shipped.
    pub open spec fn error_al_enviar(self, llamador: AccountId, orden_id: nat) -> Option<
        SistemaError,
    > {
        primero(
            error_de_registro(self.perfiles, llamador),
            error_de_envio(self.ordenes, llamador, orden_id),
        )
    }

    /// The state after `llamador` has asked to mark order `orden_id` as
    /// shipped.
    pub open spec fn tras_enviar(self, llamador: AccountId, orden_id: nat) -> Mercado {
        if self.error_al_enviar(llamador, orden_id) is None {
            Mercado { ordenes: tras_envio(self.ordenes, llamador, orden_id), ..self }
        } else {
            self
        }
    }

    /// Why `llamador` cannot mark order `orden_id` as received.
    pub open spec fn error_al_recibir(self, llamador: AccountId, orden_id: nat) -> Option<
        SistemaError,
    > {
        primero(
            error_de_registro(self.perfiles, llamador),
            error_de_recepcion(self.ordenes, llamador, orden_id),
        )
    }

    /// The state after `llamador` has asked to mark order `orden_id` as
    /// received.
    pub open spec fn tras_recibir(self, llamador: AccountId, orden_id: nat) -> Mercado {
        if self.error_al_recibir(llamador, orden_id) is None {
            Mercado { ordenes: tras_recepcion(self.ordenes, llamador, orden_id), ..self }
        } else {
            self
        }
    }

    /// Why `llamador` cannot ask to cancel order `orden_id`.
    pub open spec fn error_al_cancelar(self, llamador: AccountId, orden_id: nat) -> Option<
        SistemaError,
    > {
        primero(
            error_de_registro(self.perfiles, llamador),
            error_de_cancelacion(self.ordenes, llamador, orden_id),
        )
    }

    /// The request of `llamador` to cancel order `orden_id` is accepted and
    /// cancels the order.
    pub open spec fn cancela(self, llamador: AccountId, orden_id: nat) -> bool {
        self.error_al_cancelar(llamador, orden_id) is None && cancelacion_acordada(
            self.ordenes,
            llamador,
            orden_id,
        )
    }

    /// The state after `llamador` has asked to cancel order `orden_id`: the
    /// request is on record; if it completes the agreement of both parties,
    /// the order is cancelled and its units are back in the stock.
    pub open spec fn tras_cancelar(self, llamador: AccountId, orden_id: nat) -> Mercado {
        if self.error_al_cancelar(llamador, orden_id) is None {
            Mercado {
                productos: if self.cancela(llamador, orden_id) {
                    tras_liberacion(
                        self.productos,
                        self.ordenes[orden_id as int].producto_id,
                        self.ordenes[orden_id as int].cantidad,
                    )
                } else {
                    self.productos
                },
                ordenes: tras_cancelacion(self.ordenes, llamador, orden_id),
                ..self
            }
        } else {
            self
        }
    }

    /// The error that `llamada` meets in this state, if any.
    pub open spec fn error_de(self, llamada: Llamada) -> Option<SistemaError> {
        let quien = llamada.llamador;
        match llamada.operacion {
            Operacion::Registrar { rol } => self.error_al_registrar(quien),
            Operacion::Publicar { cantidad, .. } => self.error_al_publicar(quien, cantidad),
            Operacion::Ordenar { producto_id, cantidad } => self.error_al_ordenar(
                quien,
                producto_id,
                cantidad,
            ),
            Operacion::Enviar { orden_id } => self.error_al_enviar(quien, orden_id),
            Operacion::Recibir { orden_id } => self.error_al_recibir(quien, orden_id),
            Operacion::Cancelar { orden_id } => self.error_al_cancelar(quien, orden_id),
        }
    }

    /// The state that `llamada` leaves behind.
    pub open spec fn tras(self, llamada: Llamada) -> Mercado {
        let quien = llamada.llamador;
        match llamada.operacion {
            Operacion::Registrar { rol } => self.tras_registrar(quien, rol),
            Operacion::Publicar { nombre, descripcion, precio, cantidad, categoria } => self.tras_publicar(
                quien,
                nombre,
                descripcion,
                precio,
                cantidad,
                categoria,
            ),
            Operacion::Ordenar { producto_id, cantidad } => self.tras_ordenar(
                quien,
                producto_id,
                cantidad,
            ),
            Operacion::Enviar { orden_id } => self.tras_enviar(quien, orden_id),
            Operacion::Recibir { orden_id } => self.tras_recibir(quien, orden_id),
            Operacion::Cancelar { orden_id } => self.tras_cancelar(quien, orden_id),
        }
    }

    /// The state that a run of calls leaves behind, the calls made one
    /// after another.
    pub open spec fn tras_todas(self, llamadas: Seq<Llamada>) -> Mercado
        decreases llamadas.len(),
    {
        if llamadas.len() == 0 {
            self
        } else {
            self.tras_todas(llamadas.drop_last()).tras(llamadas.last())
        }
    }

    /// Every profile is filed under its own account.
    pub open spec fn perfiles_validos(self) -> bool {
        forall|cuenta: AccountId|
            self.perfiles.contains_key(cuenta) ==> (#[trigger] self.perfiles[cuenta]).direccion
                == cuenta
    }

    /// Product `k` carries its position as id, and its seller is a
    /// registered seller.
    pub open spec fn producto_valido(self, k: int) -> bool {
        &&& self.productos[k].id == k
        &&& tiene_rol(self.perfiles, self.productos[k].vendedor, RolUsuario::Vendedor)
    }

    /// Order `i` carries its position as id; it is for a published product
    /// and names that product's seller; it is for at least one unit; its
    /// buyer is a registered buyer; and it is cancelled exactly if both
    /// parties have asked for that.
    pub open spec fn orden_valida(self, i: int) -> bool {
        let orden = self.ordenes[i];
        &&& orden.id == i
        &&& orden.producto_id < self.productos.len()
        &&& orden.vendedor == self.productos[orden.producto_id as int].vendedor
        &&& orden.cantidad > 0
        &&& tiene_rol(self.perfiles, orden.comprador, RolUsuario::Comprador)
        &&& orden.estado == EstadoOrden::Cancelada <==> orden.comprador_cancela
            && orden.vendedor_cancela
    }

    /// What holds of every state that the marketplace can be in.
    pub open spec fn valido(self) -> bool {
        &&& self.perfiles_validos()
        &&& forall|k: int| 0 <= k < self.productos.len() ==> #[trigger] self.producto_valido(k)
        &&& forall|i: int| 0 <= i < self.ordenes.len() ==> #[trigger] self.orden_valida(i)
    }

    /// The units of product `k` that exist: those in stock and those that
    /// orders keep out of it.
    pub open spec fn unidades(self, k: int) -> nat {
        self.productos[k].cantidad + reservado(self.ordenes, k as nat)
    }
}

/// One more order adds what it keeps.
pub proof fn lema_reservado_con_nueva(asientos: Asientos, orden: OrdenVista, producto_id: nat)
    ensures
        reservado(asientos.push(orden), producto_id) == reservado(asientos, producto_id) + retiene(
            orden,
            producto_id,
        ),
{
    assert(asientos.push(orden).drop_last() =~= asientos);
}

/// An order that changes takes away what it kept and adds what it keeps.
pub proof fn lema_reservado_con_cambio(
    asientos: Asientos,
    i: int,
    orden: OrdenVista,
    producto_id: nat,
)
    requires
        0 <= i < asientos.len(),
    ensures
        reservado(asientos.update(i, orden), producto_id) + retiene(asientos[i], producto_id)
            == reservado(asientos, producto_id) + retiene(orden, producto_id),
    decreases asientos.len(),
{
    let cambiado = asientos.update(i, orden);
    if i == asientos.len() - 1 {
        assert(cambiado.drop_last() =~= asientos.drop_last());
    } else {
        assert(cambiado.drop_last() =~= asientos.drop_last().update(i, orden));
        lema_reservado_con_cambio(asientos.drop_last(), i, orden, producto_id);
    }
}

/// Where no order is for a product, none of its units are kept.
pub proof fn lema_reservado_sin_ordenes(asientos: Asientos, producto_id: nat)
    requires
        forall|i: int| 0 <= i < asientos.len() ==> (#[trigger] asientos[i]).producto_id != producto_id,
    ensures
        reservado(asientos, producto_id) == 0,
    decreases asientos.len(),
{
    if asientos.len() > 0 {
        let previos = asientos.drop_last();
        assert forall|i: int| 0 <= i < previos.len() implies (#[trigger] previos[i]).producto_id
            != producto_id by {}
        lema_reservado_sin_ordenes(previos, producto_id);
    }
}

/// What one order keeps is part of what all of them keep.
pub proof fn lema_retiene_acotado(asientos: Asientos, i: int, producto_id: nat)
    requires
        0 <= i < asientos.len(),
    ensures
        retiene(asientos[i], producto_id) <= reservado(asientos, producto_id),
    decreases asientos.len(),
{
    if i < asientos.len() - 1 {
        lema_retiene_acotado(asientos.drop_last(), i, producto_id);
    }
}

/// A call made in a valid state leaves a valid state.
pub proof fn lema_valido_tras(m: Mercado, llamada: Llamada)
    requires
        m.valido(),
    ensures
        m.tras(llamada).valido(),
{
    let f = m.tras(llamada);
    if m.error_de(llamada) is None {
        assert forall|k: int| 0 <= k < f.productos.len() implies #[trigger] f.producto_valido(k) by {
            if k < m.productos.len() {
                assert(m.producto_valido(k));
            }
        }
        assert forall|i: int| 0 <= i < f.ordenes.len() implies #[trigger] f.orden_valida(i) by {
            if i < m.ordenes.len() {
                assert(m.orden_valida(i));
            }
        }
    }
}

/// A run of calls made from a valid state leaves a valid state.
pub proof fn lema_valido_tras_todas(m: Mercado, llamadas: Seq<Llamada>)
    requires
        m.valido(),
    ensures
        m.tras_todas(llamadas).valido(),
    decreases llamadas.len(),
{
    if llamadas.len() > 0 {
        lema_valido_tras_todas(m, llamadas.drop_last());
        lema_valido_tras(m.tras_todas(llamadas.drop_last()), llamadas.last());
    }
}

/// No call removes a product, and no call changes the units that exist of
/// one: what leaves the stock is kept by an order, and what an order gives
/// up goes back to the stock.
pub proof fn lema_unidades_tras(m: Mercado, llamada: Llamada, k: int)
    requires
        m.valido(),
        0 <= k < m.productos.len(),
    ensures
        k < m.tras(llamada).productos.len(),
        m.tras(llamada).unidades(k) == m.unidades(k),
{
    let f = m.tras(llamada);
    if m.error_de(llamada) is None {
        match llamada.operacion {
            Operacion::Registrar { .. } | Operacion::Publicar { .. } => {},
            Operacion::Ordenar { .. } => {
                lema_reservado_con_nueva(m.ordenes, f.ordenes.last(), k as nat);
            },
            Operacion::Enviar { orden_id }
            | Operacion::Recibir { orden_id }
            | Operacion::Cancelar { orden_id } => {
                let i = orden_id as int;
                lema_reservado_con_cambio(m.ordenes, i, f.ordenes[i], k as nat);
            },
        }
    }
}

} // verus!

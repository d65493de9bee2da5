//! What holds of the marketplace whatever calls are made.
//!
//! Each law is stated over the model of the marketplace, for every valid
//! state and every call or run of calls, and proved from the definitions of
//! the operations. The callable operations are proved to follow the model,
//! so the laws hold of them.

use crate::catalogo::{error_de_reserva, tras_reserva, Listado};
use crate::guardia::{error_de_cantidad, primero};
use crate::modelo::{
    lema_reservado_sin_ordenes, lema_unidades_tras, lema_valido_tras, lema_valido_tras_todas,
    reservado, Llamada, Mercado, Operacion,
};
use crate::tipos::{EstadoOrden, ProductoVista, RolUsuario, SistemaError, UsuarioVista};
use ink::primitives::AccountId;
use vstd::prelude::*;

verus! {

/// Every state that the marketplace reaches is valid: the empty
/// marketplace is, and so is what any run of calls makes of it.
pub proof fn ley_estados_validos(llamadas: Seq<Llamada>)
    ensures
        Mercado::vacio().valido(),
        Mercado::vacio().tras_todas(llamadas).valido(),
{
    lema_valido_tras_todas(Mercado::vacio(), llamadas);
}

/// Ids tell products apart and tell orders apart: in a valid state no two
/// products have the same id, and no two orders.
pub proof fn ley_ids_unicos(m: Mercado, i: int, j: int)
    requires
        m.valido(),
        i != j,
    ensures
        0 <= i < m.productos.len() && 0 <= j < m.productos.len() ==> m.productos[i].id
            != m.productos[j].id,
        0 <= i < m.ordenes.len() && 0 <= j < m.ordenes.len() ==> m.ordenes[i].id != m.ordenes[j].id,
{
    if 0 <= i < m.productos.len() && 0 <= j < m.productos.len() {
        assert(m.producto_valido(i) && m.producto_valido(j));
    }
    if 0 <= i < m.ordenes.len() && 0 <= j < m.ordenes.len() {
        assert(m.orden_valida(i) && m.orden_valida(j));
    }
}

/// A call that fails changes nothing: profiles, products and orders are
/// after it what they were before.
pub proof fn ley_fallo_sin_efecto(m: Mercado, llamada: Llamada)
    requires
        m.error_de(llamada) is Some,
    ensures
        m.tras(llamada) == m,
{
}

/// A reservation that fails, for want of the product or of units, leaves
/// the stock of every product as it was.
pub proof fn ley_reserva_fallida_sin_efecto(listado: Listado, id: nat, cantidad: nat)
    requires
        error_de_reserva(listado, id, cantidad) is Some,
    ensures
        tras_reserva(listado, id, cantidad) == listado,
{
}

/// No call removes a profile, a product or an order, and no call changes a
/// profile.
pub proof fn ley_nada_se_pierde(m: Mercado, llamada: Llamada)
    ensures
        forall|cuenta: AccountId| #[trigger]
            m.perfiles.contains_key(cuenta) ==> m.tras(llamada).perfiles.contains_key(cuenta)
                && m.tras(llamada).perfiles[cuenta] == m.perfiles[cuenta],
        m.productos.len() <= m.tras(llamada).productos.len(),
        m.ordenes.len() <= m.tras(llamada).ordenes.len(),
{
}

/// No run of calls removes a profile, a product or an order, and none
/// changes a profile.
pub proof fn ley_nada_se_pierde_nunca(m: Mercado, llamadas: Seq<Llamada>)
    ensures
        forall|cuenta: AccountId| #[trigger]
            m.perfiles.contains_key(cuenta) ==> m.tras_todas(llamadas).perfiles.contains_key(cuenta)
                && m.tras_todas(llamadas).perfiles[cuenta] == m.perfiles[cuenta],
        m.productos.len() <= m.tras_todas(llamadas).productos.len(),
        m.ordenes.len() <= m.tras_todas(llamadas).ordenes.len(),
    decreases llamadas.len(),
{
    if llamadas.len() > 0 {
        ley_nada_se_pierde_nunca(m, llamadas.drop_last());
    }
}

/// What identifies a product never changes: a call leaves to each product
/// its id, its name, its description, its category, its price and its
/// seller. Only the stock moves.
pub proof fn ley_producto_inmutable(m: Mercado, llamada: Llamada, k: int)
    requires
        0 <= k < m.productos.len(),
    ensures
        k < m.tras(llamada).productos.len(),
        m.tras(llamada).productos[k] == (ProductoVista {
            cantidad: m.tras(llamada).productos[k].cantidad,
            ..m.productos[k]
        }),
{
}

/// What an order is for never changes: a call leaves to each order its id,
/// its buyer, its seller, its product and its quantity.
pub proof fn ley_orden_inmutable(m: Mercado, llamada: Llamada, i: int)
    requires
        0 <= i < m.ordenes.len(),
    ensures
        i < m.tras(llamada).ordenes.len(),
        m.tras(llamada).ordenes[i].id == m.ordenes[i].id,
        m.tras(llamada).ordenes[i].comprador == m.ordenes[i].comprador,
        m.tras(llamada).ordenes[i].vendedor == m.ordenes[i].vendedor,
        m.tras(llamada).ordenes[i].producto_id == m.ordenes[i].producto_id,
        m.tras(llamada).ordenes[i].cantidad == m.ordenes[i].cantidad,
{
}

/// No call records a rating: each order keeps the rating marks of its buyer
/// and of its seller as they were.
pub proof fn ley_calificaciones_intactas(m: Mercado, llamada: Llamada, i: int)
    requires
        0 <= i < m.ordenes.len(),
    ensures
        i < m.tras(llamada).ordenes.len(),
        m.tras(llamada).ordenes[i].comprador_califico == m.ordenes[i].comprador_califico,
        m.tras(llamada).ordenes[i].vendedor_califico == m.ordenes[i].vendedor_califico,
{
}

/// Stock moves in two ways only. A call leaves the stock of a product as
/// it was, or
/// * is an accepted order for the product, and takes the ordered units out
///   of the stock;
/// * is the request that cancels an order for the product, and puts the
///   units of that order back.
pub proof fn ley_movimientos_de_existencias(m: Mercado, llamada: Llamada, k: int)
    requires
        0 <= k < m.productos.len(),
    ensures
        k < m.tras(llamada).productos.len(),
        ({
            let antes = m.productos[k].cantidad;
            let despues = m.tras(llamada).productos[k].cantidad;
            ||| despues == antes
            ||| {
                &&& llamada.operacion matches Operacion::Ordenar { producto_id, cantidad }
                &&& m.error_de(llamada) is None
                &&& producto_id == k
                &&& despues + cantidad == antes
            }
            ||| {
                &&& llamada.operacion matches Operacion::Cancelar { orden_id }
                &&& m.cancela(llamada.llamador, orden_id)
                &&& m.ordenes[orden_id as int].producto_id == k
                &&& despues == antes + m.ordenes[orden_id as int].cantidad
            }
        }),
{
}

/// Whatever calls are made, the units that exist of a product, in stock or
/// held by its orders, stay as many as they were.
pub proof fn ley_unidades_constantes(m: Mercado, llamadas: Seq<Llamada>, k: int)
    requires
        m.valido(),
        0 <= k < m.productos.len(),
    ensures
        k < m.tras_todas(llamadas).productos.len(),
        m.tras_todas(llamadas).unidades(k) == m.unidades(k),
    decreases llamadas.len(),
{
    if llamadas.len() > 0 {
        let previo = m.tras_todas(llamadas.drop_last());
        ley_unidades_constantes(m, llamadas.drop_last(), k);
        lema_valido_tras_todas(m, llamadas.drop_last());
        lema_unidades_tras(previo, llamadas.last(), k);
    }
}

/// No product is oversold. Once a product has been published with some
/// units, then whatever calls follow, the units left in stock and the units
/// that its orders hold add up to the units published: so the orders never
/// hold more than was published.
pub proof fn ley_sin_sobreventa(m: Mercado, publicacion: Llamada, llamadas: Seq<Llamada>)
    requires
        m.valido(),
        publicacion.operacion is Publicar,
        m.error_de(publicacion) is None,
    ensures
        ({
            let k = m.productos.len() as int;
            let publicadas = publicacion.operacion->Publicar_cantidad;
            let fin = m.tras(publicacion).tras_todas(llamadas);
            &&& k < fin.productos.len()
            &&& m.tras(publicacion).productos[k].cantidad == publicadas
            &&& fin.productos[k].cantidad + reservado(fin.ordenes, k as nat) == publicadas
            &&& reservado(fin.ordenes, k as nat) <= publicadas
        }),
{
    let k = m.productos.len() as int;
    let inicio = m.tras(publicacion);
    assert forall|i: int| 0 <= i < m.ordenes.len() implies (#[trigger] m.ordenes[i]).producto_id
        != k as nat by {
        assert(m.orden_valida(i));
    }
    lema_reservado_sin_ordenes(m.ordenes, k as nat);
    lema_valido_tras(m, publicacion);
    ley_unidades_constantes(inicio, llamadas, k);
}

/// An account registers once. After it has registered, whatever calls
/// follow, a further registration of it fails with `UsuarioExistente` and
/// its profile is the one that the first registration made.
pub proof fn ley_registro_unico(
    m: Mercado,
    cuenta: AccountId,
    rol: RolUsuario,
    llamadas: Seq<Llamada>,
    otro_rol: RolUsuario,
)
    requires
        m.error_al_registrar(cuenta) is None,
    ensures
        ({
            let fin = m.tras_registrar(cuenta, rol).tras_todas(llamadas);
            &&& fin.error_al_registrar(cuenta) == Some(SistemaError::UsuarioExistente)
            &&& fin.tras_registrar(cuenta, otro_rol) == fin
            &&& fin.perfiles.contains_key(cuenta)
            &&& fin.perfiles[cuenta] == UsuarioVista::nuevo(cuenta, rol)
        }),
{
    let inicio = m.tras_registrar(cuenta, rol);
    assert(inicio.perfiles.contains_key(cuenta));
    ley_nada_se_pierde_nunca(inicio, llamadas);
}

/// An account registered as `Comprador` never publishes: whatever calls
/// have been made since, its publication fails with `NoEsRolCorrecto`.
pub proof fn ley_comprador_no_publica(
    m: Mercado,
    cuenta: AccountId,
    llamadas: Seq<Llamada>,
    cantidad: nat,
)
    requires
        m.perfiles.contains_key(cuenta),
        m.perfiles[cuenta].rol == RolUsuario::Comprador,
    ensures
        m.tras_todas(llamadas).error_al_publicar(cuenta, cantidad) == Some(
            SistemaError::NoEsRolCorrecto,
        ),
{
    ley_nada_se_pierde_nunca(m, llamadas);
}

/// An account registered as `Vendedor` never orders: whatever calls have
/// been made since, its order fails with `NoEsRolCorrecto`.
pub proof fn ley_vendedor_no_ordena(
    m: Mercado,
    cuenta: AccountId,
    llamadas: Seq<Llamada>,
    producto_id: nat,
    cantidad: nat,
)
    requires
        m.perfiles.contains_key(cuenta),
        m.perfiles[cuenta].rol == RolUsuario::Vendedor,
    ensures
        m.tras_todas(llamadas).error_al_ordenar(cuenta, producto_id, cantidad) == Some(
            SistemaError::NoEsRolCorrecto,
        ),
{
    ley_nada_se_pierde_nunca(m, llamadas);
}

/// An account registered as `Ambos` may publish and may order: whatever
/// calls have been made since, its publication fails only for want of
/// units to publish, and its order only for want of units asked for, of the
/// product, or of units left.
pub proof fn ley_ambos_publica_y_ordena(
    m: Mercado,
    cuenta: AccountId,
    llamadas: Seq<Llamada>,
    producto_id: nat,
    cantidad: nat,
)
    requires
        m.perfiles.contains_key(cuenta),
        m.perfiles[cuenta].rol == RolUsuario::Ambos,
    ensures
        ({
            let fin = m.tras_todas(llamadas);
            &&& fin.error_al_publicar(cuenta, cantidad) == error_de_cantidad(cantidad)
            &&& fin.error_al_ordenar(cuenta, producto_id, cantidad) == primero(
                error_de_cantidad(cantidad),
                error_de_reserva(fin.productos, producto_id, cantidad),
            )
        }),
{
    ley_nada_se_pierde_nunca(m, llamadas);
}

/// The only moves of the state machine. A call leaves the state of an
/// order as it was, or
/// * ships a pending order, and is then the seller's call to ship it;
/// * cancels a pending order, and is then a request to cancel it made by
///   one of its parties, after which both have asked;
/// * marks a shipped order as received, and is then the buyer's call to do
///   so.
/// An order that is received or cancelled keeps its state.
pub proof fn ley_transiciones(m: Mercado, llamada: Llamada, i: int)
    requires
        0 <= i < m.ordenes.len(),
    ensures
        i < m.tras(llamada).ordenes.len(),
        ({
            let antes = m.ordenes[i];
            let despues = m.tras(llamada).ordenes[i];
            ||| despues.estado == antes.estado
            ||| {
                &&& antes.estado == EstadoOrden::Pendiente
                &&& despues.estado == EstadoOrden::Enviada
                &&& llamada.operacion == Operacion::Enviar { orden_id: i as nat }
                &&& llamada.llamador == antes.vendedor
            }
            ||| {
                &&& antes.estado == EstadoOrden::Pendiente
                &&& despues.estado == EstadoOrden::Cancelada
                &&& llamada.operacion == Operacion::Cancelar { orden_id: i as nat }
                &&& llamada.llamador == antes.comprador || llamada.llamador == antes.vendedor
                &&& despues.comprador_cancela && despues.vendedor_cancela
            }
            ||| {
                &&& antes.estado == EstadoOrden::Enviada
                &&& despues.estado == EstadoOrden::Recibida
                &&& llamada.operacion == Operacion::Recibir { orden_id: i as nat }
                &&& llamada.llamador == antes.comprador
            }
        }),
        m.ordenes[i].estado.es_final() ==> m.tras(llamada).ordenes[i].estado == m.ordenes[i].estado,
{
}

/// The states that an order in state `desde` can be in later: its own; from
/// `Pendiente` every state; from `Enviada` also `Recibida`.
pub open spec fn alcanzable(desde: EstadoOrden, hasta: EstadoOrden) -> bool {
    ||| hasta == desde
    ||| desde == EstadoOrden::Pendiente
    ||| desde == EstadoOrden::Enviada && hasta == EstadoOrden::Recibida
}

/// Whatever calls are made, an order is afterwards in a state that the
/// state machine leads to from the state it was in: a shipped order is
/// never pending or cancelled again, and an order that is received or
/// cancelled stays so.
pub proof fn ley_estados_alcanzables(m: Mercado, llamadas: Seq<Llamada>, i: int)
    requires
        0 <= i < m.ordenes.len(),
    ensures
        i < m.tras_todas(llamadas).ordenes.len(),
        alcanzable(m.ordenes[i].estado, m.tras_todas(llamadas).ordenes[i].estado),
        m.ordenes[i].estado.es_final() ==> m.tras_todas(llamadas).ordenes[i].estado
            == m.ordenes[i].estado,
    decreases llamadas.len(),
{
    if llamadas.len() > 0 {
        ley_estados_alcanzables(m, llamadas.drop_last(), i);
    }
}

/// An order is placed as pending, with no request to cancel on record.
pub proof fn ley_orden_nace_pendiente(
    m: Mercado,
    llamador: AccountId,
    producto_id: nat,
    cantidad: nat,
)
    requires
        m.error_al_ordenar(llamador, producto_id, cantidad) is None,
    ensures
        ({
            let fin = m.tras_ordenar(llamador, producto_id, cantidad);
            let nueva = fin.ordenes[m.ordenes.len() as int];
            &&& fin.ordenes.len() == m.ordenes.len() + 1
            &&& nueva.estado == EstadoOrden::Pendiente
            &&& !nueva.comprador_cancela
            &&& !nueva.vendedor_cancela
            &&& nueva.comprador == llamador
            &&& nueva.cantidad == cantidad
            &&& fin.productos[producto_id as int].cantidad + cantidad
                == m.productos[producto_id as int].cantidad
        }),
{
}

/// Cancellation takes the consent of both parties. An accepted request to
/// cancel puts the caller's consent on record and takes none away. The
/// order is cancelled by it exactly if both consents are then on record;
/// else it stays pending and no stock moves. Where the order is cancelled,
/// its units go back to the stock of its product, and the stock of no
/// other product moves.
pub proof fn ley_cancelacion_de_comun_acuerdo(m: Mercado, llamador: AccountId, orden_id: nat)
    requires
        m.valido(),
        m.error_al_cancelar(llamador, orden_id) is None,
    ensures
        ({
            let antes = m.ordenes[orden_id as int];
            let fin = m.tras_cancelar(llamador, orden_id);
            let despues = fin.ordenes[orden_id as int];
            let k = antes.producto_id as int;
            &&& antes.estado == EstadoOrden::Pendiente
            &&& despues.comprador_cancela == (antes.comprador_cancela || llamador
                == antes.comprador)
            &&& despues.vendedor_cancela == (antes.vendedor_cancela || llamador
                != antes.comprador)
            &&& despues.estado == if despues.comprador_cancela && despues.vendedor_cancela {
                EstadoOrden::Cancelada
            } else {
                EstadoOrden::Pendiente
            }
            &&& despues.estado == EstadoOrden::Pendiente ==> fin.productos == m.productos
            &&& despues.estado == EstadoOrden::Cancelada ==> {
                &&& fin.productos.len() == m.productos.len()
                &&& fin.productos[k].cantidad == m.productos[k].cantidad + antes.cantidad
                &&& forall|j: int|
                    0 <= j < m.productos.len() && j != k ==> fin.productos[j] == m.productos[j]
            }
        }),
{
    assert(m.orden_valida(orden_id as int));
}

/// The same request made `veces` times over.
pub open spec fn repetida(llamada: Llamada, veces: nat) -> Seq<Llamada> {
    Seq::new(veces, |j: int| llamada)
}

/// One party alone never cancels an order. While the other party has not
/// asked to cancel, the order stays pending and its units stay out of the
/// stock, however often the one party asks.
pub proof fn ley_una_parte_no_cancela(m: Mercado, llamador: AccountId, orden_id: nat, veces: nat)
    requires
        m.valido(),
        orden_id < m.ordenes.len(),
        m.ordenes[orden_id as int].estado == EstadoOrden::Pendiente,
        llamador == m.ordenes[orden_id as int].comprador ==> !m.ordenes[orden_id as int].vendedor_cancela,
        llamador != m.ordenes[orden_id as int].comprador ==> !m.ordenes[orden_id as int].comprador_cancela,
    ensures
        ({
            let pedido = Llamada { llamador, operacion: Operacion::Cancelar { orden_id } };
            let fin = m.tras_todas(repetida(pedido, veces));
            &&& fin.ordenes.len() == m.ordenes.len()
            &&& fin.ordenes[orden_id as int].estado == EstadoOrden::Pendiente
            &&& fin.productos == m.productos
        }),
    decreases veces,
{
    let pedido = Llamada { llamador, operacion: Operacion::Cancelar { orden_id } };
    if veces > 0 {
        let menos = (veces - 1) as nat;
        assert(repetida(pedido, veces).drop_last() =~= repetida(pedido, menos));
        ley_una_parte_no_cancela(m, llamador, orden_id, menos);
        lema_valido_tras_todas(m, repetida(pedido, menos));
    }
}

/// What an order is for never changes, whatever calls are made.
pub proof fn ley_orden_inmutable_en_corrida(m: Mercado, llamadas: Seq<Llamada>, i: int)
    requires
        0 <= i < m.ordenes.len(),
    ensures
        i < m.tras_todas(llamadas).ordenes.len(),
        m.tras_todas(llamadas).ordenes[i].id == m.ordenes[i].id,
        m.tras_todas(llamadas).ordenes[i].comprador == m.ordenes[i].comprador,
        m.tras_todas(llamadas).ordenes[i].vendedor == m.ordenes[i].vendedor,
        m.tras_todas(llamadas).ordenes[i].producto_id == m.ordenes[i].producto_id,
        m.tras_todas(llamadas).ordenes[i].cantidad == m.ordenes[i].cantidad,
    decreases llamadas.len(),
{
    if llamadas.len() > 0 {
        ley_orden_inmutable_en_corrida(m, llamadas.drop_last(), i);
    }
}

} // verus!

//! When stored records stand for a state of the marketplace.
//!
//! The host keeps the marketplace between calls as three lists of records:
//! profiles, products and orders. Not every three lists are a marketplace:
//! the records must be coherent with one another. This module says what
//! that means and decides it.

use crate::catalogo::numerados;
use crate::libro::numeradas;
use crate::modelo::{lema_reservado_con_nueva, reservado, retiene, Mercado};
use crate::registro::{perfiles_de, sin_repetidos, tiene_rol, Perfiles, RegistroUsuarios};
use crate::tipos::{EstadoOrden, Orden, OrdenVista, Producto, RolUsuario, Usuario};
use vstd::prelude::*;

verus! {

/// The units that exist of each product, in stock or held by its orders,
/// can be counted in a `u32`.
pub open spec fn cabe(m: Mercado) -> bool {
    forall|k: int| 0 <= k < m.productos.len() ==> #[trigger] m.unidades(k) <= u32::MAX
}

/// The state that the given records stand for.
pub open spec fn mercado_de(
    usuarios: Seq<Usuario>,
    productos: Seq<Producto>,
    ordenes: Seq<Orden>,
) -> Mercado {
    Mercado {
        perfiles: perfiles_de(usuarios),
        productos: crate::catalogo::vista_de(productos),
        ordenes: crate::libro::vista_de(ordenes),
    }
}

/// The given records are those of a marketplace: no account has two
/// profiles, products and orders carry their positions as ids, the state
/// that they stand for is valid, and the units of each product can be
/// counted.
pub open spec fn coherente(
    usuarios: Seq<Usuario>,
    productos: Seq<Producto>,
    ordenes: Seq<Orden>,
) -> bool {
    &&& sin_repetidos(usuarios)
    &&& numerados(productos)
    &&& numeradas(ordenes)
    &&& mercado_de(usuarios, productos, ordenes).valido()
    &&& cabe(mercado_de(usuarios, productos, ordenes))
}

/// `orden` is for one of `productos` and names its seller; it is for at
/// least one unit; its buyer has a profile among `perfiles` that lets it
/// buy; and it is cancelled exactly if both parties have asked for that.
pub open spec fn orden_en_regla(perfiles: Perfiles, productos: Seq<Producto>, orden: Orden) -> bool {
    &&& orden.producto_id < productos.len()
    &&& orden.vendedor == productos[orden.producto_id as int].vendedor
    &&& orden.cantidad > 0
    &&& tiene_rol(perfiles, orden.comprador, RolUsuario::Comprador)
    &&& orden.estado == EstadoOrden::Cancelada <==> orden.comprador_cancela
        && orden.vendedor_cancela
}

/// The seller of each product has a profile that lets it sell, each order
/// is in order, and the units of each product can be counted in a `u32`.
pub open spec fn en_regla(usuarios: Seq<Usuario>, productos: Seq<Producto>, ordenes: Seq<Orden>) -> bool {
    &&& forall|k: int|
        0 <= k < productos.len() ==> tiene_rol(
            perfiles_de(usuarios),
            (#[trigger] productos[k]).vendedor,
            RolUsuario::Vendedor,
        )
    &&& forall|i: int|
        0 <= i < ordenes.len() ==> orden_en_regla(
            perfiles_de(usuarios),
            productos,
            #[trigger] ordenes[i],
        )
    &&& forall|k: int|
        0 <= k < productos.len() ==> (#[trigger] productos[k]).cantidad + reservado(
            crate::libro::vista_de(ordenes),
            k as nat,
        ) <= u32::MAX
}

/// The orders of the start of a ledger keep no more units than those of
/// the whole ledger.
proof fn lema_reservado_de_prefijo(asientos: Seq<OrdenVista>, n: int, producto_id: nat)
    requires
        0 <= n <= asientos.len(),
    ensures
        reservado(asientos.take(n), producto_id) <= reservado(asientos, producto_id),
    decreases asientos.len(),
{
    if n == asientos.len() {
        assert(asientos.take(n) =~= asientos);
    } else {
        assert(asientos.drop_last().take(n) =~= asientos.take(n));
        lema_reservado_de_prefijo(asientos.drop_last(), n, producto_id);
    }
}

/// The units of product `k` in stock and held by the first `n` orders.
spec fn unidades_hasta(productos: Seq<Producto>, asientos: Seq<OrdenVista>, n: int, k: int) -> int {
    productos[k].cantidad + reservado(asientos.take(n), k as nat)
}

/// Whether the seller of each product has a profile that lets it sell.
pub(crate) fn vendedores_en_regla(registro: &RegistroUsuarios, productos: &Vec<Producto>) -> (r: bool)
    ensures
        r <==> forall|k: int|
            0 <= k < productos@.len() ==> tiene_rol(
                registro@,
                (#[trigger] productos@[k]).vendedor,
                RolUsuario::Vendedor,
            ),
{
    let mut k: usize = 0;
    while k < productos.len()
        invariant
            0 <= k <= productos@.len(),
            forall|j: int|
                0 <= j < k ==> tiene_rol(
                    registro@,
                    (#[trigger] productos@[j]).vendedor,
                    RolUsuario::Vendedor,
                ),
        decreases productos@.len() - k,
    {
        if !registro.tiene_rol(productos[k].vendedor, RolUsuario::Vendedor) {
            return false;
        }
        k += 1;
    }
    true
}

/// Whether each order is in order with the profiles of `registro` and with
/// `productos`.
pub(crate) fn ordenes_en_regla(
    registro: &RegistroUsuarios,
    productos: &Vec<Producto>,
    ordenes: &Vec<Orden>,
) -> (r: bool)
    ensures
        r <==> forall|i: int|
            0 <= i < ordenes@.len() ==> orden_en_regla(registro@, productos@, #[trigger] ordenes@[i]),
{
    let mut i: usize = 0;
    while i < ordenes.len()
        invariant
            0 <= i <= ordenes@.len(),
            forall|j: int|
                0 <= j < i ==> orden_en_regla(registro@, productos@, #[trigger] ordenes@[j]),
        decreases ordenes@.len() - i,
    {
        let orden = &ordenes[i];
        let k: usize = orden.producto_id as usize;
        if k >= productos.len() {
            return false;
        }
        if orden.vendedor != productos[k].vendedor {
            return false;
        }
        if orden.cantidad == 0 {
            return false;
        }
        if !registro.tiene_rol(orden.comprador, RolUsuario::Comprador) {
            return false;
        }
        let cancelada = orden.estado == EstadoOrden::Cancelada;
        let acordada = orden.comprador_cancela && orden.vendedor_cancela;
        if cancelada != acordada {
            return false;
        }
        i += 1;
    }
    true
}

/// Whether the units that exist of each product, in stock or held by its
/// orders, can be counted in a `u32`. An order for a product that is not
/// among `productos` holds units of none of them.
pub(crate) fn existencias_caben(productos: &Vec<Producto>, ordenes: &Vec<Orden>) -> (r: bool)
    ensures
        r <==> forall|k: int|
            0 <= k < productos@.len() ==> (#[trigger] productos@[k]).cantidad + reservado(
                crate::libro::vista_de(ordenes@),
                k as nat,
            ) <= u32::MAX,
{
    let ghost todas = crate::libro::vista_de(ordenes@);
    let mut totales: Vec<u64> = Vec::new();
    let mut k: usize = 0;
    while k < productos.len()
        invariant
            0 <= k <= productos@.len(),
            totales@.len() == k,
            forall|j: int| 0 <= j < k ==> #[trigger] totales@[j] == productos@[j].cantidad,
        decreases productos@.len() - k,
    {
        totales.push(productos[k].cantidad as u64);
        k += 1;
    }
    let mut i: usize = 0;
    while i < ordenes.len()
        invariant
            0 <= i <= ordenes@.len(),
            todas == crate::libro::vista_de(ordenes@),
            totales@.len() == productos@.len(),
            forall|j: int|
                0 <= j < productos@.len() ==> #[trigger] totales@[j] == unidades_hasta(
                    productos@,
                    todas,
                    i as int,
                    j,
                ) && totales@[j] <= u32::MAX,
        decreases ordenes@.len() - i,
    {
        let orden = &ordenes[i];
        let k: usize = orden.producto_id as usize;
        let ghost antes = todas.take(i as int);
        proof {
            assert(todas.take(i + 1) =~= antes.push(todas[i as int]));
            assert forall|j: int| 0 <= j < productos@.len() implies #[trigger] unidades_hasta(
                productos@,
                todas,
                i + 1,
                j,
            ) == unidades_hasta(productos@, todas, i as int, j) + retiene(
                todas[i as int],
                j as nat,
            ) by {
                lema_reservado_con_nueva(antes, todas[i as int], j as nat);
            }
        }
        if orden.estado != EstadoOrden::Cancelada && k < productos.len() {
            let suma: u64 = totales[k] + orden.cantidad as u64;
            if suma > u32::MAX as u64 {
                proof {
                    lema_reservado_de_prefijo(todas, i + 1, k as nat);
                    assert(unidades_hasta(productos@, todas, i + 1, k as int) == suma);
                }
                return false;
            }
            totales.set(k, suma);
        }
        assert forall|j: int| 0 <= j < productos@.len() implies #[trigger] totales@[j]
            == unidades_hasta(productos@, todas, i + 1, j) && totales@[j] <= u32::MAX by {}
        i += 1;
    }
    assert(todas.take(i as int) =~= todas);
    assert forall|j: int| 0 <= j < productos@.len() implies (#[trigger] productos@[j]).cantidad
        + reservado(todas, j as nat) <= u32::MAX by {
        assert(totales@[j] <= u32::MAX);
    }
    true
}

/// Records that carry no repeated account and are rightly numbered are
/// coherent exactly if they are in order.
pub(crate) proof fn lema_coherente(usuarios: Seq<Usuario>, productos: Seq<Producto>, ordenes: Seq<Orden>)
    requires
        sin_repetidos(usuarios),
        numerados(productos),
        numeradas(ordenes),
    ensures
        coherente(usuarios, productos, ordenes) <==> en_regla(usuarios, productos, ordenes),
{
    let m = mercado_de(usuarios, productos, ordenes);
    if coherente(usuarios, productos, ordenes) {
        assert forall|k: int| 0 <= k < productos.len() implies tiene_rol(
            perfiles_de(usuarios),
            (#[trigger] productos[k]).vendedor,
            RolUsuario::Vendedor,
        ) by {
            assert(m.producto_valido(k));
        }
        assert forall|i: int| 0 <= i < ordenes.len() implies orden_en_regla(
            perfiles_de(usuarios),
            productos,
            #[trigger] ordenes[i],
        ) by {
            assert(m.orden_valida(i));
        }
        assert forall|k: int| 0 <= k < productos.len() implies (#[trigger] productos[k]).cantidad
            + reservado(crate::libro::vista_de(ordenes), k as nat) <= u32::MAX by {
            assert(m.unidades(k) <= u32::MAX);
        }
    }
    if en_regla(usuarios, productos, ordenes) {
        assert forall|k: int| 0 <= k < m.productos.len() implies #[trigger] m.producto_valido(
            k,
        ) by {}
        assert forall|i: int| 0 <= i < m.ordenes.len() implies #[trigger] m.orden_valida(i) by {}
        assert forall|k: int| 0 <= k < m.productos.len() implies #[trigger] m.unidades(k)
            <= u32::MAX by {
            assert(productos[k].cantidad + reservado(crate::libro::vista_de(ordenes), k as nat)
                <= u32::MAX);
        }
    }
}

} // verus!

//! The marketplace that callers talk to.
//!
//! Each operation is made on behalf of `llamador`, the account that the host
//! has authenticated for the call. It runs the checks of the guard, then
//! hands the work to the registry, the catalog and the order ledger, and
//! returns either what the call yields or the one error that turned it down.
//! A call that fails leaves the marketplace as it found it.

use crate::catalogo::{de_vendedor, numerados, Catalogo};
use crate::coherencia::{
    cabe, coherente, existencias_caben, lema_coherente, mercado_de, ordenes_en_regla,
    vendedores_en_regla,
};
use crate::guardia::{verificar_acceso, verificar_registro};
use crate::libro::{numeradas, LibroOrdenes};
use crate::modelo::{
    lema_reservado_sin_ordenes, lema_retiene_acotado, lema_unidades_tras, lema_valido_tras,
    Llamada, Mercado, Operacion,
};
use crate::registro::{tiene_rol, RegistroUsuarios};
use crate::tipos::{veredicto, Balance, Orden, Producto, RolUsuario, SistemaError, Usuario};
use ink::primitives::AccountId;
use vstd::prelude::*;

verus! {

/// The marketplace: its registry, its catalog and its order ledger. Its
/// view is the state that the model speaks of.
///
/// A marketplace is in a valid state at every point of the program: an
/// operation that changes it takes the three parts out, lets each do its
/// work and puts them back together.
pub struct MarketplacePrincipal {
    usuarios: RegistroUsuarios,
    productos: Catalogo,
    ordenes: LibroOrdenes,
}

impl View for MarketplacePrincipal {
    type V = Mercado;

    closed spec fn view(&self) -> Mercado {
        Mercado { perfiles: self.usuarios@, productos: self.productos@, ordenes: self.ordenes@ }
    }
}

proof fn lema_cabe_tras(m: Mercado, llamada: Llamada)
    requires
        m.valido(),
        cabe(m),
        llamada.operacion matches Operacion::Publicar { cantidad, .. } ==> cantidad <= u32::MAX,
    ensures
        cabe(m.tras(llamada)),
{
    let f = m.tras(llamada);
    assert forall|k: int| 0 <= k < f.productos.len() implies #[trigger] f.unidades(k)
        <= u32::MAX by {
        if k < m.productos.len() {
            lema_unidades_tras(m, llamada, k);
        } else {
            assert forall|i: int| 0 <= i < m.ordenes.len() implies (#[trigger] m.ordenes[i]).producto_id
                != k as nat by {
                assert(m.orden_valida(i));
            }
            lema_reservado_sin_ordenes(m.ordenes, k as nat);
        }
    }
}

impl MarketplacePrincipal {
    #[verifier::type_invariant]
    spec fn bien_formado(self) -> bool {
        self@.valido() && cabe(self@)
    }

    /// A marketplace without profiles, products or orders.
    pub fn new() -> (mercado: MarketplacePrincipal)
        ensures
            mercado@ == Mercado::vacio(),
            mercado@.valido(),
    {
        MarketplacePrincipal {
            usuarios: RegistroUsuarios::new(),
            productos: Catalogo::new(),
            ordenes: LibroOrdenes::new(),
        }
    }

    /// The marketplace that the given records stand for, where they are
    /// coherent; none else.
    pub fn restaurar(usuarios: Vec<Usuario>, productos: Vec<Producto>, ordenes: Vec<Orden>) -> (r:
        Option<MarketplacePrincipal>)
        ensures
            r is Some <==> coherente(usuarios@, productos@, ordenes@),
            r matches Some(mercado) ==> mercado@ == mercado_de(usuarios@, productos@, ordenes@)
                && mercado@.valido(),
    {
        let ghost perfiles = usuarios@;
        let registro = match RegistroUsuarios::desde(usuarios) {
            Some(registro) => registro,
            None => {
                return None;
            },
        };
        if !(vendedores_en_regla(&registro, &productos) && ordenes_en_regla(
            &registro,
            &productos,
            &ordenes,
        ) && existencias_caben(&productos, &ordenes)) {
            proof {
                if numerados(productos@) && numeradas(ordenes@) {
                    lema_coherente(perfiles, productos@, ordenes@);
                }
            }
            return None;
        }
        let catalogo = match Catalogo::desde(productos) {
            Some(catalogo) => catalogo,
            None => {
                return None;
            },
        };
        let libro = match LibroOrdenes::desde(ordenes) {
            Some(libro) => libro,
            None => {
                return None;
            },
        };
        Some(MarketplacePrincipal { usuarios: registro, productos: catalogo, ordenes: libro })
    }

    /// The records of the marketplace: one profile for each registered
    /// account, the products by id and the orders by id. They are coherent,
    /// and the marketplace can be restored from them.
    pub fn registros(&self) -> (r: (Vec<Usuario>, Vec<Producto>, Vec<Orden>))
        ensures
            coherente(r.0@, r.1@, r.2@),
            mercado_de(r.0@, r.1@, r.2@) == self@,
    {
        proof {
            use_type_invariant(self);
        }
        (self.usuarios.usuarios(), self.productos.productos(), self.ordenes.ordenes())
    }

    /// The profile of `cuenta`, if it has one.
    pub fn obtener_usuario(&self, cuenta: AccountId) -> (hallado: Option<Usuario>)
        ensures
            hallado is Some <==> self@.perfiles.contains_key(cuenta),
            hallado matches Some(u) ==> u@ == self@.perfiles[cuenta] && u.direccion == cuenta,
    {
        self.usuarios.buscar(cuenta)
    }

    /// Whether `cuenta` has a profile whose role serves for `requerido`.
    pub fn tiene_rol(&self, cuenta: AccountId, requerido: RolUsuario) -> (r: bool)
        ensures
            r == tiene_rol(self@.perfiles, cuenta, requerido),
    {
        self.usuarios.tiene_rol(cuenta, requerido)
    }

    /// How many products have been published.
    pub fn cantidad_productos(&self) -> (n: usize)
        ensures
            n == self@.productos.len(),
            n <= u32::MAX,
    {
        self.productos.total()
    }

    /// The product with the given id, if there is one.
    pub fn obtener_producto(&self, id: u32) -> (hallado: Option<Producto>)
        ensures
            hallado is Some <==> id < self@.productos.len(),
            hallado matches Some(p) ==> p@ == self@.productos[id as int] && p.id == id,
    {
        self.productos.obtener(id)
    }

    /// How many orders have been placed.
    pub fn cantidad_ordenes(&self) -> (n: usize)
        ensures
            n == self@.ordenes.len(),
            n <= u32::MAX,
    {
        self.ordenes.total()
    }

    /// The order with the given id, if there is one.
    pub fn obtener_orden(&self, id: u32) -> (hallada: Option<Orden>)
        ensures
            hallada is Some <==> id < self@.ordenes.len(),
            hallada matches Some(o) ==> o@ == self@.ordenes[id as int] && o.id == id,
    {
        self.ordenes.obtener(id)
    }

    /// Registers `llamador` with `rol` and no reputation. Fails with
    /// `UsuarioExistente` where `llamador` has a profile already.
    pub fn registrar_usuario(&mut self, llamador: AccountId, rol: RolUsuario) -> (r: Result<
        (),
        SistemaError,
    >)
        ensures
            r == veredicto(old(self)@.error_al_registrar(llamador), ()),
            final(self)@ == old(self)@.tras_registrar(llamador, rol),
            r is Err ==> final(self)@ == old(self)@,
            final(self)@.valido(),
    {
        proof {
            use_type_invariant(&*self);
        }
        let ghost antes = self@;
        let mut previo = MarketplacePrincipal::new();
        std::mem::swap(self, &mut previo);
        let MarketplacePrincipal { mut usuarios, productos, ordenes } = previo;
        let r = usuarios.registrar(llamador, rol);
        proof {
            let llamada = Llamada { llamador, operacion: Operacion::Registrar { rol } };
            lema_valido_tras(antes, llamada);
            lema_cabe_tras(antes, llamada);
        }
        *self = MarketplacePrincipal { usuarios, productos, ordenes };
        r
    }

    /// Publishes a product of `llamador` and returns its id, the number of
    /// products published before it.
    ///
    /// Fails with `UsuarioNoRegistrado` where `llamador` has no profile,
    /// else with `NoEsRolCorrecto` where its role is `Comprador`, else with
    /// `CantidadInsuficiente` where `cantidad` is zero. Any price is taken.
    pub fn publicar_producto(
        &mut self,
        llamador: AccountId,
        nombre: String,
        descripcion: String,
        precio: Balance,
        cantidad: u32,
        categoria: String,
    ) -> (r: Result<u32, SistemaError>)
        requires
            old(self)@.productos.len() < u32::MAX,
        ensures
            r == veredicto(
                old(self)@.error_al_publicar(llamador, cantidad as nat),
                old(self)@.productos.len() as u32,
            ),
            final(self)@ == old(self)@.tras_publicar(
                llamador,
                nombre@,
                descripcion@,
                precio as nat,
                cantidad as nat,
                categoria@,
            ),
            r is Err ==> final(self)@ == old(self)@,
            final(self)@.valido(),
    {
        proof {
            use_type_invariant(&*self);
        }
        verificar_acceso(&self.usuarios, llamador, RolUsuario::Vendedor, cantidad)?;
        let ghost antes = self@;
        let ghost llamada = Llamada {
            llamador,
            operacion: Operacion::Publicar {
                nombre: nombre@,
                descripcion: descripcion@,
                precio: precio as nat,
                cantidad: cantidad as nat,
                categoria: categoria@,
            },
        };
        let mut previo = MarketplacePrincipal::new();
        std::mem::swap(self, &mut previo);
        let MarketplacePrincipal { usuarios, mut productos, ordenes } = previo;
        let r = productos.publicar(llamador, nombre, descripcion, precio, cantidad, categoria);
        proof {
            lema_valido_tras(antes, llamada);
            lema_cabe_tras(antes, llamada);
        }
        *self = MarketplacePrincipal { usuarios, productos, ordenes };
        r
    }

    /// The products that `llamador` has published, oldest first. An account
    /// that has published none, registered or not, gets an empty list.
    pub fn listar_productos_propios(&self, llamador: AccountId) -> (propios: Vec<Producto>)
        ensures
            crate::catalogo::vista_de(propios@) == de_vendedor(self@.productos, llamador),
    {
        self.productos.listar_de_vendedor(llamador)
    }

    /// Orders `cantidad` units of a product for `llamador`: takes them out
    /// of the product's stock, places a pending order that holds them, and
    /// returns the order's id, the number of orders placed before it.
    ///
    /// Fails with `UsuarioNoRegistrado` where `llamador` has no profile,
    /// else with `NoEsRolCorrecto` where its role is `Vendedor`, else with
    /// `CantidadInsuficiente` where `cantidad` is zero, else with
    /// `ProductosVacios` where no product has the id `producto_id`, else
    /// with `CantidadInsuficiente` where the product has fewer than
    /// `cantidad` units left.
    pub fn crear_orden(&mut self, llamador: AccountId, producto_id: u32, cantidad: u32) -> (r: Result<
        u32,
        SistemaError,
    >)
        requires
            old(self)@.ordenes.len() < u32::MAX,
        ensures
            r == veredicto(
                old(self)@.error_al_ordenar(llamador, producto_id as nat, cantidad as nat),
                old(self)@.ordenes.len() as u32,
            ),
            final(self)@ == old(self)@.tras_ordenar(llamador, producto_id as nat, cantidad as nat),
            r is Err ==> final(self)@ == old(self)@,
            final(self)@.valido(),
    {
        proof {
            use_type_invariant(&*self);
        }
        verificar_acceso(&self.usuarios, llamador, RolUsuario::Comprador, cantidad)?;
        let ghost antes = self@;
        let ghost llamada = Llamada {
            llamador,
            operacion: Operacion::Ordenar {
                producto_id: producto_id as nat,
                cantidad: cantidad as nat,
            },
        };
        let mut previo = MarketplacePrincipal::new();
        std::mem::swap(self, &mut previo);
        let MarketplacePrincipal { usuarios, mut productos, mut ordenes } = previo;
        let r = match productos.reservar(producto_id, cantidad) {
            Ok(vendedor) => Ok(ordenes.crear(llamador, vendedor, producto_id, cantidad)),
            Err(e) => Err(e),
        };
        proof {
            lema_valido_tras(antes, llamada);
            lema_cabe_tras(antes, llamada);
        }
        *self = MarketplacePrincipal { usuarios, productos, ordenes };
        r
    }

    /// Marks a pending order as shipped, on behalf of its seller.
    ///
    /// Fails with `UsuarioNoRegistrado` where `llamador` has no profile,
    /// else with `OrdenNoExiste` where no order has the id `orden_id`, else
    /// with `NoAutorizado` where `llamador` is not the order's seller, else
    /// with `EstadoInvalido` where the order is not pending.
    pub fn marcar_orden_como_enviada(&mut self, llamador: AccountId, orden_id: u32) -> (r: Result<
        (),
        SistemaError,
    >)
        ensures
            r == veredicto(old(self)@.error_al_enviar(llamador, orden_id as nat), ()),
            final(self)@ == old(self)@.tras_enviar(llamador, orden_id as nat),
            r is Err ==> final(self)@ == old(self)@,
            final(self)@.valido(),
    {
        proof {
            use_type_invariant(&*self);
        }
        verificar_registro(&self.usuarios, llamador)?;
        let ghost antes = self@;
        let ghost llamada = Llamada {
            llamador,
            operacion: Operacion::Enviar { orden_id: orden_id as nat },
        };
        let mut previo = MarketplacePrincipal::new();
        std::mem::swap(self, &mut previo);
        let MarketplacePrincipal { usuarios, productos, mut ordenes } = previo;
        let r = ordenes.marcar_enviada(llamador, orden_id);
        proof {
            lema_valido_tras(antes, llamada);
            lema_cabe_tras(antes, llamada);
        }
        *self = MarketplacePrincipal { usuarios, productos, ordenes };
        r
    }

    /// Marks a shipped order as received, on behalf of its buyer.
    ///
    /// Fails with `UsuarioNoRegistrado` where `llamador` has no profile,
    /// else with `OrdenNoExiste` where no order has the id `orden_id`, else
    /// with `NoAutorizado` where `llamador` is not the order's buyer, else
    /// with `EstadoInvalido` where the order has not been shipped or has
    /// been received already.
    pub fn marcar_como_recibida(&mut self, llamador: AccountId, orden_id: u32) -> (r: Result<
        (),
        SistemaError,
    >)
        ensures
            r == veredicto(old(self)@.error_al_recibir(llamador, orden_id as nat), ()),
            final(self)@ == old(self)@.tras_recibir(llamador, orden_id as nat),
            r is Err ==> final(self)@ == old(self)@,
            final(self)@.valido(),
    {
        proof {
            use_type_invariant(&*self);
        }
        verificar_registro(&self.usuarios, llamador)?;
        let ghost antes = self@;
        let ghost llamada = Llamada {
            llamador,
            operacion: Operacion::Recibir { orden_id: orden_id as nat },
        };
        let mut previo = MarketplacePrincipal::new();
        std::mem::swap(self, &mut previo);
        let MarketplacePrincipal { usuarios, productos, mut ordenes } = previo;
        let r = ordenes.marcar_recibida(llamador, orden_id);
        proof {
            lema_valido_tras(antes, llamada);
            lema_cabe_tras(antes, llamada);
        }
        *self = MarketplacePrincipal { usuarios, productos, ordenes };
        r
    }

    /// Records that `llamador` asks to cancel a pending order of which it
    /// is the buyer or the seller. Once both have asked, the order is
    /// cancelled and its units go back to the product's stock; until then
    /// the order stays pending. Asking again is accepted and changes
    /// nothing.
    ///
    /// Fails with `UsuarioNoRegistrado` where `llamador` has no profile,
    /// else with `OrdenNoExiste` where no order has the id `orden_id`, else
    /// with `EstadoInvalido` where the order is not pending, else with
    /// `NoAutorizado` where `llamador` is no party of the order.
    pub fn solicitar_cancelacion(&mut self, llamador: AccountId, orden_id: u32) -> (r: Result<
        (),
        SistemaError,
    >)
        ensures
            r == veredicto(old(self)@.error_al_cancelar(llamador, orden_id as nat), ()),
            final(self)@ == old(self)@.tras_cancelar(llamador, orden_id as nat),
            r is Err ==> final(self)@ == old(self)@,
            final(self)@.valido(),
    {
        proof {
            use_type_invariant(&*self);
        }
        verificar_registro(&self.usuarios, llamador)?;
        let orden = match self.ordenes.obtener(orden_id) {
            Some(orden) => orden,
            None => {
                return Err(SistemaError::OrdenNoExiste);
            },
        };
        let ghost antes = self@;
        let ghost llamada = Llamada {
            llamador,
            operacion: Operacion::Cancelar { orden_id: orden_id as nat },
        };
        proof {
            assert(antes.orden_valida(orden_id as int));
            assert(antes.unidades(orden.producto_id as int) <= u32::MAX);
            lema_retiene_acotado(antes.ordenes, orden_id as int, orden.producto_id as nat);
        }
        let mut previo = MarketplacePrincipal::new();
        std::mem::swap(self, &mut previo);
        let MarketplacePrincipal { usuarios, mut productos, mut ordenes } = previo;
        let r = match ordenes.solicitar_cancelacion(llamador, orden_id) {
            Ok(acordada) => {
                if acordada {
                    productos.liberar(orden.producto_id, orden.cantidad)
                } else {
                    Ok(())
                }
            },
            Err(e) => Err(e),
        };
        proof {
            lema_valido_tras(antes, llamada);
            lema_cabe_tras(antes, llamada);
        }
        *self = MarketplacePrincipal { usuarios, productos, ordenes };
        r
    }
}

} // verus!

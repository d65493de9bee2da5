//! Roles, order states, error kinds and the three records of the ledger,
//! each record with the mathematical value that contracts speak of.

use ink::primitives::AccountId;
use vstd::prelude::*;

verus! {

/// Unit amounts of the native currency.
pub type Balance = u128;

/// What a registered user may do in the marketplace.
#[derive(Debug, Clone, Copy, PartialEq, Eq, Structural)]
pub enum RolUsuario {
    Comprador,
    Vendedor,
    Ambos,
}

impl RolUsuario {
    /// A user who holds `self` may act where `requerido` is asked for:
    /// `Ambos` serves for any role, every other role only for itself.
    pub open spec fn satisface(self, requerido: RolUsuario) -> bool {
        self == RolUsuario::Ambos || self == requerido
    }

    /// Whether a user who holds `self` may act where `requerido` is asked
    /// for.
    pub fn cumple(&self, requerido: &RolUsuario) -> (r: bool)
        ensures
            r == self.satisface(*requerido),
    {
        match (self, requerido) {
            (RolUsuario::Ambos, _) => true,
            (RolUsuario::Comprador, RolUsuario::Comprador) => true,
            (RolUsuario::Vendedor, RolUsuario::Vendedor) => true,
            _ => false,
        }
    }
}

/// Where an order stands in its life.
///
/// `Pendiente` is where every order starts. From there it is either shipped
/// and then received, or cancelled by agreement of both parties. `Recibida`
/// and `Cancelada` are final.
#[derive(Debug, Clone, Copy, PartialEq, Eq, Structural)]
pub enum EstadoOrden {
    Pendiente,
    Enviada,
    Recibida,
    Cancelada,
}

impl EstadoOrden {
    /// No operation moves an order out of a final state.
    pub open spec fn es_final(self) -> bool {
        self == EstadoOrden::Recibida || self == EstadoOrden::Cancelada
    }
}

/// Why a call was turned down. A call that fails changes nothing.
#[derive(Debug, Clone, Copy, PartialEq, Eq, Structural)]
pub enum SistemaError {
    /// The quantity asked for is zero or more than the stock at hand.
    CantidadInsuficiente,
    /// The caller has no profile.
    UsuarioNoRegistrado,
    /// No product has the given id.
    ProductosVacios,
    /// The caller's profile lacks the buyer or seller role that the call needs.
    NoEsRolCorrecto,
    /// The order's state does not allow the change asked for.
    EstadoInvalido,
    /// No order has the given id.
    OrdenNoExiste,
    /// The caller already has a profile.
    UsuarioExistente,
    /// The caller is not the party of the order that may ask for this change.
    NoAutorizado,
}

/// What a call returns when `error` is the first check that it fails, if
/// any, and `valor` is what it yields when it fails none.
pub open spec fn veredicto<T>(error: Option<SistemaError>, valor: T) -> Result<T, SistemaError> {
    match error {
        Some(e) => Err(e),
        None => Ok(valor),
    }
}

impl SistemaError {
    /// The text shown to a person for this error.
    pub open spec fn texto(self) -> Seq<char> {
        match self {
            SistemaError::CantidadInsuficiente => "Cantidad insuficiente"@,
            SistemaError::UsuarioNoRegistrado => "El usuario no se encuentra registrado"@,
            SistemaError::NoEsRolCorrecto => "El usuario no es del rol correcto"@,
            SistemaError::ProductosVacios => "No se encontraron productos"@,
            SistemaError::EstadoInvalido => "El estado de la orden es inválido"@,
            SistemaError::OrdenNoExiste => "La orden no existe"@,
            SistemaError::UsuarioExistente => "El usuario ya está registrado"@,
            SistemaError::NoAutorizado => "El usuario no es parte autorizada de la orden"@,
        }
    }

    /// The text shown to a person for this error.
    pub fn mensaje(&self) -> (r: String)
        ensures
            r@ == self.texto(),
    {
        match self {
            SistemaError::CantidadInsuficiente => "Cantidad insuficiente".to_owned(),
            SistemaError::UsuarioNoRegistrado => "El usuario no se encuentra registrado".to_owned(),
            SistemaError::NoEsRolCorrecto => "El usuario no es del rol correcto".to_owned(),
            SistemaError::ProductosVacios => "No se encontraron productos".to_owned(),
            SistemaError::EstadoInvalido => "El estado de la orden es inválido".to_owned(),
            SistemaError::OrdenNoExiste => "La orden no existe".to_owned(),
            SistemaError::UsuarioExistente => "El usuario ya está registrado".to_owned(),
            SistemaError::NoAutorizado => "El usuario no es parte autorizada de la orden".to_owned(),
        }
    }
}

/// The profile of a registered account.
#[derive(Debug, Clone, Copy, PartialEq, Eq)]
pub struct Usuario {
    pub direccion: AccountId,
    pub rol: RolUsuario,
    pub reputacion_como_comprador: u32,
    pub reputacion_como_vendedor: u32,
}

/// A profile as contracts see it.
pub ghost struct UsuarioVista {
    pub direccion: AccountId,
    pub rol: RolUsuario,
    pub reputacion_como_comprador: nat,
    pub reputacion_como_vendedor: nat,
}

impl View for Usuario {
    type V = UsuarioVista;

    open spec fn view(&self) -> UsuarioVista {
        UsuarioVista {
            direccion: self.direccion,
            rol: self.rol,
            reputacion_como_comprador: self.reputacion_como_comprador as nat,
            reputacion_como_vendedor: self.reputacion_como_vendedor as nat,
        }
    }
}

impl UsuarioVista {
    /// The profile that registration creates: the given role, no reputation yet.
    pub open spec fn nuevo(direccion: AccountId, rol: RolUsuario) -> UsuarioVista {
        UsuarioVista { direccion, rol, reputacion_como_comprador: 0, reputacion_como_vendedor: 0 }
    }
}

impl Usuario {
    /// The profile of an account that registers with `rol`.
    pub fn new(direccion: AccountId, rol: RolUsuario) -> (u: Usuario)
        ensures
            u == (Usuario {
                direccion,
                rol,
                reputacion_como_comprador: 0,
                reputacion_como_vendedor: 0,
            }),
            u@ == UsuarioVista::nuevo(direccion, rol),
    {
        Usuario { direccion, rol, reputacion_como_comprador: 0, reputacion_como_vendedor: 0 }
    }
}

/// A listing in the catalog.
#[derive(Debug, PartialEq, Eq)]
pub struct Producto {
    pub id: u32,
    pub nombre: String,
    pub descripcion: String,
    pub precio: Balance,
    pub cantidad: u32,
    pub categoria: String,
    pub vendedor: AccountId,
}

/// A listing as contracts see it.
pub ghost struct ProductoVista {
    pub id: nat,
    pub nombre: Seq<char>,
    pub descripcion: Seq<char>,
    pub precio: nat,
    pub cantidad: nat,
    pub categoria: Seq<char>,
    pub vendedor: AccountId,
}

impl View for Producto {
    type V = ProductoVista;

    open spec fn view(&self) -> ProductoVista {
        ProductoVista {
            id: self.id as nat,
            nombre: self.nombre@,
            descripcion: self.descripcion@,
            precio: self.precio as nat,
            cantidad: self.cantidad as nat,
            categoria: self.categoria@,
            vendedor: self.vendedor,
        }
    }
}

impl Producto {
    /// The listing with the given contents.
    pub fn new(
        id: u32,
        nombre: String,
        descripcion: String,
        precio: Balance,
        cantidad: u32,
        categoria: String,
        vendedor: AccountId,
    ) -> (p: Producto)
        ensures
            p == (Producto { id, nombre, descripcion, precio, cantidad, categoria, vendedor }),
    {
        Producto { id, nombre, descripcion, precio, cantidad, categoria, vendedor }
    }
}

impl Clone for Producto {
    fn clone(&self) -> (p: Producto)
        ensures
            p == *self,
    {
        Producto {
            id: self.id,
            nombre: self.nombre.clone(),
            descripcion: self.descripcion.clone(),
            precio: self.precio,
            cantidad: self.cantidad,
            categoria: self.categoria.clone(),
            vendedor: self.vendedor,
        }
    }
}

/// A purchase order.
#[derive(Debug, Clone, Copy, PartialEq, Eq)]
pub struct Orden {
    pub id: u32,
    pub comprador: AccountId,
    pub vendedor: AccountId,
    pub producto_id: u32,
    pub cantidad: u32,
    pub estado: EstadoOrden,
    /// The buyer has asked to cancel.
    pub comprador_cancela: bool,
    /// The seller has asked to cancel.
    pub vendedor_cancela: bool,
    pub comprador_califico: bool,
    pub vendedor_califico: bool,
}

/// An order as contracts see it.
pub ghost struct OrdenVista {
    pub id: nat,
    pub comprador: AccountId,
    pub vendedor: AccountId,
    pub producto_id: nat,
    pub cantidad: nat,
    pub estado: EstadoOrden,
    pub comprador_cancela: bool,
    pub vendedor_cancela: bool,
    pub comprador_califico: bool,
    pub vendedor_califico: bool,
}

impl View for Orden {
    type V = OrdenVista;

    open spec fn view(&self) -> OrdenVista {
        OrdenVista {
            id: self.id as nat,
            comprador: self.comprador,
            vendedor: self.vendedor,
            producto_id: self.producto_id as nat,
            cantidad: self.cantidad as nat,
            estado: self.estado,
            comprador_cancela: self.comprador_cancela,
            vendedor_cancela: self.vendedor_cancela,
            comprador_califico: self.comprador_califico,
            vendedor_califico: self.vendedor_califico,
        }
    }
}

impl OrdenVista {
    /// The order as it is created: pending, nobody has asked to cancel,
    /// nobody has rated.
    pub open spec fn nueva(
        id: nat,
        comprador: AccountId,
        vendedor: AccountId,
        producto_id: nat,
        cantidad: nat,
    ) -> OrdenVista {
        OrdenVista {
            id,
            comprador,
            vendedor,
            producto_id,
            cantidad,
            estado: EstadoOrden::Pendiente,
            comprador_cancela: false,
            vendedor_cancela: false,
            comprador_califico: false,
            vendedor_califico: false,
        }
    }
}

impl Orden {
    /// The order as it is placed: pending, with no request to cancel and no
    /// rating on record.
    pub fn new(
        id: u32,
        comprador: AccountId,
        vendedor: AccountId,
        producto_id: u32,
        cantidad: u32,
    ) -> (o: Orden)
        ensures
            o == (Orden {
                id,
                comprador,
                vendedor,
                producto_id,
                cantidad,
                estado: EstadoOrden::Pendiente,
                comprador_cancela: false,
                vendedor_cancela: false,
                comprador_califico: false,
                vendedor_califico: false,
            }),
            o@ == OrdenVista::nueva(id as nat, comprador, vendedor, producto_id as nat, cantidad as nat),
    {
        Orden {
            id,
            comprador,
            vendedor,
            producto_id,
            cantidad,
            estado: EstadoOrden::Pendiente,
            comprador_cancela: false,
            vendedor_cancela: false,
            comprador_califico: false,
            vendedor_califico: false,
        }
    }
}

} // verus!

//! The checks that come before every mutation of the catalog and of the
//! order ledger. They read the registry and change nothing.
//!
//! A call is checked in a fixed order, and the first check that fails
//! decides the error: that the caller has a profile, then that the profile
//! has the role, then that the quantity is positive.

use crate::registro::{tiene_rol, Perfiles, RegistroUsuarios};
use crate::tipos::{veredicto, RolUsuario, SistemaError};
use ink::primitives::AccountId;
use vstd::prelude::*;

verus! {

/// The first of two checks that fails, if any.
pub open spec fn primero(a: Option<SistemaError>, b: Option<SistemaError>) -> Option<SistemaError> {
    if a is Some {
        a
    } else {
        b
    }
}

/// Why `cuenta` may not act at all: it has no profile.
pub open spec fn error_de_registro(perfiles: Perfiles, cuenta: AccountId) -> Option<SistemaError> {
    if perfiles.contains_key(cuenta) {
        None
    } else {
        Some(SistemaError::UsuarioNoRegistrado)
    }
}

/// Why `cuenta` may not act as `requerido`: it has no profile, or its
/// profile has another role. An account without a profile is reported as
/// such, never as one with the wrong role.
pub open spec fn error_de_rol(perfiles: Perfiles, cuenta: AccountId, requerido: RolUsuario) -> Option<
    SistemaError,
> {
    if !perfiles.contains_key(cuenta) {
        Some(SistemaError::UsuarioNoRegistrado)
    } else if !perfiles[cuenta].rol.satisface(requerido) {
        Some(SistemaError::NoEsRolCorrecto)
    } else {
        None
    }
}

/// Why `cantidad` units cannot be published or ordered: there are none.
pub open spec fn error_de_cantidad(cantidad: nat) -> Option<SistemaError> {
    if cantidad == 0 {
        Some(SistemaError::CantidadInsuficiente)
    } else {
        None
    }
}

/// Why `cuenta` may not publish or order `cantidad` units in the role
/// `requerido`: the checks on profile, role and quantity, in that order.
pub open spec fn error_de_acceso(
    perfiles: Perfiles,
    cuenta: AccountId,
    requerido: RolUsuario,
    cantidad: nat,
) -> Option<SistemaError> {
    primero(
        error_de_registro(perfiles, cuenta),
        primero(error_de_rol(perfiles, cuenta, requerido), error_de_cantidad(cantidad)),
    )
}

/// Fails unless `usuario` has a profile.
pub fn verificar_registro(registro: &RegistroUsuarios, usuario: AccountId) -> (r: Result<
    (),
    SistemaError,
>)
    ensures
        r == veredicto(error_de_registro(registro@, usuario), ()),
{
    if registro.esta_registrado(usuario) {
        Ok(())
    } else {
        Err(SistemaError::UsuarioNoRegistrado)
    }
}

/// Fails unless `usuario` has a profile whose role serves for
/// `rol_requerido`.
pub fn verificar_rol(
    registro: &RegistroUsuarios,
    usuario: AccountId,
    rol_requerido: RolUsuario,
) -> (r: Result<(), SistemaError>)
    ensures
        r == veredicto(error_de_rol(registro@, usuario, rol_requerido), ()),
        r is Ok <==> tiene_rol(registro@, usuario, rol_requerido),
{
    match registro.buscar(usuario) {
        None => Err(SistemaError::UsuarioNoRegistrado),
        Some(perfil) => {
            if perfil.rol.cumple(&rol_requerido) {
                Ok(())
            } else {
                Err(SistemaError::NoEsRolCorrecto)
            }
        },
    }
}

/// Fails unless `cantidad` is positive.
pub fn verificar_cantidad(cantidad: u32) -> (r: Result<(), SistemaError>)
    ensures
        r == veredicto(error_de_cantidad(cantidad as nat), ()),
{
    if cantidad == 0 {
        Err(SistemaError::CantidadInsuficiente)
    } else {
        Ok(())
    }
}

/// The three checks in their order: profile, role, quantity.
pub fn verificar_acceso(
    registro: &RegistroUsuarios,
    usuario: AccountId,
    rol_requerido: RolUsuario,
    cantidad: u32,
) -> (r: Result<(), SistemaError>)
    ensures
        r == veredicto(error_de_acceso(registro@, usuario, rol_requerido, cantidad as nat), ()),
{
    verificar_registro(registro, usuario)?;
    verificar_rol(registro, usuario, rol_requerido)?;
    verificar_cantidad(cantidad)
}

} // verus!

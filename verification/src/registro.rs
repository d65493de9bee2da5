//! The identity and role registry: which accounts have a profile, and with
//! which role. A profile is created once and never removed.

use crate::tipos::{veredicto, RolUsuario, SistemaError, Usuario, UsuarioVista};
use ink::primitives::AccountId;
use vstd::prelude::*;

verus! {

/// The profiles of a registry, by account.
pub type Perfiles = Map<AccountId, UsuarioVista>;

/// Why `cuenta` cannot register: it already has a profile.
pub open spec fn error_de_alta(perfiles: Perfiles, cuenta: AccountId) -> Option<SistemaError> {
    if perfiles.contains_key(cuenta) {
        Some(SistemaError::UsuarioExistente)
    } else {
        None
    }
}

/// The profiles after `cuenta` has asked to register with `rol`: one more
/// profile if it had none, the same profiles if it had one.
pub open spec fn tras_alta(perfiles: Perfiles, cuenta: AccountId, rol: RolUsuario) -> Perfiles {
    if perfiles.contains_key(cuenta) {
        perfiles
    } else {
        perfiles.insert(cuenta, UsuarioVista::nuevo(cuenta, rol))
    }
}

/// `cuenta` has a profile whose role serves for `requerido`. An account
/// without a profile holds no role.
pub open spec fn tiene_rol(perfiles: Perfiles, cuenta: AccountId, requerido: RolUsuario) -> bool {
    perfiles.contains_key(cuenta) && perfiles[cuenta].rol.satisface(requerido)
}

/// The registry. Its view is the map from each registered account to its
/// profile.
///
/// A registry is well formed at every point of the program: a method that
/// changes it takes the profiles out, changes them and puts them back.
pub struct RegistroUsuarios {
    usuarios: Vec<Usuario>,
}

/// `cuenta` is the account of the profile at position `i` of `usuarios`.
pub open spec fn esta_en(usuarios: Seq<Usuario>, cuenta: AccountId, i: int) -> bool {
    0 <= i < usuarios.len() && usuarios[i].direccion == cuenta
}

/// No two profiles of `usuarios` are of the same account.
pub open spec fn sin_repetidos(usuarios: Seq<Usuario>) -> bool {
    forall|i: int, j: int|
        0 <= i < j < usuarios.len() ==> usuarios[i].direccion != usuarios[j].direccion
}

/// The profiles of `usuarios`, each under its account.
pub open spec fn perfiles_de(usuarios: Seq<Usuario>) -> Perfiles {
    Map::new(
        |cuenta: AccountId| exists|i: int| esta_en(usuarios, cuenta, i),
        |cuenta: AccountId| usuarios[choose|i: int| esta_en(usuarios, cuenta, i)]@,
    )
}

proof fn lema_hallado(usuarios: Seq<Usuario>, i: int)
    requires
        sin_repetidos(usuarios),
        0 <= i < usuarios.len(),
    ensures
        perfiles_de(usuarios).contains_key(usuarios[i].direccion),
        perfiles_de(usuarios)[usuarios[i].direccion] == usuarios[i]@,
{
    assert(esta_en(usuarios, usuarios[i].direccion, i));
}

proof fn lema_alta(usuarios: Seq<Usuario>, nuevo: Usuario)
    requires
        sin_repetidos(usuarios),
        !perfiles_de(usuarios).contains_key(nuevo.direccion),
    ensures
        sin_repetidos(usuarios.push(nuevo)),
        perfiles_de(usuarios.push(nuevo)) == perfiles_de(usuarios).insert(nuevo.direccion, nuevo@),
{
    let mas = usuarios.push(nuevo);
    let n = usuarios.len() as int;
    assert forall|i: int| 0 <= i < n implies usuarios[i].direccion != nuevo.direccion by {
        assert(esta_en(usuarios, usuarios[i].direccion, i));
    }
    let antes = perfiles_de(usuarios);
    let despues = perfiles_de(mas);
    assert forall|cuenta: AccountId| despues.contains_key(cuenta) <==> (cuenta == nuevo.direccion
        || antes.contains_key(cuenta)) by {
        if cuenta == nuevo.direccion {
            assert(esta_en(mas, cuenta, n));
        }
        if antes.contains_key(cuenta) {
            let i = choose|i: int| esta_en(usuarios, cuenta, i);
            assert(esta_en(mas, cuenta, i));
        }
        if despues.contains_key(cuenta) && cuenta != nuevo.direccion {
            let i = choose|i: int| esta_en(mas, cuenta, i);
            assert(esta_en(usuarios, cuenta, i));
        }
    }
    assert forall|cuenta: AccountId| despues.contains_key(cuenta) implies despues[cuenta]
        == antes.insert(nuevo.direccion, nuevo@)[cuenta] by {
        let i = choose|i: int| esta_en(mas, cuenta, i);
    }
}

impl View for RegistroUsuarios {
    type V = Perfiles;

    closed spec fn view(&self) -> Perfiles {
        perfiles_de(self.usuarios@)
    }
}

impl RegistroUsuarios {
    #[verifier::type_invariant]
    spec fn bien_formado(self) -> bool {
        sin_repetidos(self.usuarios@)
    }

    /// A registry without profiles.
    pub fn new() -> (registro: RegistroUsuarios)
        ensures
            registro@ == Map::<AccountId, UsuarioVista>::empty(),
    {
        RegistroUsuarios { usuarios: Vec::new() }
    }

    /// The registry of the given profiles, where no two of them are of the
    /// same account; none else.
    pub fn desde(usuarios: Vec<Usuario>) -> (r: Option<RegistroUsuarios>)
        ensures
            r is Some <==> sin_repetidos(usuarios@),
            r matches Some(registro) ==> registro@ == perfiles_de(usuarios@),
    {
        let mut j: usize = 0;
        while j < usuarios.len()
            invariant
                0 <= j <= usuarios@.len(),
                forall|a: int, b: int|
                    0 <= a < b < j ==> usuarios@[a].direccion != usuarios@[b].direccion,
            decreases usuarios@.len() - j,
        {
            let mut i: usize = 0;
            while i < j
                invariant
                    0 <= i <= j < usuarios@.len(),
                    forall|a: int| 0 <= a < i ==> usuarios@[a].direccion != usuarios@[j as int].direccion,
                decreases j - i,
            {
                if usuarios[i].direccion == usuarios[j].direccion {
                    return None;
                }
                i += 1;
            }
            j += 1;
        }
        Some(RegistroUsuarios { usuarios })
    }

    /// The profiles, one for each registered account.
    pub fn usuarios(&self) -> (copia: Vec<Usuario>)
        ensures
            sin_repetidos(copia@),
            perfiles_de(copia@) == self@,
    {
        proof {
            use_type_invariant(self);
        }
        let mut copia: Vec<Usuario> = Vec::new();
        let mut i: usize = 0;
        while i < self.usuarios.len()
            invariant
                0 <= i <= self.usuarios@.len(),
                copia@ == self.usuarios@.take(i as int),
            decreases self.usuarios@.len() - i,
        {
            copia.push(self.usuarios[i]);
            assert(self.usuarios@.take(i + 1) =~= self.usuarios@.take(i as int).push(
                self.usuarios@[i as int],
            ));
            i += 1;
        }
        assert(self.usuarios@.take(i as int) =~= self.usuarios@);
        copia
    }

    /// The profile of `cuenta`, if it has one.
    pub fn buscar(&self, cuenta: AccountId) -> (hallado: Option<Usuario>)
        ensures
            hallado is Some <==> self@.contains_key(cuenta),
            hallado matches Some(u) ==> u@ == self@[cuenta] && u.direccion == cuenta,
    {
        proof {
            use_type_invariant(self);
        }
        let mut i: usize = 0;
        while i < self.usuarios.len()
            invariant
                0 <= i <= self.usuarios@.len(),
                sin_repetidos(self.usuarios@),
                forall|k: int| 0 <= k < i ==> self.usuarios@[k].direccion != cuenta,
            decreases self.usuarios@.len() - i,
        {
            if self.usuarios[i].direccion == cuenta {
                proof {
                    lema_hallado(self.usuarios@, i as int);
                }
                return Some(self.usuarios[i]);
            }
            i += 1;
        }
        None
    }

    /// Whether `cuenta` has a profile.
    pub fn esta_registrado(&self, cuenta: AccountId) -> (r: bool)
        ensures
            r == self@.contains_key(cuenta),
    {
        self.buscar(cuenta).is_some()
    }

    /// Whether `cuenta` has a profile whose role serves for `requerido`.
    pub fn tiene_rol(&self, cuenta: AccountId, requerido: RolUsuario) -> (r: bool)
        ensures
            r == tiene_rol(self@, cuenta, requerido),
    {
        match self.buscar(cuenta) {
            Some(usuario) => usuario.rol.cumple(&requerido),
            None => false,
        }
    }

    /// Creates the profile of `cuenta` with `rol` and no reputation, unless
    /// it has one already: then the call fails and the profile stays as it is.
    pub fn registrar(&mut self, cuenta: AccountId, rol: RolUsuario) -> (r: Result<(), SistemaError>)
        ensures
            r == veredicto(error_de_alta(old(self)@, cuenta), ()),
            final(self)@ == tras_alta(old(self)@, cuenta, rol),
            r is Err ==> final(self)@ == old(self)@,
    {
        proof {
            use_type_invariant(&*self);
        }
        if self.esta_registrado(cuenta) {
            return Err(SistemaError::UsuarioExistente);
        }
        let nuevo = Usuario::new(cuenta, rol);
        let mut previo = RegistroUsuarios::new();
        std::mem::swap(self, &mut previo);
        let RegistroUsuarios { mut usuarios } = previo;
        proof {
            lema_alta(usuarios@, nuevo);
        }
        usuarios.push(nuevo);
        *self = RegistroUsuarios { usuarios };
        Ok(())
    }
}

} // verus!

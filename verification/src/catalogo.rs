//! The catalog: the published products, in the order in which they were
//! published, and the stock that is left of each.
//!
//! A product's id is its position in the catalog. Stock goes down when an
//! order reserves it and comes back when an order is cancelled; nothing else
//! changes a product, and none is ever removed.

use crate::tipos::{veredicto, Balance, Producto, ProductoVista, SistemaError};
use ink::primitives::AccountId;
use vstd::prelude::*;

verus! {

/// The products of a catalog, by id.
pub type Listado = Seq<ProductoVista>;

/// The views of `productos`, one for one.
pub open spec fn vista_de(productos: Seq<Producto>) -> Listado {
    productos.map_values(|p: Producto| p@)
}

/// Each of `productos` carries its position as id, and the ids fit in a
/// `u32`.
pub open spec fn numerados(productos: Seq<Producto>) -> bool {
    &&& productos.len() <= u32::MAX
    &&& forall|i: int| 0 <= i < productos.len() ==> (#[trigger] productos[i]).id == i
}

/// `listado` with the stock of product `id` set to `cantidad`.
pub open spec fn con_existencias(listado: Listado, id: int, cantidad: nat) -> Listado
    recommends
        0 <= id < listado.len(),
{
    listado.update(id, ProductoVista { cantidad, ..listado[id] })
}

/// Why a product with `cantidad` units cannot be published: there must be
/// at least one unit.
pub open spec fn error_de_publicacion(cantidad: nat) -> Option<SistemaError> {
    if cantidad == 0 {
        Some(SistemaError::CantidadInsuficiente)
    } else {
        None
    }
}

/// The catalog after `vendedor` has asked to publish a product: the product
/// stands at the end, under the next id, unless the publication fails.
pub open spec fn tras_publicacion(
    listado: Listado,
    vendedor: AccountId,
    nombre: Seq<char>,
    descripcion: Seq<char>,
    precio: nat,
    cantidad: nat,
    categoria: Seq<char>,
) -> Listado {
    if cantidad == 0 {
        listado
    } else {
        listado.push(
            ProductoVista {
                id: listado.len(),
                nombre,
                descripcion,
                precio,
                cantidad,
                categoria,
                vendedor,
            },
        )
    }
}

/// Why `cantidad` units of product `id` cannot be reserved: there is no such
/// product, or it has fewer units left.
pub open spec fn error_de_reserva(listado: Listado, id: nat, cantidad: nat) -> Option<SistemaError> {
    if id >= listado.len() {
        Some(SistemaError::ProductosVacios)
    } else if listado[id as int].cantidad < cantidad {
        Some(SistemaError::CantidadInsuficiente)
    } else {
        None
    }
}

/// The catalog after a request to reserve `cantidad` units of product `id`:
/// that many units fewer of it, unless the reservation fails.
pub open spec fn tras_reserva(listado: Listado, id: nat, cantidad: nat) -> Listado {
    if error_de_reserva(listado, id, cantidad) is None {
        con_existencias(listado, id as int, (listado[id as int].cantidad - cantidad) as nat)
    } else {
        listado
    }
}

/// Why units of product `id` cannot be released: there is no such product.
pub open spec fn error_de_liberacion(listado: Listado, id: nat) -> Option<SistemaError> {
    if id >= listado.len() {
        Some(SistemaError::ProductosVacios)
    } else {
        None
    }
}

/// The catalog after a request to release `cantidad` units of product `id`:
/// that many units more of it, unless there is no such product.
pub open spec fn tras_liberacion(listado: Listado, id: nat, cantidad: nat) -> Listado {
    if id < listado.len() {
        con_existencias(listado, id as int, listado[id as int].cantidad + cantidad)
    } else {
        listado
    }
}

/// The products of `vendedor`, in the order of the catalog.
pub open spec fn de_vendedor(listado: Listado, vendedor: AccountId) -> Listado {
    listado.filter(|p: ProductoVista| p.vendedor == vendedor)
}

/// The catalog. Its view is the sequence of its products, by id.
///
/// A catalog is well formed at every point of the program: a method that
/// changes it takes the products out, changes them and puts them back.
pub struct Catalogo {
    productos: Vec<Producto>,
}

impl View for Catalogo {
    type V = Listado;

    closed spec fn view(&self) -> Listado {
        vista_de(self.productos@)
    }
}

impl Catalogo {
    #[verifier::type_invariant]
    spec fn bien_formado(self) -> bool {
        numerados(self.productos@)
    }

    /// A catalog without products.
    pub fn new() -> (catalogo: Catalogo)
        ensures
            catalogo@ == Seq::<ProductoVista>::empty(),
    {
        Catalogo { productos: Vec::new() }
    }

    /// The catalog of the given products, where each carries its position
    /// as id; none else.
    pub fn desde(productos: Vec<Producto>) -> (r: Option<Catalogo>)
        ensures
            r is Some <==> numerados(productos@),
            r matches Some(catalogo) ==> catalogo@ == vista_de(productos@),
    {
        if productos.len() > u32::MAX as usize {
            return None;
        }
        let mut i: usize = 0;
        while i < productos.len()
            invariant
                0 <= i <= productos@.len() <= u32::MAX,
                forall|k: int| 0 <= k < i ==> (#[trigger] productos@[k]).id == k,
            decreases productos@.len() - i,
        {
            if productos[i].id != i as u32 {
                return None;
            }
            i += 1;
        }
        Some(Catalogo { productos })
    }

    /// The products, by id.
    pub fn productos(&self) -> (copia: Vec<Producto>)
        ensures
            numerados(copia@),
            vista_de(copia@) == self@,
    {
        proof {
            use_type_invariant(self);
        }
        let mut copia: Vec<Producto> = Vec::new();
        let mut i: usize = 0;
        while i < self.productos.len()
            invariant
                0 <= i <= self.productos@.len(),
                copia@ == self.productos@.take(i as int),
            decreases self.productos@.len() - i,
        {
            copia.push(self.productos[i].clone());
            assert(self.productos@.take(i + 1) =~= self.productos@.take(i as int).push(
                self.productos@[i as int],
            ));
            i += 1;
        }
        copia
    }

    /// How many products have been published.
    pub fn total(&self) -> (n: usize)
        ensures
            n == self@.len(),
            n <= u32::MAX,
    {
        proof {
            use_type_invariant(self);
        }
        self.productos.len()
    }

    /// The product with the given id, if there is one.
    pub fn obtener(&self, id: u32) -> (hallado: Option<Producto>)
        ensures
            hallado is Some <==> id < self@.len(),
            hallado matches Some(p) ==> p@ == self@[id as int] && p.id == id,
    {
        proof {
            use_type_invariant(self);
        }
        let i: usize = id as usize;
        if i < self.productos.len() {
            Some(self.productos[i].clone())
        } else {
            None
        }
    }

    /// Publishes a product of `vendedor` under the next id and returns that
    /// id. A product without units is turned down.
    pub fn publicar(
        &mut self,
        vendedor: AccountId,
        nombre: String,
        descripcion: String,
        precio: Balance,
        cantidad: u32,
        categoria: String,
    ) -> (r: Result<u32, SistemaError>)
        requires
            old(self)@.len() < u32::MAX,
        ensures
            r == veredicto(error_de_publicacion(cantidad as nat), old(self)@.len() as u32),
            final(self)@ == tras_publicacion(
                old(self)@,
                vendedor,
                nombre@,
                descripcion@,
                precio as nat,
                cantidad as nat,
                categoria@,
            ),
            r is Err ==> final(self)@ == old(self)@,
    {
        proof {
            use_type_invariant(&*self);
        }
        if cantidad == 0 {
            return Err(SistemaError::CantidadInsuficiente);
        }
        let id: u32 = self.productos.len() as u32;
        let nuevo = Producto::new(id, nombre, descripcion, precio, cantidad, categoria, vendedor);
        let mut previo = Catalogo::new();
        std::mem::swap(self, &mut previo);
        let Catalogo { mut productos } = previo;
        productos.push(nuevo);
        *self = Catalogo { productos };
        Ok(id)
    }

    /// The products that `vendedor` has published, oldest first.
    pub fn listar_de_vendedor(&self, vendedor: AccountId) -> (propios: Vec<Producto>)
        ensures
            vista_de(propios@) == de_vendedor(self@, vendedor),
    {
        let ghost es_suyo = |p: ProductoVista| p.vendedor == vendedor;
        let ghost vista = |p: Producto| p@;
        let mut propios: Vec<Producto> = Vec::new();
        let mut i: usize = 0;
        assert(vista_de(propios@) =~= vista_de(self.productos@.take(0)).filter(es_suyo)) by {
            reveal(Seq::filter);
        }
        while i < self.productos.len()
            invariant
                0 <= i <= self.productos@.len(),
                es_suyo == |p: ProductoVista| p.vendedor == vendedor,
                vista == |p: Producto| p@,
                vista_de(propios@) == vista_de(self.productos@.take(i as int)).filter(es_suyo),
            decreases self.productos@.len() - i,
        {
            let ghost antes = self.productos@.take(i as int);
            proof {
                self.productos@.lemma_take_succ_push(i as int);
                antes.lemma_push_map_commute(vista, self.productos@[i as int]);
                vista_de(antes).lemma_filter_push(self.productos@[i as int]@, es_suyo);
            }
            if self.productos[i].vendedor == vendedor {
                propios.push(self.productos[i].clone());
            }
            i += 1;
        }
        assert(self.productos@.take(i as int) =~= self.productos@);
        propios
    }

    /// Takes `cantidad` units of product `id` out of the stock and returns
    /// the product's seller. Where the product does not exist or has fewer
    /// units, the call fails and the stock stays as it is.
    pub fn reservar(&mut self, id: u32, cantidad: u32) -> (r: Result<AccountId, SistemaError>)
        ensures
            r == veredicto(
                error_de_reserva(old(self)@, id as nat, cantidad as nat),
                old(self)@[id as int].vendedor,
            ),
            final(self)@ == tras_reserva(old(self)@, id as nat, cantidad as nat),
            r is Err ==> final(self)@ == old(self)@,
    {
        proof {
            use_type_invariant(&*self);
        }
        let i: usize = id as usize;
        if i >= self.productos.len() {
            return Err(SistemaError::ProductosVacios);
        }
        if self.productos[i].cantidad < cantidad {
            return Err(SistemaError::CantidadInsuficiente);
        }
        let vendedor = self.productos[i].vendedor;
        let mut previo = Catalogo::new();
        std::mem::swap(self, &mut previo);
        let Catalogo { mut productos } = previo;
        productos[i].cantidad = productos[i].cantidad - cantidad;
        *self = Catalogo { productos };
        Ok(vendedor)
    }

    /// Puts `cantidad` units of product `id` back into the stock. Where the
    /// product does not exist, the call fails and the stock stays as it is.
    pub fn liberar(&mut self, id: u32, cantidad: u32) -> (r: Result<(), SistemaError>)
        requires
            id < old(self)@.len() ==> old(self)@[id as int].cantidad + cantidad <= u32::MAX,
        ensures
            r == veredicto(error_de_liberacion(old(self)@, id as nat), ()),
            final(self)@ == tras_liberacion(old(self)@, id as nat, cantidad as nat),
            r is Err ==> final(self)@ == old(self)@,
    {
        proof {
            use_type_invariant(&*self);
        }
        let i: usize = id as usize;
        if i >= self.productos.len() {
            return Err(SistemaError::ProductosVacios);
        }
        let mut previo = Catalogo::new();
        std::mem::swap(self, &mut previo);
        let Catalogo { mut productos } = previo;
        productos[i].cantidad = productos[i].cantidad + cantidad;
        *self = Catalogo { productos };
        Ok(())
    }
}

} // verus!

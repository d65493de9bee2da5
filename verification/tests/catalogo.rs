use ink::primitives::AccountId;
use marketplace_principal::catalogo::Catalogo;
use marketplace_principal::{MarketplacePrincipal, Producto, RolUsuario, SistemaError};

fn cuenta(n: u8) -> AccountId {
    AccountId::from([n; 32])
}

fn con_vendedor() -> MarketplacePrincipal {
    let mut contrato = MarketplacePrincipal::new();
    assert_eq!(contrato.registrar_usuario(cuenta(1), RolUsuario::Vendedor), Ok(()));
    contrato
}

fn publicar(contrato: &mut MarketplacePrincipal, quien: u8, nombre: &str, cantidad: u32) -> Result<u32, SistemaError> {
    contrato.publicar_producto(
        cuenta(quien),
        String::from(nombre),
        String::from("desc"),
        100,
        cantidad,
        String::from("Otros"),
    )
}

#[test]
fn test_publicar_producto_ok() {
    let mut contrato = con_vendedor();

    let resultado = contrato.publicar_producto(
        cuenta(1),
        "Celular".to_string(),
        "Un buen celular".to_string(),
        1000,
        5,
        "Tecnología".to_string(),
    );

    assert_eq!(resultado, Ok(0));
    assert_eq!(contrato.cantidad_productos(), 1);

    let producto = contrato.obtener_producto(0).unwrap();
    assert_eq!(
        producto,
        Producto {
            id: 0,
            nombre: "Celular".to_string(),
            descripcion: "Un buen celular".to_string(),
            precio: 1000,
            cantidad: 5,
            categoria: "Tecnología".to_string(),
            vendedor: cuenta(1),
        }
    );
}

#[test]
fn test_usuario_no_registrado() {
    let mut contrato = MarketplacePrincipal::new();

    let resultado = contrato.publicar_producto(
        cuenta(2),
        "Producto".to_string(),
        "Sin registro".to_string(),
        500,
        1,
        "Otros".to_string(),
    );

    assert_eq!(resultado, Err(SistemaError::UsuarioNoRegistrado));
    assert_eq!(contrato.cantidad_productos(), 0);
}

#[test]
fn test_usuario_no_es_vendedor() {
    let mut contrato = MarketplacePrincipal::new();
    assert_eq!(contrato.registrar_usuario(cuenta(3), RolUsuario::Comprador), Ok(()));

    let resultado = contrato.publicar_producto(
        cuenta(3),
        "Producto".to_string(),
        "No autorizado".to_string(),
        100,
        2,
        "Otros".to_string(),
    );

    assert_eq!(resultado, Err(SistemaError::NoEsRolCorrecto));
    assert_eq!(contrato.cantidad_productos(), 0);
}

#[test]
fn test_cantidad_insuficiente() {
    let mut contrato = con_vendedor();

    let resultado = contrato.publicar_producto(
        cuenta(1),
        "Producto".to_string(),
        "Cantidad cero".to_string(),
        100,
        0,
        "Otros".to_string(),
    );

    assert_eq!(resultado, Err(SistemaError::CantidadInsuficiente));
    assert_eq!(contrato.cantidad_productos(), 0);
}

#[test]
fn publicar_sin_registro_se_informa_antes_que_la_cantidad() {
    let mut contrato = MarketplacePrincipal::new();
    assert_eq!(publicar(&mut contrato, 9, "Nada", 0), Err(SistemaError::UsuarioNoRegistrado));
}

#[test]
fn publicar_con_rol_incorrecto_se_informa_antes_que_la_cantidad() {
    let mut contrato = MarketplacePrincipal::new();
    assert_eq!(contrato.registrar_usuario(cuenta(3), RolUsuario::Comprador), Ok(()));
    assert_eq!(publicar(&mut contrato, 3, "Nada", 0), Err(SistemaError::NoEsRolCorrecto));
}

#[test]
fn publicar_acepta_precio_cero() {
    let mut contrato = con_vendedor();
    let resultado = contrato.publicar_producto(
        cuenta(1),
        String::from("Regalo"),
        String::from("Gratis"),
        0,
        1,
        String::from("Otros"),
    );
    assert_eq!(resultado, Ok(0));
    assert_eq!(contrato.obtener_producto(0).unwrap().precio, 0);
}

#[test]
fn publicar_asigna_ids_consecutivos() {
    let mut contrato = con_vendedor();
    assert_eq!(contrato.registrar_usuario(cuenta(2), RolUsuario::Ambos), Ok(()));
    assert_eq!(publicar(&mut contrato, 1, "A", 1), Ok(0));
    assert_eq!(publicar(&mut contrato, 2, "B", 2), Ok(1));
    assert_eq!(publicar(&mut contrato, 1, "C", 0), Err(SistemaError::CantidadInsuficiente));
    assert_eq!(publicar(&mut contrato, 1, "D", 3), Ok(2));
    assert_eq!(contrato.cantidad_productos(), 3);
    assert_eq!(contrato.obtener_producto(0).unwrap().id, 0);
    assert_eq!(contrato.obtener_producto(1).unwrap().id, 1);
    assert_eq!(contrato.obtener_producto(2).unwrap().id, 2);
    assert_eq!(contrato.obtener_producto(2).unwrap().nombre, "D");
    assert_eq!(contrato.obtener_producto(1).unwrap().vendedor, cuenta(2));
    assert!(contrato.obtener_producto(3).is_none());
}

#[test]
fn listar_productos_propios_conserva_el_orden() {
    let mut contrato = con_vendedor();
    assert_eq!(contrato.registrar_usuario(cuenta(2), RolUsuario::Ambos), Ok(()));
    assert_eq!(contrato.registrar_usuario(cuenta(3), RolUsuario::Comprador), Ok(()));
    assert_eq!(publicar(&mut contrato, 1, "A", 1), Ok(0));
    assert_eq!(publicar(&mut contrato, 2, "B", 2), Ok(1));
    assert_eq!(publicar(&mut contrato, 1, "C", 3), Ok(2));
    assert_eq!(publicar(&mut contrato, 1, "D", 4), Ok(3));

    let de_uno = contrato.listar_productos_propios(cuenta(1));
    let nombres: Vec<String> = de_uno.iter().map(|p| p.nombre.clone()).collect();
    assert_eq!(nombres, vec![String::from("A"), String::from("C"), String::from("D")]);
    let ids: Vec<u32> = de_uno.iter().map(|p| p.id).collect();
    assert_eq!(ids, vec![0, 2, 3]);

    let de_dos = contrato.listar_productos_propios(cuenta(2));
    assert_eq!(de_dos.len(), 1);
    assert_eq!(de_dos[0], contrato.obtener_producto(1).unwrap());

    assert!(contrato.listar_productos_propios(cuenta(3)).is_empty());
    assert!(contrato.listar_productos_propios(cuenta(9)).is_empty());

    let otra_vez = contrato.listar_productos_propios(cuenta(1));
    assert_eq!(otra_vez, de_uno);
}

#[test]
fn listar_productos_propios_muestra_las_existencias_actuales() {
    let mut contrato = con_vendedor();
    assert_eq!(contrato.registrar_usuario(cuenta(3), RolUsuario::Comprador), Ok(()));
    assert_eq!(publicar(&mut contrato, 1, "A", 5), Ok(0));
    assert_eq!(contrato.crear_orden(cuenta(3), 0, 2), Ok(0));
    let propios = contrato.listar_productos_propios(cuenta(1));
    assert_eq!(propios.len(), 1);
    assert_eq!(propios[0].cantidad, 3);
}

#[test]
fn catalogo_reserva_y_libera() {
    let mut catalogo = Catalogo::new();
    assert_eq!(catalogo.total(), 0);
    let id = catalogo.publicar(
        cuenta(1),
        String::from("Yerba"),
        String::from("Un kilo"),
        12,
        10,
        String::from("Almacén"),
    );
    assert_eq!(id, Ok(0));
    assert_eq!(catalogo.total(), 1);

    assert_eq!(catalogo.reservar(0, 4), Ok(cuenta(1)));
    assert_eq!(catalogo.obtener(0).unwrap().cantidad, 6);
    assert_eq!(catalogo.reservar(0, 6), Ok(cuenta(1)));
    assert_eq!(catalogo.obtener(0).unwrap().cantidad, 0);
    assert_eq!(catalogo.liberar(0, 3), Ok(()));
    assert_eq!(catalogo.obtener(0).unwrap().cantidad, 3);
    assert_eq!(catalogo.reservar(0, 0), Ok(cuenta(1)));
    assert_eq!(catalogo.obtener(0).unwrap().cantidad, 3);
}

#[test]
fn catalogo_reserva_fallida_no_cambia_las_existencias() {
    let mut catalogo = Catalogo::new();
    assert_eq!(
        catalogo.publicar(cuenta(1), String::from("A"), String::from("a"), 1, 3, String::from("x")),
        Ok(0)
    );
    assert_eq!(catalogo.reservar(0, 4), Err(SistemaError::CantidadInsuficiente));
    assert_eq!(catalogo.obtener(0).unwrap().cantidad, 3);
    assert_eq!(catalogo.reservar(1, 1), Err(SistemaError::ProductosVacios));
    assert_eq!(catalogo.reservar(7, 0), Err(SistemaError::ProductosVacios));
    assert_eq!(catalogo.obtener(0).unwrap().cantidad, 3);
    assert_eq!(catalogo.total(), 1);
}

#[test]
fn catalogo_liberar_producto_inexistente() {
    let mut catalogo = Catalogo::new();
    assert_eq!(catalogo.liberar(0, 1), Err(SistemaError::ProductosVacios));
    assert_eq!(
        catalogo.publicar(cuenta(1), String::from("A"), String::from("a"), 1, 3, String::from("x")),
        Ok(0)
    );
    assert_eq!(catalogo.liberar(1, 1), Err(SistemaError::ProductosVacios));
    assert_eq!(catalogo.obtener(0).unwrap().cantidad, 3);
}

#[test]
fn catalogo_no_publica_sin_unidades() {
    let mut catalogo = Catalogo::new();
    assert_eq!(
        catalogo.publicar(cuenta(1), String::from("A"), String::from("a"), 1, 0, String::from("x")),
        Err(SistemaError::CantidadInsuficiente)
    );
    assert_eq!(catalogo.total(), 0);
    assert!(catalogo.obtener(0).is_none());
}

#[test]
fn catalogo_lista_por_vendedor() {
    let mut catalogo = Catalogo::new();
    for (quien, nombre) in [(1u8, "A"), (2, "B"), (1, "C")] {
        let r = catalogo.publicar(
            cuenta(quien),
            String::from(nombre),
            String::from("d"),
            5,
            1,
            String::from("x"),
        );
        assert!(r.is_ok());
    }
    let de_uno = catalogo.listar_de_vendedor(cuenta(1));
    assert_eq!(de_uno.len(), 2);
    assert_eq!(de_uno[0].nombre, "A");
    assert_eq!(de_uno[1].nombre, "C");
    assert_eq!(catalogo.listar_de_vendedor(cuenta(2)).len(), 1);
    assert!(catalogo.listar_de_vendedor(cuenta(3)).is_empty());
}

#[test]
fn producto_new_y_clone() {
    let p = Producto::new(
        4,
        String::from("Termo"),
        String::from("Acero"),
        250,
        9,
        String::from("Hogar"),
        cuenta(5),
    );
    assert_eq!(p.id, 4);
    assert_eq!(p.nombre, "Termo");
    assert_eq!(p.descripcion, "Acero");
    assert_eq!(p.precio, 250);
    assert_eq!(p.cantidad, 9);
    assert_eq!(p.categoria, "Hogar");
    assert_eq!(p.vendedor, cuenta(5));
    let q = p.clone();
    assert_eq!(p, q);
}

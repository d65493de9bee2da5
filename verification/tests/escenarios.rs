use ink::primitives::AccountId;
use marketplace_principal::{
    EstadoOrden, MarketplacePrincipal, Orden, Producto, RolUsuario, SistemaError, Usuario,
};

fn cuenta(n: u8) -> AccountId {
    AccountId::from([n; 32])
}

/// Everything that can be read of the marketplace: the profiles of the
/// accounts 0 to 9, every product and every order.
fn foto(contrato: &MarketplacePrincipal) -> (Vec<Option<Usuario>>, Vec<Producto>, Vec<Orden>) {
    let mut usuarios: Vec<Option<Usuario>> = Vec::new();
    for n in 0u8..10 {
        usuarios.push(contrato.obtener_usuario(cuenta(n)));
    }
    let mut productos: Vec<Producto> = Vec::new();
    for id in 0..contrato.cantidad_productos() {
        productos.push(contrato.obtener_producto(id as u32).unwrap());
    }
    let mut ordenes: Vec<Orden> = Vec::new();
    for id in 0..contrato.cantidad_ordenes() {
        ordenes.push(contrato.obtener_orden(id as u32).unwrap());
    }
    (usuarios, productos, ordenes)
}

fn publicar(contrato: &mut MarketplacePrincipal, quien: u8, cantidad: u32) -> Result<u32, SistemaError> {
    contrato.publicar_producto(
        cuenta(quien),
        String::from("Phone"),
        String::from("desc"),
        1000,
        cantidad,
        String::from("Tech"),
    )
}

/// The units of product `producto_id` that the orders hold which are not
/// cancelled.
fn retenidas(contrato: &MarketplacePrincipal, producto_id: u32) -> u64 {
    let mut suma: u64 = 0;
    for id in 0..contrato.cantidad_ordenes() {
        let orden = contrato.obtener_orden(id as u32).unwrap();
        if orden.producto_id == producto_id && orden.estado != EstadoOrden::Cancelada {
            suma += orden.cantidad as u64;
        }
    }
    suma
}

#[test]
fn escenario_compra_enviada_y_recibida() {
    let s = cuenta(1);
    let b = cuenta(2);
    let mut contrato = MarketplacePrincipal::new();
    assert_eq!(contrato.registrar_usuario(s, RolUsuario::Vendedor), Ok(()));
    assert_eq!(contrato.registrar_usuario(b, RolUsuario::Comprador), Ok(()));

    let publicado = contrato.publicar_producto(
        s,
        String::from("Phone"),
        String::from("desc"),
        1000,
        5,
        String::from("Tech"),
    );
    assert_eq!(publicado, Ok(0));
    assert_eq!(contrato.obtener_producto(0).unwrap().cantidad, 5);

    assert_eq!(contrato.crear_orden(b, 0, 2), Ok(0));
    assert_eq!(contrato.obtener_orden(0).unwrap().estado, EstadoOrden::Pendiente);
    assert_eq!(contrato.obtener_producto(0).unwrap().cantidad, 3);

    assert_eq!(contrato.marcar_orden_como_enviada(s, 0), Ok(()));
    assert_eq!(contrato.obtener_orden(0).unwrap().estado, EstadoOrden::Enviada);

    assert_eq!(contrato.marcar_como_recibida(b, 0), Ok(()));
    assert_eq!(contrato.obtener_orden(0).unwrap().estado, EstadoOrden::Recibida);

    assert_eq!(contrato.marcar_orden_como_enviada(s, 0), Err(SistemaError::EstadoInvalido));
    assert_eq!(contrato.obtener_orden(0).unwrap().estado, EstadoOrden::Recibida);
}

#[test]
fn escenario_publicar_sin_registro() {
    let mut contrato = MarketplacePrincipal::new();
    let resultado = contrato.publicar_producto(
        cuenta(5),
        String::from("Phone"),
        String::from("desc"),
        1000,
        5,
        String::from("Tech"),
    );
    assert_eq!(resultado, Err(SistemaError::UsuarioNoRegistrado));
    assert_eq!(contrato.cantidad_productos(), 0);
}

#[test]
fn escenario_cancelacion_de_comun_acuerdo() {
    let s = cuenta(1);
    let b = cuenta(2);
    let mut contrato = MarketplacePrincipal::new();
    assert_eq!(contrato.registrar_usuario(s, RolUsuario::Vendedor), Ok(()));
    assert_eq!(contrato.registrar_usuario(b, RolUsuario::Comprador), Ok(()));
    assert_eq!(publicar(&mut contrato, 1, 5), Ok(0));
    assert_eq!(contrato.crear_orden(b, 0, 2), Ok(0));
    assert_eq!(contrato.obtener_producto(0).unwrap().cantidad, 3);

    assert_eq!(contrato.solicitar_cancelacion(b, 0), Ok(()));
    assert_eq!(contrato.obtener_orden(0).unwrap().estado, EstadoOrden::Pendiente);
    assert_eq!(contrato.obtener_producto(0).unwrap().cantidad, 3);

    assert_eq!(contrato.solicitar_cancelacion(s, 0), Ok(()));
    assert_eq!(contrato.obtener_orden(0).unwrap().estado, EstadoOrden::Cancelada);
    assert_eq!(contrato.obtener_producto(0).unwrap().cantidad, 5);
}

#[test]
fn nunca_se_vende_de_mas() {
    let mut contrato = MarketplacePrincipal::new();
    assert_eq!(contrato.registrar_usuario(cuenta(1), RolUsuario::Vendedor), Ok(()));
    assert_eq!(contrato.registrar_usuario(cuenta(2), RolUsuario::Comprador), Ok(()));
    assert_eq!(contrato.registrar_usuario(cuenta(3), RolUsuario::Ambos), Ok(()));
    assert_eq!(publicar(&mut contrato, 1, 10), Ok(0));

    let pedidos: [(u8, u32); 8] = [(2, 3), (3, 4), (2, 4), (2, 0), (3, 3), (2, 2), (3, 1), (2, 1)];
    let esperados: [Result<u32, SistemaError>; 8] = [
        Ok(0),
        Ok(1),
        Err(SistemaError::CantidadInsuficiente),
        Err(SistemaError::CantidadInsuficiente),
        Ok(2),
        Err(SistemaError::CantidadInsuficiente),
        Err(SistemaError::CantidadInsuficiente),
        Err(SistemaError::CantidadInsuficiente),
    ];
    for (pedido, esperado) in pedidos.iter().zip(esperados.iter()) {
        let antes = contrato.obtener_producto(0).unwrap().cantidad;
        let resultado = contrato.crear_orden(cuenta(pedido.0), 0, pedido.1);
        assert_eq!(&resultado, esperado);
        let despues = contrato.obtener_producto(0).unwrap().cantidad;
        if resultado.is_err() {
            assert_eq!(despues, antes);
        } else {
            assert_eq!(despues, antes - pedido.1);
        }
        assert!(retenidas(&contrato, 0) <= 10);
        assert_eq!(retenidas(&contrato, 0) + despues as u64, 10);
    }
    assert_eq!(contrato.obtener_producto(0).unwrap().cantidad, 0);
    assert_eq!(retenidas(&contrato, 0), 10);
}

#[test]
fn las_unidades_se_conservan_con_envios_y_cancelaciones() {
    let mut contrato = MarketplacePrincipal::new();
    assert_eq!(contrato.registrar_usuario(cuenta(1), RolUsuario::Vendedor), Ok(()));
    assert_eq!(contrato.registrar_usuario(cuenta(2), RolUsuario::Comprador), Ok(()));
    assert_eq!(publicar(&mut contrato, 1, 6), Ok(0));
    assert_eq!(publicar(&mut contrato, 1, 4), Ok(1));

    assert_eq!(contrato.crear_orden(cuenta(2), 0, 2), Ok(0));
    assert_eq!(contrato.crear_orden(cuenta(2), 1, 4), Ok(1));
    assert_eq!(contrato.crear_orden(cuenta(2), 0, 3), Ok(2));
    assert_eq!(retenidas(&contrato, 0), 5);
    assert_eq!(contrato.obtener_producto(0).unwrap().cantidad, 1);

    assert_eq!(contrato.marcar_orden_como_enviada(cuenta(1), 0), Ok(()));
    assert_eq!(retenidas(&contrato, 0), 5);
    assert_eq!(contrato.obtener_producto(0).unwrap().cantidad, 1);

    assert_eq!(contrato.solicitar_cancelacion(cuenta(1), 2), Ok(()));
    assert_eq!(contrato.solicitar_cancelacion(cuenta(2), 2), Ok(()));
    assert_eq!(retenidas(&contrato, 0), 2);
    assert_eq!(contrato.obtener_producto(0).unwrap().cantidad, 4);

    assert_eq!(contrato.marcar_como_recibida(cuenta(2), 0), Ok(()));
    assert_eq!(retenidas(&contrato, 0), 2);
    assert_eq!(contrato.obtener_producto(0).unwrap().cantidad, 4);
    assert_eq!(retenidas(&contrato, 1), 4);
    assert_eq!(contrato.obtener_producto(1).unwrap().cantidad, 0);

    assert_eq!(contrato.crear_orden(cuenta(2), 0, 4), Ok(3));
    assert_eq!(contrato.crear_orden(cuenta(2), 0, 1), Err(SistemaError::CantidadInsuficiente));
    assert_eq!(retenidas(&contrato, 0), 6);
}

#[test]
fn existencias_completas_se_reservan_y_se_devuelven() {
    let mut contrato = MarketplacePrincipal::new();
    assert_eq!(contrato.registrar_usuario(cuenta(1), RolUsuario::Vendedor), Ok(()));
    assert_eq!(contrato.registrar_usuario(cuenta(2), RolUsuario::Comprador), Ok(()));
    assert_eq!(publicar(&mut contrato, 1, u32::MAX), Ok(0));
    assert_eq!(contrato.crear_orden(cuenta(2), 0, u32::MAX), Ok(0));
    assert_eq!(contrato.obtener_producto(0).unwrap().cantidad, 0);
    assert_eq!(contrato.solicitar_cancelacion(cuenta(2), 0), Ok(()));
    assert_eq!(contrato.solicitar_cancelacion(cuenta(1), 0), Ok(()));
    assert_eq!(contrato.obtener_producto(0).unwrap().cantidad, u32::MAX);
}

#[test]
fn una_llamada_fallida_no_cambia_nada() {
    let mut contrato = MarketplacePrincipal::new();
    assert_eq!(contrato.registrar_usuario(cuenta(1), RolUsuario::Vendedor), Ok(()));
    assert_eq!(contrato.registrar_usuario(cuenta(2), RolUsuario::Comprador), Ok(()));
    assert_eq!(publicar(&mut contrato, 1, 5), Ok(0));
    assert_eq!(contrato.crear_orden(cuenta(2), 0, 2), Ok(0));
    assert_eq!(contrato.crear_orden(cuenta(2), 0, 1), Ok(1));
    assert_eq!(contrato.marcar_orden_como_enviada(cuenta(1), 1), Ok(()));
    assert_eq!(contrato.solicitar_cancelacion(cuenta(2), 0), Ok(()));

    let antes = foto(&contrato);

    assert_eq!(
        contrato.registrar_usuario(cuenta(1), RolUsuario::Ambos),
        Err(SistemaError::UsuarioExistente)
    );
    assert_eq!(foto(&contrato), antes);

    assert_eq!(publicar(&mut contrato, 7, 5), Err(SistemaError::UsuarioNoRegistrado));
    assert_eq!(foto(&contrato), antes);
    assert_eq!(publicar(&mut contrato, 2, 5), Err(SistemaError::NoEsRolCorrecto));
    assert_eq!(foto(&contrato), antes);
    assert_eq!(publicar(&mut contrato, 1, 0), Err(SistemaError::CantidadInsuficiente));
    assert_eq!(foto(&contrato), antes);

    assert_eq!(contrato.crear_orden(cuenta(7), 0, 1), Err(SistemaError::UsuarioNoRegistrado));
    assert_eq!(foto(&contrato), antes);
    assert_eq!(contrato.crear_orden(cuenta(1), 0, 1), Err(SistemaError::NoEsRolCorrecto));
    assert_eq!(foto(&contrato), antes);
    assert_eq!(contrato.crear_orden(cuenta(2), 0, 0), Err(SistemaError::CantidadInsuficiente));
    assert_eq!(foto(&contrato), antes);
    assert_eq!(contrato.crear_orden(cuenta(2), 3, 1), Err(SistemaError::ProductosVacios));
    assert_eq!(foto(&contrato), antes);
    assert_eq!(contrato.crear_orden(cuenta(2), 0, 3), Err(SistemaError::CantidadInsuficiente));
    assert_eq!(foto(&contrato), antes);

    assert_eq!(
        contrato.marcar_orden_como_enviada(cuenta(7), 0),
        Err(SistemaError::UsuarioNoRegistrado)
    );
    assert_eq!(foto(&contrato), antes);
    assert_eq!(contrato.marcar_orden_como_enviada(cuenta(1), 2), Err(SistemaError::OrdenNoExiste));
    assert_eq!(foto(&contrato), antes);
    assert_eq!(contrato.marcar_orden_como_enviada(cuenta(2), 0), Err(SistemaError::NoAutorizado));
    assert_eq!(foto(&contrato), antes);
    assert_eq!(contrato.marcar_orden_como_enviada(cuenta(1), 1), Err(SistemaError::EstadoInvalido));
    assert_eq!(foto(&contrato), antes);

    assert_eq!(contrato.marcar_como_recibida(cuenta(7), 1), Err(SistemaError::UsuarioNoRegistrado));
    assert_eq!(foto(&contrato), antes);
    assert_eq!(contrato.marcar_como_recibida(cuenta(2), 2), Err(SistemaError::OrdenNoExiste));
    assert_eq!(foto(&contrato), antes);
    assert_eq!(contrato.marcar_como_recibida(cuenta(1), 1), Err(SistemaError::NoAutorizado));
    assert_eq!(foto(&contrato), antes);
    assert_eq!(contrato.marcar_como_recibida(cuenta(2), 0), Err(SistemaError::EstadoInvalido));
    assert_eq!(foto(&contrato), antes);

    assert_eq!(contrato.solicitar_cancelacion(cuenta(7), 0), Err(SistemaError::UsuarioNoRegistrado));
    assert_eq!(foto(&contrato), antes);
    assert_eq!(contrato.solicitar_cancelacion(cuenta(2), 2), Err(SistemaError::OrdenNoExiste));
    assert_eq!(foto(&contrato), antes);
    assert_eq!(contrato.solicitar_cancelacion(cuenta(2), 1), Err(SistemaError::EstadoInvalido));
    assert_eq!(foto(&contrato), antes);
    assert_eq!(contrato.registrar_usuario(cuenta(8), RolUsuario::Comprador), Ok(()));
    let antes = foto(&contrato);
    assert_eq!(contrato.solicitar_cancelacion(cuenta(8), 0), Err(SistemaError::NoAutorizado));
    assert_eq!(foto(&contrato), antes);
}

#[test]
fn los_roles_no_cambian_con_el_tiempo() {
    let mut contrato = MarketplacePrincipal::new();
    assert_eq!(contrato.registrar_usuario(cuenta(1), RolUsuario::Vendedor), Ok(()));
    assert_eq!(contrato.registrar_usuario(cuenta(2), RolUsuario::Comprador), Ok(()));
    assert_eq!(publicar(&mut contrato, 1, 5), Ok(0));
    assert_eq!(contrato.crear_orden(cuenta(2), 0, 2), Ok(0));
    assert_eq!(contrato.marcar_orden_como_enviada(cuenta(1), 0), Ok(()));
    assert_eq!(contrato.marcar_como_recibida(cuenta(2), 0), Ok(()));
    assert_eq!(publicar(&mut contrato, 2, 5), Err(SistemaError::NoEsRolCorrecto));
    assert_eq!(contrato.crear_orden(cuenta(1), 0, 1), Err(SistemaError::NoEsRolCorrecto));
    assert_eq!(contrato.obtener_usuario(cuenta(1)).unwrap().rol, RolUsuario::Vendedor);
    assert_eq!(contrato.obtener_usuario(cuenta(2)).unwrap().rol, RolUsuario::Comprador);
}

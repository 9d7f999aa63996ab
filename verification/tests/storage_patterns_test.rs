use ejercicios_soroban::Address;
use ejercicios_soroban::CacheTemporal;
use ejercicios_soroban::ConfiguracionGlobal;
use ejercicios_soroban::DatosUsuarios;
use ejercicios_soroban::EstrategiaTTL;
use ejercicios_soroban::GestionUsuario;
use ejercicios_soroban::PlataformaDonaciones;
use ejercicios_soroban::StorageError as Error;
use ejercicios_soroban::Symbol;

#[test]
fn test_instance_storage_initialize() {
    let mut config = ConfiguracionGlobal::new();
    let admin = Address(1);
    let nombre = Symbol(7);

    let resultado = config.initialize(admin, nombre);
    assert!(resultado.is_ok());

    let admin_guardado = config.get_admin();
    assert_eq!(admin_guardado, Ok(admin));

    let nombre_guardado = config.get_nombre_token();
    assert_eq!(nombre_guardado, Ok(nombre));
}

#[test]
fn test_instance_storage_already_initialized() {
    let mut config = ConfiguracionGlobal::new();
    let admin = Address(1);
    let nombre = Symbol(7);

    config.initialize(admin, nombre).unwrap();

    let resultado = config.initialize(admin, nombre);
    assert_eq!(resultado, Err(Error::YaInicializado));
}

#[test]
fn test_instance_storage_incrementar_operaciones() {
    let mut config = ConfiguracionGlobal::new();
    let admin = Address(1);
    let nombre = Symbol(7);

    config.initialize(admin, nombre).unwrap();

    let resultado1 = config.incrementar_operaciones();
    assert_eq!(resultado1, Ok(1));

    let resultado2 = config.incrementar_operaciones();
    assert_eq!(resultado2, Ok(2));

    let total = config.get_total_operaciones();
    assert_eq!(total, 2);
}

#[test]
fn test_incrementar_operaciones_desbordamiento() {
    let mut config = ConfiguracionGlobal::new();

    config.total_operaciones = Some(u32::MAX);

    let resultado = config.incrementar_operaciones();
    assert_eq!(resultado, Err(Error::NoInicializado));
    assert_eq!(config.get_total_operaciones(), u32::MAX);
}

#[test]
fn test_persistent_storage_get_balance_lazy_init() {
    let mut datos = DatosUsuarios::new();
    let usuario = Address(1);

    let balance = datos.get_balance(usuario);
    assert_eq!(balance, 0);

    datos.set_balance(usuario, 100);

    let balance = datos.get_balance(usuario);
    assert_eq!(balance, 100);
}

#[test]
fn test_persistent_storage_usuario_existe() {
    let mut datos = DatosUsuarios::new();
    let usuario = Address(1);

    assert_eq!(datos.usuario_existe(usuario), false);

    datos.set_balance(usuario, 100);

    assert_eq!(datos.usuario_existe(usuario), true);
}

#[test]
fn test_persistent_storage_guardar_transaccion() {
    let mut datos = DatosUsuarios::new();
    let usuario = Address(1);

    datos.guardar_ultima_transaccion(usuario, 50);

    let transaccion = datos.get_ultima_transaccion(usuario);
    assert_eq!(transaccion, Some(50));
}

#[test]
fn test_persistent_storage_registro_por_id() {
    let mut datos = DatosUsuarios::new();

    datos.guardar_registro(1, 100);
    datos.guardar_registro(2, 200);

    let registro1 = datos.get_registro(1);
    assert_eq!(registro1, Some(100));

    let registro2 = datos.get_registro(2);
    assert_eq!(registro2, Some(200));

    let registro3 = datos.get_registro(3);
    assert_eq!(registro3, None);
}

#[test]
fn test_persistent_storage_extiende_ttl() {
    // La mutacion repone el horizonte de expiracion de la entrada tocada;
    // las lecturas no lo refrescan.
    let mut datos = DatosUsuarios::new();
    let usuario = Address(1);

    datos.set_balance(usuario, 100);
    assert_eq!(datos.balances.ttl_de(u128::from(usuario.0)), 100);

    let _ = datos.get_balance(usuario);
    assert_eq!(datos.balances.ttl_de(u128::from(usuario.0)), 100);
}

#[test]
fn test_temporary_storage_cache() {
    let mut cache = CacheTemporal::new();

    cache.guardar_precio(150);

    let precio = cache.get_precio();
    assert_eq!(precio, Some(150));
}

#[test]
fn test_temporary_storage_lock() {
    let mut cache = CacheTemporal::new();
    let usuario = Address(1);

    assert_eq!(cache.tiene_lock(usuario), false);

    cache.crear_lock(usuario);

    assert_eq!(cache.tiene_lock(usuario), true);

    cache.eliminar_lock(usuario);

    assert_eq!(cache.tiene_lock(usuario), false);
}

#[test]
fn test_plataforma_donaciones_initialize() {
    let mut plataforma = PlataformaDonaciones::new();
    let admin = Address(1);
    let nombre = Symbol(9);

    let resultado = plataforma.initialize(admin, nombre);
    assert!(resultado.is_ok());

    let resultado2 = plataforma.initialize(admin, nombre);
    assert_eq!(resultado2, Err(Error::YaInicializado));

    let total = plataforma.get_total_donaciones();
    assert_eq!(total, 0);
}

#[test]
fn test_plataforma_donaciones_donar_exitoso() {
    let mut plataforma = PlataformaDonaciones::new();
    let admin = Address(1);
    let nombre = Symbol(9);

    plataforma.initialize(admin, nombre).unwrap();

    let donante = Address(2);
    let beneficiaria = Address(3);

    plataforma.establecer_balance(donante, 1000);

    let resultado = plataforma.donar(donante, beneficiaria, 500, true, 0);

    assert!(resultado.is_ok());

    assert_eq!(plataforma.get_balance_donante(donante), 500);
    assert_eq!(plataforma.get_total_recibido(beneficiaria), 500);

    let total = plataforma.get_total_donaciones();
    assert_eq!(total, 1);
}

#[test]
fn test_plataforma_donaciones_donar_monto_invalido() {
    let mut plataforma = PlataformaDonaciones::new();
    let admin = Address(1);
    let nombre = Symbol(9);

    plataforma.initialize(admin, nombre).unwrap();

    let donante = Address(2);
    let beneficiaria = Address(3);

    plataforma.establecer_balance(donante, 1000);

    let resultado = plataforma.donar(donante, beneficiaria, -100, true, 0);

    assert_eq!(resultado, Err(Error::MontoInvalido));

    assert_eq!(plataforma.get_balance_donante(donante), 1000);
}

#[test]
fn test_plataforma_donaciones_donar_no_autorizado() {
    let mut plataforma = PlataformaDonaciones::new();
    plataforma.initialize(Address(1), Symbol(9)).unwrap();

    let donante = Address(2);
    let beneficiaria = Address(3);
    plataforma.establecer_balance(donante, 1000);

    let resultado = plataforma.donar(donante, beneficiaria, 500, false, 0);

    assert_eq!(resultado, Err(Error::NoAutorizada));
    assert_eq!(plataforma.get_balance_donante(donante), 1000);
    assert_eq!(plataforma.get_total_recibido(beneficiaria), 0);
}

#[test]
fn test_plataforma_donaciones_donar_balance_insuficiente() {
    let mut plataforma = PlataformaDonaciones::new();
    let admin = Address(1);
    let nombre = Symbol(9);

    plataforma.initialize(admin, nombre).unwrap();

    let donante = Address(2);
    let beneficiaria = Address(3);

    plataforma.establecer_balance(donante, 100);

    let resultado = plataforma.donar(donante, beneficiaria, 500, true, 0);

    assert_eq!(resultado, Err(Error::BalanceInsuficiente));

    assert_eq!(plataforma.get_balance_donante(donante), 100);
}

#[test]
fn test_plataforma_donaciones_get_donacion() {
    let mut plataforma = PlataformaDonaciones::new();
    let admin = Address(1);
    let nombre = Symbol(9);

    plataforma.initialize(admin, nombre).unwrap();

    let donante = Address(2);
    let beneficiaria = Address(3);

    plataforma.establecer_balance(donante, 1000);

    plataforma.donar(donante, beneficiaria, 500, true, 0).unwrap();

    let donacion = plataforma.get_donacion(0);
    assert!(donacion.is_some());

    let info = donacion.unwrap();
    assert_eq!(info.donante, donante);
    assert_eq!(info.beneficiaria, beneficiaria);
    assert_eq!(info.monto, 500);
}

#[test]
fn test_plataforma_donaciones_donante_existe() {
    let mut plataforma = PlataformaDonaciones::new();
    let donante = Address(2);

    assert_eq!(plataforma.donante_existe(donante), false);

    plataforma.establecer_balance(donante, 100);

    assert_eq!(plataforma.donante_existe(donante), true);
}

#[test]
fn test_gestion_usuario_crear() {
    let mut gestion = GestionUsuario::new();
    let usuario = Address(1);

    gestion.crear_usuario(usuario, 1000, 500);

    assert_eq!(gestion.usuario_existe(usuario), true);
    assert_eq!(gestion.get_balance(usuario), 1000);
}

#[test]
fn test_gestion_usuario_eliminar() {
    let mut gestion = GestionUsuario::new();
    let usuario = Address(1);

    gestion.crear_usuario(usuario, 1000, 500);

    assert_eq!(gestion.usuario_existe(usuario), true);

    let resultado = gestion.eliminar_usuario(usuario);
    assert!(resultado.is_ok());

    assert_eq!(gestion.usuario_existe(usuario), false);
    assert_eq!(gestion.get_balance(usuario), 0);
}

#[test]
fn test_gestion_usuario_eliminar_no_existe() {
    let mut gestion = GestionUsuario::new();
    let usuario = Address(1);

    let resultado = gestion.eliminar_usuario(usuario);
    assert_eq!(resultado, Err(Error::UsuarioNoExiste));
}

#[test]
fn test_estrategia_ttl_actualizar() {
    let mut estrategia = EstrategiaTTL::new();
    let usuario = Address(1);

    estrategia.actualizar_balance_estrategia1(usuario, 100);
    assert_eq!(estrategia.get_balance(usuario), 100);

    estrategia.actualizar_balance_estrategia2(usuario, 200);
    assert_eq!(estrategia.get_balance(usuario), 200);

    estrategia.guardar_datos_criticos(usuario, 300);
}

#[test]
fn test_estrategia_ttl_datos_criticos_mas_largo() {
    let mut estrategia = EstrategiaTTL::new();
    let usuario = Address(1);

    estrategia.actualizar_balance_estrategia1(usuario, 100);
    assert_eq!(estrategia.balances.ttl_de(u128::from(usuario.0)), 100);

    // Los datos criticos se extienden a un horizonte mas largo.
    estrategia.guardar_datos_criticos(usuario, 300);
    assert_eq!(estrategia.datos_criticos.ttl_de(u128::from(usuario.0)), 200);
}

#[test]
fn test_multiple_donaciones() {
    let mut plataforma = PlataformaDonaciones::new();
    let admin = Address(1);
    let nombre = Symbol(9);

    plataforma.initialize(admin, nombre).unwrap();

    let donante = Address(2);
    let beneficiaria = Address(3);

    plataforma.establecer_balance(donante, 2000);

    plataforma.donar(donante, beneficiaria, 500, true, 0).unwrap();

    plataforma.donar(donante, beneficiaria, 300, true, 0).unwrap();

    assert_eq!(plataforma.get_balance_donante(donante), 1200);
    assert_eq!(plataforma.get_total_recibido(beneficiaria), 800);

    assert_eq!(plataforma.get_total_donaciones(), 2);

    let donacion1 = plataforma.get_donacion(0);
    assert_eq!(donacion1.unwrap().monto, 500);

    let donacion2 = plataforma.get_donacion(1);
    assert_eq!(donacion2.unwrap().monto, 300);
}

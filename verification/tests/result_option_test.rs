use ejercicios_soroban::Address;
use ejercicios_soroban::ConversionOptionResult;
use ejercicios_soroban::DonacionValidada;
use ejercicios_soroban::MicroCreditoResult;
use ejercicios_soroban::OptionEjemplo;
use ejercicios_soroban::ResultOptionError as Error;
use ejercicios_soroban::TransferSeguro;

#[test]
fn test_transfer_seguro_exitoso() {
    let mut contrato = TransferSeguro::new();
    let cuenta1 = Address(1);
    let cuenta2 = Address(2);

    contrato.establecer_balance(cuenta1, 100);

    let resultado = contrato.transfer(cuenta1, cuenta2, 50, true);

    assert!(resultado.is_ok());

    assert_eq!(contrato.obtener_balance(cuenta1), 50);
    assert_eq!(contrato.obtener_balance(cuenta2), 50);
}

#[test]
fn test_transfer_seguro_monto_invalido() {
    let mut contrato = TransferSeguro::new();
    let cuenta1 = Address(1);
    let cuenta2 = Address(2);

    contrato.establecer_balance(cuenta1, 100);

    let resultado = contrato.transfer(cuenta1, cuenta2, -50, true);

    assert_eq!(resultado, Err(Error::MontoInvalido));

    assert_eq!(contrato.obtener_balance(cuenta1), 100);
    assert_eq!(contrato.obtener_balance(cuenta2), 0);
}

#[test]
fn test_transfer_seguro_monto_cero() {
    let mut contrato = TransferSeguro::new();
    let cuenta1 = Address(1);
    let cuenta2 = Address(2);

    contrato.establecer_balance(cuenta1, 100);

    // Transferir cero se rechaza como monto invalido y nada cambia.
    let resultado = contrato.transfer(cuenta1, cuenta2, 0, true);

    assert_eq!(resultado, Err(Error::MontoInvalido));
    assert_eq!(contrato.obtener_balance(cuenta1), 100);
    assert_eq!(contrato.obtener_balance(cuenta2), 0);
}

#[test]
fn test_transfer_seguro_no_autorizado() {
    let mut contrato = TransferSeguro::new();
    let cuenta1 = Address(1);
    let cuenta2 = Address(2);

    contrato.establecer_balance(cuenta1, 100);

    let resultado = contrato.transfer(cuenta1, cuenta2, 50, false);

    assert_eq!(resultado, Err(Error::NoAutorizada));
    assert_eq!(contrato.obtener_balance(cuenta1), 100);
    assert_eq!(contrato.obtener_balance(cuenta2), 0);
}

#[test]
fn test_transfer_seguro_balance_insuficiente() {
    let mut contrato = TransferSeguro::new();
    let cuenta1 = Address(1);
    let cuenta2 = Address(2);

    contrato.establecer_balance(cuenta1, 100);

    let resultado = contrato.transfer(cuenta1, cuenta2, 150, true);

    assert_eq!(resultado, Err(Error::BalanceInsuficiente));

    assert_eq!(contrato.obtener_balance(cuenta1), 100);
    assert_eq!(contrato.obtener_balance(cuenta2), 0);
}

#[test]
fn test_transfer_seguro_cuenta_nueva() {
    let mut contrato = TransferSeguro::new();
    let cuenta1 = Address(1);
    let cuenta2 = Address(2);

    contrato.establecer_balance(cuenta1, 0);

    let resultado = contrato.transfer(cuenta1, cuenta2, 50, true);

    assert_eq!(resultado, Err(Error::BalanceInsuficiente));
}

#[test]
fn test_transfer_seguro_desbordamiento_destino() {
    let mut contrato = TransferSeguro::new();
    let cuenta1 = Address(1);
    let cuenta2 = Address(2);

    contrato.establecer_balance(cuenta1, 100);
    contrato.establecer_balance(cuenta2, i128::MAX);

    // La acreditacion desbordaria: se rechaza y nada cambia.
    let resultado = contrato.transfer(cuenta1, cuenta2, 50, true);

    assert_eq!(resultado, Err(Error::LimiteExcedido));
    assert_eq!(contrato.obtener_balance(cuenta1), 100);
    assert_eq!(contrato.obtener_balance(cuenta2), i128::MAX);
}

#[test]
fn test_option_get_balance_existe() {
    let mut contrato = OptionEjemplo::new();
    let usuario = Address(1);

    contrato.establecer_balance(usuario, 100);

    let balance = contrato.get_balance(usuario);

    assert_eq!(balance, Some(100));
}

#[test]
fn test_option_get_balance_no_existe() {
    let contrato = OptionEjemplo::new();
    let usuario = Address(1);

    let balance = contrato.get_balance(usuario);

    assert_eq!(balance, None);
}

#[test]
fn test_option_get_balance_or_zero() {
    let mut contrato = OptionEjemplo::new();
    let usuario = Address(1);

    let balance = contrato.get_balance_or_zero(usuario);
    assert_eq!(balance, 0);

    contrato.establecer_balance(usuario, 100);

    let balance = contrato.get_balance_or_zero(usuario);
    assert_eq!(balance, 100);
}

#[test]
fn test_option_get_balance_calculado() {
    let mut contrato = OptionEjemplo::new();
    let usuario = Address(1);

    // Sin balance guardado, el valor inicial calculado es 100.
    assert_eq!(contrato.get_balance_calculado(usuario), 100);

    contrato.establecer_balance(usuario, 7);
    assert_eq!(contrato.get_balance_calculado(usuario), 7);
}

#[test]
fn test_option_map() {
    let mut contrato = OptionEjemplo::new();
    let usuario = Address(1);

    let balance_doble = contrato.get_balance_doble(usuario);
    assert_eq!(balance_doble, None);

    contrato.establecer_balance(usuario, 50);
    let balance_doble = contrato.get_balance_doble(usuario);
    assert_eq!(balance_doble, Some(100));
}

#[test]
fn test_microcredito_get_limite_none() {
    let contrato = MicroCreditoResult::new();
    let solicitante = Address(1);

    let limite = contrato.get_limite(solicitante);

    assert_eq!(limite, None);
}

#[test]
fn test_microcredito_solicitar_prestamo_sin_limite() {
    let mut contrato = MicroCreditoResult::new();
    let solicitante = Address(1);

    let resultado = contrato.solicitar_prestamo(solicitante, 100, true);

    assert_eq!(resultado, Err(Error::SolicitanteNoValida));
}

#[test]
fn test_microcredito_solicitar_prestamo_exitoso() {
    let mut contrato = MicroCreditoResult::new();
    let solicitante = Address(1);

    contrato.establecer_limite(solicitante, 1000);

    let resultado = contrato.solicitar_prestamo(solicitante, 500, true);

    assert!(resultado.is_ok());

    assert_eq!(contrato.obtener_balance(solicitante), 500);
    assert_eq!(contrato.obtener_total_prestado(solicitante), 500);
}

#[test]
fn test_microcredito_solicitar_prestamo_limite_excedido() {
    let mut contrato = MicroCreditoResult::new();
    let solicitante = Address(1);

    contrato.establecer_limite(solicitante, 1000);

    let resultado = contrato.solicitar_prestamo(solicitante, 1500, true);

    assert_eq!(resultado, Err(Error::LimiteExcedido));
}

#[test]
fn test_microcredito_solicitar_prestamo_monto_invalido() {
    let mut contrato = MicroCreditoResult::new();
    let solicitante = Address(1);

    contrato.establecer_limite(solicitante, 1000);

    let resultado = contrato.solicitar_prestamo(solicitante, -100, true);

    assert_eq!(resultado, Err(Error::MontoInvalido));
}

#[test]
fn test_conversion_option_result_admin_existe() {
    let mut contrato = ConversionOptionResult::new();
    let admin = Address(1);

    contrato.establecer_admin(admin);

    let resultado = contrato.obtener_admin();

    assert_eq!(resultado, Ok(admin));
}

#[test]
fn test_conversion_option_result_admin_no_existe() {
    let contrato = ConversionOptionResult::new();

    let resultado = contrato.obtener_admin();

    assert_eq!(resultado, Err(Error::NoInicializado));
}

#[test]
fn test_conversion_option_result_propagacion() {
    let mut contrato = ConversionOptionResult::new();
    let admin = Address(1);

    contrato.establecer_admin(admin);
    let resultado = contrato.obtener_admin_y_usar(true);
    assert!(resultado.is_ok());

    let contrato2 = ConversionOptionResult::new();
    let resultado = contrato2.obtener_admin_y_usar(true);
    assert_eq!(resultado, Err(Error::NoInicializado));
}

#[test]
fn test_donacion_validada_exitosa() {
    let mut contrato = DonacionValidada::new();
    let donante = Address(1);
    let beneficiaria = Address(2);

    contrato.establecer_balance(donante, 1000);

    let resultado = contrato.crear_donacion(donante, beneficiaria, 500, true);

    assert!(resultado.is_ok());

    assert_eq!(contrato.obtener_balance(donante), 500);
    assert_eq!(contrato.obtener_balance(beneficiaria), 500);
}

#[test]
fn test_donacion_validada_monto_invalido() {
    let mut contrato = DonacionValidada::new();
    let donante = Address(1);
    let beneficiaria = Address(2);

    contrato.establecer_balance(donante, 1000);

    let resultado = contrato.crear_donacion(donante, beneficiaria, -100, true);

    assert_eq!(resultado, Err(Error::MontoInvalido));
}

#[test]
fn test_donacion_validada_limite_excedido() {
    let mut contrato = DonacionValidada::new();
    let donante = Address(1);
    let beneficiaria = Address(2);

    contrato.establecer_balance(donante, 1_000_000);

    let resultado = contrato.crear_donacion(donante, beneficiaria, 2_000_000, true);

    assert_eq!(resultado, Err(Error::LimiteExcedido));
}

#[test]
fn test_donacion_validada_balance_insuficiente() {
    let mut contrato = DonacionValidada::new();
    let donante = Address(1);
    let beneficiaria = Address(2);

    contrato.establecer_balance(donante, 100);

    let resultado = contrato.crear_donacion(donante, beneficiaria, 500, true);

    assert_eq!(resultado, Err(Error::BalanceInsuficiente));
}

#[test]
fn test_validacion_helper_validar_monto_exitoso() {
    let resultado = ejercicios_soroban::ValidacionHelper::validar_monto(100, 1000);
    assert!(resultado.is_ok());
}

#[test]
fn test_validacion_helper_validar_monto_invalido() {
    let resultado = ejercicios_soroban::ValidacionHelper::validar_monto(-100, 1000);
    assert_eq!(resultado, Err(Error::MontoInvalido));
}

#[test]
fn test_validacion_helper_validar_monto_limite_excedido() {
    let resultado = ejercicios_soroban::ValidacionHelper::validar_monto(2000, 1000);
    assert_eq!(resultado, Err(Error::LimiteExcedido));
}

#[test]
fn test_validacion_helper_validar_balance_exitoso() {
    let resultado = ejercicios_soroban::ValidacionHelper::validar_balance(100, 50);
    assert!(resultado.is_ok());
}

#[test]
fn test_validacion_helper_validar_balance_insuficiente() {
    let resultado = ejercicios_soroban::ValidacionHelper::validar_balance(100, 150);
    assert_eq!(resultado, Err(Error::BalanceInsuficiente));
}

#[test]
fn test_transfer_seguro_a_si_misma() {
    // Una transferencia de una cuenta a si misma es neta nula.
    let mut contrato = TransferSeguro::new();
    let cuenta = Address(1);

    contrato.establecer_balance(cuenta, 5);

    let resultado = contrato.transfer(cuenta, cuenta, 3, true);
    assert!(resultado.is_ok());
    assert_eq!(contrato.obtener_balance(cuenta), 5);
}

#[test]
fn test_donacion_a_si_misma() {
    // Una donacion de una cuenta a si misma es neta nula.
    let mut contrato = DonacionValidada::new();
    let cuenta = Address(1);

    contrato.establecer_balance(cuenta, 500);

    let resultado = contrato.crear_donacion(cuenta, cuenta, 100, true);
    assert!(resultado.is_ok());
    assert_eq!(contrato.obtener_balance(cuenta), 500);
}

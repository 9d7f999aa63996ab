use ejercicios_soroban::Address;
use ejercicios_soroban::Donacion;
use ejercicios_soroban::DonacionEducacion;
use ejercicios_soroban::DonacionSalud;
use ejercicios_soroban::MicroCredito;
use ejercicios_soroban::Ownable;
use ejercicios_soroban::PropuestaLey;
use ejercicios_soroban::Symbol;
use ejercicios_soroban::TraitsError;
use ejercicios_soroban::Votable;
use ejercicios_soroban::contar_aprobadas;
use ejercicios_soroban::registrar_donacion;

#[test]
fn test_donacion_educacion_impl_trait() {
    let beneficiaria = Address(1);
    let monto = 1000i128;
    let escuela = Symbol(20);

    let donacion = DonacionEducacion::new(beneficiaria, monto, escuela);

    assert_eq!(donacion.beneficiaria(), beneficiaria);
    assert_eq!(donacion.monto(), monto);
}

#[test]
fn test_donacion_salud_impl_trait() {
    let beneficiaria = Address(1);
    let monto = 2000i128;
    let hospital = Symbol(21);

    let donacion = DonacionSalud::new(beneficiaria, monto, hospital);

    assert_eq!(donacion.beneficiaria(), beneficiaria);
    assert_eq!(donacion.monto(), monto);
}

#[test]
fn test_donacion_educacion_procesar() {
    let beneficiaria = Address(1);
    let monto = 1000i128;
    let escuela = Symbol(20);
    let donante = Address(2);

    let mut donacion = DonacionEducacion::new(beneficiaria, monto, escuela);
    let resultado = donacion.procesar(donante);

    assert!(resultado.is_ok());
}

#[test]
fn test_donacion_procesar_monto_invalido() {
    let beneficiaria = Address(1);
    let monto = -100i128;
    let escuela = Symbol(20);
    let donante = Address(2);

    let mut donacion = DonacionEducacion::new(beneficiaria, monto, escuela);
    let resultado = donacion.procesar(donante);

    assert!(resultado.is_err());
}

#[test]
fn test_micro_credito_initialize() {
    let mut contrato = MicroCredito::new();
    let owner = Address(1);

    contrato.initialize(owner);

    assert_eq!(contrato.get_owner(), owner);
}

#[test]
fn test_micro_credito_solicitar_credito() {
    let mut contrato = MicroCredito::new();
    let owner = Address(1);
    let solicitante = Address(2);
    let monto = 5000i128;

    contrato.initialize(owner);

    let resultado = contrato.solicitar_credito(solicitante, monto);
    assert!(resultado.is_ok());

    assert_eq!(contrato.get_total_prestado(), monto);
}

#[test]
fn test_micro_credito_solicitar_credito_monto_invalido() {
    let mut contrato = MicroCredito::new();
    contrato.initialize(Address(1));

    let resultado = contrato.solicitar_credito(Address(2), -5);
    assert_eq!(resultado, Err(TraitsError::MontoInvalido));
    assert_eq!(contrato.get_total_prestado(), 0);
}

#[test]
fn test_micro_credito_cambiar_tasa_owner() {
    let mut contrato = MicroCredito::new();
    let owner = Address(1);
    let nueva_tasa = 15u32;

    contrato.initialize(owner);

    let resultado = contrato.cambiar_tasa_interes(owner, nueva_tasa);
    assert!(resultado.is_ok());

    assert_eq!(contrato.get_tasa_interes(), nueva_tasa);
}

#[test]
fn test_micro_credito_cambiar_tasa_no_owner() {
    let mut contrato = MicroCredito::new();
    let owner = Address(1);
    let no_owner = Address(2);
    let nueva_tasa = 15u32;

    contrato.initialize(owner);

    let resultado = contrato.cambiar_tasa_interes(no_owner, nueva_tasa);
    assert!(resultado.is_err());
    // La tasa protegida no cambio.
    assert_eq!(contrato.get_tasa_interes(), 10);
}

#[test]
fn test_require_owner_exitoso() {
    let mut contrato = MicroCredito::new();
    let owner = Address(1);

    contrato.initialize(owner);

    let resultado = contrato.require_owner(owner);
    assert!(resultado.is_ok());
}

#[test]
fn test_require_owner_falla() {
    let mut contrato = MicroCredito::new();
    let owner = Address(1);
    let no_owner = Address(2);

    contrato.initialize(owner);

    let resultado = contrato.require_owner(no_owner);
    assert!(resultado.is_err());
    assert_eq!(resultado, Err(TraitsError::NotOwner));
}

#[test]
fn test_transfer_ownership() {
    let mut contrato = MicroCredito::new();
    let owner = Address(1);
    let nueva = Address(2);

    contrato.initialize(owner);
    let resultado = Ownable::transfer_ownership(&mut contrato, nueva);

    assert!(resultado.is_ok());
    assert_eq!(contrato.get_owner(), nueva);
}

#[test]
fn test_tasa_interes_default() {
    let mut contrato = MicroCredito::new();
    let owner = Address(1);

    contrato.initialize(owner);

    assert_eq!(contrato.get_tasa_interes(), 10u32);
}

#[test]
fn test_propuesta_ley_initialize() {
    let mut propuesta = PropuestaLey::new();
    let titulo = Symbol(30);

    propuesta.initialize(titulo);

    assert_eq!(propuesta.get_votos_si(), 0);
    assert_eq!(propuesta.get_votos_no(), 0);
}

#[test]
fn test_propuesta_ley_votar() {
    let mut propuesta = PropuestaLey::new();
    let titulo = Symbol(30);

    propuesta.initialize(titulo);

    propuesta.votar_a_favor();
    propuesta.votar_a_favor();

    propuesta.votar_en_contra();

    assert_eq!(propuesta.get_votos_si(), 2);
    assert_eq!(propuesta.get_votos_no(), 1);
}

#[test]
fn test_propuesta_ley_impl_votable() {
    let mut propuesta = PropuestaLey::new();
    let titulo = Symbol(30);

    propuesta.initialize(titulo);

    propuesta.votar_a_favor();
    propuesta.votar_a_favor();
    propuesta.votar_en_contra();

    assert_eq!(propuesta.votos_a_favor(), 2);
    assert_eq!(propuesta.votos_en_contra(), 1);
    assert_eq!(propuesta.paso(), true);
}

#[test]
fn test_propuesta_ley_no_pasa() {
    let mut propuesta = PropuestaLey::new();
    let titulo = Symbol(30);

    propuesta.initialize(titulo);

    propuesta.votar_a_favor();
    propuesta.votar_en_contra();
    propuesta.votar_en_contra();

    assert_eq!(propuesta.votos_a_favor(), 1);
    assert_eq!(propuesta.votos_en_contra(), 2);
    assert_eq!(propuesta.paso(), false);
}

#[test]
fn test_propuesta_ley_empate_no_pasa() {
    let mut propuesta = PropuestaLey::new();
    propuesta.initialize(Symbol(30));

    propuesta.votar_a_favor();
    propuesta.votar_en_contra();

    // Un empate no aprueba la propuesta.
    assert_eq!(propuesta.paso(), false);
}

#[test]
fn test_registrar_donacion_generico() {
    let beneficiaria1 = Address(1);
    let beneficiaria2 = Address(2);
    let monto1 = 1000i128;
    let monto2 = 2000i128;

    let donacion_educ = DonacionEducacion::new(beneficiaria1, monto1, Symbol(40));
    let donacion_salud = DonacionSalud::new(beneficiaria2, monto2, Symbol(41));

    let mut registro: Vec<Address> = Vec::new();

    registrar_donacion(&donacion_educ, &mut registro);
    registrar_donacion(&donacion_salud, &mut registro);

    assert_eq!(registro.len(), 2);
    assert_eq!(registro[0], beneficiaria1);
    assert_eq!(registro[1], beneficiaria2);
}

#[test]
fn test_contar_aprobadas_generico() {
    let mut propuesta = PropuestaLey::new();
    let titulo = Symbol(30);

    propuesta.initialize(titulo);

    propuesta.votar_a_favor();
    propuesta.votar_a_favor();
    propuesta.votar_en_contra();

    assert_eq!(propuesta.paso(), true);

    let propuestas_array = [propuesta];
    let aprobadas = contar_aprobadas(&propuestas_array);
    assert_eq!(aprobadas, 1);
}

#[test]
fn test_contar_aprobadas_varias() {
    let mut aprobada = PropuestaLey::new();
    aprobada.initialize(Symbol(31));
    aprobada.votar_a_favor();

    let mut rechazada = PropuestaLey::new();
    rechazada.initialize(Symbol(32));
    rechazada.votar_en_contra();

    let mut otra_aprobada = PropuestaLey::new();
    otra_aprobada.initialize(Symbol(33));
    otra_aprobada.votar_a_favor();
    otra_aprobada.votar_a_favor();
    otra_aprobada.votar_en_contra();

    let propuestas = [aprobada, rechazada, otra_aprobada];
    assert_eq!(contar_aprobadas(&propuestas), 2);
}

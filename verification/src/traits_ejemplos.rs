//! Contratos de comportamiento compartidos: donaciones de distintos tipos,
//! el estandar de tokens, propuestas votables y el patron de control de
//! acceso por propietaria.

use vstd::prelude::*;

use crate::tipos::Address;
use crate::tipos::Symbol;

verus! {

/// Fallos etiquetados de este modulo.
#[derive(Clone, Copy, Debug, PartialEq, Eq, Structural)]
pub enum Error {
    /// El monto no es positivo.
    MontoInvalido,
    /// Quien llama no es la propietaria.
    NotOwner,
}

/// Comportamiento que toda donacion debe ofrecer, sin importar su tipo.
pub trait Donacion: Sized {
    /// La donacion tiene todos sus datos cargados.
    spec fn valida(&self) -> bool;

    /// Beneficiaria registrada.
    spec fn beneficiaria_espec(&self) -> Address;

    /// Monto registrado.
    spec fn monto_espec(&self) -> i128;

    /// Beneficiaria de la donacion.
    fn beneficiaria(&self) -> (r: Address)
        requires
            self.valida(),
        ensures
            r == self.beneficiaria_espec(),
    ;

    /// Monto de la donacion.
    fn monto(&self) -> (r: i128)
        requires
            self.valida(),
        ensures
            r == self.monto_espec(),
    ;

    /// Procesa la donacion de `donante`: acepta exactamente los montos
    /// positivos y nunca cambia los datos registrados.
    fn procesar(&mut self, donante: Address) -> (r: Result<(), Error>)
        requires
            old(self).valida(),
        ensures
            *final(self) == *old(self),
            old(self).monto_espec() <= 0 ==> r == Err::<(), Error>(Error::MontoInvalido),
            old(self).monto_espec() > 0 ==> r == Ok::<(), Error>(()),
    ;
}

/// Donacion destinada a una escuela.
pub struct DonacionEducacion {
    pub beneficiaria: Option<Address>,
    pub monto: Option<i128>,
    pub escuela: Option<Symbol>,
}

impl DonacionEducacion {
    /// Registra una donacion de educacion con todos sus datos.
    pub fn new(beneficiaria: Address, monto: i128, escuela: Symbol) -> (r: Self)
        ensures
            r.beneficiaria == Some(beneficiaria),
            r.monto == Some(monto),
            r.escuela == Some(escuela),
    {
        DonacionEducacion { beneficiaria: Some(beneficiaria), monto: Some(monto), escuela: Some(escuela) }
    }

    /// Beneficiaria registrada.
    pub fn get_beneficiaria(&self) -> (r: Address)
        requires
            self.beneficiaria is Some,
        ensures
            r == self.beneficiaria->0,
    {
        match self.beneficiaria {
            Some(b) => b,
            None => Address(0),
        }
    }

    /// Monto registrado.
    pub fn get_monto(&self) -> (r: i128)
        requires
            self.monto is Some,
        ensures
            r == self.monto->0,
    {
        match self.monto {
            Some(m) => m,
            None => 0,
        }
    }

    /// Escuela registrada.
    pub fn get_escuela(&self) -> (r: Symbol)
        requires
            self.escuela is Some,
        ensures
            r == self.escuela->0,
    {
        match self.escuela {
            Some(e) => e,
            None => Symbol(0),
        }
    }
}

impl Donacion for DonacionEducacion {
    open spec fn valida(&self) -> bool {
        self.beneficiaria is Some && self.monto is Some && self.escuela is Some
    }

    open spec fn beneficiaria_espec(&self) -> Address {
        self.beneficiaria->0
    }

    open spec fn monto_espec(&self) -> i128 {
        self.monto->0
    }

    fn beneficiaria(&self) -> (r: Address) {
        self.get_beneficiaria()
    }

    fn monto(&self) -> (r: i128) {
        self.get_monto()
    }

    fn procesar(&mut self, donante: Address) -> (r: Result<(), Error>) {
        let _escuela = self.get_escuela();
        let monto = self.get_monto();
        if monto <= 0 {
            return Err(Error::MontoInvalido);
        }
        Ok(())
    }
}

/// Donacion destinada a un hospital.
pub struct DonacionSalud {
    pub beneficiaria: Option<Address>,
    pub monto: Option<i128>,
    pub hospital: Option<Symbol>,
}

impl DonacionSalud {
    /// Registra una donacion de salud con todos sus datos.
    pub fn new(beneficiaria: Address, monto: i128, hospital: Symbol) -> (r: Self)
        ensures
            r.beneficiaria == Some(beneficiaria),
            r.monto == Some(monto),
            r.hospital == Some(hospital),
    {
        DonacionSalud { beneficiaria: Some(beneficiaria), monto: Some(monto), hospital: Some(hospital) }
    }

    /// Beneficiaria registrada.
    pub fn get_beneficiaria(&self) -> (r: Address)
        requires
            self.beneficiaria is Some,
        ensures
            r == self.beneficiaria->0,
    {
        match self.beneficiaria {
            Some(b) => b,
            None => Address(0),
        }
    }

    /// Monto registrado.
    pub fn get_monto(&self) -> (r: i128)
        requires
            self.monto is Some,
        ensures
            r == self.monto->0,
    {
        match self.monto {
            Some(m) => m,
            None => 0,
        }
    }

    /// Hospital registrado.
    pub fn get_hospital(&self) -> (r: Symbol)
        requires
            self.hospital is Some,
        ensures
            r == self.hospital->0,
    {
        match self.hospital {
            Some(h) => h,
            None => Symbol(0),
        }
    }
}

impl Donacion for DonacionSalud {
    open spec fn valida(&self) -> bool {
        self.beneficiaria is Some && self.monto is Some && self.hospital is Some
    }

    open spec fn beneficiaria_espec(&self) -> Address {
        self.beneficiaria->0
    }

    open spec fn monto_espec(&self) -> i128 {
        self.monto->0
    }

    fn beneficiaria(&self) -> (r: Address) {
        self.get_beneficiaria()
    }

    fn monto(&self) -> (r: i128) {
        self.get_monto()
    }

    fn procesar(&mut self, donante: Address) -> (r: Result<(), Error>) {
        let _hospital = self.get_hospital();
        let monto = self.get_monto();
        if monto <= 0 {
            return Err(Error::MontoInvalido);
        }
        Ok(())
    }
}

/// Comportamiento estandar de un token, para interoperar con carteras y
/// otros contratos; cada implementacion aporta su propio estado.
pub trait Token {
    /// Balance abstracto de cada cuenta.
    spec fn balance_espec(&self, owner: Address) -> i128;

    /// Suministro total abstracto.
    spec fn suministro_espec(&self) -> i128;

    /// Balance de una cuenta.
    fn balance_of(&self, owner: Address) -> (r: i128)
        ensures
            r == self.balance_espec(owner),
    ;

    /// Transfiere `amount` de `from` a `to`.
    fn transfer(&mut self, from: Address, to: Address, amount: i128) -> (r: Result<(), Error>);

    /// Suministro total del token.
    fn total_supply(&self) -> (r: i128)
        ensures
            r == self.suministro_espec(),
    ;
}

/// Comportamiento de toda propuesta votable, sin importar su tipo.
pub trait Votable {
    /// Votos a favor abstractos.
    spec fn favor_espec(&self) -> u32;

    /// Votos en contra abstractos.
    spec fn contra_espec(&self) -> u32;

    /// Votos a favor.
    fn votos_a_favor(&self) -> (r: u32)
        ensures
            r == self.favor_espec(),
    ;

    /// Votos en contra.
    fn votos_en_contra(&self) -> (r: u32)
        ensures
            r == self.contra_espec(),
    ;

    /// Una propuesta pasa exactamente cuando tiene mas votos a favor que
    /// en contra.
    fn paso(&self) -> (r: bool)
        ensures
            r == (self.favor_espec() > self.contra_espec()),
    {
        self.votos_a_favor() > self.votos_en_contra()
    }
}

/// Patron de control de acceso: un contrato con propietaria.
pub trait Ownable {
    /// Propietaria registrada, si la hay.
    spec fn owner_espec(&self) -> Option<Address>;

    /// Propietaria actual del contrato.
    fn get_owner(&self) -> (r: Address)
        requires
            self.owner_espec() is Some,
        ensures
            r == self.owner_espec()->0,
    ;

    /// Transfiere la propiedad a otra cuenta.
    fn transfer_ownership(&mut self, new_owner: Address) -> (r: Result<(), Error>)
        ensures
            final(self).owner_espec() == Some(new_owner),
            r == Ok::<(), Error>(()),
    ;

    /// Guardian: acepta exactamente a la propietaria.
    fn require_owner(&self, caller: Address) -> (r: Result<(), Error>)
        requires
            self.owner_espec() is Some,
        ensures
            caller == self.owner_espec()->0 ==> r == Ok::<(), Error>(()),
            caller != self.owner_espec()->0 ==> r == Err::<(), Error>(Error::NotOwner),
    ;
}

/// Microcreditos con control de acceso por propietaria.
pub struct MicroCredito {
    pub owner: Option<Address>,
    pub tasa_interes: Option<u32>,
    pub total_prestado: Option<i128>,
}

impl MicroCredito {
    /// Estado inicial, sin configurar.
    pub fn new() -> (r: Self)
        ensures
            r.owner is None,
            r.tasa_interes is None,
            r.total_prestado is None,
    {
        MicroCredito { owner: None, tasa_interes: None, total_prestado: None }
    }

    /// Tasa de interes efectiva (10 por ciento por defecto).
    pub open spec fn tasa_efectiva(self) -> u32 {
        match self.tasa_interes {
            Some(t) => t,
            None => 10,
        }
    }

    /// Total prestado efectivo (0 si nunca se escribio).
    pub open spec fn total_efectivo(self) -> i128 {
        match self.total_prestado {
            Some(t) => t,
            None => 0,
        }
    }

    /// Configura la propietaria, la tasa por defecto del 10 por ciento y el
    /// total prestado en cero.
    pub fn initialize(&mut self, owner: Address)
        ensures
            final(self).owner == Some(owner),
            final(self).tasa_interes == Some(10u32),
            final(self).total_prestado == Some(0i128),
    {
        self.owner = Some(owner);
        self.tasa_interes = Some(10);
        self.total_prestado = Some(0);
    }

    /// Solicita un credito: cualquiera puede llamarla; exige monto positivo
    /// y acumula el total prestado.
    pub fn solicitar_credito(&mut self, solicitante: Address, monto: i128) -> (r: Result<
        (),
        Error,
    >)
        requires
            monto > 0 ==> old(self).total_efectivo() + monto <= i128::MAX,
        ensures
            monto <= 0 ==> r == Err::<(), Error>(Error::MontoInvalido) && *final(self) == *old(self),
            monto > 0 ==> r == Ok::<(), Error>(()) && final(self).total_prestado == Some(
                (old(self).total_efectivo() + monto) as i128,
            ) && final(self).owner == old(self).owner && final(self).tasa_interes == old(self).tasa_interes,
    {
        if monto <= 0 {
            return Err(Error::MontoInvalido);
        }
        let total: i128 = match self.total_prestado {
            Some(t) => t,
            None => 0,
        };
        self.total_prestado = Some(total + monto);
        Ok(())
    }

    /// Cambia la tasa de interes; solo la propietaria puede hacerlo.
    pub fn cambiar_tasa_interes(&mut self, caller: Address, nueva_tasa: u32) -> (r: Result<
        (),
        Error,
    >)
        requires
            old(self).owner is Some,
        ensures
            caller != old(self).owner->0 ==> r == Err::<(), Error>(Error::NotOwner) && *final(self)
                == *old(self),
            caller == old(self).owner->0 ==> r == Ok::<(), Error>(()) && final(self).tasa_interes
                == Some(nueva_tasa) && final(self).owner == old(self).owner && final(self).total_prestado == old(self).total_prestado,
    {
        match MicroCredito::require_owner(self, caller) {
            Ok(()) => {},
            Err(e) => {
                return Err(e);
            },
        }
        self.tasa_interes = Some(nueva_tasa);
        Ok(())
    }

    /// Tasa de interes actual (10 por ciento por defecto).
    pub fn get_tasa_interes(&self) -> (r: u32)
        ensures
            r == self.tasa_efectiva(),
    {
        match self.tasa_interes {
            Some(t) => t,
            None => 10,
        }
    }

    /// Total prestado acumulado.
    pub fn get_total_prestado(&self) -> (r: i128)
        ensures
            r == self.total_efectivo(),
    {
        match self.total_prestado {
            Some(t) => t,
            None => 0,
        }
    }

    /// Guardian reutilizable: acepta exactamente a la propietaria.
    pub fn require_owner(&self, caller: Address) -> (r: Result<(), Error>)
        requires
            self.owner is Some,
        ensures
            caller == self.owner->0 ==> r == Ok::<(), Error>(()),
            caller != self.owner->0 ==> r == Err::<(), Error>(Error::NotOwner),
    {
        let owner = match self.owner {
            Some(o) => o,
            None => Address(0),
        };
        if caller != owner {
            return Err(Error::NotOwner);
        }
        Ok(())
    }
}

impl Ownable for MicroCredito {
    open spec fn owner_espec(&self) -> Option<Address> {
        self.owner
    }

    fn get_owner(&self) -> (r: Address) {
        match self.owner {
            Some(o) => o,
            None => Address(0),
        }
    }

    fn transfer_ownership(&mut self, new_owner: Address) -> (r: Result<(), Error>) {
        self.owner = Some(new_owner);
        Ok(())
    }

    fn require_owner(&self, caller: Address) -> (r: Result<(), Error>) {
        let owner = match self.owner {
            Some(o) => o,
            None => Address(0),
        };
        if caller != owner {
            return Err(Error::NotOwner);
        }
        Ok(())
    }
}

/// Propuesta de ley votable.
pub struct PropuestaLey {
    pub votos_si: u32,
    pub votos_no: u32,
    pub titulo: Option<Symbol>,
}

impl PropuestaLey {
    /// Estado inicial, sin votos ni titulo.
    pub fn new() -> (r: Self)
        ensures
            r.votos_si == 0,
            r.votos_no == 0,
            r.titulo is None,
    {
        PropuestaLey { votos_si: 0, votos_no: 0, titulo: None }
    }

    /// Registra el titulo y deja ambos conteos en cero.
    pub fn initialize(&mut self, titulo: Symbol)
        ensures
            final(self).votos_si == 0,
            final(self).votos_no == 0,
            final(self).titulo == Some(titulo),
    {
        self.votos_si = 0;
        self.votos_no = 0;
        self.titulo = Some(titulo);
    }

    /// Registra un voto a favor.
    pub fn votar_a_favor(&mut self)
        requires
            old(self).votos_si < u32::MAX,
        ensures
            final(self).votos_si == old(self).votos_si + 1,
            final(self).votos_no == old(self).votos_no,
            final(self).titulo == old(self).titulo,
    {
        self.votos_si = self.votos_si + 1;
    }

    /// Registra un voto en contra.
    pub fn votar_en_contra(&mut self)
        requires
            old(self).votos_no < u32::MAX,
        ensures
            final(self).votos_no == old(self).votos_no + 1,
            final(self).votos_si == old(self).votos_si,
            final(self).titulo == old(self).titulo,
    {
        self.votos_no = self.votos_no + 1;
    }

    /// Votos a favor acumulados.
    pub fn get_votos_si(&self) -> (r: u32)
        ensures
            r == self.votos_si,
    {
        self.votos_si
    }

    /// Votos en contra acumulados.
    pub fn get_votos_no(&self) -> (r: u32)
        ensures
            r == self.votos_no,
    {
        self.votos_no
    }
}

impl Votable for PropuestaLey {
    open spec fn favor_espec(&self) -> u32 {
        self.votos_si
    }

    open spec fn contra_espec(&self) -> u32 {
        self.votos_no
    }

    fn votos_a_favor(&self) -> (r: u32) {
        self.votos_si
    }

    fn votos_en_contra(&self) -> (r: u32) {
        self.votos_no
    }
}

/// Registra una donacion de cualquier tipo que implemente `Donacion`:
/// apunta a su beneficiaria en el registro.
pub fn registrar_donacion<T: Donacion>(donacion: &T, registro: &mut Vec<Address>)
    requires
        donacion.valida(),
    ensures
        final(registro)@ == old(registro)@.push(donacion.beneficiaria_espec()),
{
    let beneficiaria = donacion.beneficiaria();
    registro.push(beneficiaria);
}

/// Cuantas propuestas de la sucesion estan aprobadas (mas votos a favor que
/// en contra).
pub open spec fn aprobadas<T: Votable>(s: Seq<T>) -> int
    decreases s.len(),
{
    if s.len() == 0 {
        0
    } else {
        aprobadas(s.drop_last()) + if s.last().favor_espec() > s.last().contra_espec() {
            1int
        } else {
            0int
        }
    }
}

/// Cuenta las propuestas aprobadas de cualquier tipo que implemente
/// `Votable`.
pub fn contar_aprobadas<T: Votable>(propuestas: &[T]) -> (r: u32)
    requires
        propuestas@.len() <= u32::MAX,
    ensures
        r == aprobadas(propuestas@),
{
    let n = propuestas.len();
    let mut contador: u32 = 0;
    let mut i: usize = 0;
    while i < n
        invariant
            n == propuestas@.len(),
            n <= u32::MAX,
            i <= n,
            contador == aprobadas(propuestas@.take(i as int)),
            contador <= i,
        decreases n - i,
    {
        proof {
            assert(propuestas@.take(i + 1).drop_last() =~= propuestas@.take(i as int));
            assert(propuestas@.take(i + 1).last() == propuestas@[i as int]);
        }
        if propuestas[i].paso() {
            contador = contador + 1;
        }
        i = i + 1;
    }
    proof {
        assert(propuestas@.take(n as int) =~= propuestas@);
    }
    contador
}

} // verus!

//! Coleccion de contratos de ejercicio sobre un almacen clave-valor modelado.
//!
//! Cada contrato es un modulo independiente: contadores con y sin limite,
//! tallies de votos, reputacion con candado anti voto doble, transferencias
//! con aritmetica comprobada y patrones de almacenamiento por niveles con
//! extension explicita de TTL.  El almacen del anfitrion se modela como un
//! valor propio que cada operacion recibe, de modo que toda la logica queda
//! verificada; los valores que solo el anfitrion conoce (su veredicto de
//! autorizacion, la hora del ledger) entran como argumentos.

mod almacen;
mod contador;
mod ejercicios_practica;
mod hello_tiburona;
mod result_option_ejemplos;
mod storage_patterns;
mod tipos;
mod traits_ejemplos;

pub use almacen::Almacen;
pub use almacen::clave_de_par;
pub use almacen::clave_par;
pub use almacen::valor_o;
pub use contador::ContadorContract;
pub use contador::ContadorError;
pub use contador::decrementos;
pub use contador::incrementos;
pub use contador::lemma_incrementos_menos_decrementos;
pub use contador::valor_tras;
pub use ejercicios_practica::{
    MysteryFunctions,
    ContadorExtendido,
    ContadorConLimite,
    ContadorConSetValue,
    ContadorConHistorial,
    SistemaVotacion,
    ReputationContract,
    ReputacionError,
    Voto,
    ultimos_cinco,
};
pub use hello_tiburona::{
    HelloContract,
    Error as HelloError,
};
pub use result_option_ejemplos::{
    Error as ResultOptionError,
    TransferSeguro,
    OptionEjemplo,
    MicroCredito as MicroCreditoResult,
    ConversionOptionResult,
    DonacionValidada,
    ValidacionHelper,
};
pub use storage_patterns::{
    Error as StorageError,
    ConfiguracionGlobal,
    DatosUsuarios,
    CacheTemporal,
    PlataformaDonaciones,
    GestionUsuario,
    EstrategiaTTL,
    DonacionInfo,
};
pub use tipos::Address;
pub use tipos::Symbol;
pub use traits_ejemplos::{
    Error as TraitsError,
    Donacion,
    Token,
    Votable,
    Ownable,
    DonacionEducacion,
    DonacionSalud,
    MicroCredito,
    PropuestaLey,
    registrar_donacion,
    contar_aprobadas,
    aprobadas,
};

use vstd::prelude::*;

verus! {

/// Cuantos valores de la sucesion son mayores que 100.
pub open spec fn cuenta_mayores(s: Seq<u32>) -> int
    decreases s.len(),
{
    if s.len() == 0 {
        0
    } else {
        cuenta_mayores(s.drop_last()) + if s.last() > 100 {
            1int
        } else {
            0int
        }
    }
}

/// Ejercicios sueltos: conteo sobre vectores, validacion de cantidades,
/// transferencia de tokens con mensajes de error y sumas y restas
/// comprobadas.
pub struct EjerciciosSoroban {
    /// Balance de tokens por cuenta.
    pub balances: Almacen<u128>,
}

impl EjerciciosSoroban {
    /// Estado inicial sin cuentas.
    pub fn new() -> (r: Self)
        ensures
            r.balances.contenido() == Map::<u128, u128>::empty(),
    {
        EjerciciosSoroban { balances: Almacen::new() }
    }

    /// Balance de una cuenta; una cuenta nueva tiene 0.
    pub open spec fn balance_de(self, cuenta: Address) -> u128 {
        valor_o(self.balances.contenido(), cuenta.0 as u128, 0)
    }

    /// Cuenta cuantos numeros del vector son mayores que 100.
    pub fn contar_mayores(numeros: &Vec<u32>) -> (r: u32)
        requires
            numeros@.len() <= u32::MAX,
        ensures
            r == cuenta_mayores(numeros@),
    {
        let n = numeros.len();
        let mut contador: u32 = 0;
        let mut i: usize = 0;
        while i < n
            invariant
                n == numeros@.len(),
                n <= u32::MAX,
                i <= n,
                contador == cuenta_mayores(numeros@.take(i as int)),
                contador <= i,
            decreases n - i,
        {
            proof {
                assert(numeros@.take(i + 1).drop_last() =~= numeros@.take(i as int));
                assert(numeros@.take(i + 1).last() == numeros@[i as int]);
            }
            if numeros[i] > 100 {
                contador = contador + 1;
            }
            i = i + 1;
        }
        proof {
            assert(numeros@.take(n as int) =~= numeros@);
        }
        contador
    }

    /// Valida que la cantidad este entre 1 y 1000; fuera de ese rango
    /// devuelve el mensaje de error correspondiente.
    pub fn validar_cantidad(cantidad: u32) -> (r: Result<u32, String>)
        ensures
            cantidad == 0 ==> (r matches Err(m) && m@ == "Cantidad no puede ser 0"@),
            1 <= cantidad <= 1000 ==> r == Ok::<u32, String>(cantidad),
            cantidad > 1000 ==> (r matches Err(m) && m@ == "Cantidad máxima: 1000"@),
    {
        if cantidad == 0 {
            Err("Cantidad no puede ser 0".to_owned())
        } else if cantidad <= 1000 {
            Ok(cantidad)
        } else {
            Err("Cantidad máxima: 1000".to_owned())
        }
    }

    /// Procesa un deposito: valida la cantidad y la devuelve ensanchada.
    pub fn procesar_deposito(cantidad: u32) -> (r: Result<u128, String>)
        ensures
            cantidad == 0 ==> (r matches Err(m) && m@ == "Cantidad no puede ser 0"@),
            1 <= cantidad <= 1000 ==> r == Ok::<u128, String>(cantidad as u128),
            cantidad > 1000 ==> (r matches Err(m) && m@ == "Cantidad máxima: 1000"@),
    {
        match Self::validar_cantidad(cantidad) {
            Ok(monto_valido) => Ok(monto_valido as u128),
            Err(mensaje) => Err(mensaje),
        }
    }

    /// Procesa la informacion de un token: exige nombre no vacio y
    /// suministro positivo y devuelve el suministro total.
    pub fn procesar_token_info_eficiente(
        name: &String,
        _symbol: Symbol,
        total_supply: u128,
    ) -> (r: u128)
        requires
            name@.len() > 0,
            total_supply > 0,
        ensures
            r == total_supply,
    {
        Self::verificar_nombre(name);
        Self::verificar_supply(total_supply);
        total_supply
    }

    /// Exige, como precondicion, que el nombre no este vacio; no queda
    /// ninguna comprobacion para el tiempo de ejecucion.
    pub fn verificar_nombre(name: &String)
        requires
            name@.len() > 0,
    {
    }

    /// Exige, como precondicion, que el suministro sea positivo; no queda
    /// ninguna comprobacion para el tiempo de ejecucion.
    pub fn verificar_supply(total_supply: u128)
        requires
            total_supply > 0,
    {
    }

    /// Transfiere `amount` tokens de `from` a `to`: debita al remitente y
    /// acredita a la destinataria, asi que una transferencia de una cuenta
    /// a si misma deja su balance igual.  Rechaza el monto cero y el
    /// balance insuficiente, con aritmetica comprobada; todo rechazo deja
    /// los balances exactamente como estaban.
    pub fn transferir(&mut self, from: Address, to: Address, amount: u128) -> (r: Result<
        (),
        String,
    >)
        ensures
            amount == 0 ==> (r matches Err(m) && m@ == "El monto debe ser mayor a 0"@) && *final(self) == *old(self),
            amount > 0 && old(self).balance_de(from) < amount ==> (r matches Err(m) && m@
                == "Balance insuficiente"@) && *final(self) == *old(self),
            amount > 0 && old(self).balance_de(from) >= amount && from == to ==> r == Ok::<
                (),
                String,
            >(()) && final(self).balances.contenido() == old(self).balances.contenido(),
            amount > 0 && old(self).balance_de(from) >= amount && from != to && old(self).balance_de(to) + amount > u128::MAX ==> (r matches Err(m) && m@
                == "Error: overflow al sumar"@) && *final(self) == *old(self),
            amount > 0 && old(self).balance_de(from) >= amount && from != to && old(self).balance_de(to) + amount <= u128::MAX ==> r == Ok::<(), String>(()) && final(self).balances.contenido() == old(self).balances.contenido().insert(
                from.0 as u128,
                (old(self).balance_de(from) - amount) as u128,
            ).insert(to.0 as u128, (old(self).balance_de(to) + amount) as u128),
    {
        if amount == 0 {
            return Err("El monto debe ser mayor a 0".to_owned());
        }
        let balance_from: u128 = match self.balances.get(from.0 as u128) {
            Some(v) => *v,
            None => 0,
        };
        if balance_from < amount {
            return Err("Balance insuficiente".to_owned());
        }
        let nuevo_balance_from = match balance_from.checked_sub(amount) {
            Some(v) => v,
            None => {
                return Err("Error: underflow al restar".to_owned());
            },
        };
        // El credito parte del balance ya debitado: con `from == to` la
        // operacion neta es nula.
        let balance_to: u128 = if from == to {
            nuevo_balance_from
        } else {
            match self.balances.get(to.0 as u128) {
                Some(v) => *v,
                None => 0,
            }
        };
        let nuevo_balance_to = match balance_to.checked_add(amount) {
            Some(v) => v,
            None => {
                return Err("Error: overflow al sumar".to_owned());
            },
        };
        self.balances.set(from.0 as u128, nuevo_balance_from);
        self.balances.set(to.0 as u128, nuevo_balance_to);
        proof {
            if from == to {
                assert(old(self).balances.contenido().contains_key(from.0 as u128));
                assert(self.balances.contenido() =~= old(self).balances.contenido());
            }
        }
        Ok(())
    }

    /// Balance de una cuenta (0 si es nueva).
    pub fn obtener_balance(&self, account: Address) -> (r: u128)
        ensures
            r == self.balance_de(account),
    {
        match self.balances.get(account.0 as u128) {
            Some(v) => *v,
            None => 0,
        }
    }

    /// Fija el balance inicial de una cuenta.
    pub fn establecer_balance(&mut self, account: Address, balance: u128)
        ensures
            final(self).balances.contenido() == old(self).balances.contenido().insert(
                account.0 as u128,
                balance,
            ),
    {
        self.balances.set(account.0 as u128, balance);
    }

    /// Suma comprobada de dos `u8`: al desbordar devuelve un error en vez
    /// de envolver.
    pub fn sumar_segura(a: u8, b: u8) -> (r: Result<u8, String>)
        ensures
            a + b <= u8::MAX ==> r == Ok::<u8, String>((a + b) as u8),
            a + b > u8::MAX ==> (r matches Err(m) && m@ == "Overflow: resultado demasiado grande"@),
    {
        match a.checked_add(b) {
            Some(v) => Ok(v),
            None => Err("Overflow: resultado demasiado grande".to_owned()),
        }
    }

    /// Resta comprobada de dos `u32`: si el resultado seria negativo
    /// devuelve un error en vez de envolver.
    pub fn restar_segura(a: u32, b: u32) -> (r: Result<u32, String>)
        ensures
            a >= b ==> r == Ok::<u32, String>((a - b) as u32),
            a < b ==> (r matches Err(m) && m@ == "Underflow: resultado negativo no permitido"@),
    {
        match a.checked_sub(b) {
            Some(v) => Ok(v),
            None => Err("Underflow: resultado negativo no permitido".to_owned()),
        }
    }
}

} // verus!

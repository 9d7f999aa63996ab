//! Manejo de fallos con valores de error etiquetados: transferencia con
//! validaciones completas, lecturas opcionales, un sistema de prestamos y
//! validaciones en capas.

use vstd::prelude::*;

use crate::almacen::Almacen;
use crate::almacen::valor_o;
use crate::tipos::Address;

verus! {

/// Fallos enumerables de las operaciones de este modulo.
#[derive(Clone, Copy, Debug, PartialEq, Eq, Structural)]
pub enum Error {
    BalanceInsuficiente,
    MontoInvalido,
    NoAutorizada,
    LimiteExcedido,
    SolicitanteNoValida,
    NoInicializado,
}

/// Transferencia con validaciones completas: autorizacion, monto positivo,
/// fondos suficientes y aritmetica comprobada.
pub struct TransferSeguro {
    pub balances: Almacen<i128>,
}

impl TransferSeguro {
    /// Estado inicial sin cuentas.
    pub fn new() -> (r: Self)
        ensures
            r.balances.contenido() == Map::<u128, i128>::empty(),
    {
        TransferSeguro { balances: Almacen::new() }
    }

    /// Balance de una cuenta; una cuenta nueva tiene 0.
    pub open spec fn balance_de(self, cuenta: Address) -> i128 {
        valor_o(self.balances.contenido(), cuenta.0 as u128, 0)
    }

    /// Transfiere `monto` de `de` a `para`: debita al remitente y acredita
    /// a la destinataria, asi que una transferencia de una cuenta a si
    /// misma deja su balance igual.  `autorizado` es el veredicto del
    /// anfitrion sobre la autorizacion de `de`.  Todo rechazo deja los
    /// balances exactamente como estaban.
    pub fn transfer(&mut self, de: Address, para: Address, monto: i128, autorizado: bool) -> (r:
        Result<(), Error>)
        ensures
            !autorizado ==> r == Err::<(), Error>(Error::NoAutorizada) && *final(self) == *old(self),
            autorizado && monto <= 0 ==> r == Err::<(), Error>(Error::MontoInvalido) && *final(self)
                == *old(self),
            autorizado && monto > 0 && old(self).balance_de(de) < monto ==> r == Err::<(), Error>(
                Error::BalanceInsuficiente,
            ) && *final(self) == *old(self),
            autorizado && monto > 0 && old(self).balance_de(de) >= monto && de == para ==> r
                == Ok::<(), Error>(()) && final(self).balances.contenido() == old(self).balances.contenido(),
            autorizado && monto > 0 && old(self).balance_de(de) >= monto && de != para && old(self).balance_de(para) + monto > i128::MAX ==> r == Err::<(), Error>(Error::LimiteExcedido)
                && *final(self) == *old(self),
            autorizado && monto > 0 && old(self).balance_de(de) >= monto && de != para && old(self).balance_de(para) + monto <= i128::MAX ==> r == Ok::<(), Error>(()) && final(self).balances.contenido() == old(self).balances.contenido().insert(
                de.0 as u128,
                (old(self).balance_de(de) - monto) as i128,
            ).insert(para.0 as u128, (old(self).balance_de(para) + monto) as i128),
    {
        if !autorizado {
            return Err(Error::NoAutorizada);
        }
        if monto <= 0 {
            return Err(Error::MontoInvalido);
        }
        let balance_de: i128 = match self.balances.get(de.0 as u128) {
            Some(v) => *v,
            None => 0,
        };
        if balance_de < monto {
            return Err(Error::BalanceInsuficiente);
        }
        let nuevo_balance_de = match balance_de.checked_sub(monto) {
            Some(v) => v,
            None => {
                return Err(Error::BalanceInsuficiente);
            },
        };
        // El credito parte del balance ya debitado: con `de == para` la
        // operacion neta es nula.
        let balance_para: i128 = if de == para {
            nuevo_balance_de
        } else {
            match self.balances.get(para.0 as u128) {
                Some(v) => *v,
                None => 0,
            }
        };
        let nuevo_balance_para = match balance_para.checked_add(monto) {
            Some(v) => v,
            None => {
                return Err(Error::LimiteExcedido);
            },
        };
        self.balances.set(de.0 as u128, nuevo_balance_de);
        self.balances.set(para.0 as u128, nuevo_balance_para);
        proof {
            if de == para {
                assert(old(self).balances.contenido().contains_key(de.0 as u128));
                assert(self.balances.contenido() =~= old(self).balances.contenido());
            }
        }
        Ok(())
    }

    /// Fija el balance de una cuenta.
    pub fn establecer_balance(&mut self, cuenta: Address, balance: i128)
        ensures
            final(self).balances.contenido() == old(self).balances.contenido().insert(
                cuenta.0 as u128,
                balance,
            ),
    {
        self.balances.set(cuenta.0 as u128, balance);
    }

    /// Balance de una cuenta (0 si es nueva).
    pub fn obtener_balance(&self, cuenta: Address) -> (r: i128)
        ensures
            r == self.balance_de(cuenta),
    {
        match self.balances.get(cuenta.0 as u128) {
            Some(v) => *v,
            None => 0,
        }
    }
}

/// Lecturas de valores que pueden no existir.
pub struct OptionEjemplo {
    pub balances: Almacen<i128>,
}

impl OptionEjemplo {
    /// Estado inicial sin cuentas.
    pub fn new() -> (r: Self)
        ensures
            r.balances.contenido() == Map::<u128, i128>::empty(),
    {
        OptionEjemplo { balances: Almacen::new() }
    }

    /// Balance guardado de una cuenta, si existe.
    pub open spec fn balance_guardado(self, usuario: Address) -> Option<i128> {
        if self.balances.contenido().contains_key(usuario.0 as u128) {
            Some(self.balances.contenido()[usuario.0 as u128])
        } else {
            None
        }
    }

    /// Balance explicito: `None` para una cuenta que nunca se escribio.
    pub fn get_balance(&self, usuario: Address) -> (r: Option<i128>)
        ensures
            r == self.balance_guardado(usuario),
    {
        match self.balances.get(usuario.0 as u128) {
            Some(v) => Some(*v),
            None => None,
        }
    }

    /// Balance con 0 como valor por defecto.
    pub fn get_balance_or_zero(&self, usuario: Address) -> (r: i128)
        ensures
            r == valor_o(self.balances.contenido(), usuario.0 as u128, 0),
    {
        match self.balances.get(usuario.0 as u128) {
            Some(v) => *v,
            None => 0,
        }
    }

    /// Balance con un valor inicial calculado: 1000 para una administradora,
    /// 100 para cualquier otra cuenta.
    pub fn get_balance_calculado(&self, usuario: Address) -> (r: i128)
        ensures
            r == valor_o(self.balances.contenido(), usuario.0 as u128, 100),
    {
        match self.balances.get(usuario.0 as u128) {
            Some(v) => *v,
            None => {
                if self.es_admin(&usuario) {
                    1000
                } else {
                    100
                }
            },
        }
    }

    /// El doble del balance, si la cuenta existe.
    pub fn get_balance_doble(&self, usuario: Address) -> (r: Option<i128>)
        requires
            self.balance_guardado(usuario) matches Some(b) ==> i128::MIN <= b * 2 <= i128::MAX,
        ensures
            match self.balance_guardado(usuario) {
                Some(b) => r == Some((b * 2) as i128),
                None => r is None,
            },
    {
        match self.balances.get(usuario.0 as u128) {
            Some(v) => Some(*v * 2),
            None => None,
        }
    }

    /// Ninguna cuenta es administradora en esta version simplificada.
    fn es_admin(&self, _usuario: &Address) -> (r: bool)
        ensures
            !r,
    {
        false
    }

    /// Fija el balance de una cuenta.
    pub fn establecer_balance(&mut self, cuenta: Address, balance: i128)
        ensures
            final(self).balances.contenido() == old(self).balances.contenido().insert(
                cuenta.0 as u128,
                balance,
            ),
    {
        self.balances.set(cuenta.0 as u128, balance);
    }
}

/// Prestamos con limite de credito por solicitante.
pub struct MicroCredito {
    pub limites: Almacen<i128>,
    pub balances: Almacen<i128>,
    pub totales: Almacen<i128>,
}

impl MicroCredito {
    /// Estado inicial sin solicitantes.
    pub fn new() -> (r: Self)
        ensures
            r.limites.contenido() == Map::<u128, i128>::empty(),
            r.balances.contenido() == Map::<u128, i128>::empty(),
            r.totales.contenido() == Map::<u128, i128>::empty(),
    {
        MicroCredito { limites: Almacen::new(), balances: Almacen::new(), totales: Almacen::new() }
    }

    /// Limite de credito guardado, si existe.
    pub open spec fn limite_de(self, solicitante: Address) -> Option<i128> {
        if self.limites.contenido().contains_key(solicitante.0 as u128) {
            Some(self.limites.contenido()[solicitante.0 as u128])
        } else {
            None
        }
    }

    /// Balance acumulado del solicitante (0 si no tiene).
    pub open spec fn balance_de(self, solicitante: Address) -> i128 {
        valor_o(self.balances.contenido(), solicitante.0 as u128, 0)
    }

    /// Total prestado al solicitante (0 si no tiene).
    pub open spec fn total_de(self, solicitante: Address) -> i128 {
        valor_o(self.totales.contenido(), solicitante.0 as u128, 0)
    }

    /// Limite de credito del solicitante, si se establecio.
    pub fn get_limite(&self, solicitante: Address) -> (r: Option<i128>)
        ensures
            r == self.limite_de(solicitante),
    {
        match self.limites.get(solicitante.0 as u128) {
            Some(v) => Some(*v),
            None => None,
        }
    }

    /// Fija el limite de credito de un solicitante.
    pub fn establecer_limite(&mut self, solicitante: Address, limite: i128)
        ensures
            final(self).limites.contenido() == old(self).limites.contenido().insert(
                solicitante.0 as u128,
                limite,
            ),
            final(self).balances == old(self).balances,
            final(self).totales == old(self).totales,
    {
        self.limites.set(solicitante.0 as u128, limite);
    }

    /// Solicita un prestamo.  `autorizado` es el veredicto del anfitrion
    /// sobre la autorizacion del solicitante.  Todo rechazo deja el estado
    /// exactamente como estaba.
    pub fn solicitar_prestamo(&mut self, solicitante: Address, monto: i128, autorizado: bool) -> (r:
        Result<(), Error>)
        ensures
            !autorizado ==> r == Err::<(), Error>(Error::NoAutorizada) && *final(self) == *old(self),
            autorizado && monto <= 0 ==> r == Err::<(), Error>(Error::MontoInvalido) && *final(self)
                == *old(self),
            autorizado && monto > 0 && old(self).limite_de(solicitante) is None ==> r == Err::<
                (),
                Error,
            >(Error::SolicitanteNoValida) && *final(self) == *old(self),
            autorizado && monto > 0 && (old(self).limite_de(solicitante) matches Some(limite)
                && monto > limite) ==> r == Err::<(), Error>(Error::LimiteExcedido) && *final(self)
                == *old(self),
            autorizado && monto > 0 && (old(self).limite_de(solicitante) matches Some(limite)
                && monto <= limite) && old(self).balance_de(solicitante) + monto > i128::MAX ==> r
                == Err::<(), Error>(Error::LimiteExcedido) && *final(self) == *old(self),
            autorizado && monto > 0 && (old(self).limite_de(solicitante) matches Some(limite)
                && monto <= limite) && old(self).balance_de(solicitante) + monto <= i128::MAX
                && old(self).total_de(solicitante) + monto > i128::MAX ==> r == Err::<(), Error>(
                Error::LimiteExcedido,
            ) && *final(self) == *old(self),
            autorizado && monto > 0 && (old(self).limite_de(solicitante) matches Some(limite)
                && monto <= limite) && old(self).balance_de(solicitante) + monto <= i128::MAX
                && old(self).total_de(solicitante) + monto <= i128::MAX ==> r == Ok::<(), Error>(())
                && final(self).balances.contenido() == old(self).balances.contenido().insert(
                solicitante.0 as u128,
                (old(self).balance_de(solicitante) + monto) as i128,
            ) && final(self).totales.contenido() == old(self).totales.contenido().insert(
                solicitante.0 as u128,
                (old(self).total_de(solicitante) + monto) as i128,
            ) && final(self).limites == old(self).limites,
    {
        if !autorizado {
            return Err(Error::NoAutorizada);
        }
        if monto <= 0 {
            return Err(Error::MontoInvalido);
        }
        let limite: i128 = match self.get_limite(solicitante) {
            Some(v) => v,
            None => {
                return Err(Error::SolicitanteNoValida);
            },
        };
        if monto > limite {
            return Err(Error::LimiteExcedido);
        }
        self.ejecutar_prestamo(solicitante, monto)
    }

    /// Aplica un prestamo ya validado: suma el monto al balance y al total
    /// prestado, con aritmetica comprobada y sin efectos si algo desborda.
    fn ejecutar_prestamo(&mut self, solicitante: Address, monto: i128) -> (r: Result<(), Error>)
        requires
            monto > 0,
        ensures
            old(self).balance_de(solicitante) + monto > i128::MAX ==> r == Err::<(), Error>(
                Error::LimiteExcedido,
            ) && *final(self) == *old(self),
            old(self).balance_de(solicitante) + monto <= i128::MAX && old(self).total_de(
                solicitante,
            ) + monto > i128::MAX ==> r == Err::<(), Error>(Error::LimiteExcedido) && *final(self)
                == *old(self),
            old(self).balance_de(solicitante) + monto <= i128::MAX && old(self).total_de(
                solicitante,
            ) + monto <= i128::MAX ==> r == Ok::<(), Error>(()) && final(self).balances.contenido() == old(self).balances.contenido().insert(
                solicitante.0 as u128,
                (old(self).balance_de(solicitante) + monto) as i128,
            ) && final(self).totales.contenido() == old(self).totales.contenido().insert(
                solicitante.0 as u128,
                (old(self).total_de(solicitante) + monto) as i128,
            ) && final(self).limites == old(self).limites,
    {
        let balance_actual: i128 = match self.balances.get(solicitante.0 as u128) {
            Some(v) => *v,
            None => 0,
        };
        let nuevo_balance = match balance_actual.checked_add(monto) {
            Some(v) => v,
            None => {
                return Err(Error::LimiteExcedido);
            },
        };
        let total_prestado: i128 = match self.totales.get(solicitante.0 as u128) {
            Some(v) => *v,
            None => 0,
        };
        let nuevo_total = match total_prestado.checked_add(monto) {
            Some(v) => v,
            None => {
                return Err(Error::LimiteExcedido);
            },
        };
        self.balances.set(solicitante.0 as u128, nuevo_balance);
        self.totales.set(solicitante.0 as u128, nuevo_total);
        Ok(())
    }

    /// Balance acumulado del solicitante.
    pub fn obtener_balance(&self, solicitante: Address) -> (r: i128)
        ensures
            r == self.balance_de(solicitante),
    {
        match self.balances.get(solicitante.0 as u128) {
            Some(v) => *v,
            None => 0,
        }
    }

    /// Total prestado al solicitante.
    pub fn obtener_total_prestado(&self, solicitante: Address) -> (r: i128)
        ensures
            r == self.total_de(solicitante),
    {
        match self.totales.get(solicitante.0 as u128) {
            Some(v) => *v,
            None => 0,
        }
    }
}

/// Conversion de un valor opcional en un resultado con error.
pub struct ConversionOptionResult {
    pub admin: Option<Address>,
}

impl ConversionOptionResult {
    /// Estado inicial, sin administradora.
    pub fn new() -> (r: Self)
        ensures
            r.admin is None,
    {
        ConversionOptionResult { admin: None }
    }

    /// Administradora del contrato; sin ella el contrato no esta
    /// inicializado y eso es un error, no un estado valido.
    pub fn obtener_admin(&self) -> (r: Result<Address, Error>)
        ensures
            match self.admin {
                Some(a) => r == Ok::<Address, Error>(a),
                None => r == Err::<Address, Error>(Error::NoInicializado),
            },
    {
        match self.admin {
            Some(a) => Ok(a),
            None => Err(Error::NoInicializado),
        }
    }

    /// Usa a la administradora: propaga `NoInicializado` si no la hay y
    /// exige el veredicto de autorizacion del anfitrion sobre ella.
    pub fn obtener_admin_y_usar(&self, autorizado: bool) -> (r: Result<(), Error>)
        ensures
            self.admin is None ==> r == Err::<(), Error>(Error::NoInicializado),
            self.admin is Some && !autorizado ==> r == Err::<(), Error>(Error::NoAutorizada),
            self.admin is Some && autorizado ==> r == Ok::<(), Error>(()),
    {
        match self.admin {
            Some(_a) => {
                if !autorizado {
                    return Err(Error::NoAutorizada);
                }
                Ok(())
            },
            None => Err(Error::NoInicializado),
        }
    }

    /// Fija la administradora.
    pub fn establecer_admin(&mut self, admin: Address)
        ensures
            final(self).admin == Some(admin),
    {
        self.admin = Some(admin);
    }
}

/// Donaciones con validaciones en capas: autorizacion, monto, limite fijo y
/// fondos del donante.
pub struct DonacionValidada {
    pub balances: Almacen<i128>,
}

impl DonacionValidada {
    /// Estado inicial sin cuentas.
    pub fn new() -> (r: Self)
        ensures
            r.balances.contenido() == Map::<u128, i128>::empty(),
    {
        DonacionValidada { balances: Almacen::new() }
    }

    /// Balance de una cuenta; una cuenta nueva tiene 0.
    pub open spec fn balance_de(self, cuenta: Address) -> i128 {
        valor_o(self.balances.contenido(), cuenta.0 as u128, 0)
    }

    /// Crea una donacion de `donante` a `beneficiaria`.  `autorizado` es el
    /// veredicto del anfitrion sobre la autorizacion del donante.  Todo
    /// rechazo deja los balances exactamente como estaban.
    pub fn crear_donacion(
        &mut self,
        donante: Address,
        beneficiaria: Address,
        monto: i128,
        autorizado: bool,
    ) -> (r: Result<(), Error>)
        ensures
            !autorizado ==> r == Err::<(), Error>(Error::NoAutorizada) && *final(self) == *old(self),
            autorizado && monto <= 0 ==> r == Err::<(), Error>(Error::MontoInvalido) && *final(self)
                == *old(self),
            autorizado && monto > 0 && monto > 1000000 ==> r == Err::<(), Error>(
                Error::LimiteExcedido,
            ) && *final(self) == *old(self),
            autorizado && 0 < monto <= 1000000 && old(self).balance_de(donante) < monto ==> r
                == Err::<(), Error>(Error::BalanceInsuficiente) && *final(self) == *old(self),
            autorizado && 0 < monto <= 1000000 && old(self).balance_de(donante) >= monto && donante
                == beneficiaria ==> r == Ok::<(), Error>(()) && final(self).balances.contenido()
                == old(self).balances.contenido(),
            autorizado && 0 < monto <= 1000000 && old(self).balance_de(donante) >= monto && donante
                != beneficiaria && old(self).balance_de(beneficiaria) + monto > i128::MAX ==> r
                == Err::<(), Error>(Error::LimiteExcedido) && *final(self) == *old(self),
            autorizado && 0 < monto <= 1000000 && old(self).balance_de(donante) >= monto && donante
                != beneficiaria && old(self).balance_de(beneficiaria) + monto <= i128::MAX ==> r
                == Ok::<(), Error>(()) && final(self).balances.contenido() == old(self).balances.contenido().insert(
                donante.0 as u128,
                (old(self).balance_de(donante) - monto) as i128,
            ).insert(beneficiaria.0 as u128, (old(self).balance_de(beneficiaria) + monto) as i128),
    {
        if !autorizado {
            return Err(Error::NoAutorizada);
        }
        if monto <= 0 {
            return Err(Error::MontoInvalido);
        }
        if monto > 1000000 {
            return Err(Error::LimiteExcedido);
        }
        let balance: i128 = match self.balances.get(donante.0 as u128) {
            Some(v) => *v,
            None => 0,
        };
        if balance < monto {
            return Err(Error::BalanceInsuficiente);
        }
        self.ejecutar_donacion(donante, beneficiaria, monto)
    }

    /// Aplica una donacion ya validada: resta al donante y suma a la
    /// beneficiaria, con aritmetica comprobada y sin efectos si algo
    /// desborda.  Una donacion de una cuenta a si misma es neta nula y deja
    /// su balance igual.
    fn ejecutar_donacion(&mut self, donante: Address, beneficiaria: Address, monto: i128) -> (r:
        Result<(), Error>)
        requires
            monto > 0,
            old(self).balance_de(donante) >= monto,
        ensures
            donante == beneficiaria ==> r == Ok::<(), Error>(()) && final(self).balances.contenido() == old(self).balances.contenido(),
            donante != beneficiaria && old(self).balance_de(beneficiaria) + monto > i128::MAX ==> r
                == Err::<(), Error>(Error::LimiteExcedido) && *final(self) == *old(self),
            donante != beneficiaria && old(self).balance_de(beneficiaria) + monto <= i128::MAX ==> r
                == Ok::<(), Error>(()) && final(self).balances.contenido() == old(self).balances.contenido().insert(
                donante.0 as u128,
                (old(self).balance_de(donante) - monto) as i128,
            ).insert(beneficiaria.0 as u128, (old(self).balance_de(beneficiaria) + monto) as i128),
    {
        let balance_donante: i128 = match self.balances.get(donante.0 as u128) {
            Some(v) => *v,
            None => 0,
        };
        let nuevo_balance_donante = match balance_donante.checked_sub(monto) {
            Some(v) => v,
            None => {
                return Err(Error::BalanceInsuficiente);
            },
        };
        // El credito parte del balance ya debitado: con donante igual a
        // beneficiaria la operacion neta es nula.
        let balance_beneficiaria: i128 = if donante == beneficiaria {
            nuevo_balance_donante
        } else {
            match self.balances.get(beneficiaria.0 as u128) {
                Some(v) => *v,
                None => 0,
            }
        };
        let nuevo_balance_beneficiaria = match balance_beneficiaria.checked_add(monto) {
            Some(v) => v,
            None => {
                return Err(Error::LimiteExcedido);
            },
        };
        self.balances.set(donante.0 as u128, nuevo_balance_donante);
        self.balances.set(beneficiaria.0 as u128, nuevo_balance_beneficiaria);
        proof {
            if donante == beneficiaria {
                assert(old(self).balances.contenido().contains_key(donante.0 as u128));
                assert(self.balances.contenido() =~= old(self).balances.contenido());
            }
        }
        Ok(())
    }

    /// Fija el balance de una cuenta.
    pub fn establecer_balance(&mut self, cuenta: Address, balance: i128)
        ensures
            final(self).balances.contenido() == old(self).balances.contenido().insert(
                cuenta.0 as u128,
                balance,
            ),
    {
        self.balances.set(cuenta.0 as u128, balance);
    }

    /// Balance de una cuenta (0 si es nueva).
    pub fn obtener_balance(&self, cuenta: Address) -> (r: i128)
        ensures
            r == self.balance_de(cuenta),
    {
        match self.balances.get(cuenta.0 as u128) {
            Some(v) => *v,
            None => 0,
        }
    }
}

/// Validaciones reutilizables sobre montos y balances.
pub struct ValidacionHelper;

impl ValidacionHelper {
    /// Valida que el monto sea positivo y no pase del limite.
    pub fn validar_monto(monto: i128, limite_maximo: i128) -> (r: Result<(), Error>)
        ensures
            monto <= 0 ==> r == Err::<(), Error>(Error::MontoInvalido),
            monto > 0 && monto > limite_maximo ==> r == Err::<(), Error>(Error::LimiteExcedido),
            0 < monto <= limite_maximo ==> r == Ok::<(), Error>(()),
    {
        if monto <= 0 {
            return Err(Error::MontoInvalido);
        }
        if monto > limite_maximo {
            return Err(Error::LimiteExcedido);
        }
        Ok(())
    }

    /// Valida que el balance alcance para el monto.
    pub fn validar_balance(balance: i128, monto: i128) -> (r: Result<(), Error>)
        ensures
            balance < monto ==> r == Err::<(), Error>(Error::BalanceInsuficiente),
            balance >= monto ==> r == Ok::<(), Error>(()),
    {
        if balance < monto {
            return Err(Error::BalanceInsuficiente);
        }
        Ok(())
    }
}

} // verus!

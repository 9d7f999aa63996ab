//! Patrones de almacenamiento por niveles.
//!
//! Tres niveles con politicas distintas: configuracion de instancia (global
//! al contrato, con un TTL comun), datos persistentes por usuario (cada
//! entrada con su propio TTL, repuesto tras cada mutacion) y cache temporal
//! (sin garantia de duracion, nunca se extiende).  Las lecturas jamas
//! refrescan un TTL: toman `&self`.

use vstd::prelude::*;

use crate::almacen::Almacen;
use crate::almacen::valor_o;
use crate::tipos::Address;
use crate::tipos::Symbol;

verus! {

/// Fallos enumerables de las operaciones de este modulo.
#[derive(Clone, Copy, Debug, PartialEq, Eq, Structural)]
pub enum Error {
    BalanceInsuficiente,
    MontoInvalido,
    NoAutorizada,
    YaInicializado,
    NoInicializado,
    UsuarioNoExiste,
}

/// TTL de instancia tras una extension con umbral y meta de 100.
pub open spec fn ttl_extendido(ttl: u32) -> u32 {
    if ttl < 100 {
        100
    } else {
        ttl
    }
}

/// Configuracion global del contrato en almacenamiento de instancia.
pub struct ConfiguracionGlobal {
    pub admin: Option<Address>,
    pub nombre_token: Option<Symbol>,
    pub total_operaciones: Option<u32>,
    /// TTL del almacenamiento de instancia completo.
    pub ttl_instancia: u32,
}

impl ConfiguracionGlobal {
    /// Estado inicial, sin configurar.
    pub fn new() -> (r: Self)
        ensures
            r.admin is None,
            r.nombre_token is None,
            r.total_operaciones is None,
            r.ttl_instancia == 0,
    {
        ConfiguracionGlobal { admin: None, nombre_token: None, total_operaciones: None, ttl_instancia: 0 }
    }

    /// Total de operaciones efectivo (0 si nunca se escribio).
    pub open spec fn operaciones(self) -> u32 {
        match self.total_operaciones {
            Some(v) => v,
            None => 0,
        }
    }

    /// Guarda la configuracion inicial; una segunda llamada se rechaza sin
    /// tocar nada.
    pub fn initialize(&mut self, admin: Address, nombre: Symbol) -> (r: Result<(), Error>)
        ensures
            old(self).admin is Some ==> r == Err::<(), Error>(Error::YaInicializado) && *final(self)
                == *old(self),
            old(self).admin is None ==> r == Ok::<(), Error>(()) && final(self).admin == Some(admin)
                && final(self).nombre_token == Some(nombre) && final(self).total_operaciones
                == Some(0u32) && final(self).ttl_instancia == ttl_extendido(old(self).ttl_instancia),
    {
        if self.admin.is_some() {
            return Err(Error::YaInicializado);
        }
        self.admin = Some(admin);
        self.nombre_token = Some(nombre);
        self.total_operaciones = Some(0);
        if self.ttl_instancia < 100 {
            self.ttl_instancia = 100;
        }
        Ok(())
    }

    /// Administradora configurada, o `NoInicializado`.
    pub fn get_admin(&self) -> (r: Result<Address, Error>)
        ensures
            match self.admin {
                Some(a) => r == Ok::<Address, Error>(a),
                None => r == Err::<Address, Error>(Error::NoInicializado),
            },
    {
        match self.admin {
            Some(a) => Ok(a),
            None => Err(Error::NoInicializado),
        }
    }

    /// Nombre del token configurado, o `NoInicializado`.
    pub fn get_nombre_token(&self) -> (r: Result<Symbol, Error>)
        ensures
            match self.nombre_token {
                Some(n) => r == Ok::<Symbol, Error>(n),
                None => r == Err::<Symbol, Error>(Error::NoInicializado),
            },
    {
        match self.nombre_token {
            Some(n) => Ok(n),
            None => Err(Error::NoInicializado),
        }
    }

    /// Incrementa el contador global de operaciones y extiende el TTL de la
    /// instancia; al desbordar se rechaza sin tocar nada.
    pub fn incrementar_operaciones(&mut self) -> (r: Result<u32, Error>)
        ensures
            old(self).operaciones() < u32::MAX ==> r == Ok::<u32, Error>(
                (old(self).operaciones() + 1) as u32,
            ) && final(self).total_operaciones == Some((old(self).operaciones() + 1) as u32)
                && final(self).ttl_instancia == ttl_extendido(old(self).ttl_instancia) && final(self).admin == old(self).admin && final(self).nombre_token == old(self).nombre_token,
            old(self).operaciones() == u32::MAX ==> r == Err::<u32, Error>(Error::NoInicializado)
                && *final(self) == *old(self),
    {
        let actual: u32 = match self.total_operaciones {
            Some(v) => v,
            None => 0,
        };
        let nuevo = match actual.checked_add(1) {
            Some(v) => v,
            None => {
                return Err(Error::NoInicializado);
            },
        };
        self.total_operaciones = Some(nuevo);
        if self.ttl_instancia < 100 {
            self.ttl_instancia = 100;
        }
        Ok(nuevo)
    }

    /// Total de operaciones (0 si nunca se escribio).
    pub fn get_total_operaciones(&self) -> (r: u32)
        ensures
            r == self.operaciones(),
    {
        match self.total_operaciones {
            Some(v) => v,
            None => 0,
        }
    }
}

/// Datos criticos por usuario en almacenamiento persistente: cada entrada
/// con su propio TTL, repuesto tras cada mutacion.
pub struct DatosUsuarios {
    pub balances: Almacen<i128>,
    pub ultimas_transacciones: Almacen<i128>,
    pub registros: Almacen<i128>,
}

impl DatosUsuarios {
    /// Estado inicial sin datos.
    pub fn new() -> (r: Self)
        ensures
            r.balances.contenido() == Map::<u128, i128>::empty(),
            r.ultimas_transacciones.contenido() == Map::<u128, i128>::empty(),
            r.registros.contenido() == Map::<u128, i128>::empty(),
    {
        DatosUsuarios {
            balances: Almacen::new(),
            ultimas_transacciones: Almacen::new(),
            registros: Almacen::new(),
        }
    }

    /// Balance con inicializacion perezosa: 0 si no existe.
    pub fn get_balance(&self, usuario: Address) -> (r: i128)
        ensures
            r == valor_o(self.balances.contenido(), usuario.0 as u128, 0),
    {
        match self.balances.get(usuario.0 as u128) {
            Some(v) => *v,
            None => 0,
        }
    }

    /// Escribe el balance y repone el TTL de esa entrada.
    pub fn set_balance(&mut self, usuario: Address, balance: i128)
        ensures
            final(self).balances.contenido() == old(self).balances.contenido().insert(
                usuario.0 as u128,
                balance,
            ),
            final(self).balances.ttl(usuario.0 as u128) == ttl_extendido(
                old(self).balances.ttl(usuario.0 as u128),
            ),
            forall|k: u128| k != usuario.0 as u128 ==> #[trigger] final(self).balances.ttl(k)
                == old(self).balances.ttl(k),
            final(self).ultimas_transacciones == old(self).ultimas_transacciones,
            final(self).registros == old(self).registros,
    {
        self.balances.set(usuario.0 as u128, balance);
        self.balances.extend_ttl(usuario.0 as u128, 100, 100);
    }

    /// Si el usuario tiene balance guardado.
    pub fn usuario_existe(&self, usuario: Address) -> (r: bool)
        ensures
            r == self.balances.contenido().contains_key(usuario.0 as u128),
    {
        self.balances.has(usuario.0 as u128)
    }

    /// Guarda la ultima transaccion del usuario y repone su TTL.
    pub fn guardar_ultima_transaccion(&mut self, usuario: Address, monto: i128)
        ensures
            final(self).ultimas_transacciones.contenido() == old(self).ultimas_transacciones.contenido().insert(usuario.0 as u128, monto),
            final(self).ultimas_transacciones.ttl(usuario.0 as u128) == ttl_extendido(
                old(self).ultimas_transacciones.ttl(usuario.0 as u128),
            ),
            final(self).balances == old(self).balances,
            final(self).registros == old(self).registros,
    {
        self.ultimas_transacciones.set(usuario.0 as u128, monto);
        self.ultimas_transacciones.extend_ttl(usuario.0 as u128, 100, 100);
    }

    /// Ultima transaccion del usuario, si la hay.
    pub fn get_ultima_transaccion(&self, usuario: Address) -> (r: Option<i128>)
        ensures
            match r {
                Some(v) => self.ultimas_transacciones.contenido().contains_key(usuario.0 as u128)
                    && v == self.ultimas_transacciones.contenido()[usuario.0 as u128],
                None => !self.ultimas_transacciones.contenido().contains_key(usuario.0 as u128),
            },
    {
        match self.ultimas_transacciones.get(usuario.0 as u128) {
            Some(v) => Some(*v),
            None => None,
        }
    }

    /// Guarda un registro por identificador y repone su TTL.
    pub fn guardar_registro(&mut self, id: u32, valor: i128)
        ensures
            final(self).registros.contenido() == old(self).registros.contenido().insert(
                id as u128,
                valor,
            ),
            final(self).registros.ttl(id as u128) == ttl_extendido(
                old(self).registros.ttl(id as u128),
            ),
            final(self).balances == old(self).balances,
            final(self).ultimas_transacciones == old(self).ultimas_transacciones,
    {
        self.registros.set(id as u128, valor);
        self.registros.extend_ttl(id as u128, 100, 100);
    }

    /// Registro guardado bajo el identificador, si lo hay.
    pub fn get_registro(&self, id: u32) -> (r: Option<i128>)
        ensures
            match r {
                Some(v) => self.registros.contenido().contains_key(id as u128) && v
                    == self.registros.contenido()[id as u128],
                None => !self.registros.contenido().contains_key(id as u128),
            },
    {
        match self.registros.get(id as u128) {
            Some(v) => Some(*v),
            None => None,
        }
    }
}

/// Cache temporal: valores baratos que pueden expirar; nunca se extiende su
/// TTL.
pub struct CacheTemporal {
    pub precio: Option<i128>,
    pub calculo: Option<i128>,
    pub locks: Almacen<bool>,
}

impl CacheTemporal {
    /// Estado inicial sin cache.
    pub fn new() -> (r: Self)
        ensures
            r.precio is None,
            r.calculo is None,
            r.locks.contenido() == Map::<u128, bool>::empty(),
    {
        CacheTemporal { precio: None, calculo: None, locks: Almacen::new() }
    }

    /// Cachea el precio actual.
    pub fn guardar_precio(&mut self, precio: i128)
        ensures
            final(self).precio == Some(precio),
            final(self).calculo == old(self).calculo,
            final(self).locks == old(self).locks,
    {
        self.precio = Some(precio);
    }

    /// Precio cacheado, si lo hay.
    pub fn get_precio(&self) -> (r: Option<i128>)
        ensures
            r == self.precio,
    {
        self.precio
    }

    /// Cachea el resultado de un calculo.
    pub fn guardar_calculo(&mut self, resultado: i128)
        ensures
            final(self).calculo == Some(resultado),
            final(self).precio == old(self).precio,
            final(self).locks == old(self).locks,
    {
        self.calculo = Some(resultado);
    }

    /// Calculo cacheado, si lo hay.
    pub fn get_calculo(&self) -> (r: Option<i128>)
        ensures
            r == self.calculo,
    {
        self.calculo
    }

    /// Crea un candado temporal para el usuario.
    pub fn crear_lock(&mut self, usuario: Address)
        ensures
            final(self).locks.contenido() == old(self).locks.contenido().insert(
                usuario.0 as u128,
                true,
            ),
            final(self).precio == old(self).precio,
            final(self).calculo == old(self).calculo,
    {
        self.locks.set(usuario.0 as u128, true);
    }

    /// Si el usuario tiene un candado activo.
    pub fn tiene_lock(&self, usuario: Address) -> (r: bool)
        ensures
            r == self.locks.contenido().contains_key(usuario.0 as u128),
    {
        self.locks.has(usuario.0 as u128)
    }

    /// Elimina el candado del usuario.
    pub fn eliminar_lock(&mut self, usuario: Address)
        ensures
            final(self).locks.contenido() == old(self).locks.contenido().remove(usuario.0 as u128),
            final(self).precio == old(self).precio,
            final(self).calculo == old(self).calculo,
    {
        self.locks.remove(usuario.0 as u128);
    }
}

/// Detalle de una donacion registrada.
#[derive(Clone, Copy, Debug, PartialEq, Eq, Structural)]
pub struct DonacionInfo {
    pub donante: Address,
    pub beneficiaria: Address,
    pub monto: i128,
    pub timestamp: u64,
}

/// Plataforma de donaciones que combina los tres niveles: configuracion de
/// instancia, datos persistentes por cuenta y detalle por donacion.
pub struct PlataformaDonaciones {
    pub admin: Option<Address>,
    pub nombre: Option<Symbol>,
    pub total_donaciones: Option<u32>,
    /// TTL del almacenamiento de instancia completo.
    pub ttl_instancia: u32,
    pub balances_donante: Almacen<i128>,
    pub donaciones_recibidas: Almacen<i128>,
    pub donaciones: Almacen<DonacionInfo>,
}

impl PlataformaDonaciones {
    /// Estado inicial, sin configurar y sin cuentas.
    pub fn new() -> (r: Self)
        ensures
            r.admin is None,
            r.nombre is None,
            r.total_donaciones is None,
            r.ttl_instancia == 0,
            r.balances_donante.contenido() == Map::<u128, i128>::empty(),
            r.donaciones_recibidas.contenido() == Map::<u128, i128>::empty(),
            r.donaciones.contenido() == Map::<u128, DonacionInfo>::empty(),
    {
        PlataformaDonaciones {
            admin: None,
            nombre: None,
            total_donaciones: None,
            ttl_instancia: 0,
            balances_donante: Almacen::new(),
            donaciones_recibidas: Almacen::new(),
            donaciones: Almacen::new(),
        }
    }

    /// Balance del donante (0 si es nuevo).
    pub open spec fn balance_de(self, donante: Address) -> i128 {
        valor_o(self.balances_donante.contenido(), donante.0 as u128, 0)
    }

    /// Total recibido por la beneficiaria (0 si es nueva).
    pub open spec fn recibido_de(self, beneficiaria: Address) -> i128 {
        valor_o(self.donaciones_recibidas.contenido(), beneficiaria.0 as u128, 0)
    }

    /// Total de donaciones registradas (0 si nunca se escribio).
    pub open spec fn total(self) -> u32 {
        match self.total_donaciones {
            Some(v) => v,
            None => 0,
        }
    }

    /// Guarda la configuracion inicial; una segunda llamada se rechaza sin
    /// tocar nada.
    pub fn initialize(&mut self, admin: Address, nombre: Symbol) -> (r: Result<(), Error>)
        ensures
            old(self).admin is Some ==> r == Err::<(), Error>(Error::YaInicializado) && *final(self)
                == *old(self),
            old(self).admin is None ==> r == Ok::<(), Error>(()) && final(self).admin == Some(admin)
                && final(self).nombre == Some(nombre) && final(self).total_donaciones == Some(0u32)
                && final(self).ttl_instancia == ttl_extendido(old(self).ttl_instancia) && final(self).balances_donante == old(self).balances_donante && final(self).donaciones_recibidas
                == old(self).donaciones_recibidas && final(self).donaciones == old(self).donaciones,
    {
        if self.admin.is_some() {
            return Err(Error::YaInicializado);
        }
        self.admin = Some(admin);
        self.nombre = Some(nombre);
        self.total_donaciones = Some(0);
        if self.ttl_instancia < 100 {
            self.ttl_instancia = 100;
        }
        Ok(())
    }

    /// Registra una donacion: debita al donante, acredita a la
    /// beneficiaria, guarda el detalle bajo el siguiente identificador y
    /// repone los TTL de todo lo tocado.  `autorizado` es el veredicto del
    /// anfitrion sobre la autorizacion del donante y `timestamp` la hora
    /// del ledger que el anfitrion reporta.  Todo rechazo deja el estado
    /// exactamente como estaba.
    pub fn donar(
        &mut self,
        donante: Address,
        beneficiaria: Address,
        monto: i128,
        autorizado: bool,
        timestamp: u64,
    ) -> (r: Result<(), Error>)
        ensures
            !autorizado ==> r == Err::<(), Error>(Error::NoAutorizada) && *final(self) == *old(self),
            autorizado && monto <= 0 ==> r == Err::<(), Error>(Error::MontoInvalido) && *final(self)
                == *old(self),
            autorizado && monto > 0 && old(self).balance_de(donante) < monto ==> r == Err::<
                (),
                Error,
            >(Error::BalanceInsuficiente) && *final(self) == *old(self),
            autorizado && monto > 0 && old(self).balance_de(donante) >= monto && old(self).recibido_de(beneficiaria) + monto > i128::MAX ==> r == Err::<(), Error>(
                Error::NoInicializado,
            ) && *final(self) == *old(self),
            autorizado && monto > 0 && old(self).balance_de(donante) >= monto && old(self).recibido_de(beneficiaria) + monto <= i128::MAX && old(self).total() == u32::MAX ==> r
                == Err::<(), Error>(Error::NoInicializado) && *final(self) == *old(self),
            autorizado && monto > 0 && old(self).balance_de(donante) >= monto && old(self).recibido_de(beneficiaria) + monto <= i128::MAX && old(self).total() < u32::MAX ==> {
                &&& r == Ok::<(), Error>(())
                &&& final(self).balances_donante.contenido() == old(self).balances_donante.contenido().insert(
                    donante.0 as u128,
                    (old(self).balance_de(donante) - monto) as i128,
                )
                &&& final(self).donaciones_recibidas.contenido() == old(self).donaciones_recibidas.contenido().insert(
                    beneficiaria.0 as u128,
                    (old(self).recibido_de(beneficiaria) + monto) as i128,
                )
                &&& final(self).donaciones.contenido() == old(self).donaciones.contenido().insert(
                    old(self).total() as u128,
                    DonacionInfo { donante, beneficiaria, monto, timestamp },
                )
                &&& final(self).total_donaciones == Some((old(self).total() + 1) as u32)
                &&& final(self).balances_donante.ttl(donante.0 as u128) == ttl_extendido(
                    old(self).balances_donante.ttl(donante.0 as u128),
                )
                &&& final(self).donaciones_recibidas.ttl(beneficiaria.0 as u128) == ttl_extendido(
                    old(self).donaciones_recibidas.ttl(beneficiaria.0 as u128),
                )
                &&& final(self).donaciones.ttl(old(self).total() as u128) == ttl_extendido(
                    old(self).donaciones.ttl(old(self).total() as u128),
                )
                &&& final(self).ttl_instancia == ttl_extendido(old(self).ttl_instancia)
                &&& final(self).admin == old(self).admin
                &&& final(self).nombre == old(self).nombre
            },
    {
        if !autorizado {
            return Err(Error::NoAutorizada);
        }
        if monto <= 0 {
            return Err(Error::MontoInvalido);
        }
        let balance_donante: i128 = match self.balances_donante.get(donante.0 as u128) {
            Some(v) => *v,
            None => 0,
        };
        if balance_donante < monto {
            return Err(Error::BalanceInsuficiente);
        }
        let nuevo_balance_donante = match balance_donante.checked_sub(monto) {
            Some(v) => v,
            None => {
                return Err(Error::BalanceInsuficiente);
            },
        };
        let total_recibido: i128 = match self.donaciones_recibidas.get(beneficiaria.0 as u128) {
            Some(v) => *v,
            None => 0,
        };
        let nuevo_total_recibido = match total_recibido.checked_add(monto) {
            Some(v) => v,
            None => {
                return Err(Error::NoInicializado);
            },
        };
        let id_donacion: u32 = match self.total_donaciones {
            Some(v) => v,
            None => 0,
        };
        let nuevo_total = match id_donacion.checked_add(1) {
            Some(v) => v,
            None => {
                return Err(Error::NoInicializado);
            },
        };
        self.balances_donante.set(donante.0 as u128, nuevo_balance_donante);
        self.donaciones_recibidas.set(beneficiaria.0 as u128, nuevo_total_recibido);
        let donacion = DonacionInfo { donante, beneficiaria, monto, timestamp };
        self.donaciones.set(id_donacion as u128, donacion);
        self.total_donaciones = Some(nuevo_total);
        self.balances_donante.extend_ttl(donante.0 as u128, 100, 100);
        self.donaciones_recibidas.extend_ttl(beneficiaria.0 as u128, 100, 100);
        self.donaciones.extend_ttl(id_donacion as u128, 100, 100);
        if self.ttl_instancia < 100 {
            self.ttl_instancia = 100;
        }
        Ok(())
    }

    /// Balance del donante.
    pub fn get_balance_donante(&self, donante: Address) -> (r: i128)
        ensures
            r == self.balance_de(donante),
    {
        match self.balances_donante.get(donante.0 as u128) {
            Some(v) => *v,
            None => 0,
        }
    }

    /// Total recibido por la beneficiaria.
    pub fn get_total_recibido(&self, beneficiaria: Address) -> (r: i128)
        ensures
            r == self.recibido_de(beneficiaria),
    {
        match self.donaciones_recibidas.get(beneficiaria.0 as u128) {
            Some(v) => *v,
            None => 0,
        }
    }

    /// Detalle de la donacion con ese identificador, si existe.
    pub fn get_donacion(&self, id: u32) -> (r: Option<DonacionInfo>)
        ensures
            match r {
                Some(d) => self.donaciones.contenido().contains_key(id as u128) && d
                    == self.donaciones.contenido()[id as u128],
                None => !self.donaciones.contenido().contains_key(id as u128),
            },
    {
        match self.donaciones.get(id as u128) {
            Some(d) => Some(*d),
            None => None,
        }
    }

    /// Total de donaciones registradas.
    pub fn get_total_donaciones(&self) -> (r: u32)
        ensures
            r == self.total(),
    {
        match self.total_donaciones {
            Some(v) => v,
            None => 0,
        }
    }

    /// Fija el balance inicial de un donante y repone el TTL de la entrada.
    pub fn establecer_balance(&mut self, donante: Address, balance: i128)
        ensures
            final(self).balances_donante.contenido() == old(self).balances_donante.contenido().insert(donante.0 as u128, balance),
            final(self).balances_donante.ttl(donante.0 as u128) == ttl_extendido(
                old(self).balances_donante.ttl(donante.0 as u128),
            ),
            final(self).donaciones_recibidas == old(self).donaciones_recibidas,
            final(self).donaciones == old(self).donaciones,
            final(self).admin == old(self).admin,
            final(self).nombre == old(self).nombre,
            final(self).total_donaciones == old(self).total_donaciones,
            final(self).ttl_instancia == old(self).ttl_instancia,
    {
        self.balances_donante.set(donante.0 as u128, balance);
        self.balances_donante.extend_ttl(donante.0 as u128, 100, 100);
    }

    /// Si el donante tiene balance guardado.
    pub fn donante_existe(&self, donante: Address) -> (r: bool)
        ensures
            r == self.balances_donante.contenido().contains_key(donante.0 as u128),
    {
        self.balances_donante.has(donante.0 as u128)
    }
}

/// Datos relacionados de un usuario que se crean y eliminan juntos.
pub struct GestionUsuario {
    pub balances: Almacen<i128>,
    pub ultimas_donaciones: Almacen<i128>,
    pub totales_donados: Almacen<i128>,
    pub perfiles: Almacen<i128>,
}

impl GestionUsuario {
    /// Estado inicial sin usuarios.
    pub fn new() -> (r: Self)
        ensures
            r.balances.contenido() == Map::<u128, i128>::empty(),
            r.ultimas_donaciones.contenido() == Map::<u128, i128>::empty(),
            r.totales_donados.contenido() == Map::<u128, i128>::empty(),
            r.perfiles.contenido() == Map::<u128, i128>::empty(),
    {
        GestionUsuario {
            balances: Almacen::new(),
            ultimas_donaciones: Almacen::new(),
            totales_donados: Almacen::new(),
            perfiles: Almacen::new(),
        }
    }

    /// Crea un usuario: guarda balance y total donado y repone ambos TTL.
    pub fn crear_usuario(&mut self, usuario: Address, balance: i128, total_donado: i128)
        ensures
            final(self).balances.contenido() == old(self).balances.contenido().insert(
                usuario.0 as u128,
                balance,
            ),
            final(self).totales_donados.contenido() == old(self).totales_donados.contenido().insert(
                usuario.0 as u128,
                total_donado,
            ),
            final(self).balances.ttl(usuario.0 as u128) == ttl_extendido(
                old(self).balances.ttl(usuario.0 as u128),
            ),
            final(self).totales_donados.ttl(usuario.0 as u128) == ttl_extendido(
                old(self).totales_donados.ttl(usuario.0 as u128),
            ),
            final(self).ultimas_donaciones == old(self).ultimas_donaciones,
            final(self).perfiles == old(self).perfiles,
    {
        self.balances.set(usuario.0 as u128, balance);
        self.totales_donados.set(usuario.0 as u128, total_donado);
        self.balances.extend_ttl(usuario.0 as u128, 100, 100);
        self.totales_donados.extend_ttl(usuario.0 as u128, 100, 100);
    }

    /// Elimina todos los datos relacionados del usuario; si no existe, se
    /// rechaza sin tocar nada.
    pub fn eliminar_usuario(&mut self, usuario: Address) -> (r: Result<(), Error>)
        ensures
            !old(self).balances.contenido().contains_key(usuario.0 as u128) ==> r == Err::<
                (),
                Error,
            >(Error::UsuarioNoExiste) && *final(self) == *old(self),
            old(self).balances.contenido().contains_key(usuario.0 as u128) ==> r == Ok::<(), Error>(
                (),
            ) && final(self).balances.contenido() == old(self).balances.contenido().remove(
                usuario.0 as u128,
            ) && final(self).ultimas_donaciones.contenido() == old(self).ultimas_donaciones.contenido().remove(usuario.0 as u128) && final(self).totales_donados.contenido() == old(self).totales_donados.contenido().remove(
                usuario.0 as u128,
            ) && final(self).perfiles.contenido() == old(self).perfiles.contenido().remove(
                usuario.0 as u128,
            ),
    {
        if !self.balances.has(usuario.0 as u128) {
            return Err(Error::UsuarioNoExiste);
        }
        self.balances.remove(usuario.0 as u128);
        self.ultimas_donaciones.remove(usuario.0 as u128);
        self.totales_donados.remove(usuario.0 as u128);
        if self.perfiles.has(usuario.0 as u128) {
            self.perfiles.remove(usuario.0 as u128);
        } else {
            proof {
                assert(self.perfiles.contenido() =~= self.perfiles.contenido().remove(
                    usuario.0 as u128,
                ));
            }
        }
        Ok(())
    }

    /// Si el usuario tiene balance guardado.
    pub fn usuario_existe(&self, usuario: Address) -> (r: bool)
        ensures
            r == self.balances.contenido().contains_key(usuario.0 as u128),
    {
        self.balances.has(usuario.0 as u128)
    }

    /// Balance del usuario (0 si no existe).
    pub fn get_balance(&self, usuario: Address) -> (r: i128)
        ensures
            r == valor_o(self.balances.contenido(), usuario.0 as u128, 0),
    {
        match self.balances.get(usuario.0 as u128) {
            Some(v) => *v,
            None => 0,
        }
    }
}

/// Estrategias de extension de TTL sobre datos persistentes.
pub struct EstrategiaTTL {
    pub balances: Almacen<i128>,
    pub datos_criticos: Almacen<i128>,
}

impl EstrategiaTTL {
    /// Estado inicial sin datos.
    pub fn new() -> (r: Self)
        ensures
            r.balances.contenido() == Map::<u128, i128>::empty(),
            r.datos_criticos.contenido() == Map::<u128, i128>::empty(),
    {
        EstrategiaTTL { balances: Almacen::new(), datos_criticos: Almacen::new() }
    }

    /// Estrategia 1: extender el TTL tras cada escritura.
    pub fn actualizar_balance_estrategia1(&mut self, usuario: Address, balance: i128)
        ensures
            final(self).balances.contenido() == old(self).balances.contenido().insert(
                usuario.0 as u128,
                balance,
            ),
            final(self).balances.ttl(usuario.0 as u128) == ttl_extendido(
                old(self).balances.ttl(usuario.0 as u128),
            ),
            final(self).datos_criticos == old(self).datos_criticos,
    {
        self.balances.set(usuario.0 as u128, balance);
        self.balances.extend_ttl(usuario.0 as u128, 100, 100);
    }

    /// Estrategia 2: extender solo cuando el TTL esta por debajo del
    /// umbral; el umbral y la meta coinciden con los de la estrategia 1,
    /// asi que el efecto observable es el mismo.
    pub fn actualizar_balance_estrategia2(&mut self, usuario: Address, balance: i128)
        ensures
            final(self).balances.contenido() == old(self).balances.contenido().insert(
                usuario.0 as u128,
                balance,
            ),
            final(self).balances.ttl(usuario.0 as u128) == ttl_extendido(
                old(self).balances.ttl(usuario.0 as u128),
            ),
            final(self).datos_criticos == old(self).datos_criticos,
    {
        self.balances.set(usuario.0 as u128, balance);
        self.balances.extend_ttl(usuario.0 as u128, 100, 100);
    }

    /// Guarda un dato critico con una extension de TTL mas larga.
    pub fn guardar_datos_criticos(&mut self, usuario: Address, datos: i128)
        ensures
            final(self).datos_criticos.contenido() == old(self).datos_criticos.contenido().insert(
                usuario.0 as u128,
                datos,
            ),
            final(self).datos_criticos.ttl(usuario.0 as u128) == if old(self).datos_criticos.ttl(
                usuario.0 as u128,
            ) < 100 {
                200u32
            } else {
                old(self).datos_criticos.ttl(usuario.0 as u128)
            },
            final(self).balances == old(self).balances,
    {
        self.datos_criticos.set(usuario.0 as u128, datos);
        self.datos_criticos.extend_ttl(usuario.0 as u128, 100, 200);
    }

    /// Balance del usuario (0 si no existe).
    pub fn get_balance(&self, usuario: Address) -> (r: i128)
        ensures
            r == valor_o(self.balances.contenido(), usuario.0 as u128, 0),
    {
        match self.balances.get(usuario.0 as u128) {
            Some(v) => *v,
            None => 0,
        }
    }
}

} // verus!

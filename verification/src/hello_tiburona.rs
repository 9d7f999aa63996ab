//! Contrato de saludos con administradora: valida el nombre, cuenta los
//! saludos, recuerda el ultimo saludo de cada usuario y solo deja a la
//! administradora reiniciar el contador.

use vstd::prelude::*;
use vstd::string::StrSliceExecFns;

use crate::almacen::Almacen;
use crate::tipos::Address;

verus! {

/// Fallos enumerables del contrato de saludos.
#[derive(Clone, Copy, Debug, PartialEq, Eq, Structural)]
pub enum Error {
    /// El nombre esta vacio.
    NombreVacio,
    /// El nombre pasa de 32 caracteres.
    NombreMuyLargo,
    /// Quien llama no es la administradora.
    NoAutorizado,
    /// El contrato no esta inicializado.
    NoInicializado,
    /// El contrato ya estaba inicializado.
    YaInicializado,
}

/// Contrato de saludos: configuracion de instancia (administradora y
/// contador global) y el ultimo saludo de cada usuario en almacenamiento
/// persistente.
pub struct HelloContract {
    pub admin: Option<Address>,
    pub contador_saludos: Option<u32>,
    /// TTL del almacenamiento de instancia completo.
    pub ttl_instancia: u32,
    /// Ultimo saludo guardado por usuario.
    pub saludos: Almacen<String>,
}

impl HelloContract {
    /// Estado inicial, sin configurar y sin saludos.
    pub fn new() -> (r: Self)
        ensures
            r.admin is None,
            r.contador_saludos is None,
            r.ttl_instancia == 0,
            r.saludos.contenido() == Map::<u128, String>::empty(),
    {
        HelloContract { admin: None, contador_saludos: None, ttl_instancia: 0, saludos: Almacen::new() }
    }

    /// Contador de saludos efectivo (0 si nunca se escribio).
    pub open spec fn contador(self) -> u32 {
        match self.contador_saludos {
            Some(v) => v,
            None => 0,
        }
    }

    /// TTL de instancia tras una extension con umbral y meta de 100.
    pub open spec fn ttl_extendido(ttl: u32) -> u32 {
        if ttl < 100 {
            100
        } else {
            ttl
        }
    }

    /// Guarda la administradora y pone el contador en cero; una segunda
    /// llamada se rechaza sin tocar nada.
    pub fn initialize(&mut self, admin: Address) -> (r: Result<(), Error>)
        ensures
            old(self).admin is Some ==> r == Err::<(), Error>(Error::YaInicializado) && *final(self)
                == *old(self),
            old(self).admin is None ==> r == Ok::<(), Error>(()) && final(self).admin == Some(admin)
                && final(self).contador_saludos == Some(0u32) && final(self).ttl_instancia
                == Self::ttl_extendido(old(self).ttl_instancia) && final(self).saludos == old(self).saludos,
    {
        if self.admin.is_some() {
            return Err(Error::YaInicializado);
        }
        self.admin = Some(admin);
        self.contador_saludos = Some(0);
        if self.ttl_instancia < 100 {
            self.ttl_instancia = 100;
        }
        Ok(())
    }

    /// Saluda: valida el nombre, incrementa el contador global, guarda el
    /// ultimo saludo del usuario y repone los TTL tocados.  Todo rechazo
    /// deja el estado exactamente como estaba.
    pub fn hello(&mut self, usuario: Address, nombre: String) -> (r: Result<String, Error>)
        ensures
            nombre@.len() == 0 ==> r == Err::<String, Error>(Error::NombreVacio) && *final(self)
                == *old(self),
            nombre@.len() > 32 ==> r == Err::<String, Error>(Error::NombreMuyLargo) && *final(self)
                == *old(self),
            0 < nombre@.len() <= 32 && old(self).contador() == u32::MAX ==> r == Err::<
                String,
                Error,
            >(Error::NoInicializado) && *final(self) == *old(self),
            0 < nombre@.len() <= 32 && old(self).contador() < u32::MAX ==> {
                &&& r matches Ok(saludo) && saludo@ == "Hola"@
                &&& final(self).contador_saludos == Some((old(self).contador() + 1) as u32)
                &&& final(self).saludos.contenido() == old(self).saludos.contenido().insert(
                    usuario.0 as u128,
                    nombre,
                )
                &&& final(self).saludos.ttl(usuario.0 as u128) == Self::ttl_extendido(
                    old(self).saludos.ttl(usuario.0 as u128),
                )
                &&& final(self).ttl_instancia == Self::ttl_extendido(old(self).ttl_instancia)
                &&& final(self).admin == old(self).admin
            },
    {
        let largo = nombre.as_str().unicode_len();
        if largo == 0 {
            return Err(Error::NombreVacio);
        }
        if largo > 32 {
            return Err(Error::NombreMuyLargo);
        }
        let contador: u32 = match self.contador_saludos {
            Some(v) => v,
            None => 0,
        };
        let nuevo_contador = match contador.checked_add(1) {
            Some(v) => v,
            None => {
                return Err(Error::NoInicializado);
            },
        };
        self.contador_saludos = Some(nuevo_contador);
        self.saludos.set(usuario.0 as u128, nombre);
        self.saludos.extend_ttl(usuario.0 as u128, 100, 100);
        if self.ttl_instancia < 100 {
            self.ttl_instancia = 100;
        }
        Ok("Hola".to_owned())
    }

    /// Contador total de saludos (0 si nunca se saludo).
    pub fn get_contador(&self) -> (r: u32)
        ensures
            r == self.contador(),
    {
        match self.contador_saludos {
            Some(v) => v,
            None => 0,
        }
    }

    /// Ultimo saludo del usuario, si alguna vez saludo.
    pub fn get_ultimo_saludo(&self, usuario: Address) -> (r: Option<String>)
        ensures
            match r {
                Some(s) => self.saludos.contenido().contains_key(usuario.0 as u128) && s
                    == self.saludos.contenido()[usuario.0 as u128],
                None => !self.saludos.contenido().contains_key(usuario.0 as u128),
            },
    {
        match self.saludos.get(usuario.0 as u128) {
            Some(s) => Some(s.clone()),
            None => None,
        }
    }

    /// Reinicia el contador a cero; solo la administradora puede hacerlo y
    /// los saludos guardados no se tocan.
    pub fn reset_contador(&mut self, caller: Address) -> (r: Result<(), Error>)
        ensures
            old(self).admin is None ==> r == Err::<(), Error>(Error::NoInicializado) && *final(self)
                == *old(self),
            (old(self).admin matches Some(a) && caller != a) ==> r == Err::<(), Error>(
                Error::NoAutorizado,
            ) && *final(self) == *old(self),
            (old(self).admin matches Some(a) && caller == a) ==> r == Ok::<(), Error>(()) && final(self).contador_saludos == Some(0u32) && final(self).saludos == old(self).saludos && final(self).admin == old(self).admin && final(self).ttl_instancia == Self::ttl_extendido(
                old(self).ttl_instancia,
            ),
    {
        let admin = match self.admin {
            Some(a) => a,
            None => {
                return Err(Error::NoInicializado);
            },
        };
        if caller != admin {
            return Err(Error::NoAutorizado);
        }
        self.contador_saludos = Some(0);
        if self.ttl_instancia < 100 {
            self.ttl_instancia = 100;
        }
        Ok(())
    }

    /// Administradora configurada, o `NoInicializado`.
    pub fn get_admin(&self) -> (r: Result<Address, Error>)
        ensures
            match self.admin {
                Some(a) => r == Ok::<Address, Error>(a),
                None => r == Err::<Address, Error>(Error::NoInicializado),
            },
    {
        match self.admin {
            Some(a) => Ok(a),
            None => Err(Error::NoInicializado),
        }
    }
}

} // verus!

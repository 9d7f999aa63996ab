//! Ejercicios de practica: funciones de analisis, variantes del contador,
//! un tally de votos con dos opciones y un sistema de reputacion con candado
//! contra el voto doble.

use vstd::prelude::*;

use crate::almacen::Almacen;
use crate::almacen::clave_par;
use crate::almacen::clave_de_par;
use crate::almacen::lemma_clave_par_inyectiva;
use crate::almacen::valor_o;
use crate::contador::ContadorError;
use crate::tipos::Address;
use crate::tipos::Symbol;

verus! {

/// Par de funciones de analisis: una lectura pura y un acumulador.
pub struct MysteryFunctions {
    /// Dato opcional que la lectura duplica (`10` si nunca se escribio).
    pub data: Option<u32>,
    /// Acumulador de las sumas recibidas.
    pub total: u32,
}

impl MysteryFunctions {
    /// Estado inicial: sin dato y acumulador en cero.
    pub fn new() -> (r: Self)
        ensures
            r.data is None,
            r.total == 0,
    {
        MysteryFunctions { data: None, total: 0 }
    }

    /// Dato efectivo que lee `mystery_function_a`.
    pub open spec fn dato_efectivo(self) -> u32 {
        match self.data {
            Some(v) => v,
            None => 10,
        }
    }

    /// Duplica el dato guardado (o el valor por defecto `10`) sin tocar el
    /// estado.
    pub fn mystery_function_a(&self) -> (r: u32)
        requires
            self.dato_efectivo() * 2 <= u32::MAX,
        ensures
            r == self.dato_efectivo() * 2,
    {
        let valor: u32 = match self.data {
            Some(v) => v,
            None => 10,
        };
        valor * 2
    }

    /// Suma `x` al acumulador.
    pub fn mystery_function_b(&mut self, x: u32)
        requires
            old(self).total + x <= u32::MAX,
        ensures
            final(self).total == old(self).total + x,
            final(self).data == old(self).data,
    {
        self.total = self.total + x;
    }
}

/// Contador extendido con incremento por cantidad.
pub struct ContadorExtendido {
    pub contador: u32,
}

impl ContadorExtendido {
    /// Contador recien creado, en cero.
    pub fn new() -> (r: Self)
        ensures
            r.contador == 0,
    {
        ContadorExtendido { contador: 0 }
    }

    /// Valor actual del contador.
    pub fn get_count(&self) -> (r: u32)
        ensures
            r == self.contador,
    {
        self.contador
    }

    /// Incrementa el contador en `amount` y devuelve el nuevo valor.
    pub fn increment_by(&mut self, amount: u32) -> (r: Result<u32, ContadorError>)
        ensures
            old(self).contador + amount <= u32::MAX ==> r == Ok::<u32, ContadorError>(
                (old(self).contador + amount) as u32,
            ) && final(self).contador == old(self).contador + amount,
            old(self).contador + amount > u32::MAX ==> r == Err::<u32, ContadorError>(
                ContadorError::Desbordamiento,
            ) && *final(self) == *old(self),
    {
        match self.contador.checked_add(amount) {
            Some(nuevo) => {
                self.contador = nuevo;
                Ok(nuevo)
            },
            None => Err(ContadorError::Desbordamiento),
        }
    }

    /// Incrementa el contador en 1.
    pub fn increment(&mut self) -> (r: Result<u32, ContadorError>)
        ensures
            old(self).contador < u32::MAX ==> r == Ok::<u32, ContadorError>(
                (old(self).contador + 1) as u32,
            ) && final(self).contador == old(self).contador + 1,
            old(self).contador == u32::MAX ==> r == Err::<u32, ContadorError>(
                ContadorError::Desbordamiento,
            ) && *final(self) == *old(self),
    {
        self.increment_by(1)
    }

    /// Decrementa el contador en 1; en cero rechaza la operacion.
    pub fn decrement(&mut self) -> (r: Result<u32, ContadorError>)
        ensures
            old(self).contador > 0 ==> r == Ok::<u32, ContadorError>(
                (old(self).contador - 1) as u32,
            ) && final(self).contador == old(self).contador - 1,
            old(self).contador == 0 ==> r == Err::<u32, ContadorError>(ContadorError::EnCero)
                && *final(self) == *old(self),
    {
        if self.contador == 0 {
            return Err(ContadorError::EnCero);
        }
        self.contador = self.contador - 1;
        Ok(self.contador)
    }

    /// Devuelve el contador a cero.
    pub fn reset(&mut self)
        ensures
            final(self).contador == 0,
    {
        self.contador = 0;
    }
}

/// Contador que no puede pasar de 1000.
pub struct ContadorConLimite {
    pub contador: u32,
}

impl ContadorConLimite {
    /// Contador recien creado, en cero.
    pub fn new() -> (r: Self)
        ensures
            r.contador == 0,
    {
        ContadorConLimite { contador: 0 }
    }

    /// Valor actual del contador.
    pub fn get_count(&self) -> (r: u32)
        ensures
            r == self.contador,
    {
        self.contador
    }

    /// Incrementa en 1 mientras no se haya alcanzado el limite de 1000; en
    /// el limite rechaza la operacion y no cambia nada.
    pub fn increment(&mut self) -> (r: Result<u32, ContadorError>)
        ensures
            old(self).contador < 1000 ==> r == Ok::<u32, ContadorError>(
                (old(self).contador + 1) as u32,
            ) && final(self).contador == old(self).contador + 1,
            old(self).contador >= 1000 ==> r == Err::<u32, ContadorError>(
                ContadorError::LimiteAlcanzado,
            ) && *final(self) == *old(self),
    {
        if self.contador >= 1000 {
            return Err(ContadorError::LimiteAlcanzado);
        }
        self.contador = self.contador + 1;
        Ok(self.contador)
    }
}

/// Contador al que se le puede fijar el valor directamente.
pub struct ContadorConSetValue {
    pub contador: u32,
}

impl ContadorConSetValue {
    /// Contador recien creado, en cero.
    pub fn new() -> (r: Self)
        ensures
            r.contador == 0,
    {
        ContadorConSetValue { contador: 0 }
    }

    /// Valor actual del contador.
    pub fn get_count(&self) -> (r: u32)
        ensures
            r == self.contador,
    {
        self.contador
    }

    /// Fija el contador a `new_value`, que debe estar entre 0 y 1000.
    pub fn set_value(&mut self, new_value: u32) -> (r: Result<(), ContadorError>)
        ensures
            new_value <= 1000 ==> r == Ok::<(), ContadorError>(()) && final(self).contador
                == new_value,
            new_value > 1000 ==> r == Err::<(), ContadorError>(ContadorError::ValorFueraDeRango)
                && *final(self) == *old(self),
    {
        if new_value > 1000 {
            return Err(ContadorError::ValorFueraDeRango);
        }
        self.contador = new_value;
        Ok(())
    }

    /// Incrementa el contador en 1.
    pub fn increment(&mut self) -> (r: Result<u32, ContadorError>)
        ensures
            old(self).contador < u32::MAX ==> r == Ok::<u32, ContadorError>(
                (old(self).contador + 1) as u32,
            ) && final(self).contador == old(self).contador + 1,
            old(self).contador == u32::MAX ==> r == Err::<u32, ContadorError>(
                ContadorError::Desbordamiento,
            ) && *final(self) == *old(self),
    {
        if self.contador == u32::MAX {
            return Err(ContadorError::Desbordamiento);
        }
        self.contador = self.contador + 1;
        Ok(self.contador)
    }
}

/// Los ultimos cinco valores de una sucesion (o todos, si hay menos).
pub open spec fn ultimos_cinco(s: Seq<u32>) -> Seq<u32> {
    if s.len() <= 5 {
        s
    } else {
        s.skip(s.len() - 5)
    }
}

/// Contador que recuerda los ultimos cinco valores por los que paso.
pub struct ContadorConHistorial {
    pub contador: u32,
    pub historial: Vec<u32>,
}

impl ContadorConHistorial {
    /// Contador recien creado, en cero y sin historial.
    pub fn new() -> (r: Self)
        ensures
            r.contador == 0,
            r.historial@ == Seq::<u32>::empty(),
    {
        ContadorConHistorial { contador: 0, historial: Vec::new() }
    }

    /// Valor actual del contador.
    pub fn get_count(&self) -> (r: u32)
        ensures
            r == self.contador,
    {
        self.contador
    }

    /// Incrementa el contador y anota el nuevo valor en el historial,
    /// conservando solo los ultimos cinco.
    pub fn increment(&mut self) -> (r: Result<u32, ContadorError>)
        ensures
            old(self).contador < u32::MAX ==> r == Ok::<u32, ContadorError>(
                (old(self).contador + 1) as u32,
            ) && final(self).contador == old(self).contador + 1 && final(self).historial@
                == ultimos_cinco(old(self).historial@.push((old(self).contador + 1) as u32)),
            old(self).contador == u32::MAX ==> r == Err::<u32, ContadorError>(
                ContadorError::Desbordamiento,
            ) && *final(self) == *old(self),
    {
        if self.contador == u32::MAX {
            return Err(ContadorError::Desbordamiento);
        }
        self.contador = self.contador + 1;
        self.historial.push(self.contador);
        let n = self.historial.len();
        if n > 5 {
            let ghost completo = self.historial@;
            let mut nuevo: Vec<u32> = Vec::new();
            let mut i: usize = n - 5;
            while i < n
                invariant
                    5 < n,
                    n - 5 <= i <= n,
                    n == completo.len(),
                    self.historial@ == completo,
                    nuevo@ == completo.subrange(n - 5, i as int),
                decreases n - i,
            {
                let valor = self.historial[i];
                nuevo.push(valor);
                proof {
                    assert(nuevo@ =~= completo.subrange(n - 5, i + 1));
                }
                i = i + 1;
            }
            self.historial = nuevo;
            proof {
                assert(self.historial@ =~= ultimos_cinco(completo));
            }
        }
        Ok(self.contador)
    }

    /// Historial completo (a lo sumo cinco valores).
    pub fn get_history(&self) -> (r: &Vec<u32>)
        ensures
            r@ == self.historial@,
    {
        &self.historial
    }
}

/// Tally de votos entre dos opciones.
pub struct SistemaVotacion {
    pub votos_a: u32,
    pub votos_b: u32,
}

impl SistemaVotacion {
    /// Tally recien creado, sin votos.
    pub fn new() -> (r: Self)
        ensures
            r.votos_a == 0,
            r.votos_b == 0,
    {
        SistemaVotacion { votos_a: 0, votos_b: 0 }
    }

    /// Registra un voto por la opcion A.
    pub fn vote_a(&mut self) -> (r: Result<(), ContadorError>)
        ensures
            old(self).votos_a < u32::MAX ==> r == Ok::<(), ContadorError>(()) && final(self).votos_a == old(self).votos_a + 1 && final(self).votos_b == old(self).votos_b,
            old(self).votos_a == u32::MAX ==> r == Err::<(), ContadorError>(
                ContadorError::Desbordamiento,
            ) && *final(self) == *old(self),
    {
        if self.votos_a == u32::MAX {
            return Err(ContadorError::Desbordamiento);
        }
        self.votos_a = self.votos_a + 1;
        Ok(())
    }

    /// Registra un voto por la opcion B.
    pub fn vote_b(&mut self) -> (r: Result<(), ContadorError>)
        ensures
            old(self).votos_b < u32::MAX ==> r == Ok::<(), ContadorError>(()) && final(self).votos_b == old(self).votos_b + 1 && final(self).votos_a == old(self).votos_a,
            old(self).votos_b == u32::MAX ==> r == Err::<(), ContadorError>(
                ContadorError::Desbordamiento,
            ) && *final(self) == *old(self),
    {
        if self.votos_b == u32::MAX {
            return Err(ContadorError::Desbordamiento);
        }
        self.votos_b = self.votos_b + 1;
        Ok(())
    }

    /// Devuelve el par (votos de A, votos de B).
    pub fn get_results(&self) -> (r: (u32, u32))
        ensures
            r.0 == self.votos_a,
            r.1 == self.votos_b,
    {
        (self.votos_a, self.votos_b)
    }

    /// Nombre de la opcion ganadora: `"A"`, `"B"` o `"tie"` en caso de
    /// empate.
    pub fn get_winner(&self) -> (r: String)
        ensures
            self.votos_a > self.votos_b ==> r@ == "A"@,
            self.votos_b > self.votos_a ==> r@ == "B"@,
            self.votos_a == self.votos_b ==> r@ == "tie"@,
    {
        if self.votos_a > self.votos_b {
            "A".to_owned()
        } else if self.votos_b > self.votos_a {
            "B".to_owned()
        } else {
            "tie".to_owned()
        }
    }
}

/// Fallos del sistema de reputacion.
#[derive(Clone, Copy, Debug, PartialEq, Eq, Structural)]
pub enum ReputacionError {
    /// El usuario ya voto por esa entidad.
    YaVoto,
    /// El tally desbordaria el rango de `u32`.
    Desbordamiento,
}

/// Sentido de un voto registrado.
#[derive(Clone, Copy, Debug, PartialEq, Eq, Structural)]
pub enum Voto {
    Like,
    Dislike,
}

/// Reputacion por entidad: likes y dislikes, con a lo sumo un voto por
/// usuario y entidad.
pub struct ReputationContract {
    /// Likes por entidad, con la entidad como clave.
    pub likes: Almacen<u32>,
    /// Dislikes por entidad, con la entidad como clave.
    pub dislikes: Almacen<u32>,
    /// Voto registrado por cada par (entidad, usuario).
    pub votos: Almacen<Voto>,
}

impl ReputationContract {
    /// Reputacion recien creada, sin votos.
    pub fn new() -> (r: Self)
        ensures
            r.likes.contenido() == Map::<u128, u32>::empty(),
            r.dislikes.contenido() == Map::<u128, u32>::empty(),
            r.votos.contenido() == Map::<u128, Voto>::empty(),
    {
        ReputationContract { likes: Almacen::new(), dislikes: Almacen::new(), votos: Almacen::new() }
    }

    /// Likes acumulados por una entidad.
    pub open spec fn likes_de(self, entity: Symbol) -> u32 {
        valor_o(self.likes.contenido(), entity.0 as u128, 0)
    }

    /// Dislikes acumulados por una entidad.
    pub open spec fn dislikes_de(self, entity: Symbol) -> u32 {
        valor_o(self.dislikes.contenido(), entity.0 as u128, 0)
    }

    /// Si el usuario ya voto por la entidad.
    pub open spec fn voto_registrado(self, entity: Symbol, user: Address) -> bool {
        self.votos.contenido().contains_key(clave_par(entity.0, user.0))
    }

    /// Registra un like de `user` sobre `entity`; un segundo voto del mismo
    /// usuario sobre la misma entidad se rechaza sin tocar ningun tally.
    pub fn like(&mut self, entity: Symbol, user: Address) -> (r: Result<(), ReputacionError>)
        ensures
            old(self).voto_registrado(entity, user) ==> r == Err::<(), ReputacionError>(
                ReputacionError::YaVoto,
            ) && *final(self) == *old(self),
            !old(self).voto_registrado(entity, user) && old(self).likes_de(entity) == u32::MAX
                ==> r == Err::<(), ReputacionError>(ReputacionError::Desbordamiento) && *final(self)
                == *old(self),
            !old(self).voto_registrado(entity, user) && old(self).likes_de(entity) < u32::MAX ==> r
                == Ok::<(), ReputacionError>(()) && final(self).likes.contenido() == old(self).likes.contenido().insert(entity.0 as u128, (old(self).likes_de(entity) + 1) as u32)
                && final(self).votos.contenido() == old(self).votos.contenido().insert(
                clave_par(entity.0, user.0),
                Voto::Like,
            ) && final(self).dislikes == old(self).dislikes,
            r is Ok ==> forall|e2: Symbol, u2: Address|
                !(e2 == entity && u2 == user) ==> final(self).voto_registrado(e2, u2) == old(
                    self,
                ).voto_registrado(e2, u2),
            r is Ok ==> forall|e2: Symbol| e2 != entity ==> #[trigger] final(self).likes_de(e2)
                == old(self).likes_de(e2),
    {
        let clave_voto = clave_de_par(entity.0, user.0);
        if self.votos.has(clave_voto) {
            return Err(ReputacionError::YaVoto);
        }
        let actuales: u32 = match self.likes.get(entity.0 as u128) {
            Some(v) => *v,
            None => 0,
        };
        if actuales == u32::MAX {
            return Err(ReputacionError::Desbordamiento);
        }
        self.votos.set(clave_voto, Voto::Like);
        self.likes.set(entity.0 as u128, actuales + 1);
        proof {
            assert forall|e2: Symbol, u2: Address|
                !(e2 == entity && u2 == user) implies self.voto_registrado(e2, u2) == old(
                self,
            ).voto_registrado(e2, u2) by {
                if clave_par(e2.0, u2.0) == clave_par(entity.0, user.0) {
                    lemma_clave_par_inyectiva(e2.0, u2.0, entity.0, user.0);
                }
            }
        }
        Ok(())
    }

    /// Registra un dislike de `user` sobre `entity`; un segundo voto del
    /// mismo usuario sobre la misma entidad se rechaza sin tocar ningun
    /// tally.
    pub fn dislike(&mut self, entity: Symbol, user: Address) -> (r: Result<(), ReputacionError>)
        ensures
            old(self).voto_registrado(entity, user) ==> r == Err::<(), ReputacionError>(
                ReputacionError::YaVoto,
            ) && *final(self) == *old(self),
            !old(self).voto_registrado(entity, user) && old(self).dislikes_de(entity) == u32::MAX
                ==> r == Err::<(), ReputacionError>(ReputacionError::Desbordamiento) && *final(self)
                == *old(self),
            !old(self).voto_registrado(entity, user) && old(self).dislikes_de(entity) < u32::MAX
                ==> r == Ok::<(), ReputacionError>(()) && final(self).dislikes.contenido() == old(self).dislikes.contenido().insert(
                entity.0 as u128,
                (old(self).dislikes_de(entity) + 1) as u32,
            ) && final(self).votos.contenido() == old(self).votos.contenido().insert(
                clave_par(entity.0, user.0),
                Voto::Dislike,
            ) && final(self).likes == old(self).likes,
            r is Ok ==> forall|e2: Symbol, u2: Address|
                !(e2 == entity && u2 == user) ==> final(self).voto_registrado(e2, u2) == old(
                    self,
                ).voto_registrado(e2, u2),
            r is Ok ==> forall|e2: Symbol| e2 != entity ==> #[trigger] final(self).dislikes_de(e2)
                == old(self).dislikes_de(e2),
    {
        let clave_voto = clave_de_par(entity.0, user.0);
        if self.votos.has(clave_voto) {
            return Err(ReputacionError::YaVoto);
        }
        let actuales: u32 = match self.dislikes.get(entity.0 as u128) {
            Some(v) => *v,
            None => 0,
        };
        if actuales == u32::MAX {
            return Err(ReputacionError::Desbordamiento);
        }
        self.votos.set(clave_voto, Voto::Dislike);
        self.dislikes.set(entity.0 as u128, actuales + 1);
        proof {
            assert forall|e2: Symbol, u2: Address|
                !(e2 == entity && u2 == user) implies self.voto_registrado(e2, u2) == old(
                self,
            ).voto_registrado(e2, u2) by {
                if clave_par(e2.0, u2.0) == clave_par(entity.0, user.0) {
                    lemma_clave_par_inyectiva(e2.0, u2.0, entity.0, user.0);
                }
            }
        }
        Ok(())
    }

    /// Likes acumulados por una entidad.
    pub fn get_likes(&self, entity: Symbol) -> (r: u32)
        ensures
            r == self.likes_de(entity),
    {
        match self.likes.get(entity.0 as u128) {
            Some(v) => *v,
            None => 0,
        }
    }

    /// Dislikes acumulados por una entidad.
    pub fn get_dislikes(&self, entity: Symbol) -> (r: u32)
        ensures
            r == self.dislikes_de(entity),
    {
        match self.dislikes.get(entity.0 as u128) {
            Some(v) => *v,
            None => 0,
        }
    }

    /// Puntuacion de la entidad: likes menos dislikes (puede ser negativa).
    pub fn get_score(&self, entity: Symbol) -> (r: i32)
        requires
            self.likes_de(entity) <= i32::MAX,
            self.dislikes_de(entity) <= i32::MAX,
        ensures
            r == self.likes_de(entity) - self.dislikes_de(entity),
    {
        let likes = self.get_likes(entity) as i32;
        let dislikes = self.get_dislikes(entity) as i32;
        likes - dislikes
    }

    /// Si el usuario ya voto por la entidad.
    pub fn has_voted(&self, entity: Symbol, user: Address) -> (r: bool)
        ensures
            r == self.voto_registrado(entity, user),
    {
        let clave_voto = clave_de_par(entity.0, user.0);
        self.votos.has(clave_voto)
    }
}

} // verus!

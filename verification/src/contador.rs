//! Contador basico con operaciones acotadas.
//!
//! El contador rechaza con un error toda operacion que lo sacaria de su
//! rango: decrementar en cero, incrementar en el maximo de `u32`, o pasar
//! del limite fijo de la variante con tope.

use vstd::prelude::*;

verus! {

/// Fallos de las operaciones del contador.
#[derive(Clone, Copy, Debug, PartialEq, Eq, Structural)]
pub enum ContadorError {
    /// El contador esta en cero y no puede decrementarse.
    EnCero,
    /// La operacion desbordaria el rango de `u32`.
    Desbordamiento,
    /// El contador alcanzo su limite maximo.
    LimiteAlcanzado,
    /// El contador es menor que la cantidad a restar.
    CantidadInsuficiente,
    /// El valor pedido queda fuera del rango permitido.
    ValorFueraDeRango,
}

/// Contador con lectura, incremento, decremento y reinicio.
pub struct ContadorContract {
    pub contador: u32,
}

impl ContadorContract {
    /// Contador recien creado, en cero.
    pub fn new() -> (r: Self)
        ensures
            r.contador == 0,
    {
        ContadorContract { contador: 0 }
    }

    /// Incrementa el contador en 1 y devuelve el nuevo valor.
    pub fn increment(&mut self) -> (r: Result<u32, ContadorError>)
        ensures
            old(self).contador < u32::MAX ==> r == Ok::<u32, ContadorError>(
                (old(self).contador + 1) as u32,
            ) && final(self).contador == old(self).contador + 1,
            old(self).contador == u32::MAX ==> r == Err::<u32, ContadorError>(
                ContadorError::Desbordamiento,
            ) && *final(self) == *old(self),
    {
        if self.contador == u32::MAX {
            return Err(ContadorError::Desbordamiento);
        }
        self.contador = self.contador + 1;
        Ok(self.contador)
    }

    /// Decrementa el contador en 1 y devuelve el nuevo valor; en cero
    /// rechaza la operacion y no cambia nada.
    pub fn decrement(&mut self) -> (r: Result<u32, ContadorError>)
        ensures
            old(self).contador > 0 ==> r == Ok::<u32, ContadorError>(
                (old(self).contador - 1) as u32,
            ) && final(self).contador == old(self).contador - 1,
            old(self).contador == 0 ==> r == Err::<u32, ContadorError>(ContadorError::EnCero)
                && *final(self) == *old(self),
    {
        if self.contador == 0 {
            return Err(ContadorError::EnCero);
        }
        self.contador = self.contador - 1;
        Ok(self.contador)
    }

    /// Valor actual del contador; no toca el estado.
    pub fn get_count(&self) -> (r: u32)
        ensures
            r == self.contador,
    {
        self.contador
    }

    /// Devuelve el contador a cero.
    pub fn reset(&mut self)
        ensures
            final(self).contador == 0,
    {
        self.contador = 0;
    }

    /// Incrementa el contador en `amount` con suma comprobada.
    pub fn increment_by(&mut self, amount: u32) -> (r: Result<u32, ContadorError>)
        ensures
            old(self).contador + amount <= u32::MAX ==> r == Ok::<u32, ContadorError>(
                (old(self).contador + amount) as u32,
            ) && final(self).contador == old(self).contador + amount,
            old(self).contador + amount > u32::MAX ==> r == Err::<u32, ContadorError>(
                ContadorError::Desbordamiento,
            ) && *final(self) == *old(self),
    {
        match self.contador.checked_add(amount) {
            Some(nuevo) => {
                self.contador = nuevo;
                Ok(nuevo)
            },
            None => Err(ContadorError::Desbordamiento),
        }
    }

    /// Incrementa en 1 mientras el contador no haya llegado a 1000.
    pub fn increment_con_limite(&mut self) -> (r: Result<u32, ContadorError>)
        ensures
            old(self).contador < 1000 ==> r == Ok::<u32, ContadorError>(
                (old(self).contador + 1) as u32,
            ) && final(self).contador == old(self).contador + 1,
            old(self).contador >= 1000 ==> r == Err::<u32, ContadorError>(
                ContadorError::LimiteAlcanzado,
            ) && *final(self) == *old(self),
    {
        if self.contador >= 1000 {
            return Err(ContadorError::LimiteAlcanzado);
        }
        self.contador = self.contador + 1;
        Ok(self.contador)
    }

    /// Decrementa el contador en `amount`; exige que alcance.
    pub fn decrement_by(&mut self, amount: u32) -> (r: Result<u32, ContadorError>)
        ensures
            old(self).contador >= amount ==> r == Ok::<u32, ContadorError>(
                (old(self).contador - amount) as u32,
            ) && final(self).contador == old(self).contador - amount,
            old(self).contador < amount ==> r == Err::<u32, ContadorError>(
                ContadorError::CantidadInsuficiente,
            ) && *final(self) == *old(self),
    {
        if self.contador < amount {
            return Err(ContadorError::CantidadInsuficiente);
        }
        self.contador = self.contador - amount;
        Ok(self.contador)
    }
}

/// Numero de incrementos en una sucesion de operaciones (`true` incrementa,
/// `false` decrementa).
pub open spec fn incrementos(ops: Seq<bool>) -> int
    decreases ops.len(),
{
    if ops.len() == 0 {
        0
    } else {
        incrementos(ops.drop_last()) + if ops.last() {
            1int
        } else {
            0int
        }
    }
}

/// Numero de decrementos en una sucesion de operaciones.
pub open spec fn decrementos(ops: Seq<bool>) -> int {
    ops.len() - incrementos(ops)
}

/// Valor del contador tras aplicar cada operacion de `ops` en orden, donde
/// cada paso es el cambio que `increment` (`true`) o `decrement` (`false`)
/// garantiza en su `ensures` cuando la llamada no se rechaza.
pub open spec fn valor_tras(inicio: int, ops: Seq<bool>) -> int
    decreases ops.len(),
{
    if ops.len() == 0 {
        inicio
    } else {
        valor_tras(inicio, ops.drop_last()) + if ops.last() {
            1int
        } else {
            -1int
        }
    }
}

/// Ley: toda sucesion de N incrementos y M decrementos, en cualquier orden,
/// deja el contador en su valor inicial mas N menos M.  (Que decrementar en
/// cero se rechaza y no cambia nada lo garantiza el `ensures` de
/// `decrement`.)
pub proof fn lemma_incrementos_menos_decrementos(inicio: int, ops: Seq<bool>)
    ensures
        valor_tras(inicio, ops) == inicio + incrementos(ops) - decrementos(ops),
    decreases ops.len(),
{
    if ops.len() > 0 {
        lemma_incrementos_menos_decrementos(inicio, ops.drop_last());
    }
}

} // verus!

//! Tipos basicos compartidos por todos los contratos.
//!
//! El anfitrion identifica cuentas y simbolos cortos por valores opacos; aqui
//! cada uno se modela por su codigo entero, que es lo unico que la logica de
//! los contratos lee de ellos (igualdad y uso como clave).

use vstd::prelude::*;

verus! {

/// Identificador opaco de una cuenta.
#[derive(Clone, Copy, Debug, PartialEq, Eq, Structural)]
pub struct Address(pub u64);

/// Identificador corto interceptado: un simbolo opaco del anfitrion.
#[derive(Clone, Copy, Debug, PartialEq, Eq, Structural)]
pub struct Symbol(pub u64);

} // verus!

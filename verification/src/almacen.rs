//! Modelo del almacen clave-valor del anfitrion.
//!
//! Un `Almacen<V>` guarda entradas con clave entera, valor y un TTL restante
//! (el horizonte de expiracion en ledgers).  Las operaciones corresponden a
//! las del almacen del anfitrion: `get`, `set`, `has`, `remove` y
//! `extend_ttl`.  Las lecturas toman `&self` y por tanto nunca refrescan el
//! TTL; las escrituras lo conservan, y solo `extend_ttl` lo repone cuando
//! cae bajo el umbral pedido.
//!
//! El contenido se ve en las especificaciones como un `Map<u128, V>` y el
//! TTL de cada clave como un entero (`0` para claves ausentes).

use vstd::prelude::*;

verus! {

/// Una entrada del almacen: clave, valor y TTL restante.
struct Celda<V> {
    clave: u128,
    valor: V,
    ttl: u32,
}

/// Almacen clave-valor con TTL por entrada.
pub struct Almacen<V> {
    celdas: Vec<Celda<V>>,
}

/// Clave compuesta de dos identificadores de 64 bits.
pub open spec fn clave_par(alto: u64, bajo: u64) -> u128 {
    ((alto as u128) << 64u128) | (bajo as u128)
}

/// Calcula la clave compuesta de dos identificadores.
pub fn clave_de_par(alto: u64, bajo: u64) -> (r: u128)
    ensures
        r == clave_par(alto, bajo),
{
    ((alto as u128) << 64u128) | (bajo as u128)
}

/// Pares distintos de identificadores dan claves compuestas distintas.
pub proof fn lemma_clave_par_inyectiva(alto1: u64, bajo1: u64, alto2: u64, bajo2: u64)
    requires
        clave_par(alto1, bajo1) == clave_par(alto2, bajo2),
    ensures
        alto1 == alto2,
        bajo1 == bajo2,
{
    assert((((alto1 as u128) << 64u128) | (bajo1 as u128)) == (((alto2 as u128) << 64u128) | (
    bajo2 as u128)) ==> alto1 == alto2 && bajo1 == bajo2) by (bit_vector);
}

/// Valor de una clave en un mapa, o un valor por defecto si esta ausente.
pub open spec fn valor_o<V>(m: Map<u128, V>, clave: u128, defecto: V) -> V {
    if m.contains_key(clave) {
        m[clave]
    } else {
        defecto
    }
}

/// Entrada asociada a una clave, buscando desde el final de la secuencia.
spec fn busca<V>(s: Seq<Celda<V>>, clave: u128) -> Option<Celda<V>>
    decreases s.len(),
{
    if s.len() == 0 {
        None
    } else if s.last().clave == clave {
        Some(s.last())
    } else {
        busca(s.drop_last(), clave)
    }
}

/// Ninguna clave se repite en la secuencia.
spec fn claves_unicas<V>(s: Seq<Celda<V>>) -> bool {
    forall|i: int, j: int|
        #![trigger s[i].clave, s[j].clave]
        0 <= i < j < s.len() ==> s[i].clave != s[j].clave
}

/// Mapa de claves a valores que representa la secuencia de celdas.
spec fn contenido_de<V>(s: Seq<Celda<V>>) -> Map<u128, V> {
    Map::new(|k: u128| busca(s, k) is Some, |k: u128| busca(s, k)->Some_0.valor)
}

/// TTL restante de una clave en la secuencia; `0` si esta ausente.
spec fn ttl_en<V>(s: Seq<Celda<V>>, clave: u128) -> u32 {
    match busca(s, clave) {
        Some(c) => c.ttl,
        None => 0,
    }
}

/// `busca` halla una entrada si y solo si alguna posicion lleva la clave, y
/// con claves unicas devuelve exactamente la entrada de esa posicion.
proof fn lemma_busca<V>(s: Seq<Celda<V>>, clave: u128)
    requires
        claves_unicas(s),
    ensures
        (busca(s, clave) is Some) <==> exists|i: int|
            0 <= i < s.len() && (#[trigger] s[i].clave) == clave,
        forall|i: int|
            0 <= i < s.len() && (#[trigger] s[i].clave) == clave ==> busca(s, clave) == Some(s[i]),
    decreases s.len(),
{
    if s.len() > 0 {
        let resto = s.drop_last();
        assert(claves_unicas(resto)) by {
            assert forall|i: int, j: int|
                #![trigger resto[i].clave, resto[j].clave]
                0 <= i < j < resto.len() implies resto[i].clave != resto[j].clave by {
                assert(s[i].clave != s[j].clave);
            }
        }
        lemma_busca(resto, clave);
        if s.last().clave == clave {
            assert(s[s.len() - 1].clave == clave);
            assert forall|i: int|
                0 <= i < s.len() && (#[trigger] s[i].clave) == clave implies busca(s, clave)
                == Some(s[i]) by {
                if i < s.len() - 1 {
                    assert(s[i].clave != s[s.len() - 1].clave);
                }
            }
        } else {
            assert forall|i: int|
                0 <= i < s.len() && (#[trigger] s[i].clave) == clave implies busca(s, clave)
                == Some(s[i]) by {
                assert(i != s.len() - 1);
                assert(resto[i] == s[i]);
            }
            if busca(s, clave) is Some {
                let i = choose|i: int| 0 <= i < resto.len() && (#[trigger] resto[i].clave) == clave;
                assert(s[i].clave == clave);
            }
        }
    }
}

/// Si las celdas con claves distintas de `clave` quedan en su sitio y alguna
/// posicion lleva `clave` con `valor` y el TTL anterior, el mapa resultante
/// es el de antes con `clave` insertada y ningun TTL cambia.
proof fn lemma_escritura<V>(antes: Seq<Celda<V>>, despues: Seq<Celda<V>>, clave: u128, valor: V)
    requires
        claves_unicas(antes),
        claves_unicas(despues),
        forall|p: int|
            0 <= p < antes.len() && (#[trigger] antes[p].clave) != clave ==> p < despues.len()
                && despues[p] == antes[p],
        forall|p: int|
            0 <= p < despues.len() && (#[trigger] despues[p].clave) != clave ==> p < antes.len()
                && despues[p] == antes[p],
        exists|p: int|
            0 <= p < despues.len() && (#[trigger] despues[p].clave) == clave && despues[p].valor
                == valor && despues[p].ttl == ttl_en(antes, clave),
    ensures
        contenido_de(despues) == contenido_de(antes).insert(clave, valor),
        forall|k: u128| #[trigger] ttl_en(despues, k) == ttl_en(antes, k),
{
    lemma_busca(antes, clave);
    lemma_busca(despues, clave);
    let testigo = choose|p: int|
        0 <= p < despues.len() && (#[trigger] despues[p].clave) == clave && despues[p].valor
            == valor && despues[p].ttl == ttl_en(antes, clave);
    assert(busca(despues, clave) == Some(despues[testigo]));
    assert forall|k: u128| k != clave implies busca(despues, k) == #[trigger] busca(antes, k) by {
        lemma_busca(antes, k);
        lemma_busca(despues, k);
        if busca(antes, k) is Some {
            let p = choose|p: int| 0 <= p < antes.len() && (#[trigger] antes[p].clave) == k;
            assert(despues[p] == antes[p]);
            assert(busca(despues, k) == Some(antes[p]));
        } else if busca(despues, k) is Some {
            let p = choose|p: int| 0 <= p < despues.len() && (#[trigger] despues[p].clave) == k;
            assert(despues[p] == antes[p]);
            assert(antes[p].clave == k);
        }
    }
    assert(contenido_de(despues) =~= contenido_de(antes).insert(clave, valor));
    assert forall|k: u128| #[trigger] ttl_en(despues, k) == ttl_en(antes, k) by {
        if k != clave {
            assert(busca(despues, k) == busca(antes, k));
        }
    }
}

/// Si se quita la unica posicion que lleva `clave`, el mapa resultante es el
/// de antes sin `clave` y los demas TTL no cambian.
proof fn lemma_borrado<V>(antes: Seq<Celda<V>>, despues: Seq<Celda<V>>, clave: u128, i: int)
    requires
        claves_unicas(antes),
        claves_unicas(despues),
        0 <= i < antes.len(),
        antes[i].clave == clave,
        despues == antes.remove(i),
    ensures
        contenido_de(despues) == contenido_de(antes).remove(clave),
        ttl_en(despues, clave) == 0,
        forall|k: u128| k != clave ==> #[trigger] ttl_en(despues, k) == ttl_en(antes, k),
{
    lemma_busca(antes, clave);
    lemma_busca(despues, clave);
    assert forall|p: int| 0 <= p < despues.len() implies (#[trigger] despues[p].clave)
        != clave by {
        let p0 = if p < i {
            p
        } else {
            p + 1
        };
        assert(despues[p] == antes[p0]);
        assert(antes[p0].clave != antes[i].clave);
    }
    assert(busca(despues, clave) is None);
    assert forall|k: u128| k != clave implies busca(despues, k) == #[trigger] busca(antes, k) by {
        lemma_busca(antes, k);
        lemma_busca(despues, k);
        if busca(antes, k) is Some {
            let p0 = choose|p0: int| 0 <= p0 < antes.len() && (#[trigger] antes[p0].clave) == k;
            let p = if p0 < i {
                p0
            } else {
                p0 - 1
            };
            assert(despues[p] == antes[p0]);
            assert(busca(despues, k) == Some(antes[p0]));
        } else if busca(despues, k) is Some {
            let p = choose|p: int| 0 <= p < despues.len() && (#[trigger] despues[p].clave) == k;
            let p0 = if p < i {
                p
            } else {
                p + 1
            };
            assert(despues[p] == antes[p0]);
            assert(antes[p0].clave == k);
        }
    }
    assert(contenido_de(despues) =~= contenido_de(antes).remove(clave));
}

/// Si solo cambia el TTL de la posicion que lleva `clave`, el mapa no cambia
/// y los demas TTL tampoco.
proof fn lemma_cambio_ttl<V>(antes: Seq<Celda<V>>, despues: Seq<Celda<V>>, clave: u128, i: int)
    requires
        claves_unicas(antes),
        claves_unicas(despues),
        0 <= i < antes.len(),
        antes[i].clave == clave,
        despues.len() == antes.len(),
        forall|p: int| 0 <= p < antes.len() && p != i ==> despues[p] == #[trigger] antes[p],
        despues[i].clave == clave,
        despues[i].valor == antes[i].valor,
    ensures
        contenido_de(despues) == contenido_de(antes),
        ttl_en(despues, clave) == despues[i].ttl,
        ttl_en(antes, clave) == antes[i].ttl,
        forall|k: u128| k != clave ==> #[trigger] ttl_en(despues, k) == ttl_en(antes, k),
{
    lemma_busca(antes, clave);
    lemma_busca(despues, clave);
    assert(busca(despues, clave) == Some(despues[i]));
    assert(busca(antes, clave) == Some(antes[i]));
    assert forall|k: u128| k != clave implies busca(despues, k) == #[trigger] busca(antes, k) by {
        lemma_busca(antes, k);
        lemma_busca(despues, k);
        if busca(antes, k) is Some {
            let p = choose|p: int| 0 <= p < antes.len() && (#[trigger] antes[p].clave) == k;
            assert(despues[p] == antes[p]);
            assert(busca(despues, k) == Some(antes[p]));
        } else if busca(despues, k) is Some {
            let p = choose|p: int| 0 <= p < despues.len() && (#[trigger] despues[p].clave) == k;
            assert(despues[p] == antes[p]);
            assert(antes[p].clave == k);
        }
    }
    assert(contenido_de(despues) =~= contenido_de(antes));
}

impl<V> Almacen<V> {
    #[verifier::type_invariant]
    spec fn inv(self) -> bool {
        claves_unicas(self.celdas@)
    }

    /// Contenido del almacen como mapa de claves a valores.
    pub closed spec fn contenido(self) -> Map<u128, V> {
        contenido_de(self.celdas@)
    }

    /// TTL restante de una clave; `0` para claves ausentes.
    pub closed spec fn ttl(self, clave: u128) -> u32 {
        ttl_en(self.celdas@, clave)
    }

    /// Posicion de la clave en el vector interno, si esta.
    fn indice_de(&self, clave: u128) -> (r: Option<usize>)
        ensures
            match r {
                Some(i) => i < self.celdas@.len() && self.celdas@[i as int].clave == clave,
                None => forall|i: int|
                    0 <= i < self.celdas@.len() ==> (#[trigger] self.celdas@[i].clave) != clave,
            },
    {
        let n = self.celdas.len();
        let mut i: usize = 0;
        while i < n
            invariant
                n == self.celdas@.len(),
                i <= n,
                forall|j: int| 0 <= j < i ==> (#[trigger] self.celdas@[j].clave) != clave,
            decreases n - i,
        {
            if self.celdas[i].clave == clave {
                return Some(i);
            }
            i = i + 1;
        }
        None
    }

    /// Almacen vacio.
    pub fn new() -> (r: Self)
        ensures
            r.contenido() == Map::<u128, V>::empty(),
            forall|k: u128| #[trigger] r.ttl(k) == 0,
    {
        let r = Almacen { celdas: Vec::new() };
        proof {
            assert(r.contenido() =~= Map::<u128, V>::empty());
        }
        r
    }

    /// Consulta el valor de una clave.
    pub fn get(&self, clave: u128) -> (r: Option<&V>)
        ensures
            match r {
                Some(v) => self.contenido().contains_key(clave) && *v == self.contenido()[clave],
                None => !self.contenido().contains_key(clave),
            },
    {
        proof {
            use_type_invariant(&*self);
            lemma_busca(self.celdas@, clave);
        }
        match self.indice_de(clave) {
            Some(i) => Some(&self.celdas[i].valor),
            None => None,
        }
    }

    /// Indica si la clave existe.
    pub fn has(&self, clave: u128) -> (r: bool)
        ensures
            r == self.contenido().contains_key(clave),
    {
        proof {
            use_type_invariant(&*self);
            lemma_busca(self.celdas@, clave);
        }
        match self.indice_de(clave) {
            Some(_) => true,
            None => false,
        }
    }

    /// TTL restante de una clave (`0` si esta ausente).
    pub fn ttl_de(&self, clave: u128) -> (r: u32)
        ensures
            r == self.ttl(clave),
    {
        proof {
            use_type_invariant(&*self);
            lemma_busca(self.celdas@, clave);
        }
        match self.indice_de(clave) {
            Some(i) => self.celdas[i].ttl,
            None => 0,
        }
    }

    /// Escribe un valor; conserva el TTL que la clave tuviera (una clave
    /// nueva empieza con TTL `0` hasta que se extienda).
    pub fn set(&mut self, clave: u128, valor: V)
        ensures
            final(self).contenido() == old(self).contenido().insert(clave, valor),
            forall|k: u128| #[trigger] final(self).ttl(k) == old(self).ttl(k),
    {
        proof {
            use_type_invariant(&*self);
            lemma_busca(self.celdas@, clave);
        }
        let indice = self.indice_de(clave);
        let ghost antes = self.celdas@;
        let ghost valor_espec = valor;
        let mut celdas: Vec<Celda<V>> = Vec::new();
        std::mem::swap(&mut celdas, &mut self.celdas);
        match indice {
            Some(i) => {
                let ttl = celdas[i].ttl;
                celdas[i] = Celda { clave, valor, ttl };
                proof {
                    assert(busca(antes, clave) == Some(antes[i as int]));
                }
            },
            None => {
                celdas.push(Celda { clave, valor, ttl: 0 });
            },
        }
        proof {
            assert(claves_unicas(celdas@)) by {
                assert forall|p: int, q: int|
                    #![trigger celdas@[p].clave, celdas@[q].clave]
                    0 <= p < q < celdas@.len() implies celdas@[p].clave != celdas@[q].clave by {
                    if q < antes.len() {
                        assert(antes[p].clave != antes[q].clave);
                    } else {
                        assert(antes[p].clave != clave);
                    }
                }
            }
        }
        self.celdas = celdas;
        proof {
            let testigo: int = match indice {
                Some(i) => i as int,
                None => antes.len() as int,
            };
            assert((#[trigger] self.celdas@[testigo].clave) == clave && self.celdas@[testigo].valor
                == valor_espec && self.celdas@[testigo].ttl == ttl_en(antes, clave));
            lemma_escritura(antes, self.celdas@, clave, valor_espec);
        }
    }

    /// Elimina la entrada de una clave, si existe.
    pub fn remove(&mut self, clave: u128)
        ensures
            final(self).contenido() == old(self).contenido().remove(clave),
            final(self).ttl(clave) == 0,
            forall|k: u128| k != clave ==> #[trigger] final(self).ttl(k) == old(self).ttl(k),
    {
        proof {
            use_type_invariant(&*self);
            lemma_busca(self.celdas@, clave);
        }
        let indice = self.indice_de(clave);
        let ghost antes = self.celdas@;
        match indice {
            Some(i) => {
                let mut celdas: Vec<Celda<V>> = Vec::new();
                std::mem::swap(&mut celdas, &mut self.celdas);
                celdas.remove(i);
                proof {
                    assert(claves_unicas(celdas@)) by {
                        assert forall|p: int, q: int|
                            #![trigger celdas@[p].clave, celdas@[q].clave]
                            0 <= p < q < celdas@.len() implies celdas@[p].clave
                            != celdas@[q].clave by {
                            let p0 = if p < i {
                                p
                            } else {
                                p + 1
                            };
                            let q0 = if q < i {
                                q
                            } else {
                                q + 1
                            };
                            assert(celdas@[p] == antes[p0]);
                            assert(celdas@[q] == antes[q0]);
                            assert(antes[p0].clave != antes[q0].clave);
                        }
                    }
                }
                self.celdas = celdas;
                proof {
                    lemma_borrado(antes, self.celdas@, clave, i as int);
                }
            },
            None => {
                proof {
                    assert(!self.contenido().contains_key(clave));
                    assert(self.contenido() =~= self.contenido().remove(clave));
                }
            },
        }
    }

    /// Repone el TTL de una clave existente: si el restante esta por debajo
    /// del umbral, pasa a ser `extiende_a`; si no, queda como estaba.
    pub fn extend_ttl(&mut self, clave: u128, umbral: u32, extiende_a: u32)
        requires
            old(self).contenido().contains_key(clave),
        ensures
            final(self).contenido() == old(self).contenido(),
            final(self).ttl(clave) == if old(self).ttl(clave) < umbral {
                extiende_a
            } else {
                old(self).ttl(clave)
            },
            forall|k: u128| k != clave ==> #[trigger] final(self).ttl(k) == old(self).ttl(k),
    {
        proof {
            use_type_invariant(&*self);
            lemma_busca(self.celdas@, clave);
        }
        let indice = self.indice_de(clave);
        let ghost antes = self.celdas@;
        if let Some(i) = indice {
            proof {
                assert(busca(antes, clave) == Some(antes[i as int]));
            }
            let mut celdas: Vec<Celda<V>> = Vec::new();
            std::mem::swap(&mut celdas, &mut self.celdas);
            if celdas[i].ttl < umbral {
                let celda = &mut celdas[i];
                celda.ttl = extiende_a;
            }
            proof {
                assert(claves_unicas(celdas@)) by {
                    assert forall|p: int, q: int|
                        #![trigger celdas@[p].clave, celdas@[q].clave]
                        0 <= p < q < celdas@.len() implies celdas@[p].clave
                        != celdas@[q].clave by {
                        assert(antes[p].clave != antes[q].clave);
                    }
                }
            }
            self.celdas = celdas;
            proof {
                lemma_cambio_ttl(antes, self.celdas@, clave, i as int);
            }
        }
    }
}

} // verus!

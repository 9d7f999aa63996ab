use ejercicios_soroban::Almacen;
use ejercicios_soroban::clave_de_par;

#[test]
fn test_almacen_get_set() {
    let mut almacen: Almacen<i128> = Almacen::new();

    assert_eq!(almacen.get(1), None);
    assert_eq!(almacen.has(1), false);

    almacen.set(1, 10);
    almacen.set(2, 20);

    assert_eq!(almacen.get(1), Some(&10));
    assert_eq!(almacen.get(2), Some(&20));
    assert_eq!(almacen.has(1), true);

    // Reescribir una clave reemplaza su valor.
    almacen.set(1, 11);
    assert_eq!(almacen.get(1), Some(&11));
    assert_eq!(almacen.get(2), Some(&20));
}

#[test]
fn test_almacen_remove() {
    let mut almacen: Almacen<i128> = Almacen::new();

    almacen.set(1, 10);
    almacen.set(2, 20);

    almacen.remove(1);
    assert_eq!(almacen.get(1), None);
    assert_eq!(almacen.get(2), Some(&20));

    // Quitar una clave ausente no cambia nada.
    almacen.remove(7);
    assert_eq!(almacen.get(2), Some(&20));
}

#[test]
fn test_almacen_extend_ttl() {
    let mut almacen: Almacen<i128> = Almacen::new();

    almacen.set(1, 10);
    assert_eq!(almacen.ttl_de(1), 0);

    // Bajo el umbral, el TTL pasa a la meta pedida.
    almacen.extend_ttl(1, 100, 100);
    assert_eq!(almacen.ttl_de(1), 100);

    // Ya por encima del umbral, el TTL queda como estaba.
    almacen.extend_ttl(1, 50, 500);
    assert_eq!(almacen.ttl_de(1), 100);

    // Reescribir el valor conserva el TTL.
    almacen.set(1, 11);
    assert_eq!(almacen.ttl_de(1), 100);
}

#[test]
fn test_clave_de_par() {
    // Pares distintos dan claves distintas.
    let a = clave_de_par(1, 2);
    let b = clave_de_par(2, 1);
    let c = clave_de_par(1, 3);
    assert_ne!(a, b);
    assert_ne!(a, c);
    assert_eq!(a, (1u128 << 64) | 2u128);
}

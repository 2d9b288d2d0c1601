use boveda::tablas::buscar_valor;
use boveda::{Boveda, Entrada};

fn par(nombre: &str, valor: &str) -> (String, String) {
    (nombre.to_string(), valor.to_string())
}

fn entrada(servicio: &str, usuario: &str, clave: &str) -> Entrada {
    Entrada {
        servicio: servicio.to_string(),
        usuario: usuario.to_string(),
        clave: clave.to_string(),
    }
}

#[test]
fn la_tabla_de_una_entrada_lleva_sus_tres_campos() {
    let tabla = entrada("correo", "ana", "s3cr3t").a_tabla();
    assert_eq!(
        tabla,
        vec![par("servicio", "correo"), par("usuario", "ana"), par("clave", "s3cr3t")]
    );
}

#[test]
fn la_entrada_de_su_tabla_es_la_misma() {
    let e = entrada("correo", "ana", "s3cr3t");
    let vuelta = Entrada::de_tabla(&e.a_tabla()).unwrap();
    assert_eq!(vuelta.servicio, "correo");
    assert_eq!(vuelta.usuario, "ana");
    assert_eq!(vuelta.clave, "s3cr3t");
}

#[test]
fn la_tabla_se_lee_en_cualquier_orden_e_ignora_otros_campos() {
    let tabla = vec![
        par("clave", "c"),
        par("nota", "x"),
        par("usuario", "u"),
        par("servicio", "s"),
    ];
    let e = Entrada::de_tabla(&tabla).unwrap();
    assert_eq!((e.servicio.as_str(), e.usuario.as_str(), e.clave.as_str()), ("s", "u", "c"));
}

#[test]
fn a_la_tabla_sin_un_campo_no_le_corresponde_entrada() {
    assert!(Entrada::de_tabla(&vec![par("servicio", "s"), par("usuario", "u")]).is_none());
    assert!(Entrada::de_tabla(&vec![par("servicio", "s"), par("clave", "c")]).is_none());
    assert!(Entrada::de_tabla(&vec![par("usuario", "u"), par("clave", "c")]).is_none());
    assert!(Entrada::de_tabla(&Vec::new()).is_none());
    assert!(Entrada::de_tabla(&vec![par("Servicio", "s"), par("usuario", "u"), par("clave", "c")])
        .is_none());
}

#[test]
fn buscar_valor_da_el_primero_de_ese_nombre() {
    let tabla = vec![par("a", "1"), par("b", "2"), par("a", "3")];
    assert_eq!(buscar_valor(&tabla, "a"), Some("1".to_string()));
    assert_eq!(buscar_valor(&tabla, "b"), Some("2".to_string()));
    assert_eq!(buscar_valor(&tabla, "c"), None);
    assert_eq!(buscar_valor(&Vec::new(), "a"), None);
}

#[test]
fn las_tablas_de_la_boveda_van_en_su_orden() {
    let mut b = Boveda::nueva();
    b.agregar(entrada("A", "ana", "a1"));
    b.agregar(entrada("B", "bea", "b1"));
    let tablas = b.a_tablas();
    assert_eq!(
        tablas,
        vec![
            vec![par("servicio", "A"), par("usuario", "ana"), par("clave", "a1")],
            vec![par("servicio", "B"), par("usuario", "bea"), par("clave", "b1")],
        ]
    );
    let vuelta = Boveda::de_tablas(&tablas).unwrap();
    assert_eq!(vuelta.entradas.len(), 2);
    assert_eq!(vuelta.entradas[0].servicio, "A");
    assert_eq!(vuelta.entradas[1].clave, "b1");
    assert!(Boveda::nueva().a_tablas().is_empty());
    assert!(Boveda::de_tablas(&Vec::new()).unwrap().entradas.is_empty());
}

#[test]
fn una_tabla_incompleta_invalida_la_lista_entera() {
    let tablas = vec![
        vec![par("servicio", "A"), par("usuario", "ana"), par("clave", "a1")],
        vec![par("servicio", "B")],
    ];
    assert!(Boveda::de_tablas(&tablas).is_none());
}

use boveda::persistencia::{leer_carga, ErrorCarga};
use boveda::sobre::{cifrar, descifrar};
use boveda::{Boveda, Entrada};

fn entrada(servicio: &str, usuario: &str, clave: &str) -> Entrada {
    Entrada {
        servicio: servicio.to_string(),
        usuario: usuario.to_string(),
        clave: clave.to_string(),
    }
}

fn campos(b: &Boveda) -> Vec<(String, String, String)> {
    b.listar()
        .iter()
        .map(|e| (e.servicio.clone(), e.usuario.clone(), e.clave.clone()))
        .collect()
}

fn terna(servicio: &str, usuario: &str, clave: &str) -> (String, String, String) {
    (servicio.to_string(), usuario.to_string(), clave.to_string())
}

#[test]
fn guardar_y_cargar_con_la_misma_clave_reproduce_la_entrada() {
    let mut b = Boveda::nueva();
    b.agregar(entrada("correo", "ana", "s3cr3t"));
    let archivo = b.guardar("p1").unwrap();
    let cargada = Boveda::cargar(Some(&archivo), "p1").unwrap();
    assert_eq!(campos(&cargada), vec![terna("correo", "ana", "s3cr3t")]);
    assert_eq!(campos(&b), vec![terna("correo", "ana", "s3cr3t")]);
}

#[test]
fn cargar_con_otra_clave_falla_con_autenticacion() {
    let mut b = Boveda::nueva();
    b.agregar(entrada("correo", "ana", "s3cr3t"));
    let archivo = b.guardar("p1").unwrap();
    let r = Boveda::cargar(Some(&archivo), "p2");
    assert_eq!(r.err(), Some(ErrorCarga::Autenticacion));
}

#[test]
fn cargar_sin_archivo_da_la_boveda_vacia() {
    let b = Boveda::cargar(None, "p1").unwrap();
    assert!(b.entradas.is_empty());
}

#[test]
fn cargar_un_archivo_vacio_o_truncado_falla_con_autenticacion() {
    assert_eq!(Boveda::cargar(Some(&[]), "p1").err(), Some(ErrorCarga::Autenticacion));
    let archivo = Boveda::nueva().guardar("p1").unwrap();
    let r = Boveda::cargar(Some(&archivo[..archivo.len() - 1]), "p1");
    assert_eq!(r.err(), Some(ErrorCarga::Autenticacion));
}

#[test]
fn la_carga_guardada_es_una_lista_json_de_objetos() {
    let mut b = Boveda::nueva();
    b.agregar(entrada("correo", "ana \"la\" jefa", "s3\\cr3t\n"));
    b.agregar(entrada("banco", "ñandú", ""));
    let archivo = b.guardar("p1").unwrap();
    let carga = descifrar(&archivo, b"p1").unwrap();
    let esperado = "[{\"clave\":\"s3\\\\cr3t\\n\",\"servicio\":\"correo\",\"usuario\":\"ana \\\"la\\\" jefa\"},{\"clave\":\"\",\"servicio\":\"banco\",\"usuario\":\"ñandú\"}]";
    assert_eq!(String::from_utf8(carga).unwrap(), esperado);
    assert_eq!(archivo.len(), esperado.len() + 60);
}

#[test]
fn la_boveda_vacia_se_guarda_como_lista_vacia() {
    let archivo = Boveda::nueva().guardar("clave").unwrap();
    assert_eq!(descifrar(&archivo, b"clave"), Ok(b"[]".to_vec()));
    assert!(Boveda::cargar(Some(&archivo), "clave").unwrap().entradas.is_empty());
}

#[test]
fn guardar_y_cargar_conserva_orden_duplicados_y_texto_raro() {
    let mut b = Boveda::nueva();
    b.agregar(entrada("z", "u1", "c\u{0}1"));
    b.agregar(entrada("a", "u2", "\"},{\""));
    b.agregar(entrada("z", "u1", "c\u{0}1"));
    b.agregar(entrada("", "", "🔐"));
    let archivo = b.guardar("contraseña maestra").unwrap();
    let cargada = Boveda::cargar(Some(&archivo), "contraseña maestra").unwrap();
    assert_eq!(campos(&cargada), campos(&b));
    assert_eq!(cargada.entradas.len(), 4);
}

#[test]
fn se_carga_un_archivo_con_los_campos_en_otro_orden() {
    let carga = b"[{\"servicio\":\"correo\",\"usuario\":\"ana\",\"clave\":\"s3cr3t\"}, {\"usuario\" : \"bea\", \"clave\":\"x\", \"servicio\":\"banco\"}]";
    let archivo = cifrar(carga, b"p1").unwrap();
    let b = Boveda::cargar(Some(&archivo), "p1").unwrap();
    assert_eq!(campos(&b), vec![terna("correo", "ana", "s3cr3t"), terna("banco", "bea", "x")]);
}

#[test]
fn una_carga_que_no_es_la_lista_esperada_es_ilegible() {
    for carga in [
        &b"no es json"[..],
        &b""[..],
        &b"{}"[..],
        &b"[{\"servicio\":\"s\",\"usuario\":\"u\"}]"[..],
        &b"[{\"servicio\":\"s\",\"usuario\":\"u\",\"clave\":1}]"[..],
        &b"[{\"servicio\":\"s\",\"usuario\":\"u\",\"clave\":\"c\"}"[..],
    ] {
        assert_eq!(leer_carga(carga).err(), Some(ErrorCarga::CargaIlegible));
    }
}

#[test]
fn un_sobre_con_carga_ilegible_no_es_un_fallo_de_autenticacion() {
    let archivo = cifrar(b"no es json", b"p1").unwrap();
    assert_eq!(Boveda::cargar(Some(&archivo), "p1").err(), Some(ErrorCarga::CargaIlegible));
}

#[test]
fn leer_carga_lee_la_lista_de_entradas() {
    let b = leer_carga(b" [ {\"clave\":\"c\",\"servicio\":\"s\",\"usuario\":\"u\",\"nota\":\"n\"} ] ")
        .unwrap();
    assert_eq!(campos(&b), vec![terna("s", "u", "c")]);
    assert!(leer_carga(b"[]").unwrap().entradas.is_empty());
}

#[test]
fn cada_guardado_da_un_archivo_distinto() {
    let mut b = Boveda::nueva();
    b.agregar(entrada("correo", "ana", "s3cr3t"));
    let uno = b.guardar("p1").unwrap();
    let dos = b.guardar("p1").unwrap();
    assert_ne!(uno, dos);
    assert_eq!(uno.len(), dos.len());
}

//! La forma plana de la bóveda: cada entrada como una tabla de pares
//! (nombre de campo, valor). Es lo que se entrega al serializador y lo que
//! este devuelve.

use crate::boveda::{Boveda, Entrada, EntradaVista};
use vstd::prelude::*;

verus! {

/// Una tabla de campos, como texto matemático.
pub type TablaVista = Seq<(Seq<char>, Seq<char>)>;

/// Nombre del campo que guarda el servicio.
pub open spec fn campo_servicio() -> Seq<char> {
    "servicio"@
}

/// Nombre del campo que guarda el usuario.
pub open spec fn campo_usuario() -> Seq<char> {
    "usuario"@
}

/// Nombre del campo que guarda la clave.
pub open spec fn campo_clave() -> Seq<char> {
    "clave"@
}

/// El valor del primer par de `tabla` cuyo nombre es `nombre`, si lo hay.
pub open spec fn valor_de(tabla: TablaVista, nombre: Seq<char>) -> Option<Seq<char>>
    decreases tabla.len(),
{
    if tabla.len() == 0 {
        None
    } else if tabla[0].0 == nombre {
        Some(tabla[0].1)
    } else {
        valor_de(tabla.drop_first(), nombre)
    }
}

/// La tabla de una entrada: sus tres campos, cada uno bajo su nombre.
pub open spec fn tabla_de_entrada(e: EntradaVista) -> TablaVista {
    seq![
        (campo_servicio(), e.servicio),
        (campo_usuario(), e.usuario),
        (campo_clave(), e.clave),
    ]
}

/// La entrada que una tabla describe: hace falta que estén los tres campos;
/// los pares de otros nombres se ignoran.
pub open spec fn entrada_de_tabla(tabla: TablaVista) -> Option<EntradaVista> {
    match (
        valor_de(tabla, campo_servicio()),
        valor_de(tabla, campo_usuario()),
        valor_de(tabla, campo_clave()),
    ) {
        (Some(servicio), Some(usuario), Some(clave)) => Some(
            EntradaVista { servicio, usuario, clave },
        ),
        _ => None,
    }
}

/// Las tablas de una bóveda, en el orden de sus entradas.
pub open spec fn tablas_de_boveda(b: Seq<EntradaVista>) -> Seq<TablaVista> {
    b.map_values(|e: EntradaVista| tabla_de_entrada(e))
}

/// La bóveda que unas tablas describen, en su orden: hace falta que cada
/// tabla describa una entrada.
pub open spec fn boveda_de_tablas(tablas: Seq<TablaVista>) -> Option<Seq<EntradaVista>> {
    if forall|i: int| 0 <= i < tablas.len() ==> (#[trigger] entrada_de_tabla(tablas[i])) is Some {
        Some(tablas.map_values(|t: TablaVista| entrada_de_tabla(t)->Some_0))
    } else {
        None
    }
}

/// Busca en `tabla` el valor del primer par de nombre `nombre`.
pub fn buscar_valor(tabla: &Vec<(String, String)>, nombre: &str) -> (r: Option<String>)
    ensures
        match r {
            Some(valor) => valor_de(tabla.deep_view(), nombre@) == Some(valor@),
            None => valor_de(tabla.deep_view(), nombre@) is None,
        },
{
    let buscado: String = String::from_str(nombre);
    let mut i: usize = 0;
    assert(tabla.deep_view().skip(0) =~= tabla.deep_view());
    while i < tabla.len()
        invariant
            i <= tabla.len(),
            buscado@ == nombre@,
            valor_de(tabla.deep_view(), nombre@) == valor_de(
                tabla.deep_view().skip(i as int),
                nombre@,
            ),
        decreases tabla.len() - i,
    {
        let ghost resto = tabla.deep_view().skip(i as int);
        assert(resto.len() > 0);
        assert(resto[0] == tabla.deep_view()[i as int]);
        assert(resto.drop_first() =~= tabla.deep_view().skip(i as int + 1));
        if tabla[i].0 == buscado {
            return Some(tabla[i].1.clone());
        }
        i = i + 1;
    }
    assert(tabla.deep_view().skip(i as int).len() == 0);
    None
}

/// Ningún nombre de campo aparece dos veces en la tabla.
pub open spec fn nombres_distintos(tabla: TablaVista) -> bool {
    forall|i: int, j: int| 0 <= i < j < tabla.len() ==> tabla[i].0 != tabla[j].0
}

/// Los tres nombres de campo son distintos entre sí.
pub proof fn lema_campos_distintos()
    ensures
        campo_servicio() != campo_usuario(),
        campo_servicio() != campo_clave(),
        campo_usuario() != campo_clave(),
{
    reveal_strlit("servicio");
    reveal_strlit("usuario");
    reveal_strlit("clave");
    assert(campo_servicio().len() == 8);
    assert(campo_usuario().len() == 7);
    assert(campo_clave().len() == 5);
}

/// La tabla de una entrada describe esa misma entrada, y no repite nombres.
pub proof fn ley_tabla_ida_y_vuelta(e: EntradaVista)
    ensures
        entrada_de_tabla(tabla_de_entrada(e)) == Some(e),
        nombres_distintos(tabla_de_entrada(e)),
{
    lema_campos_distintos();
    let t = tabla_de_entrada(e);
    let t1 = t.drop_first();
    let t2 = t1.drop_first();
    assert(t1[0] == (campo_usuario(), e.usuario));
    assert(t2[0] == (campo_clave(), e.clave));
    assert(valor_de(t2, campo_clave()) == Some(e.clave));
    assert(valor_de(t1, campo_clave()) == Some(e.clave));
    assert(valor_de(t1, campo_usuario()) == Some(e.usuario));
    assert(valor_de(t, campo_servicio()) == Some(e.servicio));
    assert(valor_de(t, campo_usuario()) == Some(e.usuario));
    assert(valor_de(t, campo_clave()) == Some(e.clave));
}

/// Las tablas de una bóveda describen esa misma bóveda, entrada por entrada
/// y en el mismo orden.
pub proof fn ley_tablas_ida_y_vuelta(b: Seq<EntradaVista>)
    ensures
        boveda_de_tablas(tablas_de_boveda(b)) == Some(b),
{
    let tablas = tablas_de_boveda(b);
    assert forall|i: int| 0 <= i < tablas.len() implies (#[trigger] entrada_de_tabla(
        tablas[i],
    )) == Some(b[i]) by {
        ley_tabla_ida_y_vuelta(b[i]);
    }
    assert(tablas.map_values(|t: TablaVista| entrada_de_tabla(t)->Some_0) =~= b);
}

impl Entrada {
    /// La entrada como tabla de campos.
    pub fn a_tabla(&self) -> (tabla: Vec<(String, String)>)
        ensures
            tabla.deep_view() == tabla_de_entrada(self@),
    {
        let mut tabla: Vec<(String, String)> = Vec::new();
        tabla.push((String::from_str("servicio"), self.servicio.clone()));
        tabla.push((String::from_str("usuario"), self.usuario.clone()));
        tabla.push((String::from_str("clave"), self.clave.clone()));
        assert(tabla.deep_view() =~= tabla_de_entrada(self@));
        tabla
    }

    /// La entrada que la tabla describe, si trae los tres campos.
    pub fn de_tabla(tabla: &Vec<(String, String)>) -> (r: Option<Entrada>)
        ensures
            match r {
                Some(e) => entrada_de_tabla(tabla.deep_view()) == Some(e@),
                None => entrada_de_tabla(tabla.deep_view()) is None,
            },
    {
        let servicio = match buscar_valor(tabla, "servicio") {
            Some(v) => v,
            None => { return None; },
        };
        let usuario = match buscar_valor(tabla, "usuario") {
            Some(v) => v,
            None => { return None; },
        };
        let clave = match buscar_valor(tabla, "clave") {
            Some(v) => v,
            None => { return None; },
        };
        Some(Entrada { servicio, usuario, clave })
    }
}

impl Boveda {
    /// La bóveda como lista de tablas, una por entrada y en su orden.
    pub fn a_tablas(&self) -> (tablas: Vec<Vec<(String, String)>>)
        ensures
            tablas.deep_view() == tablas_de_boveda(self@),
    {
        let mut tablas: Vec<Vec<(String, String)>> = Vec::new();
        let mut i: usize = 0;
        while i < self.entradas.len()
            invariant
                i <= self.entradas.len(),
                tablas.len() == i,
                forall|j: int|
                    0 <= j < i ==> (#[trigger] tablas[j]).deep_view() == tabla_de_entrada(
                        self.entradas[j]@,
                    ),
            decreases self.entradas.len() - i,
        {
            let tabla = self.entradas[i].a_tabla();
            tablas.push(tabla);
            i = i + 1;
        }
        assert(tablas.deep_view() =~= tablas_de_boveda(self@));
        tablas
    }

    /// La bóveda que las tablas describen, si cada una describe una entrada.
    pub fn de_tablas(tablas: &Vec<Vec<(String, String)>>) -> (r: Option<Boveda>)
        ensures
            match r {
                Some(b) => boveda_de_tablas(tablas.deep_view()) == Some(b@),
                None => boveda_de_tablas(tablas.deep_view()) is None,
            },
    {
        let mut entradas: Vec<Entrada> = Vec::new();
        let mut i: usize = 0;
        while i < tablas.len()
            invariant
                i <= tablas.len(),
                entradas.len() == i,
                forall|j: int|
                    0 <= j < i ==> entrada_de_tabla(#[trigger] tablas.deep_view()[j]) == Some(
                        entradas[j]@,
                    ),
            decreases tablas.len() - i,
        {
            assert(tablas.deep_view()[i as int] == tablas[i as int].deep_view());
            match Entrada::de_tabla(&tablas[i]) {
                Some(e) => {
                    entradas.push(e);
                },
                None => {
                    return None;
                },
            }
            i = i + 1;
        }
        let b = Boveda { entradas };
        assert(b@ =~= tablas.deep_view().map_values(|t: TablaVista| entrada_de_tabla(t)->Some_0));
        Some(b)
    }
}

} // verus!

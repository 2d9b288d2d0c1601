//! Persistencia de la bóveda: de las entradas al sobre que se escribe en
//! disco, y del contenido leído del disco a las entradas.
//!
//! La carga del sobre es JSON: una lista de objetos, uno por entrada, con
//! los campos `servicio`, `usuario` y `clave`. El texto JSON lo produce y lo
//! lee el crate `serde_json`. Leer y escribir el archivo queda fuera: aquí se
//! entregan y se reciben bytes.

use crate::boveda::{Boveda, EntradaVista};
use crate::sobre::{carga_admisible, cifrar, descifrado, descifrar, es_sobre_de, ErrorSobre};
use crate::tablas::{
    boveda_de_tablas,
    ley_tabla_ida_y_vuelta,
    nombres_distintos,
    tablas_de_boveda,
};
use std::collections::BTreeMap;
use vstd::string::StringSliceAdditionalSpecFns;
use vstd::prelude::*;

verus! {

/// Fallo al guardar, antes de tocar el disco.
#[derive(Debug, Clone, Copy, PartialEq, Eq, Structural)]
pub enum ErrorGuardado {
    /// El serializador no produjo el texto de las entradas.
    Serializacion,
    /// El texto de las entradas es demasiado largo para cifrarlo.
    CargaExcesiva,
}

/// Fallo al cargar un archivo que existe.
#[derive(Debug, Clone, Copy, PartialEq, Eq, Structural)]
pub enum ErrorCarga {
    /// La clave maestra no es la del archivo, o el archivo está dañado o
    /// truncado.
    Autenticacion,
    /// El sobre se abrió, pero su carga no describe una lista de entradas.
    CargaIlegible,
}

#[verifier::external_type_specification]
#[verifier::external_body]
pub struct ExErrorJson(serde_json::Error);

/// El texto JSON que `serde_json::to_vec` da para una lista de tablas, cada
/// una como objeto de nombre a valor; nada si falla.
pub uninterp spec fn texto_json(tablas: Seq<Seq<(Seq<char>, Seq<char>)>>) -> Option<Seq<u8>>;

/// La lista de tablas que `serde_json::from_slice` lee de un texto JSON: una
/// por objeto, con sus pares de nombre y valor; nada si rechaza el texto.
pub uninterp spec fn lectura_json(texto: Seq<u8>) -> Option<Seq<Seq<(Seq<char>, Seq<char>)>>>;

/// Llama a `serde_json::to_vec` con la lista de tablas, cada tabla
/// convertida en un mapa de nombre a valor.
///
/// Se da por cierto, sin prueba: que el resultado depende solo de los
/// nombres y valores entregados. Se exige que ninguna tabla repita un
/// nombre, de modo que el mapa tiene exactamente los pares de la tabla.
#[verifier::external_body]
fn serializar_tablas(tablas: &Vec<Vec<(String, String)>>) -> (r: Result<
    Vec<u8>,
    serde_json::Error,
>)
    requires
        forall|i: int|
            0 <= i < tablas.deep_view().len() ==> nombres_distintos(
                #[trigger] tablas.deep_view()[i],
            ),
    ensures
        r matches Ok(texto) ==> texto_json(tablas.deep_view()) == Some(texto@),
        r is Err ==> texto_json(tablas.deep_view()) is None,
{
    let objetos: Vec<BTreeMap<&str, &str>> = tablas.iter().map(
        |t| t.iter().map(|par| (par.0.as_str(), par.1.as_str())).collect(),
    ).collect();
    serde_json::to_vec(&objetos)
}

/// Llama a `serde_json::from_slice` pidiendo una lista de mapas de texto a
/// texto, y entrega cada mapa como tabla de pares.
///
/// Se da por cierto, sin prueba: que el resultado depende solo de los bytes
/// del texto.
#[verifier::external_body]
fn deserializar_tablas(texto: &[u8]) -> (r: Result<Vec<Vec<(String, String)>>, serde_json::Error>)
    ensures
        r matches Ok(tablas) ==> lectura_json(texto@) == Some(tablas.deep_view()),
        r is Err ==> lectura_json(texto@) is None,
{
    let objetos: Vec<BTreeMap<String, String>> = serde_json::from_slice(texto)?;
    Ok(objetos.into_iter().map(|o| o.into_iter().collect()).collect())
}

/// La carga que se cifra al guardar la bóveda `b`: el texto JSON de sus
/// tablas.
pub open spec fn carga_de(b: Seq<EntradaVista>) -> Option<Seq<u8>> {
    texto_json(tablas_de_boveda(b))
}

/// El fallo con que termina el guardado de `b`, o nada si se consigue.
pub open spec fn fallo_de_guardado(b: Seq<EntradaVista>) -> Option<ErrorGuardado> {
    match carga_de(b) {
        None => Some(ErrorGuardado::Serializacion),
        Some(carga) => if carga_admisible(carga.len()) {
            None
        } else {
            Some(ErrorGuardado::CargaExcesiva)
        },
    }
}

/// `sobre` es un guardado de `b` bajo `clave`: un sobre de su carga.
pub open spec fn es_guardado_de(sobre: Seq<u8>, b: Seq<EntradaVista>, clave: Seq<u8>) -> bool {
    carga_de(b) matches Some(carga) && es_sobre_de(sobre, carga, clave)
}

/// La bóveda que una carga descifrada describe.
pub open spec fn boveda_de_carga(carga: Seq<u8>) -> Result<Seq<EntradaVista>, ErrorCarga> {
    match lectura_json(carga) {
        None => Err(ErrorCarga::CargaIlegible),
        Some(tablas) => match boveda_de_tablas(tablas) {
            None => Err(ErrorCarga::CargaIlegible),
            Some(b) => Ok(b),
        },
    }
}

/// Lo que devuelve la carga: sin archivo, la bóveda vacía; con archivo, la
/// bóveda que su sobre guarda, o el fallo.
pub open spec fn cargado(contenido: Option<Seq<u8>>, clave: Seq<u8>) -> Result<
    Seq<EntradaVista>,
    ErrorCarga,
> {
    match contenido {
        None => Ok(Seq::empty()),
        Some(sobre) => match descifrado(sobre, clave) {
            Err(_) => Err(ErrorCarga::Autenticacion),
            Ok(carga) => boveda_de_carga(carga),
        },
    }
}

/// El contenido leído, como bytes matemáticos.
pub open spec fn vista_contenido(contenido: Option<&[u8]>) -> Option<Seq<u8>> {
    match contenido {
        None => None,
        Some(bytes) => Some(bytes@),
    }
}

/// Lee de una carga descifrada la bóveda que describe.
pub fn leer_carga(carga: &[u8]) -> (r: Result<Boveda, ErrorCarga>)
    ensures
        match r {
            Ok(b) => boveda_de_carga(carga@) == Ok::<Seq<EntradaVista>, ErrorCarga>(b@),
            Err(e) => boveda_de_carga(carga@) == Err::<Seq<EntradaVista>, ErrorCarga>(e),
        },
{
    match deserializar_tablas(carga) {
        Err(_) => Err(ErrorCarga::CargaIlegible),
        Ok(tablas) => match Boveda::de_tablas(&tablas) {
            None => Err(ErrorCarga::CargaIlegible),
            Some(b) => Ok(b),
        },
    }
}

impl Boveda {
    /// Serializa todas las entradas, en su orden, y las cifra bajo la clave
    /// maestra en un sobre nuevo: el contenido entero del archivo, que quien
    /// llama escribe en lugar del anterior. La bóveda no cambia.
    pub fn guardar(&self, clave_maestra: &str) -> (r: Result<Vec<u8>, ErrorGuardado>)
        ensures
            match r {
                Ok(sobre) => fallo_de_guardado(self@) is None && es_guardado_de(
                    sobre@,
                    self@,
                    clave_maestra.spec_bytes(),
                ),
                Err(e) => fallo_de_guardado(self@) == Some(e),
            },
    {
        let tablas = self.a_tablas();
        proof {
            assert forall|i: int| 0 <= i < tablas.deep_view().len() implies nombres_distintos(
                #[trigger] tablas.deep_view()[i],
            ) by {
                ley_tabla_ida_y_vuelta(self@[i]);
            }
        }
        let carga = match serializar_tablas(&tablas) {
            Ok(texto) => texto,
            Err(_) => {
                return Err(ErrorGuardado::Serializacion);
            },
        };
        match cifrar(carga.as_slice(), clave_maestra.as_bytes()) {
            Ok(sobre) => Ok(sobre),
            Err(_) => Err(ErrorGuardado::CargaExcesiva),
        }
    }

    /// Reconstruye la bóveda a partir del contenido del archivo: `None` si el
    /// archivo no existe, y entonces la bóveda empieza vacía. Un archivo que
    /// existe y no se deja abrir con la clave maestra es un fallo de
    /// autenticación, no una bóveda vacía.
    pub fn cargar(contenido: Option<&[u8]>, clave_maestra: &str) -> (r: Result<Boveda, ErrorCarga>)
        ensures
            match r {
                Ok(b) => cargado(vista_contenido(contenido), clave_maestra.spec_bytes()) == Ok::<
                    Seq<EntradaVista>,
                    ErrorCarga,
                >(b@),
                Err(e) => cargado(vista_contenido(contenido), clave_maestra.spec_bytes()) == Err::<
                    Seq<EntradaVista>,
                    ErrorCarga,
                >(e),
            },
    {
        let sobre = match contenido {
            None => {
                return Ok(Boveda::nueva());
            },
            Some(bytes) => bytes,
        };
        match descifrar(sobre, clave_maestra.as_bytes()) {
            Err(_) => Err(ErrorCarga::Autenticacion),
            Ok(carga) => leer_carga(carga.as_slice()),
        }
    }
}

} // verus!

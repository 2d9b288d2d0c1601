//! El sobre: un bloque de bytes cifrado bajo una clave, que lleva consigo la
//! sal y el nonce que hacen falta para abrirlo con esa misma clave.
//!
//! El cifrado lo hace el crate `cocoon`. Aquí se comprueba el marco del sobre
//! antes de entregarlo, y se fija qué devuelve cada operación.

use vstd::prelude::*;

verus! {

/// Bytes que preceden al texto cifrado: cabecera (44) y sello de integridad (16).
pub const LARGO_PREFIJO: usize = 60;

/// El cifrado rechaza cargas de este número de bytes o más.
pub const LIMITE_CARGA: u64 = 274_877_906_880;

/// Fallo del cifrado o del descifrado.
#[derive(Debug, Clone, Copy, PartialEq, Eq, Structural)]
pub enum ErrorSobre {
    /// La clave no es la del sobre, o el sobre está dañado o truncado. Las
    /// causas no se distinguen.
    Autenticacion,
    /// La carga es demasiado larga para cifrarla.
    CargaExcesiva,
}

#[verifier::external_type_specification]
#[verifier::external_body]
pub struct ExErrorCocoon(cocoon::Error);

/// Lo que `Cocoon::unwrap` saca de `sobre` con `clave`: la carga, o nada si
/// rechaza el sobre.
pub uninterp spec fn apertura(sobre: Seq<u8>, clave: Seq<u8>) -> Option<Seq<u8>>;

/// La longitud de la carga que la cabecera declara: los ocho bytes desde el
/// 36, el más significativo primero.
pub open spec fn longitud_declarada(sobre: Seq<u8>) -> nat
    recommends
        sobre.len() >= 44,
{
    (sobre[36] as nat) * 0x1_00_00_00_00_00_00_00 + (sobre[37] as nat) * 0x1_00_00_00_00_00_00 + (
    sobre[38] as nat) * 0x1_00_00_00_00_00 + (sobre[39] as nat) * 0x1_00_00_00_00 + (
    sobre[40] as nat) * 0x1_00_00_00 + (sobre[41] as nat) * 0x1_00_00 + (sobre[42] as nat) * 0x1_00
        + (sobre[43] as nat)
}

/// El sobre trae el prefijo entero y al menos tantos bytes de carga como
/// declara.
pub open spec fn marco_completo(sobre: Seq<u8>) -> bool {
    sobre.len() >= LARGO_PREFIJO && longitud_declarada(sobre) + LARGO_PREFIJO <= sobre.len()
}

/// La carga cabe en un sobre: el cifrado la acepta y el sobre cabe en memoria.
pub open spec fn carga_admisible(largo: nat) -> bool {
    largo < LIMITE_CARGA && largo + LARGO_PREFIJO <= isize::MAX
}

/// `sobre` es un sobre de `datos` bajo `clave`: mide el prefijo más la carga,
/// declara la longitud de la carga y se abre con `clave` dando `datos`.
pub open spec fn es_sobre_de(sobre: Seq<u8>, datos: Seq<u8>, clave: Seq<u8>) -> bool {
    &&& sobre.len() == datos.len() + LARGO_PREFIJO
    &&& longitud_declarada(sobre) == datos.len()
    &&& apertura(sobre, clave) == Some(datos)
}

/// Lo que devuelve el descifrado de `sobre` con `clave`.
pub open spec fn descifrado(sobre: Seq<u8>, clave: Seq<u8>) -> Result<Seq<u8>, ErrorSobre> {
    if marco_completo(sobre) {
        match apertura(sobre, clave) {
            Some(datos) => Ok(datos),
            None => Err(ErrorSobre::Autenticacion),
        }
    } else {
        Err(ErrorSobre::Autenticacion)
    }
}

/// Llama a `cocoon::Cocoon::new(clave)` y a `Cocoon::wrap(datos)` sobre él.
///
/// Se da por cierto, sin prueba: que con una carga por debajo del límite del
/// cifrado la llamada devuelve un sobre; y que todo sobre devuelto mide el
/// prefijo más la carga, declara en su cabecera la longitud de la carga y se
/// abre con la misma clave dando la misma carga. La sal y el nonce son
/// aleatorios: de los demás bytes del sobre no se afirma nada.
#[verifier::external_body]
fn envolver(datos: &[u8], clave: &[u8]) -> (r: Result<Vec<u8>, cocoon::Error>)
    requires
        datos@.len() + LARGO_PREFIJO <= isize::MAX,
    ensures
        datos@.len() < LIMITE_CARGA ==> r is Ok,
        r matches Ok(sobre) ==> sobre@.len() == datos@.len() + LARGO_PREFIJO,
        r matches Ok(sobre) ==> longitud_declarada(sobre@) == datos@.len(),
        r matches Ok(sobre) ==> apertura(sobre@, clave@) == Some(datos@),
{
    cocoon::Cocoon::new(clave).wrap(datos)
}

/// Llama a `cocoon::Cocoon::parse_only(clave)` y a `Cocoon::unwrap(sobre)`
/// sobre él.
///
/// Se da por cierto, sin prueba: que el resultado depende solo de los bytes
/// del sobre y de la clave. Se exige un marco completo porque con una
/// longitud declarada mayor que lo que el sobre trae la llamada puede no
/// volver.
#[verifier::external_body]
fn desenvolver(sobre: &[u8], clave: &[u8]) -> (r: Result<Vec<u8>, cocoon::Error>)
    requires
        marco_completo(sobre@),
    ensures
        r matches Ok(datos) ==> apertura(sobre@, clave@) == Some(datos@),
        r is Err ==> apertura(sobre@, clave@) is None,
{
    cocoon::Cocoon::parse_only(clave).unwrap(sobre)
}

/// Lee la longitud de carga que declara la cabecera.
fn leer_longitud_declarada(sobre: &[u8]) -> (n: u64)
    requires
        sobre@.len() >= 44,
    ensures
        n == longitud_declarada(sobre@),
{
    let b0: u64 = sobre[36] as u64;
    let b1: u64 = sobre[37] as u64;
    let b2: u64 = sobre[38] as u64;
    let b3: u64 = sobre[39] as u64;
    let b4: u64 = sobre[40] as u64;
    let b5: u64 = sobre[41] as u64;
    let b6: u64 = sobre[42] as u64;
    let b7: u64 = sobre[43] as u64;
    b0 * 0x1_00_00_00_00_00_00_00 + b1 * 0x1_00_00_00_00_00_00 + b2 * 0x1_00_00_00_00_00 + b3
        * 0x1_00_00_00_00 + b4 * 0x1_00_00_00 + b5 * 0x1_00_00 + b6 * 0x1_00 + b7
}

/// Dice si el sobre trae su prefijo y toda la carga que declara.
pub fn tiene_marco_completo(sobre: &[u8]) -> (b: bool)
    ensures
        b == marco_completo(sobre@),
{
    if sobre.len() < LARGO_PREFIJO {
        return false;
    }
    let declarada: u64 = leer_longitud_declarada(sobre);
    let disponible: u64 = (sobre.len() - LARGO_PREFIJO) as u64;
    declarada <= disponible
}

/// Cifra `datos` bajo `clave` en un sobre nuevo, con sal y nonce frescos en
/// cada llamada. Lo consigue con toda carga admisible y cualquier clave.
pub fn cifrar(datos: &[u8], clave: &[u8]) -> (r: Result<Vec<u8>, ErrorSobre>)
    ensures
        r is Ok <==> carga_admisible(datos@.len()),
        r matches Ok(sobre) ==> es_sobre_de(sobre@, datos@, clave@),
        r matches Err(e) ==> e == ErrorSobre::CargaExcesiva,
{
    let largo: usize = datos.len();
    if largo as u64 >= LIMITE_CARGA || largo > isize::MAX as usize - LARGO_PREFIJO {
        return Err(ErrorSobre::CargaExcesiva);
    }
    match envolver(datos, clave) {
        Ok(sobre) => Ok(sobre),
        Err(_) => Err(ErrorSobre::CargaExcesiva),
    }
}

/// Abre `sobre` con `clave`. Falla con `Autenticacion` si el sobre está
/// truncado o dañado, o si la clave no es la suya.
pub fn descifrar(sobre: &[u8], clave: &[u8]) -> (r: Result<Vec<u8>, ErrorSobre>)
    ensures
        match r {
            Ok(datos) => descifrado(sobre@, clave@) == Ok::<Seq<u8>, ErrorSobre>(datos@),
            Err(e) => descifrado(sobre@, clave@) == Err::<Seq<u8>, ErrorSobre>(e),
        },
{
    if !tiene_marco_completo(sobre) {
        return Err(ErrorSobre::Autenticacion);
    }
    match desenvolver(sobre, clave) {
        Ok(datos) => Ok(datos),
        Err(_) => Err(ErrorSobre::Autenticacion),
    }
}

/// Ida y vuelta: un sobre de `datos` bajo `clave` se descifra con esa clave
/// dando exactamente `datos`.
pub proof fn ley_ida_y_vuelta(sobre: Seq<u8>, datos: Seq<u8>, clave: Seq<u8>)
    requires
        es_sobre_de(sobre, datos, clave),
    ensures
        descifrado(sobre, clave) == Ok::<Seq<u8>, ErrorSobre>(datos),
{
}

/// Un sobre truncado no se abre con ninguna clave: a quien le falte
/// cualquier byte del final le falla la autenticación.
pub proof fn ley_sobre_truncado(
    sobre: Seq<u8>,
    datos: Seq<u8>,
    clave: Seq<u8>,
    otra: Seq<u8>,
    n: int,
)
    requires
        es_sobre_de(sobre, datos, clave),
        0 <= n < sobre.len(),
    ensures
        descifrado(sobre.take(n), otra) == Err::<Seq<u8>, ErrorSobre>(ErrorSobre::Autenticacion),
{
}

} // verus!

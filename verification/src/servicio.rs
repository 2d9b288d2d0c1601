//! El ciclo de una petición sobre la bóveda compartida: aplicar el cambio en
//! memoria y sellar la bóveda entera para escribirla.
//!
//! Quien sirve las peticiones toma el acceso exclusivo a la bóveda, llama a
//! `atender`, escribe en el archivo el sobre que recibe y suelta el acceso.
//! Así cada petición se atiende entera antes de empezar la siguiente.

use crate::boveda::{con_clave, Boveda, Entrada, EntradaVista, ErrorBoveda};
use crate::persistencia::{es_guardado_de, fallo_de_guardado, ErrorGuardado};
use vstd::prelude::*;
use vstd::string::StringSliceAdditionalSpecFns;

verus! {

/// Un cambio que se pide sobre la bóveda.
#[derive(Debug)]
pub enum Peticion {
    /// Añadir una entrada al final.
    Agregar(Entrada),
    /// Quitar la entrada de ese índice.
    Eliminar(usize),
    /// Sustituir la clave de la entrada de ese índice.
    Editar(usize, String),
}

/// Una petición, como valor matemático.
pub enum PeticionVista {
    Agregar(EntradaVista),
    Eliminar(int),
    Editar(int, Seq<char>),
}

impl View for Peticion {
    type V = PeticionVista;

    open spec fn view(&self) -> PeticionVista {
        match *self {
            Peticion::Agregar(e) => PeticionVista::Agregar(e@),
            Peticion::Eliminar(i) => PeticionVista::Eliminar(i as int),
            Peticion::Editar(i, clave) => PeticionVista::Editar(i as int, clave@),
        }
    }
}

/// Lo que queda de atender una petición.
#[derive(Debug)]
pub struct Atencion {
    /// Si el cambio se aplicó a la bóveda en memoria.
    pub resultado: Result<(), ErrorBoveda>,
    /// El intento de guardado que sigue a un cambio aplicado: el sobre que
    /// hay que escribir, o por qué no se pudo sellar. `None` si la bóveda no
    /// cambió y no hay nada que escribir.
    pub guardado: Option<Result<Vec<u8>, ErrorGuardado>>,
}

/// El resultado de pedir `p` sobre la bóveda `b`.
pub open spec fn resultado_de(b: Seq<EntradaVista>, p: PeticionVista) -> Result<(), ErrorBoveda> {
    match p {
        PeticionVista::Agregar(_) => Ok(()),
        PeticionVista::Eliminar(i) => if 0 <= i < b.len() {
            Ok(())
        } else {
            Err(ErrorBoveda::IndiceFueraDeRango)
        },
        PeticionVista::Editar(i, _) => if 0 <= i < b.len() {
            Ok(())
        } else {
            Err(ErrorBoveda::IndiceFueraDeRango)
        },
    }
}

/// La bóveda que queda tras pedir `p` sobre `b`: la misma si la petición
/// falla.
pub open spec fn estado_tras(b: Seq<EntradaVista>, p: PeticionVista) -> Seq<EntradaVista> {
    match p {
        PeticionVista::Agregar(e) => b.push(e),
        PeticionVista::Eliminar(i) => if 0 <= i < b.len() {
            b.remove(i)
        } else {
            b
        },
        PeticionVista::Editar(i, clave) => if 0 <= i < b.len() {
            b.update(i, con_clave(b[i], clave))
        } else {
            b
        },
    }
}

/// La bóveda que queda tras atender las peticiones `ps` una tras otra, en
/// ese orden.
pub open spec fn estado_tras_todas(b: Seq<EntradaVista>, ps: Seq<PeticionVista>) -> Seq<
    EntradaVista,
>
    decreases ps.len(),
{
    if ps.len() == 0 {
        b
    } else {
        estado_tras(estado_tras_todas(b, ps.drop_last()), ps.last())
    }
}

/// Atiende una petición: aplica el cambio a la bóveda en memoria y, si se
/// aplicó, sella la bóveda entera bajo la clave maestra. Un guardado fallido
/// no deshace el cambio en memoria.
pub fn atender(boveda: &mut Boveda, clave_maestra: &str, peticion: Peticion) -> (a: Atencion)
    ensures
        final(boveda)@ == estado_tras(old(boveda)@, peticion@),
        a.resultado == resultado_de(old(boveda)@, peticion@),
        a.guardado is Some <==> a.resultado is Ok,
        a.guardado matches Some(Ok(sobre)) ==> fallo_de_guardado(final(boveda)@) is None
            && es_guardado_de(sobre@, final(boveda)@, clave_maestra.spec_bytes()),
        a.guardado matches Some(Err(e)) ==> fallo_de_guardado(final(boveda)@) == Some(e),
{
    let resultado = match peticion {
        Peticion::Agregar(entrada) => {
            boveda.agregar(entrada);
            Ok(())
        },
        Peticion::Eliminar(indice) => boveda.eliminar(indice),
        Peticion::Editar(indice, clave) => boveda.editar(indice, clave),
    };
    let guardado = match resultado {
        Ok(_) => Some(boveda.guardar(clave_maestra)),
        Err(_) => None,
    };
    Atencion { resultado, guardado }
}

/// Altas en serie: atendidas una tras otra, en el orden que sea, N
/// peticiones de alta añaden exactamente N entradas. Ninguna se pierde, y
/// las que ya estaban conservan su índice.
pub proof fn ley_altas_en_serie(b: Seq<EntradaVista>, ps: Seq<PeticionVista>)
    requires
        forall|i: int| 0 <= i < ps.len() ==> #[trigger] ps[i] is Agregar,
    ensures
        estado_tras_todas(b, ps).len() == b.len() + ps.len(),
        forall|i: int| 0 <= i < b.len() ==> #[trigger] estado_tras_todas(b, ps)[i] == b[i],
        forall|i: int|
            0 <= i < ps.len() ==> #[trigger] estado_tras_todas(b, ps)[b.len() + i]
                == ps[i]->Agregar_0,
    decreases ps.len(),
{
    if ps.len() > 0 {
        let antes = ps.drop_last();
        ley_altas_en_serie(b, antes);
        assert(ps.last() is Agregar);
        assert forall|i: int| 0 <= i < ps.len() implies #[trigger] estado_tras_todas(b, ps)[b.len()
            + i] == ps[i]->Agregar_0 by {
            if i < ps.len() - 1 {
                assert(antes[i] == ps[i]);
                assert(estado_tras_todas(b, antes)[b.len() + i] == antes[i]->Agregar_0);
            }
        }
    }
}

} // verus!

//! Modelo de datos: las entradas y la bóveda que las guarda en orden de
//! inserción. El índice dentro de esa secuencia es la única forma de señalar
//! una entrada.

use vstd::prelude::*;

verus! {

/// Una entrada guardada: servicio, usuario y clave.
#[derive(Debug, Clone)]
pub struct Entrada {
    pub servicio: String,
    pub usuario: String,
    pub clave: String,
}

/// Lo que una entrada contiene, como texto matemático.
pub struct EntradaVista {
    pub servicio: Seq<char>,
    pub usuario: Seq<char>,
    pub clave: Seq<char>,
}

impl View for Entrada {
    type V = EntradaVista;

    open spec fn view(&self) -> EntradaVista {
        EntradaVista { servicio: self.servicio@, usuario: self.usuario@, clave: self.clave@ }
    }
}

/// Fallo de una operación que señala una entrada por su índice.
#[derive(Debug, Clone, Copy, PartialEq, Eq, Structural)]
pub enum ErrorBoveda {
    /// El índice no señala ninguna entrada: es mayor o igual que la longitud.
    IndiceFueraDeRango,
}

/// La colección ordenada de entradas.
#[derive(Debug)]
pub struct Boveda {
    pub entradas: Vec<Entrada>,
}

impl View for Boveda {
    type V = Seq<EntradaVista>;

    open spec fn view(&self) -> Seq<EntradaVista> {
        self.entradas@.map_values(|e: Entrada| e@)
    }
}

/// La entrada `e` con la clave sustituida por `nueva`; servicio y usuario quedan.
pub open spec fn con_clave(e: EntradaVista, nueva: Seq<char>) -> EntradaVista {
    EntradaVista { servicio: e.servicio, usuario: e.usuario, clave: nueva }
}

impl Boveda {
    /// Una bóveda sin entradas.
    pub fn nueva() -> (b: Boveda)
        ensures
            b@ == Seq::<EntradaVista>::empty(),
    {
        let b = Boveda { entradas: Vec::new() };
        assert(b@ =~= Seq::<EntradaVista>::empty());
        b
    }

    /// Las entradas en su orden actual, solo para leer: el puesto de cada
    /// una es su índice.
    pub fn listar(&self) -> (entradas: &Vec<Entrada>)
        ensures
            entradas@ == self.entradas@,
            entradas@.map_values(|e: Entrada| e@) == self@,
    {
        &self.entradas
    }

    /// Añade `entrada` al final; las demás conservan su índice.
    pub fn agregar(&mut self, entrada: Entrada)
        ensures
            final(self)@ == old(self)@.push(entrada@),
    {
        self.entradas.push(entrada);
        assert(self@ =~= old(self)@.push(entrada@));
    }

    /// Quita la entrada de índice `index`; las posteriores bajan un puesto.
    /// Con un índice fuera de rango la bóveda queda intacta.
    pub fn eliminar(&mut self, index: usize) -> (r: Result<(), ErrorBoveda>)
        ensures
            index < old(self)@.len() ==> r == Ok::<(), ErrorBoveda>(()) && final(self)@ == old(
                self,
            )@.remove(index as int),
            index >= old(self)@.len() ==> r == Err::<(), ErrorBoveda>(
                ErrorBoveda::IndiceFueraDeRango,
            ) && final(self)@ == old(self)@,
    {
        if index < self.entradas.len() {
            self.entradas.remove(index);
            assert(self@ =~= old(self)@.remove(index as int));
            Ok(())
        } else {
            Err(ErrorBoveda::IndiceFueraDeRango)
        }
    }

    /// Sustituye la clave de la entrada de índice `index`; su servicio, su
    /// usuario y todas las demás entradas quedan como estaban. Con un índice
    /// fuera de rango la bóveda queda intacta.
    pub fn editar(&mut self, index: usize, nueva_clave: String) -> (r: Result<(), ErrorBoveda>)
        ensures
            index < old(self)@.len() ==> r == Ok::<(), ErrorBoveda>(()) && final(self)@ == old(
                self,
            )@.update(index as int, con_clave(old(self)@[index as int], nueva_clave@)),
            index >= old(self)@.len() ==> r == Err::<(), ErrorBoveda>(
                ErrorBoveda::IndiceFueraDeRango,
            ) && final(self)@ == old(self)@,
    {
        if index < self.entradas.len() {
            self.entradas[index].clave = nueva_clave;
            assert(self@ =~= old(self)@.update(
                index as int,
                con_clave(old(self)@[index as int], nueva_clave@),
            ));
            Ok(())
        } else {
            Err(ErrorBoveda::IndiceFueraDeRango)
        }
    }
}

/// Al quitar la entrada de índice `i`, las anteriores conservan su índice
/// y cada una de las posteriores baja exactamente un puesto.
pub proof fn ley_eliminar_desplaza(b: Seq<EntradaVista>, i: int)
    requires
        0 <= i < b.len(),
    ensures
        b.remove(i).len() == b.len() - 1,
        forall|j: int| 0 <= j < i ==> #[trigger] b.remove(i)[j] == b[j],
        forall|j: int| i <= j < b.len() - 1 ==> #[trigger] b.remove(i)[j] == b[j + 1],
{
}

/// Quitar la entrada recién añadida deja la bóveda como estaba; en
/// particular, una bóveda vacía vuelve a estar vacía.
pub proof fn ley_agregar_y_eliminar(b: Seq<EntradaVista>, e: EntradaVista)
    ensures
        b.push(e).remove(b.len() as int) == b,
{
    assert(b.push(e).remove(b.len() as int) =~= b);
}

/// Editar la clave de la entrada de índice `i` no toca nada más: la
/// longitud, las demás entradas y el servicio y el usuario de la editada
/// quedan como estaban.
pub proof fn ley_editar_aisla(b: Seq<EntradaVista>, i: int, nueva: Seq<char>)
    requires
        0 <= i < b.len(),
    ensures
        b.update(i, con_clave(b[i], nueva)).len() == b.len(),
        forall|j: int|
            0 <= j < b.len() && j != i ==> #[trigger] b.update(i, con_clave(b[i], nueva))[j]
                == b[j],
        b.update(i, con_clave(b[i], nueva))[i].servicio == b[i].servicio,
        b.update(i, con_clave(b[i], nueva))[i].usuario == b[i].usuario,
        b.update(i, con_clave(b[i], nueva))[i].clave == nueva,
{
}

} // verus!

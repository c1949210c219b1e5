//! The queue of patients waiting to start their workflows.

use vstd::prelude::*;
use crate::paciente::Paciente;
use crate::recursos::Recursos;

verus! {

/// Patients in arrival order, and the pools they will use.
pub struct Hospital {
    pub fila: Vec<Paciente>,
    pub recursos: Recursos,
}

impl Hospital {
    /// An empty queue over `recursos`.
    pub fn novo(recursos: Recursos) -> (r: Hospital)
        ensures
            r.fila@.len() == 0,
            r.recursos == recursos,
    {
        Hospital { fila: Vec::new(), recursos }
    }

    /// Puts `paciente` at the back of the queue.
    pub fn adicionar_paciente(&mut self, paciente: Paciente)
        ensures
            final(self).fila@ == old(self).fila@.push(paciente),
            final(self).recursos == old(self).recursos,
    {
        self.fila.push(paciente);
    }

    /// Takes the patient at the front of the queue, where there is one.
    pub fn proximo_paciente(&mut self) -> (r: Option<Paciente>)
        ensures
            old(self).fila@.len() == 0 ==> r is None && final(self).fila@ == old(self).fila@,
            old(self).fila@.len() > 0 ==> r == Some(old(self).fila@[0]) && final(self).fila@ == old(
                self,
            ).fila@.drop_first(),
            final(self).recursos == old(self).recursos,
    {
        if self.fila.len() == 0 {
            None
        } else {
            let p = self.fila.remove(0);
            assert(self.fila@ =~= old(self).fila@.drop_first());
            Some(p)
        }
    }
}

} // verus!

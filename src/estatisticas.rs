//! Statistics of the workflows that completed: one duration per patient.

use vstd::prelude::*;

verus! {

/// Completed workflows and their total durations, in milliseconds, at most
/// one entry per patient.
pub struct Estatisticas {
    pub atendimentos: Vec<(String, u64)>,
}

/// The entries as names and durations.
pub open spec fn vista_atendimentos(v: Seq<(String, u64)>) -> Seq<(Seq<char>, u64)> {
    v.map_values(|p: (String, u64)| (p.0@, p.1))
}

/// No patient has two entries.
pub open spec fn pacientes_distintos(s: Seq<(Seq<char>, u64)>) -> bool {
    forall|i: int, j: int| 0 <= i < s.len() && 0 <= j < s.len() && i != j ==> s[i].0 != s[j].0
}

/// `s` after `nome` completed in `d`: its entry replaced where it had one,
/// else a new entry at the end.
pub open spec fn com_registro(s: Seq<(Seq<char>, u64)>, nome: Seq<char>, d: u64) -> Seq<(Seq<char>, u64)> {
    if exists|i: int| 0 <= i < s.len() && s[i].0 == nome {
        s.update(choose|i: int| 0 <= i < s.len() && s[i].0 == nome, (nome, d))
    } else {
        s.push((nome, d))
    }
}

/// The sum of the durations.
pub open spec fn soma(s: Seq<(Seq<char>, u64)>) -> nat
    decreases s.len(),
{
    if s.len() == 0 {
        0
    } else {
        soma(s.drop_last()) + (s.last().1 as nat)
    }
}

proof fn lemma_soma_limite(s: Seq<(Seq<char>, u64)>)
    ensures
        soma(s) <= s.len() * 0xffff_ffff_ffff_ffffnat,
    decreases s.len(),
{
    if s.len() > 0 {
        lemma_soma_limite(s.drop_last());
        assert((s.len() - 1) * 0xffff_ffff_ffff_ffffnat + 0xffff_ffff_ffff_ffffnat == s.len()
            * 0xffff_ffff_ffff_ffffnat) by (nonlinear_arith);
    }
}

impl Estatisticas {
    pub open spec fn vista(&self) -> Seq<(Seq<char>, u64)> {
        vista_atendimentos(self.atendimentos@)
    }

    pub open spec fn wf(&self) -> bool {
        pacientes_distintos(self.vista())
    }

    /// No entries.
    pub fn novo() -> (r: Estatisticas)
        ensures
            r.wf(),
            r.vista().len() == 0,
    {
        Estatisticas { atendimentos: Vec::new() }
    }

    /// A copy of the entries, for reporting.
    pub fn obter_atendimentos(&self) -> (r: Vec<(String, u64)>)
        ensures
            vista_atendimentos(r@) == self.vista(),
    {
        let mut r: Vec<(String, u64)> = Vec::new();
        let mut i: usize = 0;
        while i < self.atendimentos.len()
            invariant
                0 <= i <= self.atendimentos@.len(),
                vista_atendimentos(r@) == self.vista().subrange(0, i as int),
            decreases self.atendimentos@.len() - i,
        {
            let nome = self.atendimentos[i].0.clone();
            let d = self.atendimentos[i].1;
            let ghost antes = r@;
            r.push((nome, d));
            assert(r@ == antes.push((nome, d)));
            assert(vista_atendimentos(r@) =~= vista_atendimentos(antes).push((nome@, d)));
            assert(self.vista()[i as int] == (self.atendimentos@[i as int].0@, self.atendimentos@[i as int].1));
            assert(vista_atendimentos(r@) =~= self.vista().subrange(0, i + 1));
            i += 1;
        }
        assert(self.vista().subrange(0, i as int) =~= self.vista());
        r
    }

    /// Records the end of `paciente`'s workflow after `duracao` milliseconds:
    /// a completed one replaces or adds its entry; an aborted one is left out.
    pub fn finalizar_atendimento(&mut self, paciente: &String, duracao: u64, concluido: bool)
        requires
            old(self).wf(),
        ensures
            final(self).wf(),
            concluido ==> final(self).vista() == com_registro(old(self).vista(), paciente@, duracao),
            !concluido ==> final(self).vista() == old(self).vista(),
    {
        if !concluido {
            return;
        }
        let ghost s = self.vista();
        let mut i: usize = 0;
        while i < self.atendimentos.len()
            invariant
                0 <= i <= self.atendimentos@.len(),
                self.vista() == s,
                s == old(self).vista(),
                concluido,
                pacientes_distintos(s),
                forall|j: int| 0 <= j < i ==> s[j].0 != paciente@,
            decreases self.atendimentos@.len() - i,
        {
            if self.atendimentos[i].0 == *paciente {
                assert(s[i as int].0 == paciente@);
                self.atendimentos.set(i, (paciente.clone(), duracao));
                proof {
                    let k = choose|k: int| 0 <= k < s.len() && s[k].0 == paciente@;
                    assert(k == i) by {
                        if k != i {
                            assert(s[k].0 != s[i as int].0);
                        }
                    }
                    assert(self.vista() =~= s.update(i as int, (paciente@, duracao)));
                    assert(com_registro(s, paciente@, duracao) == s.update(k, (paciente@, duracao)));
                }
                return;
            }
            i += 1;
        }
        self.atendimentos.push((paciente.clone(), duracao));
        assert(self.vista() =~= s.push((paciente@, duracao)));
        assert forall|i: int, j: int| 0 <= i < self.vista().len() && 0 <= j < self.vista().len() && i != j implies
            self.vista()[i].0 != self.vista()[j].0 by {
            if i == s.len() {
                assert(s[j].0 != paciente@);
            } else if j == s.len() {
                assert(s[i].0 != paciente@);
            }
        }
    }

    /// How many workflows completed.
    pub fn quantidade(&self) -> (r: usize)
        ensures
            r == self.vista().len(),
    {
        self.atendimentos.len()
    }

    /// The sum of the completed workflows' durations, in milliseconds.
    pub fn tempo_total(&self) -> (r: u128)
        ensures
            r == soma(self.vista()),
    {
        let mut t: u128 = 0;
        let mut i: usize = 0;
        while i < self.atendimentos.len()
            invariant
                0 <= i <= self.atendimentos@.len(),
                t == soma(self.vista().subrange(0, i as int)),
            decreases self.atendimentos@.len() - i,
        {
            proof {
                let p = self.vista().subrange(0, i + 1);
                assert(p.drop_last() =~= self.vista().subrange(0, i as int));
                lemma_soma_limite(p);
                assert(p.len() <= 0xffff_ffff_ffff_ffffnat);
                assert(p.len() * 0xffff_ffff_ffff_ffffnat <= 0xffff_ffff_ffff_ffffnat * 0xffff_ffff_ffff_ffffnat)
                    by (nonlinear_arith)
                    requires
                        p.len() <= 0xffff_ffff_ffff_ffffnat,
                ;
            }
            t = t + self.atendimentos[i].1 as u128;
            i += 1;
        }
        assert(self.vista().subrange(0, i as int) =~= self.vista());
        t
    }

    /// The mean duration of the completed workflows, in milliseconds, rounded
    /// down; 0 where none completed.
    pub fn tempo_medio(&self) -> (r: u128)
        ensures
            self.vista().len() == 0 ==> r == 0,
            self.vista().len() > 0 ==> r == soma(self.vista()) / (self.vista().len() as nat),
    {
        let n = self.quantidade();
        let t = self.tempo_total();
        if n == 0 {
            0
        } else {
            t / (n as u128)
        }
    }
}

} // verus!

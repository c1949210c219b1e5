//! Patients and the workflow that drives a patient's case through the pools:
//! consultation, exams, surgery where needed, recovery.

use vstd::prelude::*;
use crate::recursos::TipoRecurso;

verus! {

/// A patient's case. `prioridade` 1 marks a critical case, 0 a normal one.
pub struct Paciente {
    pub nome: String,
    pub idade: u32,
    pub condicao: String,
    pub precisa_cirurgia: bool,
    pub prioridade: u8,
}

impl Paciente {
    pub fn novo(nome: &str, idade: u32, condicao: &str, precisa_cirurgia: bool, prioridade: u8) -> (r: Paciente)
        ensures
            r.nome@ == nome@,
            r.idade == idade,
            r.condicao@ == condicao@,
            r.precisa_cirurgia == precisa_cirurgia,
            r.prioridade == prioridade,
    {
        Paciente {
            nome: nome.to_string(),
            idade,
            condicao: condicao.to_string(),
            precisa_cirurgia,
            prioridade,
        }
    }

    pub fn novo_com_prioridade(nome: &str, idade: u32, condicao: &str, precisa_cirurgia: bool, prioridade: u8) -> (r:
        Paciente)
        ensures
            r.nome@ == nome@,
            r.idade == idade,
            r.condicao@ == condicao@,
            r.precisa_cirurgia == precisa_cirurgia,
            r.prioridade == prioridade,
    {
        Self::novo(nome, idade, condicao, precisa_cirurgia, prioridade)
    }

    /// Whether the case is critical, and so joins wait queues at the front.
    pub fn critico(&self) -> (r: bool)
        ensures
            r == (self.prioridade == 1),
    {
        self.prioridade == 1
    }
}

/// The stages of a workflow. `Concluido` and `Abortado` are terminal.
#[derive(Debug, Clone, Copy, PartialEq, Eq, Structural)]
pub enum Etapa {
    Consulta,
    Exame,
    Cirurgia,
    Recuperacao,
    Concluido,
    Abortado,
}

/// The resource type that stage `e` acquires.
pub open spec fn recurso_da_etapa(e: Etapa) -> Option<TipoRecurso> {
    match e {
        Etapa::Consulta => Some(TipoRecurso::Medico),
        Etapa::Exame => Some(TipoRecurso::Exame),
        Etapa::Cirurgia => Some(TipoRecurso::Sala),
        Etapa::Recuperacao => Some(TipoRecurso::Leito),
        _ => None,
    }
}

/// The stage after `e`: consultation, exams, then surgery only where it is
/// needed, recovery, done.
pub open spec fn proxima_etapa(e: Etapa, cirurgia: bool) -> Etapa {
    match e {
        Etapa::Consulta => Etapa::Exame,
        Etapa::Exame => if cirurgia {
            Etapa::Cirurgia
        } else {
            Etapa::Recuperacao
        },
        Etapa::Cirurgia => Etapa::Recuperacao,
        Etapa::Recuperacao => Etapa::Concluido,
        _ => e,
    }
}

/// The tokens held on entering stage `e`: the doctor from the consultation
/// is kept through exams into surgery; nothing else carries over.
pub open spec fn retidos_na_entrada(e: Etapa, cirurgia: bool) -> Seq<TipoRecurso> {
    match e {
        Etapa::Exame => if cirurgia {
            seq![TipoRecurso::Medico]
        } else {
            seq![]
        },
        Etapa::Cirurgia => seq![TipoRecurso::Medico],
        _ => seq![],
    }
}

/// The tokens released once the use of stage `e` is over: after the
/// consultation the doctor, unless surgery follows; after surgery the room and
/// the doctor together; after any other stage its own resource.
pub open spec fn liberados_apos(e: Etapa, cirurgia: bool) -> Seq<TipoRecurso> {
    match e {
        Etapa::Consulta => if cirurgia {
            seq![]
        } else {
            seq![TipoRecurso::Medico]
        },
        Etapa::Exame => seq![TipoRecurso::Exame],
        Etapa::Cirurgia => seq![TipoRecurso::Sala, TipoRecurso::Medico],
        Etapa::Recuperacao => seq![TipoRecurso::Leito],
        _ => seq![],
    }
}

/// A patient's workflow: its stage, and whether the token of the stage's own
/// resource has been obtained.
pub struct Atendimento {
    pub etapa: Etapa,
    pub precisa_cirurgia: bool,
    pub obtido: bool,
}

impl Atendimento {
    /// The tokens the workflow holds.
    pub open spec fn retidos(&self) -> Seq<TipoRecurso> {
        if self.obtido {
            retidos_na_entrada(self.etapa, self.precisa_cirurgia).push(recurso_da_etapa(self.etapa).unwrap())
        } else {
            retidos_na_entrada(self.etapa, self.precisa_cirurgia)
        }
    }

    /// A token is only obtained in a stage that acquires one.
    pub open spec fn wf(&self) -> bool {
        self.obtido ==> recurso_da_etapa(self.etapa) is Some
    }

    /// A workflow at its first stage, holding nothing.
    pub fn novo(paciente: &Paciente) -> (r: Atendimento)
        ensures
            r.wf(),
            r.etapa == Etapa::Consulta,
            r.precisa_cirurgia == paciente.precisa_cirurgia,
            r.retidos().len() == 0,
    {
        Atendimento { etapa: Etapa::Consulta, precisa_cirurgia: paciente.precisa_cirurgia, obtido: false }
    }

    /// The resource type to acquire now: that of the current stage, until its
    /// token is obtained; `None` once it is, or at a terminal stage.
    pub fn pedido(&self) -> (r: Option<TipoRecurso>)
        ensures
            r == (if self.obtido {
                None
            } else {
                recurso_da_etapa(self.etapa)
            }),
    {
        if self.obtido {
            None
        } else {
            self.pedido_da_etapa()
        }
    }

    /// Records that the current stage's token was obtained.
    pub fn obteve(&mut self)
        requires
            old(self).wf(),
            !old(self).obtido,
            recurso_da_etapa(old(self).etapa) is Some,
        ensures
            final(self).wf(),
            final(self).etapa == old(self).etapa,
            final(self).precisa_cirurgia == old(self).precisa_cirurgia,
            final(self).obtido,
            final(self).retidos() == old(self).retidos().push(recurso_da_etapa(old(self).etapa).unwrap()),
    {
        self.obtido = true;
    }

    /// Ends the current stage once its use is over: returns the tokens to
    /// release now and moves to the next stage, which holds the rest.
    pub fn concluir_etapa(&mut self) -> (r: Vec<TipoRecurso>)
        requires
            old(self).wf(),
            old(self).obtido,
        ensures
            final(self).wf(),
            r@ == liberados_apos(old(self).etapa, old(self).precisa_cirurgia),
            final(self).etapa == proxima_etapa(old(self).etapa, old(self).precisa_cirurgia),
            final(self).precisa_cirurgia == old(self).precisa_cirurgia,
            !final(self).obtido,
            final(self).retidos() == retidos_na_entrada(final(self).etapa, final(self).precisa_cirurgia),
    {
        let mut r: Vec<TipoRecurso> = Vec::new();
        let cirurgia = self.precisa_cirurgia;
        match self.etapa {
            Etapa::Consulta => {
                if !cirurgia {
                    r.push(TipoRecurso::Medico);
                }
                self.etapa = Etapa::Exame;
            },
            Etapa::Exame => {
                r.push(TipoRecurso::Exame);
                self.etapa = if cirurgia {
                    Etapa::Cirurgia
                } else {
                    Etapa::Recuperacao
                };
            },
            Etapa::Cirurgia => {
                r.push(TipoRecurso::Sala);
                r.push(TipoRecurso::Medico);
                self.etapa = Etapa::Recuperacao;
            },
            Etapa::Recuperacao => {
                r.push(TipoRecurso::Leito);
                self.etapa = Etapa::Concluido;
            },
            _ => {},
        }
        self.obtido = false;
        assert(r@ =~= liberados_apos(old(self).etapa, cirurgia));
        r
    }

    /// Ends the workflow on a reservation conflict: returns every token it
    /// holds, for release, and moves to `Abortado`.
    pub fn abortar(&mut self) -> (r: Vec<TipoRecurso>)
        requires
            old(self).wf(),
        ensures
            final(self).wf(),
            r@ == old(self).retidos(),
            final(self).etapa == Etapa::Abortado,
            final(self).retidos().len() == 0,
    {
        let mut r: Vec<TipoRecurso> = Vec::new();
        let medico_retido = match self.etapa {
            Etapa::Exame => self.precisa_cirurgia,
            Etapa::Cirurgia => true,
            _ => false,
        };
        if medico_retido {
            r.push(TipoRecurso::Medico);
        }
        if self.obtido {
            match self.pedido_da_etapa() {
                Some(t) => r.push(t),
                None => {},
            }
        }
        assert(r@ =~= old(self).retidos());
        self.etapa = Etapa::Abortado;
        self.obtido = false;
        r
    }

    fn pedido_da_etapa(&self) -> (r: Option<TipoRecurso>)
        ensures
            r == recurso_da_etapa(self.etapa),
    {
        match self.etapa {
            Etapa::Consulta => Some(TipoRecurso::Medico),
            Etapa::Exame => Some(TipoRecurso::Exame),
            Etapa::Cirurgia => Some(TipoRecurso::Sala),
            Etapa::Recuperacao => Some(TipoRecurso::Leito),
            _ => None,
        }
    }

    /// Whether the workflow has ended, done or aborted.
    pub fn terminado(&self) -> (r: bool)
        ensures
            r == (self.etapa == Etapa::Concluido || self.etapa == Etapa::Abortado),
    {
        match self.etapa {
            Etapa::Concluido | Etapa::Abortado => true,
            _ => false,
        }
    }
}

/// The simulated use of stage `e`'s resources, in time units.
pub fn duracao_uso(e: Etapa) -> (r: u64)
    ensures
        r == match e {
            Etapa::Consulta => 3u64,
            Etapa::Exame => 2u64,
            Etapa::Cirurgia => 4u64,
            Etapa::Recuperacao => 3u64,
            _ => 0u64,
        },
{
    match e {
        Etapa::Consulta => 3,
        Etapa::Exame => 2,
        Etapa::Cirurgia => 4,
        Etapa::Recuperacao => 3,
        _ => 0,
    }
}

} // verus!

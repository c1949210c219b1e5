//! The hospital's four resource pools, the reservation tokens handed out on
//! them, and the preemption that the deadlock recovery pass applies.

use vstd::prelude::*;
use crate::nomes::sem_nome;
use crate::pool::{enfileirar, acrescentar, esperou, ErroReserva, EventoUso, Pool};

verus! {

/// Time, in milliseconds, after which a waiting occupant is flagged as a
/// deadlock suspect.
pub const LIMITE_ALERTA_PADRAO: u64 = 10000;

/// The resource types, in the order in which the recovery pass looks for a
/// victim.
#[derive(Debug, Clone, Copy, PartialEq, Eq, Structural)]
pub enum TipoRecurso {
    Medico,
    Sala,
    Leito,
    Exame,
}

/// Proof of one held unit: the pool's type, the holder and the slot's index.
/// Releasing it is the one way to free the unit.
pub struct Reserva {
    pub tipo: TipoRecurso,
    pub nome: String,
    pub slot: usize,
}

/// The pools of doctors, surgery rooms, beds and exam equipment.
pub struct Recursos {
    pub medicos: Pool,
    pub salas_cirurgia: Pool,
    pub leitos: Pool,
    pub equipamentos_exames: Pool,
    /// Wait, in milliseconds, after which an occupant becomes a suspect.
    pub limite_alerta: u64,
}

/// The clock value a pool uses for a reading `agora`: never behind the
/// pool's own clock.
pub open spec fn instante(p: Pool, agora: u64) -> u64 {
    if agora >= p.relogio {
        agora
    } else {
        p.relogio
    }
}

fn instante_exec(p: &Pool, agora: u64) -> (r: u64)
    ensures
        r == instante(*p, agora),
{
    if agora >= p.relogio {
        agora
    } else {
        p.relogio
    }
}

impl Recursos {
    pub open spec fn pool(&self, t: TipoRecurso) -> Pool {
        match t {
            TipoRecurso::Medico => self.medicos,
            TipoRecurso::Sala => self.salas_cirurgia,
            TipoRecurso::Leito => self.leitos,
            TipoRecurso::Exame => self.equipamentos_exames,
        }
    }

    pub open spec fn wf(&self) -> bool {
        &&& self.medicos.wf()
        &&& self.salas_cirurgia.wf()
        &&& self.leitos.wf()
        &&& self.equipamentos_exames.wf()
    }

    /// Every pool but the one of type `t`, and the alert threshold, are those of `o`.
    pub open spec fn iguais_exceto(&self, o: &Recursos, t: TipoRecurso) -> bool {
        &&& forall|u: TipoRecurso| u != t ==> #[trigger] self.pool(u) == o.pool(u)
        &&& self.limite_alerta == o.limite_alerta
    }

    /// The victim of a recovery pass: the first suspect of the first pool, in
    /// the order doctors, rooms, beds, exam equipment, that has one.
    pub open spec fn vitima(&self) -> Option<Seq<char>> {
        if self.medicos.suspeitos_v().len() > 0 {
            Some(self.medicos.suspeitos_v()[0])
        } else if self.salas_cirurgia.suspeitos_v().len() > 0 {
            Some(self.salas_cirurgia.suspeitos_v()[0])
        } else if self.leitos.suspeitos_v().len() > 0 {
            Some(self.leitos.suspeitos_v()[0])
        } else if self.equipamentos_exames.suspeitos_v().len() > 0 {
            Some(self.equipamentos_exames.suspeitos_v()[0])
        } else {
            None
        }
    }

    /// `self` is `antes` after `nome` was preempted: out of every pool's wait
    /// queue and suspects, all else as it was.
    pub open spec fn preemptado(&self, antes: &Recursos, nome: Seq<char>) -> bool {
        &&& self.limite_alerta == antes.limite_alerta
        &&& forall|t: TipoRecurso|
            {
                &&& (#[trigger] self.pool(t)).mesmos_slots(&antes.pool(t))
                &&& self.pool(t).fila_v() == sem_nome(antes.pool(t).fila_v(), nome)
                &&& self.pool(t).suspeitos_v() == sem_nome(antes.pool(t).suspeitos_v(), nome)
            }
    }

    /// What steps 1 and 2 of Acquire on the pool of type `t` leave: with
    /// `ConflitoReserva` where `nome` already held a unit of that type, and
    /// nothing changed; else `nome` in that pool's wait queue.
    pub open spec fn solicitou(
        &self,
        antes: &Recursos,
        t: TipoRecurso,
        nome: Seq<char>,
        critico: bool,
        r: Result<(), ErroReserva>,
    ) -> bool {
        &&& self.wf()
        &&& self.iguais_exceto(antes, t)
        &&& (r is Err <==> antes.pool(t).ocupa(nome))
        &&& r is Err ==> self.pool(t) == antes.pool(t)
        &&& r is Ok ==> self.pool(t).mesmos_slots(&antes.pool(t)) && self.pool(t).fila_v() == enfileirar(
            antes.pool(t).fila_v(),
            nome,
            critico,
        ) && self.pool(t).suspeitos_v() == antes.pool(t).suspeitos_v()
    }

    /// What a release of `nome`'s unit of type `t` at `agora` leaves: where it
    /// held one (`r`), its slot empty, one more unit available and its latest
    /// open interval closed; where not, units, slots and ledger as they were.
    pub open spec fn liberou(&self, antes: &Recursos, t: TipoRecurso, nome: Seq<char>, agora: u64, r: bool) -> bool {
        &&& self.wf()
        &&& self.iguais_exceto(antes, t)
        &&& r == antes.pool(t).ocupa(nome)
        &&& self.pool(t).fila_v() == antes.pool(t).fila_v()
        &&& self.pool(t).suspeitos_v() == antes.pool(t).suspeitos_v()
        &&& r ==> self.pool(t).disponivel == antes.pool(t).disponivel + 1
        &&& r ==> exists|k: int|
            0 <= k < antes.pool(t).slots_v().len() && antes.pool(t).slots_v()[k] == Some(nome)
                && self.pool(t).slots_v() == antes.pool(t).slots_v().update(k, None)
        &&& r ==> forall|k: int| crate::pool::ultimo_aberto(antes.pool(t).eventos(), nome, k)
            ==> self.pool(t).eventos() == antes.pool(t).eventos().update(
            k,
            (EventoUso { fim: Some(instante(antes.pool(t), agora)), ..antes.pool(t).eventos()[k] }),
        )
        &&& !r ==> self.pool(t).disponivel == antes.pool(t).disponivel && self.pool(t).slots_v()
            == antes.pool(t).slots_v() && self.pool(t).eventos() == antes.pool(t).eventos()
    }

    /// Pools with the given capacities, all units free, and the default alert
    /// threshold.
    pub fn novo(qtd_medicos: usize, qtd_salas: usize, qtd_leitos: usize, qtd_exames: usize) -> (r: Recursos)
        requires
            qtd_medicos > 0,
            qtd_salas > 0,
            qtd_leitos > 0,
            qtd_exames > 0,
        ensures
            r.wf(),
            r.medicos.capacidade == qtd_medicos,
            r.salas_cirurgia.capacidade == qtd_salas,
            r.leitos.capacidade == qtd_leitos,
            r.equipamentos_exames.capacidade == qtd_exames,
            forall|t: TipoRecurso| {
                &&& (#[trigger] r.pool(t)).disponivel == r.pool(t).capacidade
                &&& r.pool(t).fila_v().len() == 0
                &&& r.pool(t).suspeitos_v().len() == 0
                &&& r.pool(t).eventos().len() == 0
                &&& r.pool(t).relogio == 0
                &&& forall|i: int| 0 <= i < r.pool(t).capacidade ==> r.pool(t).slots_v()[i] is None
            },
            r.limite_alerta == LIMITE_ALERTA_PADRAO,
    {
        Recursos {
            medicos: Pool::novo(qtd_medicos),
            salas_cirurgia: Pool::novo(qtd_salas),
            leitos: Pool::novo(qtd_leitos),
            equipamentos_exames: Pool::novo(qtd_exames),
            limite_alerta: LIMITE_ALERTA_PADRAO,
        }
    }

    /// Sets the wait, in milliseconds, after which an occupant becomes a
    /// suspect.
    pub fn definir_limite_alerta(&mut self, limite: u64)
        requires
            old(self).wf(),
        ensures
            final(self).wf(),
            final(self).limite_alerta == limite,
            forall|t: TipoRecurso| #[trigger] final(self).pool(t) == old(self).pool(t),
    {
        self.limite_alerta = limite;
    }

    /// The pool of type `t`.
    pub fn recurso(&self, t: TipoRecurso) -> (r: &Pool)
        ensures
            *r == self.pool(t),
    {
        match t {
            TipoRecurso::Medico => &self.medicos,
            TipoRecurso::Sala => &self.salas_cirurgia,
            TipoRecurso::Leito => &self.leitos,
            TipoRecurso::Exame => &self.equipamentos_exames,
        }
    }

    /// Whether `nome` holds a unit of type `t`.
    pub fn ocupa(&self, t: TipoRecurso, nome: &String) -> (r: bool)
        ensures
            r == self.pool(t).ocupa(nome@),
    {
        self.recurso(t).ocupa_slot(nome)
    }

    /// Steps 1 and 2 of Acquire on the pool of type `t`: fails with
    /// `ConflitoReserva`, changing nothing, where `nome` already holds a unit
    /// of that type; else puts it in that pool's wait queue, at the front when
    /// critical.
    pub fn solicitar(&mut self, t: TipoRecurso, nome: &String, critico: bool) -> (r: Result<(), ErroReserva>)
        requires
            old(self).wf(),
        ensures
            final(self).solicitou(old(self), t, nome@, critico, r),
    {
        assert(self.pool(t).wf());
        match t {
            TipoRecurso::Medico => self.medicos.solicitar(nome, critico),
            TipoRecurso::Sala => self.salas_cirurgia.solicitar(nome, critico),
            TipoRecurso::Leito => self.leitos.solicitar(nome, critico),
            TipoRecurso::Exame => self.equipamentos_exames.solicitar(nome, critico),
        }
    }

    /// One attempt of step 3 of Acquire on the pool of type `t`, at `agora`
    /// (taken as the pool's clock where it is behind it), for a wait that
    /// began at `inicio_espera`. Hands out the token where a unit was taken;
    /// else flags `nome` as a suspect of that pool once the wait has reached
    /// the alert threshold. Fails with `ConflitoReserva`, changing nothing,
    /// where `nome` already holds a unit of that type.
    pub fn tentar(&mut self, t: TipoRecurso, nome: &String, inicio_espera: u64, agora: u64) -> (r: Result<
        Option<Reserva>,
        ErroReserva,
    >)
        requires
            old(self).wf(),
        ensures
            final(self).wf(),
            final(self).iguais_exceto(old(self), t),
            r is Err <==> old(self).pool(t).ocupa(nome@),
            r is Err ==> final(self).pool(t) == old(self).pool(t),
            r matches Ok(Some(res)) ==> res.tipo == t && res.nome@ == nome@ && final(self).pool(t).ocupou(
                &old(self).pool(t),
                nome,
                instante(old(self).pool(t), agora),
                res.slot as int,
            ),
            r matches Ok(None) ==> {
                &&& old(self).pool(t).disponivel == 0
                &&& final(self).pool(t).disponivel == 0
                &&& final(self).pool(t).slots_v() == old(self).pool(t).slots_v()
                &&& final(self).pool(t).fila_v() == old(self).pool(t).fila_v()
                &&& final(self).pool(t).eventos() == old(self).pool(t).eventos()
                &&& final(self).pool(t).suspeitos_v() == if esperou(
                    inicio_espera,
                    instante(old(self).pool(t), agora),
                    old(self).limite_alerta,
                ) {
                    acrescentar(old(self).pool(t).suspeitos_v(), nome@)
                } else {
                    old(self).pool(t).suspeitos_v()
                }
            },
            r is Ok ==> (r matches Ok(None) <==> old(self).pool(t).disponivel == 0),
    {
        assert(self.pool(t).wf());
        let limite = self.limite_alerta;
        let agora = instante_exec(self.recurso(t), agora);
        let passo = match t {
            TipoRecurso::Medico => self.medicos.tentar_reserva(nome, inicio_espera, agora, limite),
            TipoRecurso::Sala => self.salas_cirurgia.tentar_reserva(nome, inicio_espera, agora, limite),
            TipoRecurso::Leito => self.leitos.tentar_reserva(nome, inicio_espera, agora, limite),
            TipoRecurso::Exame => self.equipamentos_exames.tentar_reserva(nome, inicio_espera, agora, limite),
        };
        match passo {
            Ok(Some(k)) => Ok(Some(Reserva { tipo: t, nome: nome.clone(), slot: k })),
            Ok(None) => Ok(None),
            Err(e) => Err(e),
        }
    }

    /// Release of `nome`'s unit of type `t` at `agora` (taken as the pool's
    /// clock where it is behind it): closes its open interval, empties its
    /// slot and makes the unit available again. Returns whether it held one;
    /// where it did not, the pool's state stays as it was.
    pub fn liberar_slot(&mut self, t: TipoRecurso, nome: &String, agora: u64) -> (r: bool)
        requires
            old(self).wf(),
        ensures
            final(self).liberou(old(self), t, nome@, agora, r),
    {
        assert(self.pool(t).wf());
        let agora = instante_exec(self.recurso(t), agora);
        match t {
            TipoRecurso::Medico => self.medicos.liberar_slot(nome, agora),
            TipoRecurso::Sala => self.salas_cirurgia.liberar_slot(nome, agora),
            TipoRecurso::Leito => self.leitos.liberar_slot(nome, agora),
            TipoRecurso::Exame => self.equipamentos_exames.liberar_slot(nome, agora),
        }
    }
    /// Release of a token at `agora`: frees the unit it stands for (see
    /// `liberar_slot`). Taking the token by value lets it be released once.
    pub fn liberar(&mut self, reserva: Reserva, agora: u64) -> (r: bool)
        requires
            old(self).wf(),
        ensures
            final(self).wf(),
            final(self).iguais_exceto(old(self), reserva.tipo),
            r == old(self).pool(reserva.tipo).ocupa(reserva.nome@),
            r ==> final(self).pool(reserva.tipo).disponivel == old(self).pool(reserva.tipo).disponivel + 1,
            r ==> !final(self).pool(reserva.tipo).ocupa(reserva.nome@),
            !r ==> final(self).pool(reserva.tipo).disponivel == old(self).pool(reserva.tipo).disponivel
                && final(self).pool(reserva.tipo).slots_v() == old(self).pool(reserva.tipo).slots_v()
                && final(self).pool(reserva.tipo).eventos() == old(self).pool(reserva.tipo).eventos(),
    {
        let ghost antes = self.pool(reserva.tipo);
        let r = self.liberar_slot(reserva.tipo, &reserva.nome, agora);
        proof {
            if r {
                let k = choose|k: int|
                    0 <= k < antes.slots_v().len() && antes.slots_v()[k] == Some(reserva.nome@)
                        && self.pool(reserva.tipo).slots_v() == antes.slots_v().update(k, None);
                if self.pool(reserva.tipo).ocupa(reserva.nome@) {
                    let j = choose|j: int|
                        0 <= j < self.pool(reserva.tipo).slots_v().len() && self.pool(reserva.tipo).slots_v()[j]
                            == Some(reserva.nome@);
                    assert(antes.slots_v()[j] == Some(reserva.nome@));
                    assert(j != k);
                }
            }
        }
        r
    }

    /// Preemption of `nome`: takes it out of the wait queue and the suspects of
    /// every pool at once. The units it holds stay held.
    pub fn preempcao_paciente(&mut self, nome: &String)
        requires
            old(self).wf(),
        ensures
            final(self).wf(),
            final(self).preemptado(old(self), nome@),
    {
        self.medicos.sair_fila(nome);
        self.medicos.limpar_suspeito(nome);
        self.salas_cirurgia.sair_fila(nome);
        self.salas_cirurgia.limpar_suspeito(nome);
        self.leitos.sair_fila(nome);
        self.leitos.limpar_suspeito(nome);
        self.equipamentos_exames.sair_fila(nome);
        self.equipamentos_exames.limpar_suspeito(nome);
    }

    /// The victim of a recovery pass, where there is a suspect (see `vitima`).
    pub fn escolher_vitima(&self) -> (r: Option<String>)
        ensures
            r is None <==> self.vitima() is None,
            r matches Some(v) ==> self.vitima() == Some(v@),
    {
        if self.medicos.suspeitos.len() > 0 {
            assert(self.medicos.suspeitos_v()[0] == self.medicos.suspeitos@[0]@);
            Some(self.medicos.suspeitos[0].clone())
        } else if self.salas_cirurgia.suspeitos.len() > 0 {
            assert(self.salas_cirurgia.suspeitos_v()[0] == self.salas_cirurgia.suspeitos@[0]@);
            Some(self.salas_cirurgia.suspeitos[0].clone())
        } else if self.leitos.suspeitos.len() > 0 {
            assert(self.leitos.suspeitos_v()[0] == self.leitos.suspeitos@[0]@);
            Some(self.leitos.suspeitos[0].clone())
        } else if self.equipamentos_exames.suspeitos.len() > 0 {
            assert(self.equipamentos_exames.suspeitos_v()[0] == self.equipamentos_exames.suspeitos@[0]@);
            Some(self.equipamentos_exames.suspeitos[0].clone())
        } else {
            None
        }
    }

    /// One recovery pass: picks the victim, where there is a suspect, and
    /// preempts it; returns it so that the caller can report it. With no
    /// suspect, nothing changes.
    pub fn recuperar_deadlock(&mut self) -> (r: Option<String>)
        requires
            old(self).wf(),
        ensures
            final(self).wf(),
            r is None <==> old(self).vitima() is None,
            r is None ==> *final(self) == *old(self),
            r matches Some(v) ==> (old(self).vitima() == Some(v@) && final(self).preemptado(old(self), v@)),
    {
        let vitima = self.escolher_vitima();
        if let Some(v) = &vitima {
            self.preempcao_paciente(v);
        }
        vitima
    }

    /// The available units of doctors, rooms, beds and exam equipment.
    pub fn disponiveis(&self) -> (r: (usize, usize, usize, usize))
        ensures
            r.0 == self.medicos.disponivel,
            r.1 == self.salas_cirurgia.disponivel,
            r.2 == self.leitos.disponivel,
            r.3 == self.equipamentos_exames.disponivel,
    {
        (self.medicos.disponivel, self.salas_cirurgia.disponivel, self.leitos.disponivel, self.equipamentos_exames.disponivel)
    }
    /// Steps 1 and 2 of Acquire for a doctor (see `solicitar`).
    pub fn reservar_medico(&mut self, nome: &String, critico: bool) -> (r: Result<(), ErroReserva>)
        requires
            old(self).wf(),
        ensures
            final(self).solicitou(old(self), TipoRecurso::Medico, nome@, critico, r),
    {
        self.solicitar(TipoRecurso::Medico, nome, critico)
    }

    /// Steps 1 and 2 of Acquire for a surgery room (see `solicitar`).
    pub fn reservar_sala(&mut self, nome: &String, critico: bool) -> (r: Result<(), ErroReserva>)
        requires
            old(self).wf(),
        ensures
            final(self).solicitou(old(self), TipoRecurso::Sala, nome@, critico, r),
    {
        self.solicitar(TipoRecurso::Sala, nome, critico)
    }

    /// Steps 1 and 2 of Acquire for a bed (see `solicitar`).
    pub fn reservar_leito(&mut self, nome: &String, critico: bool) -> (r: Result<(), ErroReserva>)
        requires
            old(self).wf(),
        ensures
            final(self).solicitou(old(self), TipoRecurso::Leito, nome@, critico, r),
    {
        self.solicitar(TipoRecurso::Leito, nome, critico)
    }

    /// Steps 1 and 2 of Acquire for exam equipment (see `solicitar`).
    pub fn reservar_exame(&mut self, nome: &String, critico: bool) -> (r: Result<(), ErroReserva>)
        requires
            old(self).wf(),
        ensures
            final(self).solicitou(old(self), TipoRecurso::Exame, nome@, critico, r),
    {
        self.solicitar(TipoRecurso::Exame, nome, critico)
    }

    /// Release of `nome`'s doctor at `agora` (see `liberar_slot`).
    pub fn liberar_medico_slot(&mut self, nome: &String, agora: u64) -> (r: bool)
        requires
            old(self).wf(),
        ensures
            final(self).liberou(old(self), TipoRecurso::Medico, nome@, agora, r),
    {
        self.liberar_slot(TipoRecurso::Medico, nome, agora)
    }

    /// Release of `nome`'s surgery room at `agora` (see `liberar_slot`).
    pub fn liberar_sala_slot(&mut self, nome: &String, agora: u64) -> (r: bool)
        requires
            old(self).wf(),
        ensures
            final(self).liberou(old(self), TipoRecurso::Sala, nome@, agora, r),
    {
        self.liberar_slot(TipoRecurso::Sala, nome, agora)
    }

    /// Release of `nome`'s bed at `agora` (see `liberar_slot`).
    pub fn liberar_leito_slot(&mut self, nome: &String, agora: u64) -> (r: bool)
        requires
            old(self).wf(),
        ensures
            final(self).liberou(old(self), TipoRecurso::Leito, nome@, agora, r),
    {
        self.liberar_slot(TipoRecurso::Leito, nome, agora)
    }

    /// Release of `nome`'s exam equipment at `agora` (see `liberar_slot`).
    pub fn liberar_exame_slot(&mut self, nome: &String, agora: u64) -> (r: bool)
        requires
            old(self).wf(),
        ensures
            final(self).liberou(old(self), TipoRecurso::Exame, nome@, agora, r),
    {
        self.liberar_slot(TipoRecurso::Exame, nome, agora)
    }
}

} // verus!

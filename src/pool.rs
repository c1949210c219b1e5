//! One resource type: its capacity, its slots, its wait queue, its deadlock
//! suspects and its usage ledger.

use vstd::prelude::*;
use crate::nomes::{contem, lemma_sem_nome, nomes, remover_nome, sem_nome};

verus! {

/// The only failure of a reservation: the occupant already holds a unit of
/// this resource type.
#[derive(Debug, Clone, Copy, PartialEq, Eq, Structural)]
pub enum ErroReserva {
    ConflitoReserva,
}

/// One interval of a slot's occupation.
pub struct EventoUso {
    pub nome_paciente: String,
    pub inicio: u64,
    /// `None` while the occupant still holds the slot.
    pub fim: Option<u64>,
    /// The slot's number, counted from 1.
    pub instancia_id: usize,
}

/// The append-only record of a pool's occupation intervals.
pub struct HistoricoUso {
    pub eventos: Vec<EventoUso>,
}

pub open spec fn vista_slot(o: Option<String>) -> Option<Seq<char>> {
    match o {
        Some(s) => Some(s@),
        None => None,
    }
}

/// The slots' contents as names.
pub open spec fn vista_slots(v: Seq<Option<String>>) -> Seq<Option<Seq<char>>> {
    v.map_values(|o: Option<String>| vista_slot(o))
}

/// How many slots are taken.
pub open spec fn ocupados(s: Seq<Option<Seq<char>>>) -> nat
    decreases s.len(),
{
    if s.len() == 0 {
        0
    } else {
        ocupados(s.drop_last()) + if s.last() is Some { 1nat } else { 0nat }
    }
}

/// No occupant stands in two slots.
pub open spec fn slots_distintos(s: Seq<Option<Seq<char>>>) -> bool {
    forall|i: int, j: int|
        0 <= i < s.len() && 0 <= j < s.len() && i != j && s[i] is Some ==> s[i] != s[j]
}

/// Index of the first free slot, where there is one.
pub open spec fn primeiro_livre(s: Seq<Option<Seq<char>>>, k: int) -> bool {
    0 <= k < s.len() && s[k] is None && forall|j: int| 0 <= j < k ==> s[j] is Some
}

/// Index of the first slot that `nome` holds, where there is one.
pub open spec fn primeiro_de(s: Seq<Option<Seq<char>>>, nome: Seq<char>, k: int) -> bool {
    0 <= k < s.len() && s[k] == Some(nome) && forall|j: int| 0 <= j < k ==> s[j] != Some(nome)
}

/// An interval of `nome` that is still open.
pub open spec fn aberto(e: EventoUso, nome: Seq<char>) -> bool {
    e.nome_paciente@ == nome && e.fim is None
}

/// Index of the latest open interval of `nome`, where there is one.
pub open spec fn ultimo_aberto(evs: Seq<EventoUso>, nome: Seq<char>, k: int) -> bool {
    0 <= k < evs.len() && aberto(evs[k], nome) && forall|j: int| k < j < evs.len() ==> !aberto(evs[j], nome)
}

/// An interval that starts no later than `relogio` and, once closed, ends no
/// earlier than it starts and no later than `relogio`.
pub open spec fn evento_valido(e: EventoUso, relogio: u64) -> bool {
    e.inicio <= relogio && match e.fim {
        Some(f) => e.inicio <= f && f <= relogio,
        None => true,
    }
}

pub proof fn lemma_ocupados_limite(s: Seq<Option<Seq<char>>>)
    ensures
        ocupados(s) <= s.len(),
    decreases s.len(),
{
    if s.len() > 0 {
        lemma_ocupados_limite(s.drop_last());
    }
}

pub proof fn lemma_ocupados_update(s: Seq<Option<Seq<char>>>, i: int, v: Option<Seq<char>>)
    requires
        0 <= i < s.len(),
    ensures
        ocupados(s.update(i, v)) + (if s[i] is Some { 1int } else { 0int }) == ocupados(s) + (
        if v is Some { 1int } else { 0int }),
    decreases s.len(),
{
    let t = s.update(i, v);
    if i == s.len() - 1 {
        assert(t.drop_last() =~= s.drop_last());
    } else {
        lemma_ocupados_update(s.drop_last(), i, v);
        assert(t.drop_last() =~= s.drop_last().update(i, v));
    }
}

pub proof fn lemma_existe_livre(s: Seq<Option<Seq<char>>>)
    requires
        ocupados(s) < s.len(),
    ensures
        exists|i: int| 0 <= i < s.len() && s[i] is None,
    decreases s.len(),
{
    if s.last() is None {
        assert(s[s.len() - 1] is None);
    } else {
        lemma_existe_livre(s.drop_last());
        let i = choose|i: int| 0 <= i < s.len() - 1 && s.drop_last()[i] is None;
        assert(s[i] is None);
    }
}

pub proof fn lemma_todos_livres(s: Seq<Option<Seq<char>>>)
    requires
        forall|i: int| 0 <= i < s.len() ==> s[i] is None,
    ensures
        ocupados(s) == 0,
    decreases s.len(),
{
    if s.len() > 0 {
        lemma_todos_livres(s.drop_last());
    }
}

impl HistoricoUso {
    /// An empty ledger.
    pub fn new() -> (r: HistoricoUso)
        ensures
            r.eventos@.len() == 0,
    {
        HistoricoUso { eventos: Vec::new() }
    }

    /// Every interval is valid at time `relogio`.
    pub open spec fn consistente(&self, relogio: u64) -> bool {
        forall|i: int| 0 <= i < self.eventos@.len() ==> evento_valido(#[trigger] self.eventos@[i], relogio)
    }

    /// Puts `nome` in the first free slot and opens an interval for it at
    /// `agora`; returns the slot's number, counted from 1, or `None` where
    /// every slot is taken.
    pub fn registrar_inicio(&mut self, nome: &String, slots: &mut Vec<Option<String>>, agora: u64) -> (r: Option<usize>)
        ensures
            r is None <==> forall|i: int| 0 <= i < old(slots)@.len() ==> old(slots)@[i] is Some,
            r is None ==> final(slots)@ == old(slots)@ && final(self).eventos@ == old(self).eventos@,
            r matches Some(n) ==> {
                &&& primeiro_livre(vista_slots(old(slots)@), n - 1)
                &&& vista_slots(final(slots)@) == vista_slots(old(slots)@).update(n - 1, Some(nome@))
                &&& final(self).eventos@ == old(self).eventos@.push(
                    (EventoUso { nome_paciente: *nome, inicio: agora, fim: None, instancia_id: n }))
            },
    {
        let mut i: usize = 0;
        while i < slots.len()
            invariant
                0 <= i <= slots.len(),
                slots@ == old(slots)@,
                self.eventos@ == old(self).eventos@,
                forall|j: int| 0 <= j < i ==> slots@[j] is Some,
            decreases slots.len() - i,
        {
            if slots[i].is_none() {
                let ghost antes = slots@;
                assert forall|j: int| 0 <= j < i implies vista_slots(antes)[j] is Some by {
                    assert(antes[j] is Some);
                }
                assert(vista_slots(antes)[i as int] is None);
                slots.set(i, Some(nome.clone()));
                assert(vista_slots(slots@) =~= vista_slots(antes).update(i as int, Some(nome@)));
                self.eventos.push(EventoUso { nome_paciente: nome.clone(), inicio: agora, fim: None, instancia_id: i + 1 });
                return Some(i + 1);
            }
            i += 1;
        }
        None
    }

    /// Closes at `agora` the latest open interval of `nome` and frees the
    /// first slot that `nome` holds; each part does nothing where there is
    /// nothing to close or free.
    pub fn registrar_fim(&mut self, nome: &String, slots: &mut Vec<Option<String>>, agora: u64)
        ensures
            forall|k: int| ultimo_aberto(old(self).eventos@, nome@, k) ==> final(self).eventos@
                == old(self).eventos@.update(k, (EventoUso { fim: Some(agora), ..old(self).eventos@[k] })),
            (forall|k: int| 0 <= k < old(self).eventos@.len() ==> !aberto(old(self).eventos@[k], nome@))
                ==> final(self).eventos@ == old(self).eventos@,
            final(self).eventos@.len() == old(self).eventos@.len(),
            forall|i: int| 0 <= i < old(self).eventos@.len() ==> final(self).eventos@[i] == old(self).eventos@[i]
                || final(self).eventos@[i] == (EventoUso { fim: Some(agora), ..old(self).eventos@[i] }),
            forall|k: int| primeiro_de(vista_slots(old(slots)@), nome@, k) ==> vista_slots(final(slots)@)
                == vista_slots(old(slots)@).update(k, None),
            !vista_slots(old(slots)@).contains(Some(nome@)) ==> final(slots)@ == old(slots)@,
            final(slots)@.len() == old(slots)@.len(),
    {
        let mut i: usize = self.eventos.len();
        let mut achado: Option<usize> = None;
        while i > 0
            invariant
                0 <= i <= self.eventos@.len(),
                self.eventos@ == old(self).eventos@,
                achado is None ==> forall|j: int| i <= j < self.eventos@.len() ==> !aberto(self.eventos@[j], nome@),
                achado matches Some(k) ==> ultimo_aberto(self.eventos@, nome@, k as int),
                achado is Some ==> i == 0,
            decreases i,
        {
            let k = i - 1;
            let aberto_aqui = self.eventos[k].fim.is_none() && self.eventos[k].nome_paciente == *nome;
            if aberto_aqui {
                assert(aberto(self.eventos@[k as int], nome@));
                achado = Some(k);
                i = 0;
            } else {
                i = k;
            }
        }
        if let Some(k) = achado {
            let e = EventoUso {
                nome_paciente: self.eventos[k].nome_paciente.clone(),
                inicio: self.eventos[k].inicio,
                fim: Some(agora),
                instancia_id: self.eventos[k].instancia_id,
            };
            self.eventos.set(k, e);
            assert forall|m: int| ultimo_aberto(old(self).eventos@, nome@, m) implies m == k by {
                if m < k {
                    assert(!aberto(old(self).eventos@[k as int], nome@));
                } else if m > k {
                    assert(!aberto(old(self).eventos@[m], nome@));
                }
            }
        }
        esvaziar_slot(slots, nome);
    }
}

/// Frees the first slot that `nome` holds, where there is one.
fn esvaziar_slot(slots: &mut Vec<Option<String>>, nome: &String)
    ensures
        forall|k: int| primeiro_de(vista_slots(old(slots)@), nome@, k) ==> vista_slots(final(slots)@)
            == vista_slots(old(slots)@).update(k, None),
        !vista_slots(old(slots)@).contains(Some(nome@)) ==> final(slots)@ == old(slots)@,
        final(slots)@.len() == old(slots)@.len(),
{
    let mut j: usize = 0;
    while j < slots.len()
        invariant
            0 <= j <= slots.len(),
            slots@ == old(slots)@,
            forall|m: int| 0 <= m < j ==> vista_slots(slots@)[m] != Some(nome@),
        decreases slots.len() - j,
    {
        let achou = match &slots[j] {
            Some(s) => *s == *nome,
            None => false,
        };
        if achou {
            let ghost antes = slots@;
            assert(vista_slots(antes)[j as int] == Some(nome@));
            slots.set(j, None);
            assert(vista_slots(slots@) =~= vista_slots(antes).update(j as int, None));
            assert forall|m: int| primeiro_de(vista_slots(antes), nome@, m) implies m == j by {
                if m > j {
                    assert(vista_slots(antes)[j as int] != Some(nome@));
                }
            }
            return;
        }
        assert(vista_slots(slots@)[j as int] == vista_slot(slots@[j as int]));
        j += 1;
    }
    proof {
        if vista_slots(old(slots)@).contains(Some(nome@)) {
            let m = choose|m: int| 0 <= m < vista_slots(old(slots)@).len() && vista_slots(old(slots)@)[m] == Some(nome@);
            assert(vista_slots(slots@)[m] != Some(nome@));
        }
    }
}

/// A resource type with a fixed number of interchangeable units.
pub struct Pool {
    pub capacidade: usize,
    pub disponivel: usize,
    /// One entry per unit: who holds it, if anyone.
    pub slots: Vec<Option<String>>,
    /// Who waits for a unit, front first.
    pub fila: Vec<String>,
    /// Who has waited longer than the alert threshold.
    pub suspeitos: Vec<String>,
    pub historico: HistoricoUso,
    /// The latest time handed to the pool.
    pub relogio: u64,
}

/// `q` after `x` asks to wait: unchanged where `x` already waits; else `x` at
/// the front when critical and at the back otherwise.
pub open spec fn enfileirar(q: Seq<Seq<char>>, x: Seq<char>, critico: bool) -> Seq<Seq<char>> {
    if q.contains(x) {
        q
    } else if critico {
        seq![x] + q
    } else {
        q.push(x)
    }
}

/// `q` with `x` at the back, where it is not there yet.
pub open spec fn acrescentar(q: Seq<Seq<char>>, x: Seq<char>) -> Seq<Seq<char>> {
    if q.contains(x) {
        q
    } else {
        q.push(x)
    }
}

/// The wait from `inicio` to `agora` has reached `limite`.
pub open spec fn esperou(inicio: u64, agora: u64, limite: u64) -> bool {
    agora >= inicio && agora - inicio >= limite
}

pub proof fn lemma_enfileirar(q: Seq<Seq<char>>, x: Seq<char>, critico: bool)
    requires
        q.no_duplicates(),
    ensures
        enfileirar(q, x, critico).no_duplicates(),
        acrescentar(q, x).no_duplicates(),
        enfileirar(q, x, critico).contains(x),
        acrescentar(q, x).contains(x),
{
    if !q.contains(x) {
        let f = seq![x] + q;
        let b = q.push(x);
        assert(f[0] == x);
        assert(b[q.len() as int] == x);
        assert forall|i: int, j: int| 0 <= i < f.len() && 0 <= j < f.len() && i != j implies f[i] != f[j] by {
            if i == 0 {
                assert(q[j - 1] == f[j]);
            } else if j == 0 {
                assert(q[i - 1] == f[i]);
            }
        }
        assert forall|i: int, j: int| 0 <= i < b.len() && 0 <= j < b.len() && i != j implies b[i] != b[j] by {
            if i == q.len() {
                assert(q[j] == b[j]);
            } else if j == q.len() {
                assert(q[i] == b[i]);
            }
        }
    }
}

impl Pool {
    pub open spec fn slots_v(&self) -> Seq<Option<Seq<char>>> {
        vista_slots(self.slots@)
    }

    pub open spec fn fila_v(&self) -> Seq<Seq<char>> {
        nomes(self.fila@)
    }

    pub open spec fn suspeitos_v(&self) -> Seq<Seq<char>> {
        nomes(self.suspeitos@)
    }

    pub open spec fn eventos(&self) -> Seq<EventoUso> {
        self.historico.eventos@
    }

    /// `nome` holds a unit of this pool.
    pub open spec fn ocupa(&self, nome: Seq<char>) -> bool {
        self.slots_v().contains(Some(nome))
    }

    /// The pool's invariant: every unit is either available or held, nobody
    /// holds two, nobody waits or is suspected twice, and the ledger is
    /// consistent with the pool's clock.
    pub open spec fn wf(&self) -> bool {
        &&& self.capacidade > 0
        &&& self.slots@.len() == self.capacidade
        &&& self.disponivel <= self.capacidade
        &&& ocupados(self.slots_v()) == self.capacidade - self.disponivel
        &&& slots_distintos(self.slots_v())
        &&& self.fila_v().no_duplicates()
        &&& self.suspeitos_v().no_duplicates()
        &&& self.historico.consistente(self.relogio)
    }

    /// Slots, counts, ledger and clock are those of `o`.
    pub open spec fn mesmos_slots(&self, o: &Pool) -> bool {
        &&& self.capacidade == o.capacidade
        &&& self.disponivel == o.disponivel
        &&& self.slots_v() == o.slots_v()
        &&& self.eventos() == o.eventos()
        &&& self.relogio == o.relogio
    }

    /// `self` is `antes` after `nome` took the slot of index `k` at `agora`:
    /// one unit fewer available, `nome` out of the wait queue and the
    /// suspects, and an open interval for it in the ledger.
    pub open spec fn ocupou(&self, antes: &Pool, nome: &String, agora: u64, k: int) -> bool {
        &&& primeiro_livre(antes.slots_v(), k)
        &&& self.capacidade == antes.capacidade
        &&& self.disponivel == antes.disponivel - 1
        &&& self.slots_v() == antes.slots_v().update(k, Some(nome@))
        &&& self.fila_v() == sem_nome(antes.fila_v(), nome@)
        &&& self.suspeitos_v() == sem_nome(antes.suspeitos_v(), nome@)
        &&& self.eventos() == antes.eventos().push(
            (EventoUso { nome_paciente: *nome, inicio: agora, fim: None, instancia_id: (k + 1) as usize }))
        &&& self.relogio == agora
    }

    /// A pool with `capacidade` free units, nobody waiting and an empty ledger.
    pub fn novo(capacidade: usize) -> (r: Pool)
        requires
            capacidade > 0,
        ensures
            r.wf(),
            r.capacidade == capacidade,
            r.disponivel == capacidade,
            forall|i: int| 0 <= i < capacidade ==> r.slots_v()[i] is None,
            r.fila_v().len() == 0,
            r.suspeitos_v().len() == 0,
            r.eventos().len() == 0,
            r.relogio == 0,
    {
        let mut slots: Vec<Option<String>> = Vec::new();
        let mut i: usize = 0;
        while i < capacidade
            invariant
                0 <= i <= capacidade,
                slots@.len() == i,
                forall|j: int| 0 <= j < i ==> slots@[j] is None,
            decreases capacidade - i,
        {
            slots.push(None);
            i += 1;
        }
        let r = Pool {
            capacidade,
            disponivel: capacidade,
            slots,
            fila: Vec::new(),
            suspeitos: Vec::new(),
            historico: HistoricoUso::new(),
            relogio: 0,
        };
        proof {
            assert forall|j: int| 0 <= j < capacidade implies r.slots_v()[j] is None by {
                assert(r.slots@[j] is None);
            }
            lemma_todos_livres(r.slots_v());
            assert(r.fila_v() =~= Seq::<Seq<char>>::empty());
            assert(r.suspeitos_v() =~= Seq::<Seq<char>>::empty());
        }
        r
    }

    /// Whether `nome` holds a unit of this pool.
    pub fn ocupa_slot(&self, nome: &String) -> (r: bool)
        ensures
            r == self.ocupa(nome@),
    {
        let mut i: usize = 0;
        while i < self.slots.len()
            invariant
                0 <= i <= self.slots@.len(),
                forall|j: int| 0 <= j < i ==> self.slots_v()[j] != Some(nome@),
            decreases self.slots@.len() - i,
        {
            let achou = match &self.slots[i] {
                Some(s) => *s == *nome,
                None => false,
            };
            if achou {
                assert(self.slots_v()[i as int] == Some(nome@));
                return true;
            }
            assert(self.slots_v()[i as int] == vista_slot(self.slots@[i as int]));
            i += 1;
        }
        proof {
            if self.ocupa(nome@) {
                let j = choose|j: int| 0 <= j < self.slots_v().len() && self.slots_v()[j] == Some(nome@);
                assert(self.slots_v()[j] != Some(nome@));
            }
        }
        false
    }

    /// Puts `nome` in the wait queue: at the front when critical, at the back
    /// otherwise; nothing changes where it already waits.
    pub fn entrar_fila(&mut self, nome: &String, critico: bool)
        requires
            old(self).wf(),
        ensures
            final(self).wf(),
            final(self).mesmos_slots(old(self)),
            final(self).fila_v() == enfileirar(old(self).fila_v(), nome@, critico),
            final(self).suspeitos_v() == old(self).suspeitos_v(),
    {
        proof {
            lemma_enfileirar(self.fila_v(), nome@, critico);
        }
        if !contem(&self.fila, nome) {
            if critico {
                self.fila.insert(0, nome.clone());
                assert(self.fila_v() =~= seq![nome@] + old(self).fila_v());
            } else {
                self.fila.push(nome.clone());
                assert(self.fila_v() =~= old(self).fila_v().push(nome@));
            }
        }
    }

    /// Takes `nome` out of the wait queue.
    pub fn sair_fila(&mut self, nome: &String)
        requires
            old(self).wf(),
        ensures
            final(self).wf(),
            final(self).mesmos_slots(old(self)),
            final(self).fila_v() == sem_nome(old(self).fila_v(), nome@),
            final(self).suspeitos_v() == old(self).suspeitos_v(),
    {
        proof {
            lemma_sem_nome(self.fila_v(), nome@);
        }
        remover_nome(&mut self.fila, nome);
    }

    /// Flags `nome` as a deadlock suspect, where it is not flagged yet.
    pub fn marcar_suspeito(&mut self, nome: &String)
        requires
            old(self).wf(),
        ensures
            final(self).wf(),
            final(self).mesmos_slots(old(self)),
            final(self).fila_v() == old(self).fila_v(),
            final(self).suspeitos_v() == acrescentar(old(self).suspeitos_v(), nome@),
    {
        proof {
            lemma_enfileirar(self.suspeitos_v(), nome@, false);
        }
        if !contem(&self.suspeitos, nome) {
            self.suspeitos.push(nome.clone());
            assert(self.suspeitos_v() =~= old(self).suspeitos_v().push(nome@));
        }
    }

    /// Clears the deadlock flag of `nome`.
    pub fn limpar_suspeito(&mut self, nome: &String)
        requires
            old(self).wf(),
        ensures
            final(self).wf(),
            final(self).mesmos_slots(old(self)),
            final(self).fila_v() == old(self).fila_v(),
            final(self).suspeitos_v() == sem_nome(old(self).suspeitos_v(), nome@),
    {
        proof {
            lemma_sem_nome(self.suspeitos_v(), nome@);
        }
        remover_nome(&mut self.suspeitos, nome);
    }
    /// Moves the clock to `agora`; the ledger stays consistent.
    fn avancar_relogio(&mut self, agora: u64)
        requires
            old(self).wf(),
            agora >= old(self).relogio,
        ensures
            final(self).wf(),
            final(self).relogio == agora,
            final(self).capacidade == old(self).capacidade,
            final(self).disponivel == old(self).disponivel,
            final(self).slots == old(self).slots,
            final(self).fila == old(self).fila,
            final(self).suspeitos == old(self).suspeitos,
            final(self).historico == old(self).historico,
    {
        self.relogio = agora;
        assert forall|i: int| 0 <= i < self.eventos().len() implies evento_valido(
            #[trigger] self.historico.eventos@[i],
            agora,
        ) by {
            assert(evento_valido(old(self).historico.eventos@[i], old(self).relogio));
        }
    }

    /// Where a unit is available, `nome` takes the first free
    /// slot at `agora`, leaves the wait queue and the suspects, and an interval
    /// opens in the ledger; returns the slot's index. Where none is, nothing
    /// but the clock changes.
    pub fn tentar_ocupar_slot(&mut self, nome: &String, agora: u64) -> (r: Option<usize>)
        requires
            old(self).wf(),
            !old(self).ocupa(nome@),
            agora >= old(self).relogio,
        ensures
            final(self).wf(),
            r is None <==> old(self).disponivel == 0,
            r matches Some(k) ==> final(self).ocupou(old(self), nome, agora, k as int),
            r is None ==> final(self).capacidade == old(self).capacidade && final(self).disponivel
                == old(self).disponivel && final(self).slots_v() == old(self).slots_v() && final(self).fila_v()
                == old(self).fila_v() && final(self).suspeitos_v() == old(self).suspeitos_v()
                && final(self).eventos() == old(self).eventos() && final(self).relogio == agora,
    {
        self.avancar_relogio(agora);
        if self.disponivel == 0 {
            return None;
        }
        proof {
            lemma_existe_livre(self.slots_v());
            let i = choose|i: int| 0 <= i < self.slots_v().len() && self.slots_v()[i] is None;
            assert(self.slots@[i] is None);
            lemma_sem_nome(self.fila_v(), nome@);
            lemma_sem_nome(self.suspeitos_v(), nome@);
        }
        remover_nome(&mut self.fila, nome);
        remover_nome(&mut self.suspeitos, nome);
        let ghost antes = self.slots_v();
        let n = self.historico.registrar_inicio(nome, &mut self.slots, agora);
        match n {
            Some(n) => {
                let k = n - 1;
                proof {
                    lemma_ocupados_update(antes, k as int, Some(nome@));
                    assert forall|i: int, j: int|
                        0 <= i < self.slots_v().len() && 0 <= j < self.slots_v().len() && i != j
                            && self.slots_v()[i] is Some implies self.slots_v()[i] != self.slots_v()[j] by {
                        if i == k {
                            assert(antes[j] != Some(nome@));
                        } else if j == k {
                            assert(antes[i] != Some(nome@));
                        }
                    }
                    assert forall|i: int| 0 <= i < self.eventos().len() implies evento_valido(
                        #[trigger] self.historico.eventos@[i],
                        agora,
                    ) by {
                        if i < old(self).eventos().len() {
                            assert(self.historico.eventos@[i] == old(self).historico.eventos@[i]);
                            assert(evento_valido(old(self).historico.eventos@[i], old(self).relogio));
                        }
                    }
                }
                self.disponivel = self.disponivel - 1;
                Some(k)
            },
            None => {
                None
            },
        }
    }

    /// Where `nome` holds a unit, its latest open interval closes
    /// at `agora`, its slot empties and the unit becomes available again;
    /// returns whether it held one. The wait queue and suspects stay as they are.
    pub fn liberar_slot(&mut self, nome: &String, agora: u64) -> (r: bool)
        requires
            old(self).wf(),
            agora >= old(self).relogio,
        ensures
            final(self).wf(),
            r == old(self).ocupa(nome@),
            final(self).capacidade == old(self).capacidade,
            final(self).relogio == agora,
            final(self).fila_v() == old(self).fila_v(),
            final(self).suspeitos_v() == old(self).suspeitos_v(),
            r ==> final(self).disponivel == old(self).disponivel + 1,
            r ==> exists|k: int|
                0 <= k < old(self).slots_v().len() && old(self).slots_v()[k] == Some(nome@)
                    && final(self).slots_v() == old(self).slots_v().update(k, None),
            r ==> forall|k: int| ultimo_aberto(old(self).eventos(), nome@, k) ==> final(self).eventos()
                == old(self).eventos().update(k, (EventoUso { fim: Some(agora), ..old(self).eventos()[k] })),
            r ==> (forall|k: int| 0 <= k < old(self).eventos().len() ==> !aberto(old(self).eventos()[k], nome@))
                ==> final(self).eventos() == old(self).eventos(),
            !r ==> final(self).disponivel == old(self).disponivel && final(self).slots_v()
                == old(self).slots_v() && final(self).eventos() == old(self).eventos(),
    {
        self.avancar_relogio(agora);
        if !self.ocupa_slot(nome) {
            return false;
        }
        let ghost antes = self.slots_v();
        let ghost k = choose|k: int| 0 <= k < antes.len() && antes[k] == Some(nome@);
        proof {
            assert(primeiro_de(antes, nome@, k));
            lemma_ocupados_update(antes, k, None);
        }
        self.historico.registrar_fim(nome, &mut self.slots, agora);
        proof {
            assert forall|i: int| 0 <= i < self.eventos().len() implies evento_valido(
                #[trigger] self.historico.eventos@[i],
                agora,
            ) by {
                assert(evento_valido(old(self).historico.eventos@[i], old(self).relogio));
            }
        }
        self.disponivel = self.disponivel + 1;
        true
    }

    /// Steps 1 and 2 of Acquire: fails with `ConflitoReserva`, changing
    /// nothing, where `nome` already holds a unit of this pool; else puts it
    /// in the wait queue (front when critical).
    pub fn solicitar(&mut self, nome: &String, critico: bool) -> (r: Result<(), ErroReserva>)
        requires
            old(self).wf(),
        ensures
            final(self).wf(),
            r is Err <==> old(self).ocupa(nome@),
            r is Err ==> *final(self) == *old(self),
            r is Ok ==> final(self).mesmos_slots(old(self)) && final(self).fila_v() == enfileirar(
                old(self).fila_v(),
                nome@,
                critico,
            ) && final(self).suspeitos_v() == old(self).suspeitos_v(),
    {
        if self.ocupa_slot(nome) {
            return Err(ErroReserva::ConflitoReserva);
        }
        self.entrar_fila(nome, critico);
        Ok(())
    }

    /// One attempt of step 3 of Acquire, at `agora`, for a wait that began at
    /// `inicio_espera`: takes a unit where one is available (see
    /// `tentar_ocupar_slot`); else flags `nome` as a suspect once the wait has
    /// reached `limite`. Fails with `ConflitoReserva`, changing nothing, where
    /// `nome` already holds a unit of this pool.
    pub fn tentar_reserva(&mut self, nome: &String, inicio_espera: u64, agora: u64, limite: u64) -> (r: Result<
        Option<usize>,
        ErroReserva,
    >)
        requires
            old(self).wf(),
            agora >= old(self).relogio,
        ensures
            final(self).wf(),
            r is Err <==> old(self).ocupa(nome@),
            r is Err ==> *final(self) == *old(self),
            r matches Ok(Some(k)) ==> final(self).ocupou(old(self), nome, agora, k as int),
            r matches Ok(None) ==> {
                &&& old(self).disponivel == 0
                &&& final(self).capacidade == old(self).capacidade
                &&& final(self).disponivel == 0
                &&& final(self).slots_v() == old(self).slots_v()
                &&& final(self).fila_v() == old(self).fila_v()
                &&& final(self).eventos() == old(self).eventos()
                &&& final(self).relogio == agora
                &&& final(self).suspeitos_v() == if esperou(inicio_espera, agora, limite) {
                    acrescentar(old(self).suspeitos_v(), nome@)
                } else {
                    old(self).suspeitos_v()
                }
            },
            r is Ok ==> (r == Ok::<Option<usize>, ErroReserva>(None) <==> old(self).disponivel == 0),
    {
        if self.ocupa_slot(nome) {
            return Err(ErroReserva::ConflitoReserva);
        }
        let r = self.tentar_ocupar_slot(nome, agora);
        if r.is_none() && agora >= inicio_espera && agora - inicio_espera >= limite {
            self.marcar_suspeito(nome);
        }
        Ok(r)
    }
}

} // verus!

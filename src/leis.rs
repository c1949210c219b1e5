//! Laws of the reservation engine, stated over the models that the
//! operations' contracts use, and proved.

use vstd::prelude::*;
use crate::nomes::{lemma_sem_nome, sem_nome};
use crate::pool::{
    acrescentar, enfileirar, lemma_enfileirar, lemma_ocupados_limite, ocupados, Pool,
};
use crate::paciente::{liberados_apos, proxima_etapa, recurso_da_etapa, retidos_na_entrada, Etapa};
use crate::recursos::{Recursos, TipoRecurso};

verus! {

/// Capacity: in every well-formed pool the taken slots number exactly
/// `capacidade - disponivel`, and never more than the capacity.
pub proof fn lei_capacidade(p: Pool)
    requires
        p.wf(),
    ensures
        ocupados(p.slots_v()) == p.capacidade - p.disponivel,
        ocupados(p.slots_v()) <= p.capacidade,
{
    lemma_ocupados_limite(p.slots_v());
}

/// Exclusivity: an occupant holds at most one slot of a pool.
pub proof fn lei_exclusividade(p: Pool, nome: Seq<char>)
    requires
        p.wf(),
    ensures
        forall|i: int, j: int|
            0 <= i < p.slots_v().len() && 0 <= j < p.slots_v().len() && p.slots_v()[i] == Some(nome)
                && p.slots_v()[j] == Some(nome) ==> i == j,
{
}

/// Exclusivity across calls: once an attempt has given `nome` a unit of a
/// pool, `nome` holds one there, so a second request of that type by `nome`
/// fails with `ConflitoReserva` (see `Pool::solicitar`) until it releases it.
pub proof fn lei_conflito_apos_reserva(antes: Pool, depois: Pool, nome: &String, agora: u64, k: int)
    requires
        depois.ocupou(&antes, nome, agora, k),
    ensures
        depois.ocupa(nome@),
{
    assert(depois.slots_v()[k] == Some(nome@));
}

/// Ledger consistency: in a well-formed pool every closed interval ends no
/// earlier than it starts; an open one has no end.
pub proof fn lei_historico(p: Pool)
    requires
        p.wf(),
    ensures
        forall|i: int|
            0 <= i < p.eventos().len() ==> match (#[trigger] p.eventos()[i]).fim {
                Some(f) => f >= p.eventos()[i].inicio,
                None => true,
            },
{
    assert forall|i: int| 0 <= i < p.eventos().len() implies match (#[trigger] p.eventos()[i]).fim {
        Some(f) => f >= p.eventos()[i].inicio,
        None => true,
    } by {
        assert(crate::pool::evento_valido(p.historico.eventos@[i], p.relogio));
    }
}

/// Priority: where `a` (normal) and then `b` (critical) ask to wait, neither
/// waiting yet, `b` stands at the front and `a` at the back.
pub proof fn lei_prioridade(q: Seq<Seq<char>>, a: Seq<char>, b: Seq<char>)
    requires
        q.no_duplicates(),
        !q.contains(a),
        !q.contains(b),
        a != b,
    ensures
        enfileirar(enfileirar(q, a, false), b, true)[0] == b,
        enfileirar(enfileirar(q, a, false), b, true).last() == a,
        enfileirar(enfileirar(q, a, false), b, true).len() == q.len() + 2,
{
    let q1 = q.push(a);
    assert(enfileirar(q, a, false) == q1);
    assert(!q1.contains(b)) by {
        crate::nomes::lemma_contains_push(q, a);
    }
    let q2 = seq![b] + q1;
    assert(enfileirar(q1, b, true) == q2);
    assert(q2[q2.len() - 1] == q1[q1.len() - 1]);
}

/// Deadlock flagging: an occupant that asks to be flagged is a suspect
/// afterwards, and one that is cleared (on acquisition or preemption) is not.
pub proof fn lei_sinalizacao(q: Seq<Seq<char>>, nome: Seq<char>)
    requires
        q.no_duplicates(),
    ensures
        acrescentar(q, nome).contains(nome),
        !sem_nome(q, nome).contains(nome),
        !sem_nome(acrescentar(q, nome), nome).contains(nome),
{
    lemma_enfileirar(q, nome, false);
    lemma_sem_nome(q, nome);
    lemma_sem_nome(acrescentar(q, nome), nome);
}

/// Preemption scope: after `nome` is preempted it neither waits nor is
/// suspected in any pool, and every other waiter and suspect stays.
pub proof fn lei_preempcao(antes: Recursos, depois: Recursos, nome: Seq<char>)
    requires
        depois.preemptado(&antes, nome),
    ensures
        forall|t: TipoRecurso| !(#[trigger] depois.pool(t)).fila_v().contains(nome),
        forall|t: TipoRecurso| !(#[trigger] depois.pool(t)).suspeitos_v().contains(nome),
        forall|t: TipoRecurso, x: Seq<char>|
            x != nome ==> (#[trigger] depois.pool(t).fila_v().contains(x) <==> antes.pool(t).fila_v().contains(x)),
        forall|t: TipoRecurso, x: Seq<char>|
            x != nome ==> (#[trigger] depois.pool(t).suspeitos_v().contains(x) <==> antes.pool(
                t,
            ).suspeitos_v().contains(x)),
{
    assert forall|t: TipoRecurso| !(#[trigger] depois.pool(t)).fila_v().contains(nome)
        && !depois.pool(t).suspeitos_v().contains(nome) by {
        lemma_sem_nome(antes.pool(t).fila_v(), nome);
        lemma_sem_nome(antes.pool(t).suspeitos_v(), nome);
    }
    assert forall|t: TipoRecurso, x: Seq<char>| x != nome implies (#[trigger] depois.pool(t).fila_v().contains(x)
        <==> antes.pool(t).fila_v().contains(x)) by {
        lemma_sem_nome(antes.pool(t).fila_v(), nome);
    }
    assert forall|t: TipoRecurso, x: Seq<char>| x != nome implies (#[trigger] depois.pool(t).suspeitos_v().contains(x)
        <==> antes.pool(t).suspeitos_v().contains(x)) by {
        lemma_sem_nome(antes.pool(t).suspeitos_v(), nome);
    }
}

/// How many times `t` occurs in `s`.
pub open spec fn vezes(s: Seq<TipoRecurso>, t: TipoRecurso) -> nat
    decreases s.len(),
{
    if s.len() == 0 {
        0
    } else {
        vezes(s.drop_last(), t) + if s.last() == t { 1nat } else { 0nat }
    }
}

proof fn lemma_vezes_curtas(a: TipoRecurso, b: TipoRecurso, c: TipoRecurso, t: TipoRecurso)
    ensures
        vezes(seq![], t) == 0,
        vezes(seq![a], t) == (if a == t { 1nat } else { 0nat }),
        vezes(seq![a, b], t) == (if a == t { 1nat } else { 0nat }) + (if b == t { 1nat } else { 0nat }),
        vezes(seq![a, b, c], t) == (if a == t { 1nat } else { 0nat }) + (if b == t { 1nat } else { 0nat }) + (
        if c == t { 1nat } else { 0nat }),
{
    let s1 = seq![a];
    let s2 = seq![a, b];
    let s3 = seq![a, b, c];
    assert(s1.drop_last() =~= Seq::<TipoRecurso>::empty());
    assert(s2.drop_last() =~= s1);
    assert(s3.drop_last() =~= s2);
    assert(s1.last() == a && s2.last() == b && s3.last() == c);
    assert(vezes(s1, t) == vezes(s1.drop_last(), t) + if a == t { 1nat } else { 0nat });
    assert(vezes(s2, t) == vezes(s1, t) + if b == t { 1nat } else { 0nat });
    assert(vezes(s3, t) == vezes(s2, t) + if c == t { 1nat } else { 0nat });
}

/// Tokens are neither lost nor released twice: at the end of each stage that
/// acquires one, the tokens held (those carried in and the stage's own) are
/// exactly those released then plus those carried into the next stage, which
/// holds nothing once the workflow is done.
pub proof fn lei_tokens(e: Etapa, cirurgia: bool, t: TipoRecurso)
    requires
        recurso_da_etapa(e) is Some,
    ensures
        vezes(retidos_na_entrada(e, cirurgia).push(recurso_da_etapa(e).unwrap()), t) == vezes(
            liberados_apos(e, cirurgia),
            t,
        ) + vezes(retidos_na_entrada(proxima_etapa(e, cirurgia), cirurgia), t),
        retidos_na_entrada(Etapa::Concluido, cirurgia).len() == 0,
{
    let r = recurso_da_etapa(e).unwrap();
    lemma_vezes_curtas(TipoRecurso::Medico, r, r, t);
    lemma_vezes_curtas(r, r, r, t);
    lemma_vezes_curtas(TipoRecurso::Sala, TipoRecurso::Medico, r, t);
    assert(Seq::<TipoRecurso>::empty().push(r) =~= seq![r]);
    assert(seq![TipoRecurso::Medico].push(r) =~= seq![TipoRecurso::Medico, r]);
}

} // verus!

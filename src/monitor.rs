//! The deadlock recovery pass and the record of resource availability over
//! time.

use vstd::prelude::*;
use crate::recursos::Recursos;

verus! {

/// Time, in milliseconds, between two status reports.
pub const INTERVALO_STATUS: u64 = 1000;

/// Available units of each pool at one instant, `tempo` in hundredths of a
/// second.
#[derive(Debug, Clone, Copy, PartialEq, Eq, Structural)]
pub struct Snapshot {
    pub tempo: u64,
    pub medicos: usize,
    pub salas: usize,
    pub leitos: usize,
    pub exames: usize,
}

/// The availability record, oldest first.
pub struct HistoricoRecursos {
    pub snapshots: Vec<Snapshot>,
}

/// `ms` milliseconds in hundredths of a second, rounded half up.
pub open spec fn centesimos(ms: u64) -> u64 {
    (ms / 10 + if ms % 10 >= 5 { 1u64 } else { 0u64 }) as u64
}

/// The availability of `r`'s pools at `ms` milliseconds.
pub open spec fn foto(r: Recursos, ms: u64) -> Snapshot {
    Snapshot {
        tempo: centesimos(ms),
        medicos: r.medicos.disponivel,
        salas: r.salas_cirurgia.disponivel,
        leitos: r.leitos.disponivel,
        exames: r.equipamentos_exames.disponivel,
    }
}

impl HistoricoRecursos {
    /// An empty record.
    pub fn new() -> (r: HistoricoRecursos)
        ensures
            r.snapshots@.len() == 0,
    {
        HistoricoRecursos { snapshots: Vec::new() }
    }

    /// Appends the availability of `recursos`' pools at `agora` milliseconds.
    pub fn registrar(&mut self, recursos: &Recursos, agora: u64)
        ensures
            final(self).snapshots@ == old(self).snapshots@.push(foto(*recursos, agora)),
    {
        let extra: u64 = if agora % 10 >= 5 {
            1
        } else {
            0
        };
        let (m, s, l, e) = recursos.disponiveis();
        self.snapshots.push(Snapshot { tempo: agora / 10 + extra, medicos: m, salas: s, leitos: l, exames: e });
    }
}

/// Appends `mensagem` to the log stream.
pub fn registrar_log(logs: &mut Vec<String>, mensagem: &str)
    ensures
        final(logs)@.len() == old(logs)@.len() + 1,
        final(logs)@.drop_last() == old(logs)@,
        final(logs)@.last()@ == mensagem@,
{
    logs.push(mensagem.to_string());
    assert(logs@.drop_last() =~= old(logs)@);
}

/// What one pass of the monitor did: the occupant it preempted, if any, and
/// the availability to report, when a report was due.
pub struct PassoMonitor {
    pub vitima: Option<String>,
    pub status: Option<Snapshot>,
}

/// A status report is due once `INTERVALO_STATUS` has passed since the last.
pub open spec fn status_devido(ultimo_status: u64, agora: u64) -> bool {
    agora >= ultimo_status && agora - ultimo_status >= INTERVALO_STATUS
}

/// One pass of the monitor at `agora` milliseconds, the last status report
/// having been made at `ultimo_status`: records the pools' availability,
/// preempts the victim where there is a suspect, and hands back the
/// availability to report where a report is due.
pub fn passo_monitor(recursos: &mut Recursos, historico: &mut HistoricoRecursos, agora: u64, ultimo_status: u64) -> (r:
    PassoMonitor)
    requires
        old(recursos).wf(),
    ensures
        final(recursos).wf(),
        final(historico).snapshots@ == old(historico).snapshots@.push(foto(*old(recursos), agora)),
        r.vitima is None <==> old(recursos).vitima() is None,
        r.vitima is None ==> *final(recursos) == *old(recursos),
        r.vitima matches Some(v) ==> (old(recursos).vitima() == Some(v@) && final(recursos).preemptado(
            old(recursos),
            v@,
        )),
        r.status is Some <==> status_devido(ultimo_status, agora),
        r.status matches Some(s) ==> s == foto(*old(recursos), agora),
{
    historico.registrar(recursos, agora);
    let status = if agora >= ultimo_status && agora - ultimo_status >= INTERVALO_STATUS {
        Some(historico.snapshots[historico.snapshots.len() - 1])
    } else {
        None
    };
    let vitima = recursos.recuperar_deadlock();
    PassoMonitor { vitima, status }
}

} // verus!

use recursos_hospital::estatisticas::Estatisticas;
use recursos_hospital::hospital::Hospital;
use recursos_hospital::monitor::{passo_monitor, registrar_log, HistoricoRecursos, Snapshot};
use recursos_hospital::paciente::{duracao_uso, Atendimento, Etapa, Paciente};
use recursos_hospital::recursos::{Recursos, TipoRecurso};

fn s(x: &str) -> String {
    x.to_string()
}

#[test]
fn paciente_novo_guarda_os_campos() {
    let p = Paciente::novo("P02-Normal", 22, "Fratura", false, 0);
    assert_eq!(p.nome, "P02-Normal");
    assert_eq!(p.idade, 22);
    assert_eq!(p.condicao, "Fratura");
    assert!(!p.precisa_cirurgia);
    assert!(!p.critico());
    let q = Paciente::novo_com_prioridade("P07-Critico", 60, "Politraum", true, 1);
    assert!(q.critico() && q.precisa_cirurgia);
    assert_eq!(q.nome, "P07-Critico");
}

#[test]
fn fluxo_sem_cirurgia() {
    let p = Paciente::novo("P", 30, "AVC", false, 1);
    let mut a = Atendimento::novo(&p);
    let mut liberados = vec![];
    let mut pedidos = vec![];
    while !a.terminado() {
        let t = a.pedido().unwrap();
        pedidos.push(t);
        a.obteve();
        assert_eq!(a.pedido(), None);
        liberados.push(a.concluir_etapa());
    }
    assert_eq!(a.etapa, Etapa::Concluido);
    assert_eq!(pedidos, vec![TipoRecurso::Medico, TipoRecurso::Exame, TipoRecurso::Leito]);
    assert_eq!(
        liberados,
        vec![vec![TipoRecurso::Medico], vec![TipoRecurso::Exame], vec![TipoRecurso::Leito]]
    );
}

#[test]
fn fluxo_com_cirurgia() {
    let p = Paciente::novo("P", 45, "Infarto", true, 1);
    let mut a = Atendimento::novo(&p);
    let mut liberados = vec![];
    let mut pedidos = vec![];
    while !a.terminado() {
        pedidos.push(a.pedido().unwrap());
        a.obteve();
        liberados.push(a.concluir_etapa());
    }
    assert_eq!(
        pedidos,
        vec![TipoRecurso::Medico, TipoRecurso::Exame, TipoRecurso::Sala, TipoRecurso::Leito]
    );
    assert_eq!(
        liberados,
        vec![
            vec![],
            vec![TipoRecurso::Exame],
            vec![TipoRecurso::Sala, TipoRecurso::Medico],
            vec![TipoRecurso::Leito],
        ]
    );
}

#[test]
fn abortar_devolve_o_que_esta_retido() {
    let p = Paciente::novo("P", 45, "Infarto", true, 0);
    let mut a = Atendimento::novo(&p);
    a.obteve();
    a.concluir_etapa();
    a.obteve();
    a.concluir_etapa();
    assert_eq!(a.etapa, Etapa::Cirurgia);
    a.obteve();
    assert_eq!(a.abortar(), vec![TipoRecurso::Medico, TipoRecurso::Sala]);
    assert_eq!(a.etapa, Etapa::Abortado);
    assert!(a.terminado());
    assert_eq!(a.pedido(), None);

    let mut b = Atendimento::novo(&p);
    assert_eq!(b.abortar(), vec![]);
}

#[test]
fn duracoes_de_uso() {
    assert_eq!(duracao_uso(Etapa::Consulta), 3);
    assert_eq!(duracao_uso(Etapa::Exame), 2);
    assert_eq!(duracao_uso(Etapa::Cirurgia), 4);
    assert_eq!(duracao_uso(Etapa::Recuperacao), 3);
    assert_eq!(duracao_uso(Etapa::Concluido), 0);
}

#[test]
fn estatisticas_so_contam_concluidos() {
    let mut e = Estatisticas::novo();
    assert_eq!(e.tempo_medio(), 0);
    e.finalizar_atendimento(&s("A"), 3000, true);
    e.finalizar_atendimento(&s("B"), 5000, true);
    e.finalizar_atendimento(&s("C"), 9000, false);
    assert_eq!(e.quantidade(), 2);
    assert_eq!(e.tempo_total(), 8000);
    assert_eq!(e.tempo_medio(), 4000);
    e.finalizar_atendimento(&s("A"), 4000, true);
    assert_eq!(e.obter_atendimentos(), vec![(s("A"), 4000), (s("B"), 5000)]);
    e.finalizar_atendimento(&s("D"), 1, true);
    assert_eq!(e.tempo_medio(), 3000);
}

#[test]
fn estatisticas_somam_sem_transbordar() {
    let mut e = Estatisticas::novo();
    e.finalizar_atendimento(&s("A"), u64::MAX, true);
    e.finalizar_atendimento(&s("B"), u64::MAX, true);
    assert_eq!(e.tempo_total(), 2 * (u64::MAX as u128));
    assert_eq!(e.tempo_medio(), u64::MAX as u128);
}

#[test]
fn hospital_atende_em_ordem_de_chegada() {
    let mut h = Hospital::novo(Recursos::novo(1, 1, 1, 1));
    assert!(h.proximo_paciente().is_none());
    h.adicionar_paciente(Paciente::novo("A", 1, "x", false, 0));
    h.adicionar_paciente(Paciente::novo("B", 2, "y", false, 1));
    assert_eq!(h.proximo_paciente().unwrap().nome, "A");
    assert_eq!(h.proximo_paciente().unwrap().nome, "B");
    assert!(h.proximo_paciente().is_none());
}

#[test]
fn historico_arredonda_para_centesimos() {
    let r = Recursos::novo(3, 2, 4, 4);
    let mut h = HistoricoRecursos::new();
    h.registrar(&r, 1234);
    h.registrar(&r, 1235);
    assert_eq!(h.snapshots[0], Snapshot { tempo: 123, medicos: 3, salas: 2, leitos: 4, exames: 4 });
    assert_eq!(h.snapshots[1].tempo, 124);
}

#[test]
fn monitor_preempta_e_reporta() {
    let mut r = Recursos::novo(1, 1, 1, 1);
    let mut h = HistoricoRecursos::new();
    let (x, v) = (s("X"), s("V"));
    r.solicitar(TipoRecurso::Medico, &x, false).unwrap();
    let _ = r.tentar(TipoRecurso::Medico, &x, 0, 0).unwrap().unwrap();
    r.solicitar(TipoRecurso::Medico, &v, false).unwrap();
    assert!(r.tentar(TipoRecurso::Medico, &v, 0, 12000).unwrap().is_none());

    let p = passo_monitor(&mut r, &mut h, 12500, 12000);
    assert_eq!(p.vitima, Some(s("V")));
    assert!(p.status.is_none());
    assert!(r.medicos.fila.is_empty() && r.medicos.suspeitos.is_empty());

    let p = passo_monitor(&mut r, &mut h, 13000, 12000);
    assert_eq!(p.vitima, None);
    assert_eq!(p.status, Some(Snapshot { tempo: 1300, medicos: 0, salas: 1, leitos: 1, exames: 1 }));
    assert_eq!(h.snapshots.len(), 2);
}

#[test]
fn log_acrescenta_mensagem() {
    let mut logs = vec![s("a")];
    registrar_log(&mut logs, "Sistema iniciado");
    assert_eq!(logs, vec![s("a"), s("Sistema iniciado")]);
}

use recursos_hospital::paciente::{Atendimento, Etapa, Paciente};
use recursos_hospital::pool::{ErroReserva, Pool};
use recursos_hospital::recursos::{Recursos, TipoRecurso, LIMITE_ALERTA_PADRAO};

fn s(x: &str) -> String {
    x.to_string()
}

fn ocupados(p: &Pool) -> usize {
    p.slots.iter().filter(|o| o.is_some()).count()
}

#[test]
fn tres_pacientes_dois_medicos() {
    let mut r = Recursos::novo(2, 1, 1, 1);
    let (p1, p2, p3) = (s("P1"), s("P2"), s("P3"));
    assert_eq!(r.solicitar(TipoRecurso::Medico, &p1, false), Ok(()));
    assert_eq!(r.solicitar(TipoRecurso::Medico, &p2, false), Ok(()));
    assert_eq!(r.solicitar(TipoRecurso::Medico, &p3, true), Ok(()));
    assert_eq!(r.medicos.fila, vec![s("P3"), s("P1"), s("P2")]);

    let t1 = r.tentar(TipoRecurso::Medico, &p1, 0, 100).unwrap().unwrap();
    let t2 = r.tentar(TipoRecurso::Medico, &p2, 0, 100).unwrap().unwrap();
    assert!(r.tentar(TipoRecurso::Medico, &p3, 0, 100).unwrap().is_none());
    assert_eq!(r.medicos.fila, vec![s("P3")]);
    assert_eq!(r.medicos.disponivel, 0);
    assert_eq!((t1.slot, t2.slot), (0, 1));

    assert!(r.liberar(t1, 200));
    let t3 = r.tentar(TipoRecurso::Medico, &p3, 0, 300).unwrap().unwrap();
    assert_eq!(t3.slot, 0);
    assert_eq!(r.medicos.fila.len(), 0);
    assert_eq!(r.medicos.slots, vec![Some(s("P3")), Some(s("P2"))]);
}

#[test]
fn medico_retido_na_cirurgia_gera_conflito() {
    let mut r = Recursos::novo(2, 1, 1, 1);
    let p = Paciente::novo("P01-Critico", 45, "Infarto", true, 1);
    let mut a = Atendimento::novo(&p);

    assert_eq!(a.pedido(), Some(TipoRecurso::Medico));
    r.solicitar(TipoRecurso::Medico, &p.nome, p.critico()).unwrap();
    let medico = r.tentar(TipoRecurso::Medico, &p.nome, 0, 0).unwrap().unwrap();
    a.obteve();
    assert_eq!(a.concluir_etapa(), vec![]);
    assert_eq!(a.etapa, Etapa::Exame);

    r.solicitar(TipoRecurso::Exame, &p.nome, p.critico()).unwrap();
    let exame = r.tentar(TipoRecurso::Exame, &p.nome, 10, 10).unwrap().unwrap();
    a.obteve();
    assert_eq!(a.concluir_etapa(), vec![TipoRecurso::Exame]);
    assert!(r.liberar(exame, 20));
    assert_eq!(a.etapa, Etapa::Cirurgia);

    assert_eq!(r.solicitar(TipoRecurso::Medico, &p.nome, true), Err(ErroReserva::ConflitoReserva));
    assert_eq!(r.reservar_medico(&p.nome, true), Err(ErroReserva::ConflitoReserva));
    assert!(matches!(r.tentar(TipoRecurso::Medico, &p.nome, 0, 30), Err(ErroReserva::ConflitoReserva)));
    assert_eq!(r.medicos.disponivel, 1);
    assert_eq!(r.medicos.fila.len(), 0);
    assert!(r.liberar(medico, 40));
    assert_eq!(r.medicos.disponivel, 2);
}

#[test]
fn capacidade_acompanha_ocupacao() {
    let mut r = Recursos::novo(3, 1, 1, 1);
    let nomes = [s("A"), s("B"), s("C"), s("D")];
    for n in nomes.iter() {
        r.solicitar(TipoRecurso::Medico, n, false).unwrap();
        let _ = r.tentar(TipoRecurso::Medico, n, 0, 5).unwrap();
        assert_eq!(ocupados(&r.medicos), r.medicos.capacidade - r.medicos.disponivel);
        assert!(ocupados(&r.medicos) <= r.medicos.capacidade);
    }
    assert_eq!(r.medicos.disponivel, 0);
    assert_eq!(r.medicos.fila, vec![s("D")]);
    assert!(r.liberar_medico_slot(&s("B"), 10));
    assert_eq!(ocupados(&r.medicos), 2);
    assert_eq!(r.medicos.disponivel, 1);
    assert!(!r.liberar_medico_slot(&s("B"), 11));
    assert_eq!(r.medicos.disponivel, 1);
}

#[test]
fn segunda_reserva_do_mesmo_tipo_falha() {
    let mut r = Recursos::novo(2, 2, 2, 2);
    let a = s("A");
    r.reservar_leito(&a, false).unwrap();
    let _t = r.tentar(TipoRecurso::Leito, &a, 0, 0).unwrap().unwrap();
    assert_eq!(r.reservar_leito(&a, false), Err(ErroReserva::ConflitoReserva));
    assert_eq!(r.leitos.fila.len(), 0);
    assert_eq!(r.reservar_sala(&a, false), Ok(()));
    assert_eq!(r.salas_cirurgia.fila, vec![s("A")]);
}

#[test]
fn historico_fecha_com_fim_apos_inicio() {
    let mut r = Recursos::novo(1, 1, 1, 1);
    let a = s("A");
    r.reservar_exame(&a, false).unwrap();
    let t = r.tentar(TipoRecurso::Exame, &a, 0, 1500).unwrap().unwrap();
    let e = &r.equipamentos_exames.historico.eventos;
    assert_eq!(e.len(), 1);
    assert_eq!((e[0].inicio, e[0].fim, e[0].instancia_id), (1500, None, 1));
    assert!(r.liberar(t, 4000));
    let e = &r.equipamentos_exames.historico.eventos[0];
    assert_eq!(e.fim, Some(4000));
    assert!(e.fim.unwrap() >= e.inicio);
    assert_eq!(e.nome_paciente, "A");
}

#[test]
fn historico_relogio_nao_recua() {
    let mut r = Recursos::novo(1, 1, 1, 1);
    let a = s("A");
    r.reservar_medico(&a, false).unwrap();
    let t = r.tentar(TipoRecurso::Medico, &a, 0, 5000).unwrap().unwrap();
    assert!(r.liberar(t, 3000));
    let e = &r.medicos.historico.eventos[0];
    assert_eq!((e.inicio, e.fim), (5000, Some(5000)));
}

#[test]
fn critico_entra_na_frente_da_fila() {
    let mut r = Recursos::novo(1, 1, 1, 1);
    let x = s("X");
    r.solicitar(TipoRecurso::Sala, &x, false).unwrap();
    let _ = r.tentar(TipoRecurso::Sala, &x, 0, 0).unwrap().unwrap();
    let (a, b) = (s("A"), s("B"));
    r.solicitar(TipoRecurso::Sala, &a, false).unwrap();
    assert!(r.tentar(TipoRecurso::Sala, &a, 0, 1).unwrap().is_none());
    r.solicitar(TipoRecurso::Sala, &b, true).unwrap();
    assert!(r.tentar(TipoRecurso::Sala, &b, 1, 2).unwrap().is_none());
    assert_eq!(r.salas_cirurgia.fila, vec![s("B"), s("A")]);
    r.solicitar(TipoRecurso::Sala, &b, true).unwrap();
    assert_eq!(r.salas_cirurgia.fila, vec![s("B"), s("A")]);
}

#[test]
fn suspeito_apos_limite_e_limpo_ao_obter() {
    let mut r = Recursos::novo(1, 1, 1, 1);
    let (x, a) = (s("X"), s("A"));
    r.solicitar(TipoRecurso::Leito, &x, false).unwrap();
    let tx = r.tentar(TipoRecurso::Leito, &x, 0, 0).unwrap().unwrap();
    r.solicitar(TipoRecurso::Leito, &a, false).unwrap();
    assert!(r.tentar(TipoRecurso::Leito, &a, 0, LIMITE_ALERTA_PADRAO - 1).unwrap().is_none());
    assert!(r.leitos.suspeitos.is_empty());
    assert!(r.tentar(TipoRecurso::Leito, &a, 0, LIMITE_ALERTA_PADRAO).unwrap().is_none());
    assert_eq!(r.leitos.suspeitos, vec![s("A")]);
    assert!(r.tentar(TipoRecurso::Leito, &a, 0, LIMITE_ALERTA_PADRAO + 500).unwrap().is_none());
    assert_eq!(r.leitos.suspeitos, vec![s("A")]);
    assert!(r.liberar(tx, LIMITE_ALERTA_PADRAO + 600));
    let _ta = r.tentar(TipoRecurso::Leito, &a, 0, LIMITE_ALERTA_PADRAO + 700).unwrap().unwrap();
    assert!(r.leitos.suspeitos.is_empty());
    assert!(r.leitos.fila.is_empty());
}

#[test]
fn preempcao_limpa_todas_as_filas() {
    let mut r = Recursos::novo(1, 1, 1, 1);
    let (x, y, v) = (s("X"), s("Y"), s("V"));
    for t in [TipoRecurso::Medico, TipoRecurso::Sala] {
        r.solicitar(t, &x, false).unwrap();
        let _ = r.tentar(t, &x, 0, 0).unwrap().unwrap();
    }
    r.solicitar(TipoRecurso::Medico, &v, false).unwrap();
    r.solicitar(TipoRecurso::Sala, &v, false).unwrap();
    r.solicitar(TipoRecurso::Sala, &y, false).unwrap();
    assert!(r.tentar(TipoRecurso::Medico, &v, 0, 20000).unwrap().is_none());
    assert!(r.tentar(TipoRecurso::Sala, &v, 0, 20000).unwrap().is_none());
    assert!(r.tentar(TipoRecurso::Sala, &y, 0, 20000).unwrap().is_none());
    assert_eq!(r.salas_cirurgia.suspeitos, vec![s("V"), s("Y")]);

    r.preempcao_paciente(&v);
    assert!(r.medicos.fila.is_empty());
    assert!(r.medicos.suspeitos.is_empty());
    assert_eq!(r.salas_cirurgia.fila, vec![s("Y")]);
    assert_eq!(r.salas_cirurgia.suspeitos, vec![s("Y")]);
    assert_eq!(r.medicos.disponivel, 0);
    assert_eq!(r.medicos.slots, vec![Some(s("X"))]);
}

#[test]
fn vitima_segue_ordem_dos_recursos() {
    let mut r = Recursos::novo(1, 1, 1, 1);
    assert_eq!(r.escolher_vitima(), None);
    assert_eq!(r.recuperar_deadlock(), None);
    r.equipamentos_exames.marcar_suspeito(&s("E"));
    r.leitos.marcar_suspeito(&s("L"));
    assert_eq!(r.escolher_vitima(), Some(s("L")));
    r.medicos.marcar_suspeito(&s("M1"));
    r.medicos.marcar_suspeito(&s("M2"));
    assert_eq!(r.recuperar_deadlock(), Some(s("M1")));
    assert_eq!(r.medicos.suspeitos, vec![s("M2")]);
    assert_eq!(r.recuperar_deadlock(), Some(s("M2")));
    assert_eq!(r.recuperar_deadlock(), Some(s("L")));
    assert_eq!(r.recuperar_deadlock(), Some(s("E")));
    assert_eq!(r.recuperar_deadlock(), None);
}

#[test]
fn pool_novo_tem_tudo_livre() {
    let p = Pool::novo(3);
    assert_eq!(p.capacidade, 3);
    assert_eq!(p.disponivel, 3);
    assert_eq!(p.slots, vec![None, None, None]);
    assert!(p.fila.is_empty() && p.suspeitos.is_empty() && p.historico.eventos.is_empty());
}

#[test]
fn pool_ocupa_primeiro_slot_livre() {
    let mut p = Pool::novo(3);
    let (a, b, c) = (s("A"), s("B"), s("C"));
    assert_eq!(p.tentar_ocupar_slot(&a, 1), Some(0));
    assert_eq!(p.tentar_ocupar_slot(&b, 2), Some(1));
    assert!(p.liberar_slot(&a, 3));
    assert_eq!(p.tentar_ocupar_slot(&c, 4), Some(0));
    assert_eq!(p.historico.eventos[2].instancia_id, 1);
    assert!(p.ocupa_slot(&c));
    assert!(!p.ocupa_slot(&a));
    p.entrar_fila(&a, false);
    p.sair_fila(&a);
    assert!(p.fila.is_empty());
    p.marcar_suspeito(&a);
    p.marcar_suspeito(&a);
    assert_eq!(p.suspeitos, vec![s("A")]);
    p.limpar_suspeito(&a);
    assert!(p.suspeitos.is_empty());
}

#[test]
fn limite_alerta_configuravel() {
    let mut r = Recursos::novo(1, 1, 1, 1);
    r.definir_limite_alerta(300);
    assert_eq!(r.limite_alerta, 300);
    let (x, a) = (s("X"), s("A"));
    r.solicitar(TipoRecurso::Exame, &x, false).unwrap();
    let _ = r.tentar(TipoRecurso::Exame, &x, 0, 0).unwrap().unwrap();
    r.solicitar(TipoRecurso::Exame, &a, false).unwrap();
    assert!(r.tentar(TipoRecurso::Exame, &a, 100, 399).unwrap().is_none());
    assert!(r.equipamentos_exames.suspeitos.is_empty());
    assert!(r.tentar(TipoRecurso::Exame, &a, 100, 400).unwrap().is_none());
    assert_eq!(r.equipamentos_exames.suspeitos, vec![s("A")]);
}

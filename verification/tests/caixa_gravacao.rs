use ui_gpui::caixa::dados::Funcionario;
use ui_gpui::caixa::gravacao::{
    depois_da_gravacao, Aviso, EmCurso, Frase, QualDialogo, Resposta, TelaDoCaixa, VendaGravada,
};
use ui_gpui::caixa::lote::TipoDeRecado;

fn tela(dialogo: Option<QualDialogo>) -> TelaDoCaixa {
    TelaDoCaixa {
        dialogo,
        em_curso: Vec::new(),
        ultima_venda: None,
        des_sinalizacao: None,
        cadastrados: Vec::new(),
    }
}

fn texto(a: &Aviso) -> String {
    match &a.frase {
        Frase::Texto(t) => t.clone(),
        outra => panic!("esperava uma frase pronta, veio {outra:?}"),
    }
}

fn funcionario(id: &str, nome: &str) -> Funcionario {
    Funcionario {
        id: id.to_string(),
        nome: nome.to_string(),
        whatsapp: None,
        email: None,
        ativo: true,
    }
}

#[test]
fn abrir_o_caixa_avisa_o_fundo_fecha_o_dialogo_e_recarrega() {
    let mut t = tela(Some(QualDialogo::Abrir));
    t.em_curso.push(EmCurso::Movimento { rotulo: "Sangria".into(), valor: 100 });
    t.em_curso.push(EmCurso::Abrir { fundo: 5000 });
    let d = depois_da_gravacao(&mut t, Resposta::Abrir(Ok(())), true);
    assert_eq!(t.em_curso.len(), 1);
    assert!(matches!(t.em_curso[0], EmCurso::Movimento { .. }));
    assert_eq!(t.dialogo, None);
    assert_eq!(d.avisos.len(), 1);
    assert!(matches!(d.avisos[0].frase, Frase::CaixaAberto { fundo: 5000 }));
    assert_eq!(d.avisos[0].tipo, TipoDeRecado::Sucesso);
    assert_eq!(d.avisos[0].segundos, 5);
    assert!(d.fechar_dialogo && d.recarregar && !d.reabilitar);
}

#[test]
fn a_venda_recusada_reabilita_o_pagamento_com_a_frase_do_backend() {
    let mut t = tela(Some(QualDialogo::Pagamento));
    let d = depois_da_gravacao(
        &mut t,
        Resposta::Venda(Err("x: o site respondeu 409: foto já vendida".into())),
        true,
    );
    assert_eq!(t.dialogo, Some(QualDialogo::Pagamento));
    assert!(d.reabilitar && !d.recarregar && !d.zerar_desconto);
    assert_eq!(texto(&d.avisos[0]), "foto já vendida");
    assert_eq!(d.avisos[0].tipo, TipoDeRecado::Erro);
    assert_eq!(d.avisos[0].segundos, 8);
}

#[test]
fn a_venda_gravada_fica_como_a_ultima_e_zera_o_desconto() {
    let mut t = tela(Some(QualDialogo::Pagamento));
    let venda = VendaGravada { id: "v9".into(), numero: 9, total: 4500, troco: 500 };
    let d = depois_da_gravacao(&mut t, Resposta::Venda(Ok(Some(venda))), true);
    assert_eq!(t.ultima_venda.as_ref().map(|v| v.numero), Some(9));
    assert!(matches!(d.avisos[0].frase, Frase::Venda { numero: 9, total: 4500, troco: 500 }));
    assert_eq!(d.avisos[0].segundos, 8);
    assert!(d.zerar_desconto && d.fechar_dialogo && d.recarregar);
    assert_eq!(t.dialogo, None);

    let mut t = tela(None);
    let d = depois_da_gravacao(&mut t, Resposta::Venda(Ok(None)), true);
    assert_eq!(texto(&d.avisos[0]), "Venda registrada.");
    assert!(!d.fechar_dialogo);
}

#[test]
fn o_estorno_esquece_a_ultima_venda_e_manda_as_fotos_de_volta() {
    let mut t = tela(Some(QualDialogo::Estorno));
    t.ultima_venda = Some(VendaGravada { id: "v1".into(), numero: 7, total: 1500, troco: 0 });
    t.em_curso.push(EmCurso::Estorno {
        venda_id: "v1".into(),
        numero: 7,
        valor: 1500,
        fotos: vec!["a b.jpg".into(), "c".into()],
        des_sinalizar: true,
    });
    let d = depois_da_gravacao(&mut t, Resposta::Estorno(Ok(())), true);
    assert!(t.ultima_venda.is_none());
    assert!(t.em_curso.is_empty());
    assert_eq!(d.des_sinalizar, vec!["/pos-venda/fotos/a%20b.jpg", "/pos-venda/fotos/c"]);
    assert!(d.avisos.is_empty() && !d.recarregar);
    assert_eq!(t.des_sinalizacao.as_ref().map(|x| x.faltam), Some(2));

    let d = depois_da_gravacao(&mut t, Resposta::DesSinalizar(true), true);
    assert!(d.avisos.is_empty());
    let d = depois_da_gravacao(&mut t, Resposta::DesSinalizar(false), true);
    assert!(t.des_sinalizacao.is_none());
    assert_eq!(t.dialogo, None);
    assert_eq!(d.avisos.len(), 2);
    match &d.avisos[0].frase {
        Frase::Estorno { valor, numero, fim } => {
            assert_eq!((*valor, *numero), (1500, 7));
            assert_eq!(fim, " · 1 foto(s) de volta a “à venda”");
        }
        outra => panic!("{outra:?}"),
    }
    assert_eq!(d.avisos[0].segundos, 8);
    assert_eq!(
        texto(&d.avisos[1]),
        "1 foto(s) continuam sinalizadas: tire a sinalização (P) na grade."
    );
    assert_eq!(d.avisos[1].segundos, 10);
    assert!(d.fechar_dialogo && d.reler_detalhe && d.recarregar);
}

#[test]
fn sem_a_conta_o_estorno_termina_com_as_fotos_que_ficaram() {
    let mut t = tela(None);
    t.ultima_venda = Some(VendaGravada { id: "outra".into(), numero: 3, total: 100, troco: 0 });
    t.em_curso.push(EmCurso::Estorno {
        venda_id: "v1".into(),
        numero: 7,
        valor: 1500,
        fotos: vec!["a".into(), "b".into()],
        des_sinalizar: true,
    });
    let d = depois_da_gravacao(&mut t, Resposta::Estorno(Ok(())), false);
    assert!(t.ultima_venda.is_some(), "a última venda era outra");
    assert!(d.des_sinalizar.is_empty());
    assert_eq!(d.avisos.len(), 4);
    assert_eq!(texto(&d.avisos[0]), "Esta tela precisa da conta do site.");
    assert_eq!(texto(&d.avisos[1]), "Esta tela precisa da conta do site.");
    assert!(matches!(&d.avisos[2].frase, Frase::Estorno { fim, .. } if fim == " · 0 foto(s) de volta a “à venda”"));
    assert!(texto(&d.avisos[3]).starts_with("2 foto(s) continuam sinalizadas"));
    assert!(!d.reler_detalhe && d.recarregar && !d.fechar_dialogo);
}

#[test]
fn o_estorno_sem_tirar_a_sinalizacao_diz_que_as_fotos_voltam_ao_cupom() {
    let mut t = tela(Some(QualDialogo::Estorno));
    t.em_curso.push(EmCurso::Estorno {
        venda_id: "v1".into(),
        numero: 2,
        valor: 800,
        fotos: vec!["a".into()],
        des_sinalizar: false,
    });
    let d = depois_da_gravacao(&mut t, Resposta::Estorno(Ok(())), true);
    assert_eq!(d.avisos.len(), 1);
    assert!(matches!(&d.avisos[0].frase, Frase::Estorno { fim, .. } if fim == " · as fotos voltam ao cupom"));
    assert!(d.des_sinalizar.is_empty() && d.fechar_dialogo);
}

#[test]
fn fechar_sem_ler_o_caixa_fecha_o_dialogo_e_avisa() {
    let mut t = tela(Some(QualDialogo::Fechar));
    t.ultima_venda = Some(VendaGravada { id: "v".into(), numero: 1, total: 1, troco: 0 });
    let d = depois_da_gravacao(&mut t, Resposta::Fechar(Ok(false)), true);
    assert!(t.ultima_venda.is_none());
    assert_eq!(t.dialogo, None);
    assert_eq!(texto(&d.avisos[0]), "Caixa fechado.");
    assert!(d.fechar_dialogo && d.reabilitar && d.recarregar && !d.mostrar_fechamento);

    let mut t = tela(Some(QualDialogo::Fechar));
    let d = depois_da_gravacao(&mut t, Resposta::Fechar(Ok(true)), true);
    assert_eq!(t.dialogo, Some(QualDialogo::Fechar));
    assert!(d.mostrar_fechamento && d.reabilitar && d.recarregar && d.avisos.is_empty());
}

#[test]
fn a_conferencia_so_vale_com_o_fechamento_aberto() {
    let mut t = tela(Some(QualDialogo::Vendas));
    let d = depois_da_gravacao(&mut t, Resposta::Conferir(Ok(())), true);
    assert!(!d.conferencia_chegou && !d.reabilitar && d.avisos.is_empty());

    let mut t = tela(Some(QualDialogo::Fechar));
    let d = depois_da_gravacao(&mut t, Resposta::Conferir(Err("o site respondeu 500: x".into())), true);
    assert_eq!(texto(&d.avisos[0]), "Não foi possível conferir o caixa.");
    assert!(d.reabilitar && !d.conferencia_chegou);
}

#[test]
fn cadastrar_troca_o_de_mesmo_id_e_fecha_o_formulario() {
    let mut t = tela(Some(QualDialogo::Pessoas { cadastro_aberto: true }));
    t.cadastrados = vec![funcionario("id1", "Ana"), funcionario("id2", "Bia")];
    let d = depois_da_gravacao(&mut t, Resposta::Cadastrar(Ok(funcionario("id1", "Ana Maria"))), true);
    assert_eq!(t.cadastrados, vec![funcionario("id2", "Bia"), funcionario("id1", "Ana Maria")]);
    assert_eq!(t.dialogo, Some(QualDialogo::Pessoas { cadastro_aberto: false }));
    assert_eq!(texto(&d.avisos[0]), "Ana Maria cadastrado.");
    assert_eq!(d.cadastro, Some(Ok("id1".to_string())));

    let mut t = tela(Some(QualDialogo::Pessoas { cadastro_aberto: true }));
    let d = depois_da_gravacao(
        &mut t,
        Resposta::Cadastrar(Err("o site respondeu 403: não".into())),
        true,
    );
    assert_eq!(d.cadastro, Some(Err("Sua conta não pode operar o caixa.".to_string())));
    assert!(d.avisos.is_empty());
}

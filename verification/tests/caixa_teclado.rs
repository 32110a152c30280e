use ui_gpui::caixa::teclado::{
    mover_no_cupom, tecla, teclar_no_painel, AcaoDaTeclaF, AcaoDoPainel, ModoRapido,
    TipoDeDialogo,
};

fn no_cupom(t: &str, shift: bool, editando: bool) -> (AcaoDoPainel, bool) {
    teclar_no_painel(t, shift, false, None, true, false, false, editando, false)
}

#[test]
fn as_teclas_f_valem_na_janela_inteira_menos_o_f5() {
    assert_eq!(
        teclar_no_painel("f4", false, false, None, false, false, false, false, false),
        (AcaoDoPainel::TeclaF(4), true)
    );
    assert_eq!(
        teclar_no_painel("f9", false, true, Some("Pagamento"), false, true, true, false, false),
        (AcaoDoPainel::TeclaF(9), true)
    );
    assert_eq!(
        teclar_no_painel("f5", false, false, None, false, false, false, false, false),
        (AcaoDoPainel::Nenhuma, false)
    );
    assert_eq!(
        teclar_no_painel("f10", false, false, None, false, false, false, false, false),
        (AcaoDoPainel::Nenhuma, false)
    );
}

#[test]
fn no_pagamento_os_numeros_escolhem_a_forma_e_nao_dao_nota() {
    let pagamento = |t: &str| teclar_no_painel(t, false, true, Some("Pagamento"), false, false, true, false, false);
    assert_eq!(pagamento("1"), (AcaoDoPainel::EscolherForma(1), true));
    assert_eq!(pagamento("8"), (AcaoDoPainel::EscolherForma(8), true));
    assert_eq!(pagamento("9"), (AcaoDoPainel::Nenhuma, true), "não chega à grade");
    assert_eq!(pagamento("backspace"), (AcaoDoPainel::TirarUltimoLancado, true));
    assert_eq!(pagamento("enter"), (AcaoDoPainel::Nenhuma, false));
    assert_eq!(
        teclar_no_painel("1", false, true, Some("Pagamento"), false, true, true, false, false),
        (AcaoDoPainel::Nenhuma, false),
        "num campo, o número é do campo"
    );
}

#[test]
fn no_desconto_o_percentual_vale_ate_no_campo() {
    let desconto = |t: &str, shift: bool, campo: bool| {
        teclar_no_painel(t, shift, true, Some("Desconto"), false, campo, true, false, false)
    };
    assert_eq!(desconto("%", false, true), (AcaoDoPainel::ModoDoDesconto(true), true));
    assert_eq!(desconto("5", true, true), (AcaoDoPainel::ModoDoDesconto(true), true));
    assert_eq!(desconto("r", false, false), (AcaoDoPainel::ModoDoDesconto(false), true));
    assert_eq!(desconto("5", false, true), (AcaoDoPainel::Nenhuma, false));
}

#[test]
fn no_movimento_s_e_u_escolhem_o_tipo() {
    let movimento = |t: &str| teclar_no_painel(t, false, true, Some("Movimento"), false, false, true, false, false);
    assert_eq!(movimento("s"), (AcaoDoPainel::Sangria, true));
    assert_eq!(movimento("u"), (AcaoDoPainel::Suprimento, true));
    assert_eq!(movimento("x"), (AcaoDoPainel::Nenhuma, true));
}

#[test]
fn f9_minimiza_e_as_letras_nao_chegam_a_grade() {
    assert_eq!(
        teclar_no_painel("f9", false, false, None, false, false, false, false, false),
        (AcaoDoPainel::TeclaF(9), true)
    );
    assert_eq!(no_cupom("p", false, false), (AcaoDoPainel::Nenhuma, true));
    assert_eq!(no_cupom("enter", false, false), (AcaoDoPainel::Nenhuma, false));
    assert_eq!(
        teclar_no_painel("p", false, false, None, false, false, false, false, false),
        (AcaoDoPainel::Nenhuma, false),
        "fora do cupom, a letra é da grade"
    );
    assert_eq!(
        teclar_no_painel("p", false, false, None, true, false, true, false, false),
        (AcaoDoPainel::Nenhuma, false),
        "com diálogo aberto fora dele, também"
    );
}

#[test]
fn o_cupom_anda_edita_e_negocia() {
    assert_eq!(no_cupom("down", false, false), (AcaoDoPainel::Mover(1), true));
    assert_eq!(no_cupom("up", false, false), (AcaoDoPainel::Mover(-1), true));
    assert_eq!(no_cupom("e", false, false), (AcaoDoPainel::AlternarEdicao, true));
    assert_eq!(no_cupom("n", true, false), (AcaoDoPainel::AbrirNegociacao(true), true));
    assert_eq!(no_cupom("escape", false, true), (AcaoDoPainel::FecharEdicao, true));
    assert_eq!(no_cupom("escape", false, false), (AcaoDoPainel::Nenhuma, false));
}

#[test]
fn a_edicao_rapida_tem_as_suas_letras() {
    assert_eq!(no_cupom("t", true, true), (AcaoDoPainel::AlternarTipos(true), true));
    assert_eq!(no_cupom("c", false, true), (AcaoDoPainel::AlternarCortesia(false), true));
    assert_eq!(
        no_cupom("d", false, true),
        (AcaoDoPainel::AbrirCampo(ModoRapido::Desconto, false), true)
    );
    assert_eq!(
        no_cupom("s", true, true),
        (AcaoDoPainel::AbrirCampo(ModoRapido::Parceiro, true), true)
    );
    assert_eq!(no_cupom("delete", true, true), (AcaoDoPainel::RemoverNegociacao(true), true));
    assert_eq!(no_cupom("c", false, false), (AcaoDoPainel::Nenhuma, true), "sem edição aberta");
    assert_eq!(
        teclar_no_painel("c", false, false, None, true, false, false, true, true),
        (AcaoDoPainel::Nenhuma, true),
        "com um lote no ar, espera"
    );
}

#[test]
fn os_campos_da_edicao_rapida_gravam_e_fecham() {
    let campo = |t: &str| teclar_no_painel(t, false, false, None, true, true, false, true, false);
    assert_eq!(campo("enter"), (AcaoDoPainel::EnviarCampoRapido, true));
    assert_eq!(campo("escape"), (AcaoDoPainel::FecharCampoRapido, true));
    assert_eq!(campo("a"), (AcaoDoPainel::Nenhuma, false));
}

#[test]
fn as_teclas_f_esperam_com_dialogo_aberto() {
    assert_eq!(tecla(1, Some(TipoDeDialogo::Atalhos)), AcaoDaTeclaF::Nenhuma);
    assert_eq!(tecla(7, Some(TipoDeDialogo::Vendas)), AcaoDaTeclaF::Nenhuma);
    assert_eq!(tecla(4, Some(TipoDeDialogo::Pagamento)), AcaoDaTeclaF::ConcluirVenda);
    assert_eq!(tecla(4, Some(TipoDeDialogo::Desconto)), AcaoDaTeclaF::Nenhuma);
}

#[test]
fn cada_tecla_f_tem_o_seu_dialogo() {
    assert_eq!(tecla(1, None), AcaoDaTeclaF::Abrir(TipoDeDialogo::Atalhos));
    assert_eq!(tecla(2, None), AcaoDaTeclaF::ComCaixa(TipoDeDialogo::Desconto));
    assert_eq!(tecla(3, None), AcaoDaTeclaF::Abrir(TipoDeDialogo::Pessoas));
    assert_eq!(tecla(4, None), AcaoDaTeclaF::Finalizar);
    assert_eq!(tecla(5, None), AcaoDaTeclaF::Nenhuma);
    assert_eq!(tecla(6, None), AcaoDaTeclaF::ComCaixa(TipoDeDialogo::Movimento));
    assert_eq!(tecla(7, None), AcaoDaTeclaF::Abrir(TipoDeDialogo::Vendas));
    assert_eq!(tecla(8, None), AcaoDaTeclaF::AbrirOuFechar);
    assert_eq!(tecla(9, None), AcaoDaTeclaF::AlternarPainel);
}

#[test]
fn o_foco_do_cupom_fica_entre_o_primeiro_e_o_ultimo() {
    assert_eq!(mover_no_cupom(None, 1, 3), 0);
    assert_eq!(mover_no_cupom(None, -1, 3), 0);
    assert_eq!(mover_no_cupom(Some(0), -1, 3), 0);
    assert_eq!(mover_no_cupom(Some(1), 1, 3), 2);
    assert_eq!(mover_no_cupom(Some(2), 1, 3), 2);
}

#[test]
fn o_contexto_diz_onde_o_foco_esta() {
    let pilha = |c: &[&str]| -> Vec<String> { c.iter().map(|s| s.to_string()).collect() };
    let f = ui_gpui::caixa::teclado::contexto_da_tecla(&pilha(&["Raiz", "Flutuante", "CaixaDialogo Pagamento", "Input"]));
    assert!(f.no_dialogo);
    assert_eq!(f.tipo_do_dialogo.as_deref(), Some("Pagamento"));
    assert!(f.no_campo);
    assert!(!f.no_cupom);
    let rota = ui_gpui::caixa::teclado::contexto_da_tecla(&pilha(&["Caixa", "CaixaDialogo Desconto"]));
    assert!(!rota.no_dialogo, "o diálogo da rota não é do painel");
    assert_eq!(rota.tipo_do_dialogo, None);
    let cupom = ui_gpui::caixa::teclado::contexto_da_tecla(&pilha(&["Flutuante", "CaixaCupom"]));
    assert!(cupom.no_cupom && !cupom.no_dialogo && !cupom.no_campo);
    let atalhos = ui_gpui::caixa::teclado::contexto_da_tecla(&pilha(&["Flutuante", "CaixaDialogo Atalhos"]));
    assert!(atalhos.no_dialogo);
    assert_eq!(atalhos.tipo_do_dialogo, None, "atalhos não tem teclas próprias");
}

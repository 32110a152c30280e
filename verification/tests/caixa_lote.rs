use ui_gpui::caixa::lote::{
    gravar_lote, receber_lote, soltar_lote, DepoisDaResposta, Envio, Lote, TipoDeLote,
    TipoDeRecado, EM_VOO,
};

fn ids(n: usize) -> Vec<String> {
    (0..n).map(|i| format!("f{i}")).collect()
}

fn mandar(envio: Envio) -> Vec<String> {
    match envio {
        Envio::Mandar(ids) => ids,
        Envio::SemConta => panic!("sem conta"),
    }
}

#[test]
fn o_lote_manda_quatro_de_cada_vez_na_ordem() {
    let mut lote: Option<Lote> = None;
    let primeiros = mandar(
        gravar_lote(
            &mut lote,
            ids(10),
            TipoDeLote::Tipo,
            "10 foto(s)".into(),
            true,
        )
        .expect("começa"),
    );
    assert_eq!(primeiros, vec!["f0", "f1", "f2", "f3"]);
    assert_eq!(lote.as_ref().map(|l| l.no_ar), Some(EM_VOO));

    let mut enviados = primeiros;
    let mut fim = None;
    let mut respostas = 0;
    while fim.is_none() {
        respostas += 1;
        match receber_lote(&mut lote, Ok(()), true) {
            DepoisDaResposta::Seguir(envio) => {
                let novos = mandar(envio);
                assert_eq!(novos.len(), 1, "uma resposta libera um lugar");
                enviados.extend(novos);
            }
            DepoisDaResposta::Esperar => {}
            DepoisDaResposta::Terminou(f) => fim = Some(f),
            DepoisDaResposta::Nada => panic!("o lote sumiu"),
        }
        assert!(lote.as_ref().map_or(0, |l| l.no_ar) <= EM_VOO, "quatro no ar, no máximo");
    }
    assert_eq!(respostas, 10);
    assert_eq!(enviados, ids(10), "um PATCH por foto, nenhuma duas vezes, na ordem");
    let fim = fim.unwrap();
    assert_eq!(fim.feitas, 10);
    assert!(fim.reler);
    assert_eq!(fim.recados.len(), 1);
    assert_eq!(fim.recados[0].texto, "Tipo de ensaio alterado em 10 foto(s).");
    assert_eq!(fim.recados[0].tipo, TipoDeRecado::Sucesso);
    assert!(lote.is_none());
}

#[test]
fn um_segundo_lote_espera_o_primeiro_acabar() {
    let mut lote: Option<Lote> = None;
    assert!(gravar_lote(&mut lote, ids(2), TipoDeLote::Tipo, "2".into(), true).is_some());
    assert!(
        gravar_lote(&mut lote, ids(3), TipoDeLote::Tipo, "3".into(), true).is_none(),
        "o segundo lote foi recusado"
    );
    assert_eq!(lote.as_ref().map(|l| l.total), Some(2));
    assert!(gravar_lote(&mut None, Vec::new(), TipoDeLote::Tipo, "0".into(), true).is_none());
}

#[test]
fn as_falhas_sao_contadas_e_cada_frase_aparece_uma_vez() {
    let mut lote: Option<Lote> = None;
    gravar_lote(
        &mut lote,
        ids(3),
        TipoDeLote::NegociacaoRapida { removida: false },
        "3 foto(s)".into(),
        true,
    );
    let erro = || Err("Erro: o site respondeu 500: Internal Server Error".to_string());
    assert!(matches!(receber_lote(&mut lote, erro(), true), DepoisDaResposta::Esperar));
    assert!(matches!(receber_lote(&mut lote, Ok(()), true), DepoisDaResposta::Esperar));
    let fim = match receber_lote(&mut lote, erro(), true) {
        DepoisDaResposta::Terminou(f) => f,
        _ => panic!("o lote terminou"),
    };
    assert_eq!(fim.feitas, 1);
    assert_eq!(fim.recados.len(), 1, "com falha, sem recibo de sucesso");
    assert_eq!(
        fim.recados[0].texto,
        "2 não mudaram: Não foi possível registrar a negociação."
    );
    assert_eq!(fim.recados[0].tipo, TipoDeRecado::Erro);
    assert_eq!(fim.recados[0].segundos, 8);
}

#[test]
fn frases_diferentes_sao_juntas_com_barra() {
    let mut lote: Option<Lote> = None;
    gravar_lote(&mut lote, ids(2), TipoDeLote::Tipo, "2".into(), true);
    receber_lote(&mut lote, Err("o site respondeu 403: nope".into()), true);
    let fim = match receber_lote(&mut lote, Err("rede caída".into()), true) {
        DepoisDaResposta::Terminou(f) => f,
        _ => panic!("o lote terminou"),
    };
    assert_eq!(
        fim.recados[0].texto,
        "2 não mudaram: Sua conta não pode administrar galerias. / Não foi possível mudar a faixa da foto."
    );
    assert!(!fim.reler);
}

#[test]
fn o_dialogo_avisa_quantas_mudaram() {
    let mut lote: Option<Lote> = None;
    gravar_lote(
        &mut lote,
        ids(2),
        TipoDeLote::NegociacaoDoDialogo { removida: true },
        "2 foto(s)".into(),
        true,
    );
    receber_lote(&mut lote, Ok(()), true);
    let fim = match receber_lote(&mut lote, Err("x".into()), true) {
        DepoisDaResposta::Terminou(f) => f,
        _ => panic!("o lote terminou"),
    };
    let textos: Vec<&str> = fim.recados.iter().map(|r| r.texto.as_str()).collect();
    assert_eq!(
        textos,
        vec![
            "1 não mudaram: Não foi possível registrar a negociação.",
            "1 foto(s) com a negociação removida."
        ]
    );
}

#[test]
fn a_negociacao_rapida_removida_da_o_recibo() {
    let mut lote: Option<Lote> = None;
    gravar_lote(
        &mut lote,
        ids(1),
        TipoDeLote::NegociacaoRapida { removida: true },
        "esta foto".into(),
        true,
    );
    let fim = match receber_lote(&mut lote, Ok(()), true) {
        DepoisDaResposta::Terminou(f) => f,
        _ => panic!("o lote terminou"),
    };
    assert_eq!(fim.recados[0].texto, "Negociação removida de esta foto.");
    assert_eq!(fim.recados[0].segundos, 5);
}

#[test]
fn sem_conta_nada_sai_e_o_lote_acaba() {
    let mut lote: Option<Lote> = None;
    let envio = gravar_lote(&mut lote, ids(6), TipoDeLote::Tipo, "6".into(), false);
    assert!(matches!(envio, Some(Envio::SemConta)));
    assert!(lote.is_none());
    assert!(matches!(soltar_lote(&mut lote, true), Envio::Mandar(v) if v.is_empty()));
    assert!(matches!(receber_lote(&mut lote, Ok(()), true), DepoisDaResposta::Nada));
}

#[test]
fn a_fila_guarda_o_resto_de_tras_para_frente() {
    let l = Lote::novo(ids(3), TipoDeLote::Tipo, "3".into()).expect("há ids");
    assert_eq!(l.fila, vec!["f2", "f1", "f0"]);
    assert_eq!(l.total, 3);
    assert!(Lote::novo(Vec::new(), TipoDeLote::Tipo, "0".into()).is_none());
}

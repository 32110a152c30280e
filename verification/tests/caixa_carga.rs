use ui_gpui::caixa::carga::{avisos_da_vista, caixa_da_vista, estudio_do_painel, sessoes_do_estudio, Carga};
use ui_gpui::caixa::dados::{Faixa, FaixaDoCatalogo, SessaoACobrar, SessaoDaLista};

type CargaDeTeste = Carga<&'static str, (), u32>;

fn faixas(n: usize) -> Vec<FaixaDoCatalogo> {
    (0..n)
        .map(|i| FaixaDoCatalogo {
            id: format!("p{i}"),
            faixa: Faixa {
                nome: format!("Produto {i}"),
                preco: 100,
            },
        })
        .collect()
}

#[test]
fn a_carga_so_fica_pronta_quando_tudo_chegou() {
    let mut c = CargaDeTeste::nova(None, Some("g".into()), false);
    assert!(!c.pronta());
    c.estudios = Some(Vec::new());
    c.galerias = Some(Some(Vec::new()));
    c.funcionarios = Some(Vec::new());
    assert_eq!(c.receber_pagina(Some(faixas(3))), None, "página incompleta é o fim");
    assert!(c.catalogo_pronto);
    assert!(!c.sessao_chegou());
    c.galeria = Some(Some("galeria"));
    assert!(!c.pronta(), "faltam as vendas");
    c.vendas = Some(None);
    assert!(c.sessao_chegou());
    assert!(!c.pronta(), "o estúdio ainda não foi decidido");
    c.estudio_id = Some(Some("e".into()));
    assert!(!c.pronta(), "falta o caixa do estúdio");
    c.caixa = Some(None);
    assert!(c.pronta());
}

#[test]
fn sem_estudio_decidido_nao_se_espera_caixa() {
    let mut c = CargaDeTeste::nova(None, None, false);
    c.estudios = Some(Vec::new());
    c.galerias = Some(None);
    c.funcionarios = Some(Vec::new());
    c.receber_pagina(None);
    c.estudio_id = Some(None);
    assert!(c.pronta());
}

#[test]
fn o_catalogo_vem_de_duzentos_em_duzentos_ate_vinte_paginas() {
    let mut c = CargaDeTeste::nova(None, None, false);
    assert_eq!(c.receber_pagina(Some(faixas(200))), Some(1));
    assert_eq!(c.receber_pagina(Some(faixas(200))), Some(2));
    assert!(!c.catalogo_pronto);
    assert_eq!(c.catalogo.len(), 400);
    c.paginas = 19;
    assert_eq!(c.receber_pagina(Some(faixas(200))), None, "a vigésima é a última");
    assert!(c.catalogo_pronto);
    assert_eq!(c.receber_pagina(None), None);
    assert!(c.catalogo.is_empty(), "sem catálogo, as faixas da galeria bastam");
}

#[test]
fn o_caixa_indisponivel_e_o_que_nao_respondeu() {
    let e = Some("e".to_string());
    assert_eq!(caixa_da_vista(&e, Some(Some(Some(7)))), (Some(7), false));
    assert_eq!(caixa_da_vista(&e, Some(Some(None::<u32>))), (None, false), "fechado");
    assert_eq!(caixa_da_vista(&e, Some(None::<Option<u32>>)), (None, true));
    assert_eq!(caixa_da_vista(&e, None::<Option<Option<u32>>>), (None, true));
    assert_eq!(caixa_da_vista(&None, Some(Some(Some(7)))), (None, false));
}

fn linha(id: &str, estudio: Option<&str>) -> SessaoDaLista {
    SessaoDaLista {
        sessao: SessaoACobrar {
            id: id.into(),
            titulo: id.to_uppercase(),
            contato: None,
            criada_em: String::new(),
            sinalizadas: 0,
        },
        estudio_id: estudio.map(String::from),
    }
}

#[test]
fn so_as_sessoes_do_estudio_entram() {
    let lista = vec![linha("a", Some("e1")), linha("b", None), linha("c", Some("e2")), linha("d", Some("e1"))];
    let ids: Vec<String> = sessoes_do_estudio(&lista, &Some("e1".into()))
        .into_iter()
        .map(|s| s.id)
        .collect();
    assert_eq!(ids, vec!["a", "d"]);
    assert!(sessoes_do_estudio(&lista, &None).is_empty(), "sem estúdio, nenhuma");
}

#[test]
fn a_sessao_de_outro_estudio_e_a_excluida_viram_aviso() {
    assert_eq!(
        avisos_da_vista(true, true, Some(("De Canela", Some("canela"))), Some("gramado"), true, false),
        vec!["“De Canela” é de outro estúdio: escolha o estúdio dela para cobrar.".to_string()]
    );
    assert_eq!(
        avisos_da_vista(true, true, None, Some("gramado"), true, false),
        vec!["A sessão pedida não existe mais ou foi excluída.".to_string()]
    );
    assert_eq!(
        avisos_da_vista(true, true, Some(("Solta", None)), Some("gramado"), true, false),
        vec!["“Solta” não tem estúdio: escolha o estúdio dela na sessão antes de cobrar.".to_string()]
    );
    assert_eq!(
        avisos_da_vista(false, true, Some(("Ok", Some("gramado"))), Some("gramado"), false, false),
        vec![
            "A lista de sessões não carregou. Recarregue a página.".to_string(),
            "As vendas desta sessão não carregaram: o cupom pode incluir foto já vendida.".to_string()
        ]
    );
    assert!(avisos_da_vista(true, false, None, None, false, true).is_empty());
    assert!(avisos_da_vista(true, true, Some(("Ok", Some("g"))), Some("g"), true, false).is_empty());
}

#[test]
fn no_painel_o_estudio_e_o_da_sessao() {
    assert_eq!(estudio_do_painel(true, false, Some(Some("e".into()))), Some(Some("e".to_string())));
    assert_eq!(estudio_do_painel(true, false, Some(None)), Some(None));
    assert_eq!(estudio_do_painel(true, false, None), Some(None), "sessão que não veio não tem caixa");
    assert_eq!(estudio_do_painel(false, false, Some(Some("e".into()))), None);
    assert_eq!(estudio_do_painel(true, true, Some(Some("e".into()))), None);
}

#[test]
fn no_painel_a_carga_nasce_sem_listas() {
    let c = CargaDeTeste::nova(None, Some("g".into()), true);
    assert_eq!(c.estudios.as_ref().map(|e| e.len()), Some(0));
    assert!(matches!(c.galerias, Some(Some(ref g)) if g.is_empty()));
    assert!(!c.pronta());
}

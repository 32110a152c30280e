use ui_gpui::caixa::dados::{
    estado, EstadoDaFoto,
    cabe_em_centavos, centavos_da_api, contato_informado, data_br, dia_e_hora_br,
    estudios_ativos, hora_br, juntar_faixas, mensagem_do_erro, mensagem_do_erro_com, na_ordem,
    nome_do_funcionario, sessao_da_lista, status_do_erro, todos_os_funcionarios, EstudioDaApi,
    EstudioDoCaixa, Faixa, FaixaDoCatalogo, Funcionario, GaleriaDaLista, ProdutoDaApi,
};

#[test]
fn o_dinheiro_da_api_arredonda_no_terceiro_decimal() {
    assert_eq!(centavos_da_api("99.99"), 9999);
    assert_eq!(centavos_da_api("299.8999999"), 29990);
    assert_eq!(centavos_da_api("25"), 2500);
    assert_eq!(centavos_da_api("1.5"), 150);
    assert_eq!(centavos_da_api("-2.50"), -250);
    assert_eq!(centavos_da_api("abc"), 0);
    assert_eq!(centavos_da_api(""), 0);
}

#[test]
fn a_hora_e_a_do_estudio() {
    assert_eq!(hora_br("2026-09-16T17:09:00Z"), "14:09");
    assert_eq!(data_br("2026-09-16T01:00:00Z"), "15/09/2026");
    assert_eq!(dia_e_hora_br("2026-09-16T17:09:00+00:00"), "16/09, 14:09");
    assert_eq!(hora_br("lixo"), "");
}

#[test]
fn o_erro_do_backend_so_aparece_nos_casos_que_importam() {
    let padrao = "Não foi possível abrir o caixa.";
    assert_eq!(
        mensagem_do_erro(
            "Erro de infraestrutura: o site respondeu 409: O caixa já está aberto.",
            padrao
        ),
        "O caixa já está aberto."
    );
    assert_eq!(
        mensagem_do_erro("Erro de infraestrutura: o site respondeu 403: nope", padrao),
        "Sua conta não pode operar o caixa."
    );
    assert_eq!(
        mensagem_do_erro("Erro de infraestrutura: o site respondeu 500: boom", padrao),
        padrao
    );
    assert_eq!(mensagem_do_erro("rede caída", padrao), padrao);
    assert_eq!(status_do_erro("x: o site respondeu 410: excluída"), Some(410));
    assert_eq!(status_do_erro("rede caída"), None);
}

#[test]
fn o_dinheiro_tolera_espacos_e_corta_no_terceiro_decimal() {
    assert_eq!(centavos_da_api("  12.345 "), 1235);
    assert_eq!(centavos_da_api("0.004"), 0);
    assert_eq!(centavos_da_api("0.005"), 1);
    assert_eq!(centavos_da_api(".5"), 50);
    assert_eq!(centavos_da_api("7."), 700);
    assert_eq!(centavos_da_api("1.2.3"), 0, "dois pontos não é dinheiro");
    assert_eq!(centavos_da_api("--1"), 0);
    assert_eq!(centavos_da_api("+1"), 0, "o sinal de mais não é aceito");
    assert_eq!(centavos_da_api("99999999999999999999"), 0, "não cabe num i64");
    assert_eq!(centavos_da_api("-0"), 0);
}

#[test]
fn o_que_nao_cabe_em_centavos_e_avisado_antes() {
    assert!(cabe_em_centavos("92233720368547758.07"));
    assert!(!cabe_em_centavos("92233720368547758.08"));
    assert!(!cabe_em_centavos("9223372036854775807"));
    assert!(cabe_em_centavos("lixo"));
    assert_eq!(centavos_da_api("92233720368547758.07"), i64::MAX);
}

#[test]
fn o_ano_fora_de_quatro_digitos_leva_o_sinal() {
    assert_eq!(data_br("0099-01-02T12:00:00Z"), "02/01/0099");
    assert_eq!(hora_br("2026-01-01T02:30:00Z"), "23:30", "volta para o dia anterior");
    assert_eq!(data_br("2026-01-01T02:30:00Z"), "31/12/2025");
    assert_eq!(data_br(""), "");
}

#[test]
fn a_mensagem_vazia_ou_de_outro_status_fica_com_o_padrao() {
    let padrao = "padrão";
    assert_eq!(
        mensagem_do_erro("o site respondeu 404:    ", padrao),
        padrao,
        "mensagem em branco não vale"
    );
    assert_eq!(mensagem_do_erro("o site respondeu 422: campo", padrao), "campo");
    assert_eq!(mensagem_do_erro("o site respondeu 400:  x  ", padrao), "x");
    assert_eq!(mensagem_do_erro("o site respondeu abc: x", padrao), padrao);
    assert_eq!(mensagem_do_erro("o site respondeu 409", padrao), padrao, "sem mensagem");
    assert_eq!(
        mensagem_do_erro_com("o site respondeu 403", padrao, "Sua conta não pode administrar galerias."),
        "Sua conta não pode administrar galerias."
    );
    assert_eq!(status_do_erro("o site respondeu  404 :x"), Some(404));
    assert_eq!(status_do_erro("o site respondeu 70000: x"), None);
}

#[test]
fn so_os_estudios_ativos_entram() {
    let lidos = estudios_ativos(vec![
        EstudioDaApi {
            id: "a".into(),
            name: "Centro".into(),
            city: "Gramado".into(),
            is_active: true,
        },
        EstudioDaApi {
            id: "b".into(),
            name: "Fechado".into(),
            city: "Canela".into(),
            is_active: false,
        },
    ]);
    assert_eq!(
        lidos,
        vec![EstudioDoCaixa {
            id: "a".into(),
            nome: "Centro".into(),
            cidade: "Gramado".into()
        }]
    );
}

#[test]
fn a_lista_de_sessoes_usa_o_email_e_senao_o_whatsapp() {
    let lidas: Vec<_> = vec![
        GaleriaDaLista {
            id: "g1".into(),
            titulo: "A".into(),
            email: None,
            whatsapp: Some("5551".into()),
            estudio_id: Some("e".into()),
            criada_em: "2026-09-16T10:00:00Z".into(),
            levadas_no_balcao: 3,
        },
        GaleriaDaLista {
            id: "g2".into(),
            titulo: "B".into(),
            email: Some("b@x".into()),
            whatsapp: Some("5552".into()),
            estudio_id: None,
            criada_em: "2026-09-15T10:00:00Z".into(),
            levadas_no_balcao: 0,
        },
    ]
    .into_iter()
    .map(sessao_da_lista)
    .collect();
    assert_eq!(lidas[0].sessao.contato.as_deref(), Some("5551"));
    assert_eq!(lidas[0].sessao.sinalizadas, 3);
    assert_eq!(lidas[0].estudio_id.as_deref(), Some("e"));
    assert_eq!(lidas[1].sessao.contato.as_deref(), Some("b@x"));
    assert_eq!(lidas[1].estudio_id, None);
}

#[test]
fn o_catalogo_manda_e_a_galeria_completa() {
    let catalogo: Vec<FaixaDoCatalogo> = vec![
        ProdutoDaApi {
            id: "p".into(),
            nome: "Digital".into(),
            preco: Some(centavos_da_api("20.00")),
            preco_cheio: Some(centavos_da_api("25.00")),
        },
        ProdutoDaApi {
            id: "q".into(),
            nome: "Impressa".into(),
            preco: Some(centavos_da_api("40.00")),
            preco_cheio: None,
        },
    ]
    .into_iter()
    .map(ProdutoDaApi::de_balcao)
    .collect();
    assert_eq!(catalogo[0].faixa.preco, 2500);
    assert_eq!(catalogo[1].faixa.preco, 4000);
    let da_galeria = vec![
        FaixaDoCatalogo {
            id: "p".into(),
            faixa: Faixa {
                nome: "outro nome".into(),
                preco: 1,
            },
        },
        FaixaDoCatalogo {
            id: "apagado".into(),
            faixa: Faixa {
                nome: "Antigo".into(),
                preco: 900,
            },
        },
    ];
    let faixas = juntar_faixas(&catalogo, &da_galeria);
    let ids: Vec<&str> = faixas.iter().map(|f| f.id.as_str()).collect();
    assert_eq!(ids, vec!["p", "q", "apagado"]);
    assert_eq!(faixas[0].faixa.nome, "Digital");
}

#[test]
fn sem_preco_nenhum_o_balcao_cobra_zero() {
    let f = ProdutoDaApi {
        id: "x".into(),
        nome: "Brinde".into(),
        preco: None,
        preco_cheio: None,
    }
    .de_balcao();
    assert_eq!(f.faixa.preco, 0);
}

#[test]
fn a_galeria_repetida_entra_uma_vez_so() {
    let faixa = |id: &str, preco: i64| FaixaDoCatalogo {
        id: id.into(),
        faixa: Faixa {
            nome: id.to_uppercase(),
            preco,
        },
    };
    let faixas = juntar_faixas(&[], &[faixa("a", 1), faixa("a", 2), faixa("b", 3)]);
    let resumo: Vec<(String, i64)> = faixas.into_iter().map(|f| (f.id, f.faixa.preco)).collect();
    assert_eq!(resumo, vec![("a".to_string(), 1), ("b".to_string(), 3)]);
}

#[test]
fn os_ids_saem_na_ordem_da_lista() {
    let ordem: Vec<String> = ["c", "a", "b", "d"].iter().map(|s| s.to_string()).collect();
    let conjunto: Vec<String> = ["b", "c", "z"].iter().map(|s| s.to_string()).collect();
    assert_eq!(na_ordem(&ordem, &conjunto), vec!["c".to_string(), "b".to_string()]);
    assert!(na_ordem(&ordem, &[]).is_empty());
}

fn funcionario(id: &str, nome: &str) -> Funcionario {
    Funcionario {
        id: id.into(),
        nome: nome.into(),
        whatsapp: None,
        email: None,
        ativo: true,
    }
}

#[test]
fn os_cadastrados_agora_entram_uma_vez_so() {
    let lista = vec![funcionario("1", "Ana"), funcionario("2", "Bia")];
    let novos = vec![funcionario("2", "Bia de novo"), funcionario("3", "Caio")];
    let todos = todos_os_funcionarios(&lista, &novos);
    let nomes: Vec<&str> = todos.iter().map(|f| f.nome.as_str()).collect();
    assert_eq!(nomes, vec!["Ana", "Bia", "Caio"]);
    assert_eq!(nome_do_funcionario(&todos, Some("3")), Some("Caio".to_string()));
    assert_eq!(nome_do_funcionario(&todos, Some("9")), None);
    assert_eq!(nome_do_funcionario(&todos, None), None);
}

#[test]
fn o_contato_vazio_vai_nulo() {
    assert_eq!(contato_informado(" "), None);
    assert_eq!(contato_informado(""), None);
    assert_eq!(contato_informado(" a@x "), Some("a@x".to_string()));
}

#[test]
fn o_dia_e_hora_e_o_comeco_da_data_mais_a_hora() {
    for iso in ["2026-09-16T17:09:00Z", "2026-01-01T02:30:00Z", "0099-01-02T12:00:00Z"] {
        let data = data_br(iso);
        assert_eq!(dia_e_hora_br(iso), format!("{}, {}", &data[..5], hora_br(iso)));
    }
    assert_eq!(dia_e_hora_br("lixo"), "");
    assert_eq!(data_br("lixo"), "");
}

#[test]
fn a_frase_so_deixa_o_padrao_quando_o_erro_diz_o_status() {
    let padrao = "padrão";
    for erro in [
        "o site respondeu 403: nope",
        "o site respondeu 409: já existe",
        "o site respondeu 404",
        "o site respondeu 500: boom",
        "o site respondeu 4:03: x",
        "rede caída",
    ] {
        let frase = mensagem_do_erro(erro, padrao);
        if status_do_erro(erro).is_none() {
            assert_eq!(frase, padrao, "{erro}");
        }
        if frase != padrao {
            assert!(matches!(status_do_erro(erro), Some(400 | 403 | 404 | 409 | 422)), "{erro}");
        }
    }
    assert_eq!(status_do_erro("o site respondeu 4:03: x"), Some(4));
    assert_eq!(mensagem_do_erro("o site respondeu 4:03: x", padrao), padrao);
}

#[test]
fn o_estado_da_foto_vem_do_texto_da_api() {
    assert_eq!(estado("levada_no_balcao"), EstadoDaFoto::LevadaNoBalcao);
    assert_eq!(estado("comprada"), EstadoDaFoto::Comprada);
    assert_eq!(estado("disponivel"), EstadoDaFoto::Disponivel);
    assert_eq!(estado("Comprada"), EstadoDaFoto::Disponivel, "o texto é exato");
    assert_eq!(estado(""), EstadoDaFoto::Disponivel);
}

#[test]
fn o_sinal_de_menos_nega_o_valor_arredondado() {
    for s in ["2.505", "99.99", "25", "0.004", "abc", "", "1.2.3"] {
        assert_eq!(centavos_da_api(&format!("-{s}")), -centavos_da_api(s), "{s}");
    }
    assert_eq!(centavos_da_api("-2.505"), -251);
}

#[test]
fn sem_ids_repetidos_na_ordem_reordena_o_conjunto() {
    let ordem: Vec<String> = ["a", "b", "c", "d"].iter().map(|s| s.to_string()).collect();
    let conjunto: Vec<String> = ["d", "a", "d"].iter().map(|s| s.to_string()).collect();
    assert_eq!(na_ordem(&ordem, &conjunto), vec!["a".to_string(), "d".to_string()]);
}

use ui_gpui::caixa::caminhos::{
    caminho_com_id, codificar, observacao_da_negociacao, pagina_do_catalogo, pedidos_da_navegacao,
    proxima_pagina,
};

#[test]
fn codificar_e_o_encode_uri_component() {
    assert_eq!(codificar("abc-123_.!~*'()"), "abc-123_.!~*'()");
    assert_eq!(codificar("a b/c?d"), "a%20b%2Fc%3Fd");
    assert_eq!(codificar("ç"), "%C3%A7");
    assert_eq!(codificar(""), "");
}

#[test]
fn a_pagina_do_catalogo_anda_de_duzentos_em_duzentos() {
    assert_eq!(pagina_do_catalogo(0), "/products/admin?limit=200&offset=0");
    assert_eq!(pagina_do_catalogo(3), "/products/admin?limit=200&offset=600");
}

#[test]
fn a_pagina_incompleta_e_o_fim_do_catalogo() {
    assert_eq!(proxima_pagina(200, 1), Some(1));
    assert_eq!(proxima_pagina(199, 1), None);
    assert_eq!(proxima_pagina(200, 20), None, "no máximo vinte páginas");
}

#[test]
fn a_observacao_vazia_apaga() {
    assert_eq!(observacao_da_negociacao(Some(" Desconto ".into())), Some("Desconto".to_string()));
    assert_eq!(observacao_da_negociacao(Some("  ".into())), None);
    assert_eq!(observacao_da_negociacao(None), None);
    let longa = "x".repeat(600);
    assert_eq!(observacao_da_negociacao(Some(longa)).map(|o| o.chars().count()), Some(500));
}

#[test]
fn a_navegacao_pede_tudo_o_que_a_tela_mostra() {
    let rotulos = |v: Vec<(String, String)>| v.into_iter().map(|(r, c)| format!("{r} {c}")).collect::<Vec<_>>();
    assert_eq!(
        rotulos(pedidos_da_navegacao(false, Some("g 1"))),
        vec![
            "estudios /bookings/studios/admin",
            "galerias /pos-venda/galerias",
            "funcionarios /pos-venda/funcionarios",
            "catalogo /products/admin?limit=200&offset=0",
            "galeria /pos-venda/galerias/g%201",
            "vendas /pos-venda/caixa/galerias/g%201/vendas",
        ]
    );
    assert_eq!(
        rotulos(pedidos_da_navegacao(true, None)),
        vec!["funcionarios /pos-venda/funcionarios", "catalogo /products/admin?limit=200&offset=0"],
        "o painel da galeria não tem lista nem seletor de estúdio"
    );
}

#[test]
fn o_id_vai_codificado_no_caminho() {
    assert_eq!(caminho_com_id("/pos-venda/fotos/", "a/b", ""), "/pos-venda/fotos/a%2Fb");
    assert_eq!(
        caminho_com_id("/pos-venda/caixa?estudio_id=", "é", ""),
        "/pos-venda/caixa?estudio_id=%C3%A9"
    );
}

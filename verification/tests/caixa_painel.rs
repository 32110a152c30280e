use ui_gpui::caixa::painel::{fecha_a_edicao, o_que_mudou, quantas, MudancaNoDetalhe};

#[test]
fn o_painel_segue_a_galeria_aberta() {
    let g1 = Some("g1".to_string());
    let g2 = Some("g2".to_string());
    let foco = Some("f".to_string());
    assert_eq!(
        o_que_mudou(&g1, &g2, 1, 1, &None, &None),
        MudancaNoDetalhe { outra_galeria: true, reler: false, redesenhar: true }
    );
    assert_eq!(
        o_que_mudou(&g1, &g1, 1, 2, &None, &foco),
        MudancaNoDetalhe { outra_galeria: false, reler: true, redesenhar: true }
    );
    assert_eq!(
        o_que_mudou(&g1, &g1, 1, 1, &foco, &foco),
        MudancaNoDetalhe { outra_galeria: false, reler: false, redesenhar: false }
    );
}

#[test]
fn trocar_de_item_fecha_a_barra() {
    assert!(fecha_a_edicao(Some("a"), "b"));
    assert!(!fecha_a_edicao(Some("a"), "a"));
    assert!(!fecha_a_edicao(None, "a"));
}

#[test]
fn shift_aplica_a_todos_os_itens() {
    let itens = vec!["a".to_string(), "b".to_string()];
    assert_eq!(quantas(true, &itens, Some("a")), (itens.clone(), "2 foto(s)".to_string()));
    assert_eq!(quantas(false, &itens, Some("b")), (vec!["b".to_string()], "esta foto".to_string()));
    assert_eq!(quantas(false, &itens, None), (Vec::new(), "esta foto".to_string()));
}

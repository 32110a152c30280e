use ui_gpui::biblioteca::filtros::{Filtros, NotaMinima};
use ui_gpui::biblioteca::foto::Foto;
use ui_gpui::biblioteca::marcacao::Marca;
use ui_gpui::biblioteca::tela::Biblioteca;

fn foto(nome: &str) -> Foto {
    Foto {
        id: format!("id-{nome}"),
        name: nome.to_string(),
        path: format!("/fotos/{nome}"),
        date: String::new(),
        camera: String::new(),
        exposure: String::new(),
        rating: 0,
        color_label: None,
        flag: None,
    }
}

fn acervo() -> Vec<Foto> {
    vec![foto("DSC_001.NEF"), foto("DSC_002.NEF"), foto("retrato.jpg")]
}

/// Dez fotos, com nota 0,1,2,3,4,0,1,2,3,4.
fn acervo_grande() -> Vec<Foto> {
    (0..10)
        .map(|i| Foto {
            rating: i % 5,
            ..foto(&format!("{i:02}.jpg"))
        })
        .collect()
}

fn nomes_visiveis(tela: &Biblioteca) -> Vec<String> {
    tela.visiveis
        .iter()
        .map(|&i| tela.fotos[i].name.clone())
        .collect()
}

fn com_nota_minima(tela: &mut Biblioteca, nota: u8) {
    let filtros = Filtros {
        nota_minima: NotaMinima(nota),
        ..tela.filtros.clone()
    };
    tela.filtrar(filtros);
}

#[test]
fn a_escolha_de_colunas_fica_entre_uma_e_cinco() {
    let mut tela = Biblioteca::nova(acervo_grande());
    assert_eq!(tela.colunas_fixas(), None, "sem escolha, é a janela que decide");
    tela.escolher_colunas(Some(0));
    assert_eq!(tela.colunas_fixas(), Some(1), "zero coluna não desenha nada");
    tela.escolher_colunas(Some(9));
    assert_eq!(tela.colunas_fixas(), Some(5));
    tela.escolher_colunas(Some(3));
    assert_eq!(tela.colunas_fixas(), Some(3));
    assert_eq!(tela.colunas_escolhidas(), Some(3));
    tela.escolher_colunas(None);
    assert_eq!(tela.colunas_fixas(), None);
}

#[test]
fn clicar_na_estrela_da_a_nota_a_selecao_inteira() {
    let mut tela = Biblioteca::nova(acervo_grande());
    tela.selecionar(Some(1));
    tela.alternar_uma(2);
    let gravadas = tela.dar_nota(3);
    assert_eq!(tela.fotos[1].rating, 3);
    assert_eq!(tela.fotos[2].rating, 3);
    assert_eq!(gravadas.len(), 2, "uma gravação por foto");
}

#[test]
fn a_selecao_anda_quando_o_filtro_tira_a_foto_da_grade() {
    let mut tela = Biblioteca::nova(acervo_grande());
    com_nota_minima(&mut tela, 3);
    assert_eq!(
        nomes_visiveis(&tela),
        vec!["03.jpg", "04.jpg", "08.jpg", "09.jpg"]
    );
    tela.selecionar(Some(3));
    tela.dar_nota(1);
    assert_eq!(
        tela.foto_selecionada().map(|f| f.name),
        Some("04.jpg".to_string()),
        "a seleção tem de andar para a seguinte que ainda está na grade"
    );
    assert_eq!(tela.quantas_selecionadas(), 1);
}

#[test]
fn sem_nenhuma_foto_na_grade_a_selecao_e_limpa() {
    let mut tela = Biblioteca::nova(acervo_grande());
    tela.selecionar(Some(4));
    com_nota_minima(&mut tela, 5);
    assert!(nomes_visiveis(&tela).is_empty(), "nenhuma tem cinco estrelas");
    assert!(tela.foto_selecionada().is_none());
    assert_eq!(tela.quantas_selecionadas(), 0);
}

#[test]
fn ao_apertar_o_filtro_a_principal_passa_a_ser_a_primeira_que_sobrou() {
    let mut tela = Biblioteca::nova(acervo_grande());
    com_nota_minima(&mut tela, 3);
    tela.selecionar(Some(4));
    tela.alternar_uma(9);
    tela.alternar_uma(3);
    assert_eq!(tela.quantas_selecionadas(), 3);
    assert_eq!(tela.foto_selecionada().map(|f| f.name), Some("03.jpg".into()));
    com_nota_minima(&mut tela, 4);
    assert_eq!(tela.quantas_selecionadas(), 2, "a que saiu da grade sai da seleção");
    assert_eq!(
        tela.foto_selecionada().map(|f| f.name),
        Some("04.jpg".to_string()),
        "a principal passa a ser a primeira das que sobraram"
    );
}

#[test]
fn cmd_clique_alterna_uma_so() {
    let mut tela = Biblioteca::nova(acervo_grande());
    tela.selecionar(Some(0));
    tela.alternar_uma(3);
    tela.alternar_uma(7);
    assert_eq!(tela.quantas_selecionadas(), 3);
    tela.alternar_uma(3);
    assert_eq!(tela.quantas_selecionadas(), 2);
    assert_eq!(
        tela.ids_selecionados(),
        vec!["id-00.jpg".to_string(), "id-07.jpg".to_string()],
        "e saem na ordem do acervo, não na de clique nem na do hash"
    );
}

#[test]
fn shift_clique_estende_pelo_que_esta_na_grade() {
    let mut tela = Biblioteca::nova(acervo_grande());
    com_nota_minima(&mut tela, 4);
    assert_eq!(nomes_visiveis(&tela), vec!["04.jpg", "09.jpg"]);
    tela.selecionar(Some(4));
    tela.selecionar_ate(9);
    assert_eq!(
        tela.ids_selecionados(),
        vec!["id-04.jpg".to_string(), "id-09.jpg".to_string()],
        "as duas da grade — e não as seis do intervalo 4..=9 do acervo"
    );
}

#[test]
fn selecionar_tudo_pega_so_o_que_esta_na_grade() {
    let mut tela = Biblioteca::nova(acervo_grande());
    com_nota_minima(&mut tela, 4);
    tela.selecionar_tudo();
    assert_eq!(tela.quantas_selecionadas(), 2, "e não as dez do acervo");
    assert!(
        tela.foto_selecionada().is_some(),
        "e alguém continua sendo a principal, senão a Revelação não sabe o que abrir"
    );
}

#[test]
fn a_nota_vale_para_todas_as_selecionadas() {
    let mut tela = Biblioteca::nova(acervo_grande());
    tela.selecionar(Some(1));
    tela.alternar_uma(2);
    tela.alternar_uma(3);
    let marcado = tela.dar_nota(5);
    for i in 1..=3 {
        assert_eq!(tela.fotos[i].rating, 5);
    }
    assert_eq!(marcado.len(), 3, "uma gravação por foto");
    assert!(marcado.iter().all(|(_, marca)| *marca == Marca::Nota(5)));
}

#[test]
fn o_sinalizador_decide_pelo_grupo_inteiro() {
    let mut fotos = acervo_grande();
    fotos[1].flag = Some(1);
    let mut tela = Biblioteca::nova(fotos);
    tela.selecionar(Some(1));
    tela.alternar_uma(2);
    tela.alternar_uma(3);
    tela.sinalizar(1);
    assert_eq!(
        (tela.fotos[1].flag, tela.fotos[2].flag, tela.fotos[3].flag),
        (Some(1), Some(1), Some(1)),
        "nem todas estavam escolhidas: a tecla escolhe as três"
    );
    tela.sinalizar(1);
    assert_eq!(
        (tela.fotos[1].flag, tela.fotos[2].flag, tela.fotos[3].flag),
        (Some(0), Some(0), Some(0))
    );
}

#[test]
fn clicar_numa_das_selecionadas_encolhe_em_vez_de_limpar() {
    let mut tela = Biblioteca::nova(acervo_grande());
    tela.selecionar(Some(1));
    tela.alternar_uma(2);
    tela.alternar_uma(3);
    tela.alternar_selecao(2);
    assert_eq!(tela.quantas_selecionadas(), 1);
    assert_eq!(tela.ids_selecionados(), vec!["id-02.jpg".to_string()]);
    tela.alternar_selecao(2);
    assert_eq!(tela.quantas_selecionadas(), 0);
}

#[test]
fn digitar_na_busca_filtra_a_grade() {
    let mut tela = Biblioteca::nova(acervo());
    assert_eq!(nomes_visiveis(&tela).len(), 3, "sem busca, a grade mostra o acervo inteiro");
    tela.filtrar(Filtros {
        busca: "RETRATO".to_string(),
        ..Default::default()
    });
    assert_eq!(nomes_visiveis(&tela), vec!["retrato.jpg"]);
}

#[test]
fn limpar_a_busca_devolve_o_acervo() {
    let mut tela = Biblioteca::nova(acervo());
    tela.filtrar(Filtros {
        busca: "retrato".to_string(),
        ..Default::default()
    });
    assert_eq!(nomes_visiveis(&tela), vec!["retrato.jpg"], "sem a ida, a volta não prova nada");
    tela.filtrar(Filtros::default());
    assert_eq!(nomes_visiveis(&tela).len(), 3);
}

#[test]
fn a_cor_decide_pelo_grupo_e_ignora_a_caixa() {
    let mut fotos = acervo_grande();
    fotos[1].color_label = Some("red".to_string());
    fotos[2].color_label = Some("Red".to_string());
    fotos[3].color_label = None;
    let mut tela = Biblioteca::nova(fotos);
    tela.selecionar(Some(1));
    tela.alternar_uma(2);
    tela.alternar_uma(3);
    let gravadas = tela.dar_cor("Red");
    assert_eq!(gravadas.len(), 3);
    assert!(gravadas.iter().all(|(_, m)| *m == Marca::Cor(Some("Red".to_string()))));
    assert_eq!(tela.fotos[3].color_label.as_deref(), Some("Red"));
    let gravadas = tela.dar_cor("RED");
    assert!(gravadas.iter().all(|(_, m)| *m == Marca::Cor(None)), "todas já tinham: tira");
    assert_eq!(tela.fotos[1].color_label, None);
    let ids: Vec<&str> = gravadas.iter().map(|(id, _)| id.as_str()).collect();
    assert_eq!(ids, vec!["id-01.jpg", "id-02.jpg", "id-03.jpg"]);
}

#[test]
fn sem_selecao_nada_e_gravado_nem_muda() {
    let mut tela = Biblioteca::nova(acervo_grande());
    assert!(tela.dar_nota(5).is_empty());
    assert!(tela.dar_cor("Red").is_empty());
    assert!(tela.sinalizar(1).is_empty());
    assert!(tela.fotos.iter().all(|f| f.rating < 5 && f.color_label.is_none() && f.flag.is_none()));
}

#[test]
fn as_setas_andam_sem_dar_a_volta() {
    let mut tela = Biblioteca::nova(acervo_grande());
    tela.andar(1);
    assert_eq!(tela.foto_selecionada().map(|f| f.name), Some("00.jpg".to_string()));
    tela.andar(-1);
    assert_eq!(tela.foto_selecionada().map(|f| f.name), Some("00.jpg".to_string()), "não dá a volta");
    tela.limpar_selecao();
    tela.andar(-1);
    assert_eq!(tela.foto_selecionada().map(|f| f.name), Some("09.jpg".to_string()));
    tela.andar(1);
    assert_eq!(tela.foto_selecionada().map(|f| f.name), Some("09.jpg".to_string()));
    com_nota_minima(&mut tela, 4);
    tela.selecionar(Some(4));
    tela.andar(1);
    assert_eq!(tela.foto_selecionada().map(|f| f.name), Some("09.jpg".to_string()), "anda pela grade");
}

#[test]
fn shift_clique_sem_ancora_marca_so_a_foto() {
    let mut tela = Biblioteca::nova(acervo_grande());
    tela.selecionar_ate(6);
    assert_eq!(tela.ids_selecionados(), vec!["id-06.jpg".to_string()]);
    tela.selecionar_ate(2);
    assert_eq!(
        tela.ids_selecionados(),
        vec!["id-02.jpg", "id-03.jpg", "id-04.jpg", "id-05.jpg", "id-06.jpg"]
            .into_iter()
            .map(String::from)
            .collect::<Vec<_>>(),
        "do 6 (âncora) até o 2, pelos dois lados"
    );
}

#[test]
fn as_visiveis_sao_as_fotos_da_grade() {
    let mut tela = Biblioteca::nova(acervo_grande());
    com_nota_minima(&mut tela, 4);
    let nomes: Vec<String> = tela.fotos_visiveis().into_iter().map(|f| f.name).collect();
    assert_eq!(nomes, vec!["04.jpg", "09.jpg"]);
    assert_eq!(tela.pastas.len(), 1);
    assert_eq!(tela.pastas[0].quantas, 10);
}

#[test]
fn o_contador_diz_as_duas_coisas_com_filtro() {
    let mut tela = Biblioteca::nova(acervo_grande());
    assert_eq!(tela.contador(), "10 fotos");
    com_nota_minima(&mut tela, 4);
    assert_eq!(tela.contador(), "2 de 10 fotos");
    let vazia = Biblioteca::nova(Vec::new());
    assert_eq!(
        vazia.contador(),
        "Nenhuma foto no catálogo — importe uma pasta pelo app de egui"
    );
}

#[test]
fn quantas_selecionadas_so_aparece_a_partir_de_duas() {
    let mut tela = Biblioteca::nova(acervo_grande());
    assert_eq!(tela.contador_da_selecao(), None);
    tela.selecionar(Some(2));
    assert_eq!(tela.contador_da_selecao(), None, "com uma, a moldura já diz");
    tela.alternar_uma(5);
    tela.alternar_uma(7);
    assert_eq!(tela.contador_da_selecao(), Some("3 selecionadas".to_string()));
}

#[test]
fn o_botao_da_cor_acende_e_apaga() {
    let mut fotos = acervo_grande();
    fotos[3].color_label = Some("Red".to_string());
    let mut tela = Biblioteca::nova(fotos);
    tela.alternar_cor_do_filtro("Red");
    assert_eq!(tela.filtros.cor.as_deref(), Some("Red"));
    assert_eq!(nomes_visiveis(&tela), vec!["03.jpg"]);
    tela.alternar_cor_do_filtro("Blue");
    assert_eq!(tela.filtros.cor.as_deref(), Some("Blue"), "outra cor troca");
    assert!(nomes_visiveis(&tela).is_empty());
    tela.alternar_cor_do_filtro("Blue");
    assert_eq!(tela.filtros.cor, None, "a acesa apaga");
    assert_eq!(nomes_visiveis(&tela).len(), 10);
}

#[test]
fn sanear_a_selecao_fica_com_a_que_sobrou_ou_anda_para_a_seguinte() {
    let mut tela = Biblioteca::nova(acervo_grande());
    com_nota_minima(&mut tela, 3);
    assert_eq!(tela.visiveis, vec![3, 4, 8, 9]);

    // Sobrou uma selecionada na grade: ela passa a ser a principal.
    tela.selecionada = Some(5);
    tela.ancora = Some(5);
    tela.marcadas[5] = true;
    tela.marcadas[8] = true;
    tela.sanear_selecao();
    assert_eq!(tela.selecionada, Some(8));
    assert_eq!(tela.ancora, Some(8));
    assert_eq!(tela.ids_selecionados(), vec!["id-08.jpg".to_string()]);

    // Nenhuma sobrou: anda para a seguinte da grade.
    tela.selecionar(Some(5));
    tela.sanear_selecao();
    assert_eq!(tela.selecionada, Some(8));
    assert_eq!(tela.ids_selecionados(), vec!["id-08.jpg".to_string()]);

    // Depois da última da grade não há seguinte: fica a última.
    tela.selecionar(Some(9));
    tela.marcadas[9] = false;
    tela.selecionada = Some(9);
    tela.sanear_selecao();
    assert_eq!(tela.selecionada, Some(9), "a 9 está na grade e fica");
}

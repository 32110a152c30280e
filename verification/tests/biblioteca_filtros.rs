use ui_gpui::biblioteca::filtros::{indices_visiveis, FiltroDeSinalizador, Filtros, NotaMinima};
use ui_gpui::biblioteca::foto::Foto;

fn foto(nome: &str, nota: i32, flag: Option<i32>, cor: Option<&str>) -> Foto {
    Foto {
        id: nome.to_string(),
        name: nome.to_string(),
        path: format!("/fotos/{nome}"),
        date: String::new(),
        camera: String::new(),
        exposure: String::new(),
        rating: nota,
        color_label: cor.map(|c| c.to_string()),
        flag,
    }
}

fn acervo() -> Vec<Foto> {
    vec![
        foto("DSC_001.NEF", 0, None, None),
        foto("DSC_002.NEF", 3, Some(1), Some("Red")),
        foto("DSC_003.NEF", 5, Some(-1), Some("Blue")),
        foto("retrato.jpg", 4, None, Some("Red")),
    ]
}

fn nomes(fotos: &[Foto], filtros: &Filtros) -> Vec<String> {
    indices_visiveis(fotos, filtros)
        .into_iter()
        .map(|i| fotos[i].name.clone())
        .collect()
}

#[test]
fn sem_filtro_mostra_o_acervo_inteiro() {
    let fotos = acervo();
    assert_eq!(indices_visiveis(&fotos, &Filtros::default()).len(), 4);
}

#[test]
fn a_nota_e_minima_e_nao_exata() {
    let fotos = acervo();
    let filtros = Filtros {
        nota_minima: NotaMinima(3),
        ..Default::default()
    };
    assert_eq!(
        nomes(&fotos, &filtros),
        vec!["DSC_002.NEF", "DSC_003.NEF", "retrato.jpg"]
    );
}

#[test]
fn rejeitada_e_menos_um_e_nao_dois() {
    let fotos = acervo();
    let filtros = Filtros {
        sinalizador: FiltroDeSinalizador::Rejeitadas,
        ..Default::default()
    };
    assert_eq!(nomes(&fotos, &filtros), vec!["DSC_003.NEF"]);
}

#[test]
fn escolhidas_e_sem_sinalizador_sao_conjuntos_diferentes() {
    let fotos = acervo();
    let escolhidas = Filtros {
        sinalizador: FiltroDeSinalizador::Escolhidas,
        ..Default::default()
    };
    assert_eq!(nomes(&fotos, &escolhidas), vec!["DSC_002.NEF"]);
    let sem = Filtros {
        sinalizador: FiltroDeSinalizador::SemSinalizador,
        ..Default::default()
    };
    assert_eq!(nomes(&fotos, &sem), vec!["DSC_001.NEF", "retrato.jpg"]);
}

#[test]
fn a_cor_e_exata() {
    let fotos = acervo();
    let filtros = Filtros {
        cor: Some("Red".to_string()),
        ..Default::default()
    };
    assert_eq!(nomes(&fotos, &filtros), vec!["DSC_002.NEF", "retrato.jpg"]);
}

#[test]
fn a_busca_ignora_maiusculas_e_casa_por_trecho() {
    let fotos = acervo();
    let filtros = Filtros {
        busca: "RETRATO".to_string(),
        ..Default::default()
    };
    assert_eq!(nomes(&fotos, &filtros), vec!["retrato.jpg"]);
}

#[test]
fn os_filtros_se_combinam() {
    let fotos = acervo();
    let filtros = Filtros {
        nota_minima: NotaMinima(4),
        cor: Some("Red".to_string()),
        ..Default::default()
    };
    assert_eq!(nomes(&fotos, &filtros), vec!["retrato.jpg"]);
}

#[test]
fn nota_negativa_no_banco_conta_como_zero() {
    let fotos = vec![foto("estranha.jpg", -1, None, None)];
    let filtros = Filtros {
        nota_minima: NotaMinima(1),
        ..Default::default()
    };
    assert!(indices_visiveis(&fotos, &filtros).is_empty());
}

#[test]
fn os_indices_apontam_para_o_acervo_original() {
    let fotos = acervo();
    let filtros = Filtros {
        cor: Some("Blue".to_string()),
        ..Default::default()
    };
    let indices = indices_visiveis(&fotos, &filtros);
    assert_eq!(indices, vec![2]);
    assert_eq!(fotos[indices[0]].name, "DSC_003.NEF");
}

#[test]
fn sem_filtro_o_filtro_esta_vazio_e_aceita_qualquer_foto() {
    let filtros = Filtros::default();
    assert!(filtros.vazio());
    for f in acervo() {
        assert!(filtros.aceita(&f));
    }
    let com_busca = Filtros {
        busca: "  ".to_string(),
        ..Default::default()
    };
    assert!(com_busca.vazio(), "busca só de espaços não filtra");
}

#[test]
fn a_busca_tira_os_espacos_das_pontas() {
    let fotos = acervo();
    let filtros = Filtros {
        busca: "  dsc_00 ".to_string(),
        ..Default::default()
    };
    assert_eq!(
        nomes(&fotos, &filtros),
        vec!["DSC_001.NEF", "DSC_002.NEF", "DSC_003.NEF"]
    );
}

#[test]
fn a_pasta_filtra_pelo_diretorio_exato() {
    let mut fotos = acervo();
    fotos[0].path = "/outra/DSC_001.NEF".to_string();
    let filtros = Filtros {
        pasta: Some("/fotos".to_string()),
        ..Default::default()
    };
    assert_eq!(
        nomes(&fotos, &filtros),
        vec!["DSC_002.NEF", "DSC_003.NEF", "retrato.jpg"]
    );
}

use ui_gpui::biblioteca::foto::Foto;
use ui_gpui::biblioteca::informacoes::{estatisticas, estrelas};

fn foto(camera: &str, nota: i32) -> Foto {
    Foto {
        id: String::new(),
        name: String::new(),
        path: String::new(),
        date: String::new(),
        camera: camera.to_string(),
        exposure: String::new(),
        rating: nota,
        color_label: None,
        flag: None,
    }
}

#[test]
fn a_distribuicao_conta_cada_nota() {
    let acervo = vec![
        foto("Nikon Z6", 5),
        foto("Nikon Z6", 5),
        foto("Nikon Z6", 3),
        foto("Canon R6", 0),
    ];
    let estatisticas = estatisticas(&acervo);
    assert_eq!(estatisticas.por_nota, [1, 0, 0, 1, 0, 2]);
    assert_eq!(estatisticas.total, 4);
}

#[test]
fn nota_fora_da_faixa_e_presa_em_vez_de_estourar() {
    let acervo = vec![foto("Nikon Z6", 9), foto("Nikon Z6", -3)];
    let estatisticas = estatisticas(&acervo);
    assert_eq!(estatisticas.por_nota[5], 1);
    assert_eq!(estatisticas.por_nota[0], 1);
}

#[test]
fn camera_desconhecida_fica_de_fora() {
    let acervo = vec![foto("Unknown", 0), foto("", 0), foto("Leica M11", 0)];
    let estatisticas = estatisticas(&acervo);
    assert_eq!(estatisticas.cameras, vec![("Leica M11".to_string(), 1)]);
}

#[test]
fn o_empate_e_desempatado_pelo_nome() {
    let acervo = vec![foto("Sony A7", 0), foto("Canon R6", 0), foto("Nikon Z6", 0)];
    for _ in 0..3 {
        let estatisticas = estatisticas(&acervo);
        let nomes: Vec<&str> = estatisticas
            .cameras
            .iter()
            .map(|(nome, _)| nome.as_str())
            .collect();
        assert_eq!(nomes, vec!["Canon R6", "Nikon Z6", "Sony A7"]);
    }
}

#[test]
fn a_lista_de_cameras_para_em_cinco() {
    let acervo: Vec<Foto> = (0..8).map(|i| foto(&format!("Camera {i}"), 0)).collect();
    assert_eq!(estatisticas(&acervo).cameras.len(), 5);
}

#[test]
fn acervo_vazio_nao_tem_nada_a_dizer() {
    let estatisticas = estatisticas(&[]);
    assert_eq!(estatisticas.total, 0);
    assert_eq!(estatisticas.por_nota, [0; 6]);
    assert!(estatisticas.cameras.is_empty());
}

#[test]
fn a_nota_vira_estrelas() {
    assert_eq!(estrelas(0), "");
    assert_eq!(estrelas(3), "★★★");
    assert_eq!(estrelas(9), "★★★★★", "e nota fora da faixa não vira dez");
}

#[test]
fn a_mais_usada_vem_primeiro_e_a_contagem_decide_antes_do_nome() {
    let acervo = vec![
        foto("Canon R6", 0),
        foto("Sony A7", 0),
        foto("Sony A7", 0),
        foto("Nikon Z6", 0),
        foto("Sony A7", 0),
        foto("Nikon Z6", 0),
    ];
    let e = estatisticas(&acervo);
    assert_eq!(
        e.cameras,
        vec![
            ("Sony A7".to_string(), 3),
            ("Nikon Z6".to_string(), 2),
            ("Canon R6".to_string(), 1)
        ]
    );
}

#[test]
fn nota_negativa_vira_nenhuma_estrela() {
    assert_eq!(estrelas(-2), "");
    assert_eq!(estrelas(5), "★★★★★");
}

#[test]
fn as_contas_por_nota_somam_o_total() {
    let acervo = vec![foto("A", -3), foto("B", 0), foto("A", 2), foto("", 9), foto("C", 5), foto("C", 4)];
    let e = estatisticas(&acervo);
    assert_eq!(e.por_nota.iter().sum::<usize>(), e.total);
    assert_eq!(e.por_nota, [2, 0, 1, 0, 1, 2]);
}

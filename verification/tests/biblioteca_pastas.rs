use ui_gpui::biblioteca::foto::Foto;
use ui_gpui::biblioteca::pastas::{diretorio_de, na_pasta, nome_de, pastas_do_acervo};

fn foto(caminho: &str) -> Foto {
    Foto {
        id: caminho.to_string(),
        name: caminho.rsplit('/').next().unwrap_or(caminho).to_string(),
        path: caminho.to_string(),
        date: String::new(),
        camera: String::new(),
        exposure: String::new(),
        rating: 0,
        color_label: None,
        flag: None,
    }
}

#[test]
fn agrupa_por_diretorio_e_conta() {
    let fotos = vec![
        foto("/fotos/2024/a.nef"),
        foto("/fotos/2024/b.nef"),
        foto("/fotos/2025/c.nef"),
    ];
    let pastas = pastas_do_acervo(&fotos);
    assert_eq!(pastas.len(), 2);
    assert_eq!(pastas[0].caminho, "/fotos/2024");
    assert_eq!(pastas[0].nome, "2024");
    assert_eq!(pastas[0].quantas, 2);
    assert_eq!(pastas[1].quantas, 1);
}

#[test]
fn a_ordem_e_estavel_entre_execucoes() {
    let fotos = vec![foto("/z/1.nef"), foto("/a/2.nef"), foto("/m/3.nef")];
    let nomes: Vec<_> = pastas_do_acervo(&fotos)
        .into_iter()
        .map(|p| p.caminho)
        .collect();
    assert_eq!(nomes, vec!["/a", "/m", "/z"]);
}

#[test]
fn caminho_do_windows_nao_vira_uma_pasta_so() {
    let fotos = vec![foto(r"C:\Fotos\2024\a.nef")];
    let pastas = pastas_do_acervo(&fotos);
    assert_eq!(pastas[0].caminho, r"C:\Fotos\2024");
    assert_eq!(pastas[0].nome, "2024");
}

#[test]
fn arquivo_na_raiz_tem_a_barra_como_pasta() {
    let fotos = vec![foto("/solta.nef")];
    let pastas = pastas_do_acervo(&fotos);
    assert_eq!(pastas[0].caminho, "/");
    assert_eq!(pastas[0].nome, "/", "a raiz não pode aparecer sem nome");
}

#[test]
fn caminho_sem_separador_nenhum_e_ignorado() {
    let fotos = vec![foto("arquivo-solto.nef")];
    assert!(pastas_do_acervo(&fotos).is_empty());
}

#[test]
fn a_contagem_nao_soma_subpastas() {
    let fotos = vec![
        foto("/fotos/a.nef"),
        foto("/fotos/2024/b.nef"),
        foto("/fotos/2024/c.nef"),
    ];
    let pastas = pastas_do_acervo(&fotos);
    let raiz = pastas.iter().find(|p| p.caminho == "/fotos").unwrap();
    assert_eq!(raiz.quantas, 1);
}

#[test]
fn escolher_uma_pasta_nao_traz_a_de_nome_parecido() {
    let dentro = foto("/fotos/2024/a.nef");
    let vizinha = foto("/fotos/2024-descartes/b.nef");
    assert!(na_pasta(&dentro, "/fotos/2024"));
    assert!(!na_pasta(&vizinha, "/fotos/2024"));
}

#[test]
fn o_diretorio_e_o_que_vem_antes_do_ultimo_separador() {
    assert_eq!(diretorio_de("/fotos/2024/a.nef"), Some("/fotos/2024".to_string()));
    assert_eq!(diretorio_de(r"C:\Fotos\a.nef"), Some(r"C:\Fotos".to_string()));
    assert_eq!(diretorio_de("/a.nef"), Some("/".to_string()));
    assert_eq!(diretorio_de("solto.nef"), None);
}

#[test]
fn o_nome_da_pasta_e_o_ultimo_pedaco() {
    assert_eq!(nome_de("/fotos/2024"), "2024");
    assert_eq!(nome_de(r"C:\Fotos"), "Fotos");
    assert_eq!(nome_de("/"), "/");
}

#[test]
fn mesmo_diretorio_em_ordem_de_caminho_conta_uma_pasta_so() {
    let fotos = vec![foto("/b/1.nef"), foto("/a/2.nef"), foto("/b/3.nef"), foto("/a/4.nef")];
    let pastas = pastas_do_acervo(&fotos);
    let resumo: Vec<(String, usize)> = pastas.into_iter().map(|p| (p.caminho, p.quantas)).collect();
    assert_eq!(resumo, vec![("/a".to_string(), 2), ("/b".to_string(), 2)]);
}

#[test]
fn as_mesmas_fotos_noutra_ordem_dao_as_mesmas_pastas() {
    let fotos = vec![
        foto("/fotos/2025/c.nef"),
        foto("/fotos/2024/a.nef"),
        foto("sem_pasta.nef"),
        foto("/fotos/2024/b.nef"),
        foto("/d.nef"),
    ];
    let outra = vec![
        foto("/d.nef"),
        foto("/fotos/2024/b.nef"),
        foto("/fotos/2025/c.nef"),
        foto("sem_pasta.nef"),
        foto("/fotos/2024/a.nef"),
    ];
    assert_eq!(pastas_do_acervo(&fotos), pastas_do_acervo(&outra));
    let caminhos: Vec<_> = pastas_do_acervo(&fotos).into_iter().map(|p| (p.caminho, p.quantas)).collect();
    assert_eq!(
        caminhos,
        vec![("/".to_string(), 1), ("/fotos/2024".to_string(), 2), ("/fotos/2025".to_string(), 1)]
    );
}

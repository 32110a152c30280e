use ui_gpui::biblioteca::colecoes::{Colecao, Estado};

fn colecao(id: &str, nome: &str) -> Colecao {
    Colecao {
        id: id.to_string(),
        name: nome.to_string(),
        photo_count: 0,
    }
}

#[test]
fn sem_colecao_aberta_toda_foto_passa() {
    let estado = Estado::default();
    assert!(estado.aceita("qualquer-uma"));
    assert!(estado.aberta().is_none());
}

#[test]
fn clicar_na_aberta_fecha() {
    let mut estado = Estado::default();
    assert!(estado.abrir("ensaio-1"), "abrir pede os ids");
    estado.receber_fotos("ensaio-1", vec!["a".into()]);
    assert!(estado.aceita("a"));
    assert!(!estado.aceita("b"));
    assert!(!estado.abrir("ensaio-1"), "fechar não pede ids");
    assert!(estado.aberta().is_none());
    assert!(estado.aceita("b"), "fechada, tudo passa de novo");
}

#[test]
fn resposta_atrasada_de_outra_colecao_e_ignorada() {
    let mut estado = Estado::default();
    estado.abrir("ensaio-1");
    estado.abrir("ensaio-2");
    assert!(
        !estado.receber_fotos("ensaio-1", vec!["a".into(), "b".into()]),
        "a resposta da primeira chegou depois da troca"
    );
    assert_eq!(estado.quantas_na_aberta(), 0);
    assert!(estado.receber_fotos("ensaio-2", vec!["c".into()]));
    assert!(estado.aceita("c"));
    assert!(!estado.aceita("a"));
}

#[test]
fn trocar_de_colecao_limpa_os_ids() {
    let mut estado = Estado::default();
    estado.abrir("ensaio-1");
    estado.receber_fotos("ensaio-1", vec!["a".into()]);
    estado.abrir("ensaio-2");
    assert!(
        !estado.aceita("a"),
        "os ids da coleção anterior sobreviveram à troca"
    );
}

#[test]
fn o_nome_da_aberta_sai_da_lista() {
    let mut estado = Estado {
        lista: vec![colecao("id-1", "Casamento Ana e João")],
        ..Default::default()
    };
    estado.abrir("id-1");
    assert_eq!(estado.nome_da_aberta(), Some("Casamento Ana e João"));
}

#[test]
fn ids_repetidos_na_resposta_contam_uma_vez() {
    let mut estado = Estado::default();
    estado.abrir("ensaio-1");
    assert!(estado.receber_fotos(
        "ensaio-1",
        vec!["a".into(), "b".into(), "a".into()]
    ));
    assert_eq!(estado.quantas_na_aberta(), 2);
}

#[test]
fn fechar_volta_a_mostrar_tudo() {
    let mut estado = Estado::default();
    estado.abrir("ensaio-1");
    estado.receber_fotos("ensaio-1", vec!["a".into()]);
    estado.fechar();
    assert!(estado.aberta().is_none());
    assert!(estado.aceita("z"));
    assert_eq!(estado.nome_da_aberta(), None);
}

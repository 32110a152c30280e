use ui_gpui::biblioteca::marcacao::{cor_ao_teclar, sinalizador_ao_teclar, Marca};

#[test]
fn teclar_a_cor_que_a_foto_ja_tem_tira_a_cor() {
    assert_eq!(cor_ao_teclar(None, "Yellow"), Some("Yellow".to_string()));
    assert_eq!(cor_ao_teclar(Some("Yellow"), "Yellow"), None);
    assert_eq!(
        cor_ao_teclar(Some("Red"), "Yellow"),
        Some("Yellow".to_string()),
        "cor diferente troca, não desmarca"
    );
}

#[test]
fn a_cor_gravada_em_minuscula_ainda_desmarca() {
    assert_eq!(cor_ao_teclar(Some("red"), "Red"), None);
}

#[test]
fn o_sinalizador_repetido_desmarca() {
    assert_eq!(sinalizador_ao_teclar(None, 1), 1);
    assert_eq!(sinalizador_ao_teclar(Some(1), 1), 0);
    assert_eq!(sinalizador_ao_teclar(Some(1), -1), -1, "trocar de lado");
    assert_eq!(sinalizador_ao_teclar(Some(-1), -1), 0);
}

#[test]
fn desmarcar_e_absoluto() {
    assert_eq!(sinalizador_ao_teclar(None, 0), 0);
    assert_eq!(sinalizador_ao_teclar(Some(1), 0), 0);
    assert_eq!(sinalizador_ao_teclar(Some(-1), 0), 0);
}

#[test]
fn a_mesma_tecla_tres_vezes_volta_a_marcar() {
    let uma = sinalizador_ao_teclar(None, -1);
    let duas = sinalizador_ao_teclar(Some(uma), -1);
    let tres = sinalizador_ao_teclar(Some(duas), -1);
    assert_eq!((uma, duas, tres), (-1, 0, -1));
    let cor = cor_ao_teclar(None, "Green");
    let sem = cor_ao_teclar(cor.as_deref(), "Green");
    assert_eq!(sem, None);
    assert_eq!(cor_ao_teclar(sem.as_deref(), "Green"), Some("Green".to_string()));
}

#[test]
fn a_caixa_so_conta_nas_letras_ascii() {
    assert_eq!(cor_ao_teclar(Some("ÉTÉ"), "été"), Some("été".to_string()));
    assert_eq!(cor_ao_teclar(Some("BLUE"), "blue"), None);
}

#[test]
fn a_marca_copiada_e_a_mesma() {
    let m = Marca::Cor(Some("Red".to_string()));
    assert_eq!(m.copiar(), m);
    assert_eq!(Marca::Comprada(true).copiar(), Marca::Comprada(true));
}

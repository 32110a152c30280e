use ui_gpui::importacao::Conta;

#[test]
fn a_conta_anota_acertos_e_a_ultima_falha() {
    let mut c = Conta::default();
    c.anotar::<()>(Ok(()));
    c.anotar::<()>(Err("disco cheio".into()));
    c.anotar(Ok(3));
    c.anotar::<()>(Err("sem rede".into()));
    assert_eq!(c.ok, 2);
    assert_eq!(c.erro, 2);
    assert_eq!(c.ultimo.as_deref(), Some("sem rede"));
}

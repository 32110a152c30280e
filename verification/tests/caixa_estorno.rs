use ui_gpui::caixa::estorno::{escrever_aviso_das_que_ficaram, escrever_fim_do_recibo, DesSinalizacao};

#[test]
fn o_estorno_devolve_e_des_sinaliza_foto_a_foto() {
    let mut d = DesSinalizacao::comecar(1, 2500, true, 3, true);
    assert_eq!(d.faltam, 3);
    assert!(!d.receber(true));
    assert!(!d.receber(false));
    assert!(d.receber(true), "a última resposta termina");
    assert_eq!((d.feitas, d.falhas), (2, 1));
    assert_eq!(escrever_fim_do_recibo(true, d.feitas), " · 2 foto(s) de volta a “à venda”");
    assert_eq!(
        escrever_aviso_das_que_ficaram(d.falhas).as_deref(),
        Some("1 foto(s) continuam sinalizadas: tire a sinalização (P) na grade.")
    );
}

#[test]
fn sem_tirar_a_sinalizacao_nada_vai_ao_ar() {
    let d = DesSinalizacao::comecar(2, 100, false, 5, true);
    assert!(d.terminou());
    assert_eq!(escrever_fim_do_recibo(false, 0), " · as fotos voltam ao cupom");
    assert_eq!(escrever_aviso_das_que_ficaram(0), None);
    let sem_conta = DesSinalizacao::comecar(3, 100, true, 2, false);
    assert!(sem_conta.terminou());
    assert_eq!(sem_conta.falhas, 2);
}

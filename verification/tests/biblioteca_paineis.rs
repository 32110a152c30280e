use ui_gpui::biblioteca::paineis::Qual;

#[test]
fn os_nomes_dos_paineis_nao_mudam() {
    assert_eq!(Qual::Pastas.nome(), "biblioteca:pastas");
    assert_eq!(Qual::Grade.nome(), "biblioteca:grade");
    assert_eq!(Qual::Informacoes.nome(), "biblioteca:informacoes");
    assert_eq!(Qual::Filmstrip.nome(), "biblioteca:filmstrip");
}

#[test]
fn cada_painel_tem_um_nome_so_dele() {
    let nomes = [
        Qual::Pastas.nome(),
        Qual::Grade.nome(),
        Qual::Informacoes.nome(),
        Qual::Filmstrip.nome(),
    ];
    let unicos: std::collections::HashSet<&str> = nomes.iter().copied().collect();
    assert_eq!(unicos.len(), nomes.len());
}

#[test]
fn cada_painel_tem_o_seu_titulo() {
    assert_eq!(Qual::Pastas.titulo(), "Pastas");
    assert_eq!(Qual::Grade.titulo(), "Grade");
    assert_eq!(Qual::Informacoes.titulo(), "Informações");
    assert_eq!(Qual::Filmstrip.titulo(), "Filmstrip");
}

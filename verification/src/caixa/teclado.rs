//! O que cada tecla faz no caixa: as teclas F da tela e o teclado do painel
//! da galeria, decididos a partir de onde o foco está.
//!
//! Quem executa a ação é a tela; daqui sai **qual** ação e se a tecla foi
//! do caixa — e então não chega à grade de trás (o `1` do pagamento daria
//! nota às fotos, o `P` do cupom as sinalizaria).

use vstd::prelude::*;

use crate::texto::{caracteres, contem, contem_trecho, iguais, le_u16, ler_u16, texto_de, trecho, valor_decimal, valor_do_digito};

verus! {

/// Qual diálogo abrir.
#[derive(Debug, Clone, Copy, PartialEq, Eq, Structural)]
pub enum TipoDeDialogo {
    Atalhos,
    Abrir,
    Desconto,
    Pessoas,
    Pagamento,
    Movimento,
    Vendas,
    Fechar,
}

/// O que uma tecla F pede à tela do caixa.
#[derive(Debug, Clone, Copy, PartialEq, Eq)]
pub enum AcaoDaTeclaF {
    Nenhuma,
    /// Abrir este diálogo.
    Abrir(TipoDeDialogo),
    /// Este diálogo, ou o de abrir o caixa quando ele está fechado.
    ComCaixa(TipoDeDialogo),
    /// F4: fechar a venda.
    Finalizar,
    /// F4 com o pagamento aberto: concluir a venda.
    ConcluirVenda,
    /// F8: abrir o caixa fechado, fechar o aberto.
    AbrirOuFechar,
    /// F9: minimizar ou abrir o painel.
    AlternarPainel,
}

/// A tecla F `n`. Com um diálogo aberto as teclas F esperam — menos o F4
/// do pagamento, que conclui a venda.
pub open spec fn acao_da_tecla_f(n: u8, dialogo: Option<TipoDeDialogo>) -> AcaoDaTeclaF {
    match dialogo {
        Some(d) => if n == 4 && d == TipoDeDialogo::Pagamento {
            AcaoDaTeclaF::ConcluirVenda
        } else {
            AcaoDaTeclaF::Nenhuma
        },
        None => if n == 1 {
            AcaoDaTeclaF::Abrir(TipoDeDialogo::Atalhos)
        } else if n == 2 {
            AcaoDaTeclaF::ComCaixa(TipoDeDialogo::Desconto)
        } else if n == 3 {
            AcaoDaTeclaF::Abrir(TipoDeDialogo::Pessoas)
        } else if n == 4 {
            AcaoDaTeclaF::Finalizar
        } else if n == 6 {
            AcaoDaTeclaF::ComCaixa(TipoDeDialogo::Movimento)
        } else if n == 7 {
            AcaoDaTeclaF::Abrir(TipoDeDialogo::Vendas)
        } else if n == 8 {
            AcaoDaTeclaF::AbrirOuFechar
        } else if n == 9 {
            AcaoDaTeclaF::AlternarPainel
        } else {
            AcaoDaTeclaF::Nenhuma
        },
    }
}

/// Com um diálogo aberto as teclas F esperam — menos o F4 do pagamento,
/// que conclui a venda. Sem diálogo, cada tecla F tem o seu: F1 os atalhos,
/// F2 o desconto e F6 o movimento (pedindo o caixa aberto), F3 as pessoas,
/// F4 fecha a venda, F7 as vendas, F8 abre ou fecha o caixa, F9 o painel.
pub proof fn lema_as_teclas_f(n: u8, d: TipoDeDialogo)
    ensures
        (n != 4 || d != TipoDeDialogo::Pagamento) ==> acao_da_tecla_f(n, Some(d)) == AcaoDaTeclaF::Nenhuma,
        acao_da_tecla_f(4, Some(TipoDeDialogo::Pagamento)) == AcaoDaTeclaF::ConcluirVenda,
        acao_da_tecla_f(1, None) == AcaoDaTeclaF::Abrir(TipoDeDialogo::Atalhos),
        acao_da_tecla_f(2, None) == AcaoDaTeclaF::ComCaixa(TipoDeDialogo::Desconto),
        acao_da_tecla_f(3, None) == AcaoDaTeclaF::Abrir(TipoDeDialogo::Pessoas),
        acao_da_tecla_f(4, None) == AcaoDaTeclaF::Finalizar,
        acao_da_tecla_f(6, None) == AcaoDaTeclaF::ComCaixa(TipoDeDialogo::Movimento),
        acao_da_tecla_f(7, None) == AcaoDaTeclaF::Abrir(TipoDeDialogo::Vendas),
        acao_da_tecla_f(8, None) == AcaoDaTeclaF::AbrirOuFechar,
        acao_da_tecla_f(9, None) == AcaoDaTeclaF::AlternarPainel,
        (n == 0 || n == 5 || n > 9) ==> acao_da_tecla_f(n, None) == AcaoDaTeclaF::Nenhuma,
{
}

/// O que a tecla F `n` faz, dado o diálogo aberto.
pub fn tecla(n: u8, dialogo: Option<TipoDeDialogo>) -> (r: AcaoDaTeclaF)
    ensures
        r == acao_da_tecla_f(n, dialogo),
{
    match dialogo {
        Some(d) => {
            if n == 4 && d == TipoDeDialogo::Pagamento {
                AcaoDaTeclaF::ConcluirVenda
            } else {
                AcaoDaTeclaF::Nenhuma
            }
        },
        None => {
            if n == 1 {
                AcaoDaTeclaF::Abrir(TipoDeDialogo::Atalhos)
            } else if n == 2 {
                AcaoDaTeclaF::ComCaixa(TipoDeDialogo::Desconto)
            } else if n == 3 {
                AcaoDaTeclaF::Abrir(TipoDeDialogo::Pessoas)
            } else if n == 4 {
                AcaoDaTeclaF::Finalizar
            } else if n == 6 {
                AcaoDaTeclaF::ComCaixa(TipoDeDialogo::Movimento)
            } else if n == 7 {
                AcaoDaTeclaF::Abrir(TipoDeDialogo::Vendas)
            } else if n == 8 {
                AcaoDaTeclaF::AbrirOuFechar
            } else if n == 9 {
                AcaoDaTeclaF::AlternarPainel
            } else {
                AcaoDaTeclaF::Nenhuma
            }
        },
    }
}

/// Um campo da edição rápida do item.
#[derive(Debug, Clone, Copy, PartialEq, Eq)]
pub enum ModoRapido {
    Desconto,
    Parceiro,
}

/// O que uma tecla faz com o painel da galeria à vista. Os `bool` dizem se
/// a ação vale para todos os itens do cupom (`Shift`).
#[derive(Debug, Clone, Copy, PartialEq, Eq)]
pub enum AcaoDoPainel {
    Nenhuma,
    /// Uma tecla F, da janela inteira.
    TeclaF(u8),
    /// O desconto em percentual (`true`) ou em reais (`false`).
    ModoDoDesconto(bool),
    /// A forma de pagamento da tecla `n`.
    EscolherForma(u8),
    TirarUltimoLancado,
    Sangria,
    Suprimento,
    /// `Enter` num campo da edição rápida: grava.
    EnviarCampoRapido,
    /// `Esc` num campo da edição rápida: fecha o campo.
    FecharCampoRapido,
    /// `Esc` com a edição aberta: fecha a barra.
    FecharEdicao,
    /// `↑` (-1) e `↓` (+1) no cupom.
    Mover(i32),
    /// `E`: abre ou fecha a edição do item em foco.
    AlternarEdicao,
    /// `N`: o diálogo de negociação.
    AbrirNegociacao(bool),
    /// `T`: a lista dos tipos de ensaio.
    AlternarTipos(bool),
    /// `C`: cortesia.
    AlternarCortesia(bool),
    /// `D` e `S`: o campo de desconto ou o de parceiro.
    AbrirCampo(ModoRapido, bool),
    /// `⌫`: tira a negociação.
    RemoverNegociacao(bool),
}

/// O número de uma tecla F que o caixa atende: `f1` a `f9`, menos `f5`.
pub open spec fn numero_da_tecla_f(t: Seq<char>) -> Option<u8> {
    if t.len() >= 1 && t[0] == 'f' {
        match le_u16(t.drop_first()) {
            Some(n) => if 1 <= n <= 9 && n != 5 {
                Some(n as u8)
            } else {
                None
            },
            None => None,
        }
    } else {
        None
    }
}

/// Uma tecla só: um caractere, ou uma das teclas de edição e de setas.
pub open spec fn uma_tecla(t: Seq<char>) -> bool {
    ||| t.len() == 1
    ||| t == "backspace"@
    ||| t == "delete"@
    ||| t == "up"@
    ||| t == "down"@
    ||| t == "left"@
    ||| t == "right"@
    ||| t == "space"@
}

/// Um dígito de `1` a `8`: a forma de pagamento da tecla.
pub open spec fn digito_de_forma(t: Seq<char>) -> bool {
    t.len() == 1 && '1' <= t[0] <= '8'
}

/// O que a tecla `t` faz num diálogo do painel.
pub open spec fn no_dialogo_do_painel(t: Seq<char>, shift: bool, tipo: Option<Seq<char>>, no_campo: bool) -> (AcaoDoPainel, bool) {
    let percentual = t == "%"@ || (shift && t == "5"@);
    if tipo == Some("Desconto"@) && percentual {
        (AcaoDoPainel::ModoDoDesconto(true), true)
    } else if no_campo {
        (AcaoDoPainel::Nenhuma, false)
    } else {
        let acao = if tipo == Some("Pagamento"@) && digito_de_forma(t) {
            AcaoDoPainel::EscolherForma(((t[0] as u32) - ('0' as u32)) as u8)
        } else if tipo == Some("Pagamento"@) && (t == "backspace"@ || t == "delete"@) {
            AcaoDoPainel::TirarUltimoLancado
        } else if tipo == Some("Desconto"@) && t == "r"@ {
            AcaoDoPainel::ModoDoDesconto(false)
        } else if tipo == Some("Movimento"@) && t == "s"@ {
            AcaoDoPainel::Sangria
        } else if tipo == Some("Movimento"@) && t == "u"@ {
            AcaoDoPainel::Suprimento
        } else {
            AcaoDoPainel::Nenhuma
        };
        (acao, uma_tecla(t))
    }
}

/// O que a tecla `t` faz no cupom do painel.
pub open spec fn no_cupom_do_painel(t: Seq<char>, shift: bool, no_campo: bool, editando: bool, lote_no_ar: bool) -> (AcaoDoPainel, bool) {
    if no_campo {
        if t == "enter"@ {
            (AcaoDoPainel::EnviarCampoRapido, true)
        } else if t == "escape"@ {
            (AcaoDoPainel::FecharCampoRapido, true)
        } else {
            (AcaoDoPainel::Nenhuma, false)
        }
    } else if t == "escape"@ && editando {
        (AcaoDoPainel::FecharEdicao, true)
    } else if t == "up"@ {
        (AcaoDoPainel::Mover(-1i32), true)
    } else if t == "down"@ {
        (AcaoDoPainel::Mover(1), true)
    } else if t == "e"@ {
        (AcaoDoPainel::AlternarEdicao, true)
    } else if t == "n"@ {
        (AcaoDoPainel::AbrirNegociacao(shift), true)
    } else {
        let acao = if !editando || lote_no_ar {
            AcaoDoPainel::Nenhuma
        } else if t == "t"@ {
            AcaoDoPainel::AlternarTipos(shift)
        } else if t == "c"@ {
            AcaoDoPainel::AlternarCortesia(shift)
        } else if t == "d"@ {
            AcaoDoPainel::AbrirCampo(ModoRapido::Desconto, shift)
        } else if t == "s"@ {
            AcaoDoPainel::AbrirCampo(ModoRapido::Parceiro, shift)
        } else if t == "backspace"@ || t == "delete"@ {
            AcaoDoPainel::RemoverNegociacao(shift)
        } else {
            AcaoDoPainel::Nenhuma
        };
        (acao, uma_tecla(t))
    }
}

/// Uma tecla com o painel da galeria à vista: a ação, e se a tecla foi do
/// painel. As teclas F valem na janela inteira; num diálogo, as letras
/// soltas ficam com ele; no cupom, as do cupom.
pub open spec fn tecla_no_painel(
    t: Seq<char>,
    shift: bool,
    no_dialogo: bool,
    tipo: Option<Seq<char>>,
    no_cupom: bool,
    no_campo: bool,
    dialogo_aberto: bool,
    editando: bool,
    lote_no_ar: bool,
) -> (AcaoDoPainel, bool) {
    match numero_da_tecla_f(t) {
        Some(n) => (AcaoDoPainel::TeclaF(n), true),
        None => if no_dialogo {
            no_dialogo_do_painel(t, shift, tipo, no_campo)
        } else if !no_cupom || dialogo_aberto {
            (AcaoDoPainel::Nenhuma, false)
        } else {
            no_cupom_do_painel(t, shift, no_campo, editando, lote_no_ar)
        },
    }
}

/// No cupom, fora de um campo e sem diálogo, com a edição rápida aberta e
/// nenhum lote no ar, `⌫` e `Delete` fazem o mesmo: tiram a negociação — de
/// todos os itens com Shift, só deste sem — e a tecla é do painel.
pub proof fn lema_apagar_tira_a_negociacao(shift: bool, tipo: Option<Seq<char>>)
    ensures
        tecla_no_painel("backspace"@, shift, false, tipo, true, false, false, true, false) == (
            AcaoDoPainel::RemoverNegociacao(shift),
            true,
        ),
        tecla_no_painel("delete"@, shift, false, tipo, true, false, false, true, false) == (
            AcaoDoPainel::RemoverNegociacao(shift),
            true,
        ),
{
    reveal_strlit("backspace");
    reveal_strlit("delete");
    reveal_strlit("enter");
    reveal_strlit("escape");
    reveal_strlit("up");
    reveal_strlit("down");
    reveal_strlit("e");
    reveal_strlit("n");
    reveal_strlit("t");
    reveal_strlit("c");
    reveal_strlit("d");
    reveal_strlit("s");
    assert("backspace"@.len() != "escape"@.len() && "backspace"@.len() != "up"@.len());
    assert("backspace"@.len() != "down"@.len() && "delete"@.len() != "up"@.len());
    assert("delete"@.len() != "down"@.len() && "delete"@[0] != "escape"@[0]);
    assert("backspace"@[0] != 'f' && "delete"@[0] != 'f');
}

/// Sem a edição rápida aberta, ou com um lote no ar, `⌫` e `Delete` não
/// tiram nada — mas continuam sendo do painel, para não apagar outra coisa.
pub proof fn lema_apagar_sem_edicao_nao_faz_nada(shift: bool, tipo: Option<Seq<char>>, editando: bool, lote_no_ar: bool)
    requires
        !editando || lote_no_ar,
    ensures
        tecla_no_painel("backspace"@, shift, false, tipo, true, false, false, editando, lote_no_ar) == (
            AcaoDoPainel::Nenhuma,
            true,
        ),
        tecla_no_painel("delete"@, shift, false, tipo, true, false, false, editando, lote_no_ar) == (
            AcaoDoPainel::Nenhuma,
            true,
        ),
{
    reveal_strlit("backspace");
    reveal_strlit("delete");
    reveal_strlit("enter");
    reveal_strlit("escape");
    reveal_strlit("up");
    reveal_strlit("down");
    reveal_strlit("e");
    reveal_strlit("n");
    reveal_strlit("t");
    reveal_strlit("c");
    reveal_strlit("d");
    reveal_strlit("s");
    assert("backspace"@.len() != "escape"@.len() && "backspace"@.len() != "up"@.len());
    assert("backspace"@.len() != "down"@.len() && "delete"@.len() != "up"@.len());
    assert("delete"@.len() != "down"@.len() && "delete"@[0] != "escape"@[0]);
    assert("backspace"@[0] != 'f' && "delete"@[0] != 'f');
}

/// No cupom, fora de um campo, `↑` sobe um item e `↓` desce um, com ou sem a
/// edição aberta, e a tecla é do painel.
pub proof fn lema_setas_andam_no_cupom(shift: bool, tipo: Option<Seq<char>>, editando: bool, lote_no_ar: bool)
    ensures
        tecla_no_painel("up"@, shift, false, tipo, true, false, false, editando, lote_no_ar) == (
            AcaoDoPainel::Mover(-1i32),
            true,
        ),
        tecla_no_painel("down"@, shift, false, tipo, true, false, false, editando, lote_no_ar) == (
            AcaoDoPainel::Mover(1i32),
            true,
        ),
{
    reveal_strlit("backspace");
    reveal_strlit("delete");
    reveal_strlit("enter");
    reveal_strlit("escape");
    reveal_strlit("up");
    reveal_strlit("down");
    reveal_strlit("e");
    reveal_strlit("n");
    reveal_strlit("t");
    reveal_strlit("c");
    reveal_strlit("d");
    reveal_strlit("s");
    assert("up"@.len() != "escape"@.len() && "down"@.len() != "escape"@.len());
    assert("down"@.len() != "up"@.len());
    assert("up"@[0] != 'f' && "down"@[0] != 'f');
}

/// As teclas `f1` a `f9`, menos `f5`, são da janela inteira: valem em
/// qualquer lugar do painel, dentro ou fora de diálogo, de campo e de cupom.
pub proof fn lema_teclas_f_em_qualquer_lugar(
    d: u8,
    shift: bool,
    no_dialogo: bool,
    tipo: Option<Seq<char>>,
    no_cupom: bool,
    no_campo: bool,
    dialogo_aberto: bool,
    editando: bool,
    lote_no_ar: bool,
)
    requires
        1 <= d <= 9,
        d != 5,
    ensures
        tecla_no_painel(
            seq!['f', (('0' as u32) + d) as char],
            shift,
            no_dialogo,
            tipo,
            no_cupom,
            no_campo,
            dialogo_aberto,
            editando,
            lote_no_ar,
        ) == (AcaoDoPainel::TeclaF(d), true),
{
    let t = seq!['f', (('0' as u32) + d) as char];
    let resto = t.drop_first();
    assert(resto =~= seq![(('0' as u32) + d) as char]);
    assert(resto.drop_last() =~= Seq::<char>::empty());
    let c = (('0' as u32) + d) as char;
    assert(c as u32 == ('0' as u32) + d);
    assert(resto.last() == c);
    assert(valor_decimal(resto.drop_last()) == 0);
    assert(valor_do_digito(c) == d);
    assert(valor_decimal(resto) == d);
}

/// No diálogo de pagamento, fora de um campo, os dígitos de 1 a 8 escolhem
/// a forma de pagamento e `⌫`/`Delete` tiram o último lançado; tudo isso é
/// do painel. Dentro de um campo, as teclas ficam com o campo.
pub proof fn lema_teclas_do_pagamento(shift: bool, d: u8, no_cupom: bool, dialogo_aberto: bool, editando: bool, lote_no_ar: bool)
    requires
        1 <= d <= 8,
    ensures
        tecla_no_painel(seq![(('0' as u32) + d) as char], shift, true, Some("Pagamento"@), no_cupom, false,
            dialogo_aberto, editando, lote_no_ar) == (AcaoDoPainel::EscolherForma(d), true),
        tecla_no_painel("backspace"@, shift, true, Some("Pagamento"@), no_cupom, false, dialogo_aberto,
            editando, lote_no_ar) == (AcaoDoPainel::TirarUltimoLancado, true),
        tecla_no_painel("delete"@, shift, true, Some("Pagamento"@), no_cupom, false, dialogo_aberto,
            editando, lote_no_ar) == (AcaoDoPainel::TirarUltimoLancado, true),
        tecla_no_painel(seq![(('0' as u32) + d) as char], shift, true, Some("Pagamento"@), no_cupom, true,
            dialogo_aberto, editando, lote_no_ar) == (AcaoDoPainel::Nenhuma, false),
{
    reveal_strlit("backspace");
    reveal_strlit("delete");
    reveal_strlit("Pagamento");
    reveal_strlit("Desconto");
    reveal_strlit("%");
    reveal_strlit("5");
    assert("Pagamento"@.len() != "Desconto"@.len());
    assert("backspace"@[0] != 'f' && "delete"@[0] != 'f');
    assert("backspace"@.len() != "%"@.len() && "backspace"@.len() != "5"@.len());
    assert("delete"@.len() != "%"@.len() && "delete"@.len() != "5"@.len());
    let t = seq![(('0' as u32) + d) as char];
    assert(t[0] != 'f');
}

/// Num campo da edição rápida, `Enter` grava e `Esc` fecha o campo, e as
/// outras teclas ficam com o campo (não são do painel).
pub proof fn lema_teclas_no_campo(t: Seq<char>, shift: bool, editando: bool, lote_no_ar: bool)
    requires
        numero_da_tecla_f(t) is None,
    ensures
        tecla_no_painel("enter"@, shift, false, None, true, true, false, editando, lote_no_ar) == (
            AcaoDoPainel::EnviarCampoRapido,
            true,
        ),
        tecla_no_painel("escape"@, shift, false, None, true, true, false, editando, lote_no_ar) == (
            AcaoDoPainel::FecharCampoRapido,
            true,
        ),
        t != "enter"@ && t != "escape"@ ==> tecla_no_painel(t, shift, false, None, true, true, false, editando,
            lote_no_ar) == (AcaoDoPainel::Nenhuma, false),
{
    reveal_strlit("enter");
    reveal_strlit("escape");
    assert("enter"@[0] != 'f' && "escape"@[0] != 'f');
    assert("enter"@.len() != "escape"@.len());
}

/// `t` é a tecla com este nome.
fn e_a_tecla(t: &Vec<char>, nome: &str) -> (r: bool)
    ensures
        r == (t@ == nome@),
{
    iguais(t, &caracteres(nome))
}

fn tecla_f_de(t: &Vec<char>) -> (r: Option<u8>)
    ensures
        r == numero_da_tecla_f(t@),
{
    if t.len() >= 1 && t[0] == 'f' {
        let resto = trecho(t, 1, t.len());
        assert(resto@ =~= t@.drop_first());
        match ler_u16(&resto) {
            Some(n) => {
                if 1 <= n && n <= 9 && n != 5 {
                    Some(n as u8)
                } else {
                    None
                }
            },
            None => None,
        }
    } else {
        None
    }
}

fn e_uma_tecla(t: &Vec<char>) -> (r: bool)
    ensures
        r == uma_tecla(t@),
{
    t.len() == 1 || e_a_tecla(t, "backspace") || e_a_tecla(t, "delete") || e_a_tecla(t, "up")
        || e_a_tecla(t, "down") || e_a_tecla(t, "left") || e_a_tecla(t, "right") || e_a_tecla(
        t,
        "space",
    )
}

/// O tipo do diálogo é este.
fn o_tipo_e(tipo: &Option<Vec<char>>, nome: &str) -> (r: bool)
    ensures
        r == (match tipo {
            Some(v) => Some(v@),
            None => None,
        } == Some(nome@)),
{
    match tipo {
        Some(v) => e_a_tecla(v, nome),
        None => false,
    }
}

/// Uma tecla com o painel da galeria à vista: a ação, e se a tecla foi do
/// painel — e então não chega a mais ninguém.
pub fn teclar_no_painel(
    tecla: &str,
    shift: bool,
    no_dialogo: bool,
    tipo_do_dialogo: Option<&str>,
    no_cupom: bool,
    no_campo: bool,
    dialogo_aberto: bool,
    editando: bool,
    lote_no_ar: bool,
) -> (r: (AcaoDoPainel, bool))
    ensures
        r == tecla_no_painel(
            tecla@,
            shift,
            no_dialogo,
            match tipo_do_dialogo {
                Some(s) => Some(s@),
                None => None,
            },
            no_cupom,
            no_campo,
            dialogo_aberto,
            editando,
            lote_no_ar,
        ),
{
    let t = caracteres(tecla);
    if let Some(n) = tecla_f_de(&t) {
        return (AcaoDoPainel::TeclaF(n), true);
    }
    let uma = e_uma_tecla(&t);
    if no_dialogo {
        let tipo = match tipo_do_dialogo {
            Some(s) => Some(caracteres(s)),
            None => None,
        };
        let percentual = e_a_tecla(&t, "%") || (shift && e_a_tecla(&t, "5"));
        if o_tipo_e(&tipo, "Desconto") && percentual {
            return (AcaoDoPainel::ModoDoDesconto(true), true);
        }
        if no_campo {
            return (AcaoDoPainel::Nenhuma, false);
        }
        let acao = if o_tipo_e(&tipo, "Pagamento") && t.len() == 1 && '1' <= t[0] && t[0] <= '8' {
            AcaoDoPainel::EscolherForma((t[0] as u32 - '0' as u32) as u8)
        } else if o_tipo_e(&tipo, "Pagamento") && (e_a_tecla(&t, "backspace") || e_a_tecla(
            &t,
            "delete",
        )) {
            AcaoDoPainel::TirarUltimoLancado
        } else if o_tipo_e(&tipo, "Desconto") && e_a_tecla(&t, "r") {
            AcaoDoPainel::ModoDoDesconto(false)
        } else if o_tipo_e(&tipo, "Movimento") && e_a_tecla(&t, "s") {
            AcaoDoPainel::Sangria
        } else if o_tipo_e(&tipo, "Movimento") && e_a_tecla(&t, "u") {
            AcaoDoPainel::Suprimento
        } else {
            AcaoDoPainel::Nenhuma
        };
        return (acao, uma);
    }
    if !no_cupom || dialogo_aberto {
        return (AcaoDoPainel::Nenhuma, false);
    }
    if no_campo {
        if e_a_tecla(&t, "enter") {
            return (AcaoDoPainel::EnviarCampoRapido, true);
        } else if e_a_tecla(&t, "escape") {
            return (AcaoDoPainel::FecharCampoRapido, true);
        } else {
            return (AcaoDoPainel::Nenhuma, false);
        }
    }
    if e_a_tecla(&t, "escape") && editando {
        return (AcaoDoPainel::FecharEdicao, true);
    }
    if e_a_tecla(&t, "up") {
        return (AcaoDoPainel::Mover(-1), true);
    }
    if e_a_tecla(&t, "down") {
        return (AcaoDoPainel::Mover(1), true);
    }
    if e_a_tecla(&t, "e") {
        return (AcaoDoPainel::AlternarEdicao, true);
    }
    if e_a_tecla(&t, "n") {
        return (AcaoDoPainel::AbrirNegociacao(shift), true);
    }
    let acao = if !editando || lote_no_ar {
        AcaoDoPainel::Nenhuma
    } else if e_a_tecla(&t, "t") {
        AcaoDoPainel::AlternarTipos(shift)
    } else if e_a_tecla(&t, "c") {
        AcaoDoPainel::AlternarCortesia(shift)
    } else if e_a_tecla(&t, "d") {
        AcaoDoPainel::AbrirCampo(ModoRapido::Desconto, shift)
    } else if e_a_tecla(&t, "s") {
        AcaoDoPainel::AbrirCampo(ModoRapido::Parceiro, shift)
    } else if e_a_tecla(&t, "backspace") || e_a_tecla(&t, "delete") {
        AcaoDoPainel::RemoverNegociacao(shift)
    } else {
        AcaoDoPainel::Nenhuma
    };
    (acao, uma)
}

/// O item que fica em foco depois de `↑`/`↓`: sem foco, o primeiro; senão
/// o vizinho, preso entre o primeiro e o último.
pub open spec fn item_seguinte(atual: Option<usize>, passo: i32, n: usize) -> int {
    match atual {
        None => 0,
        Some(i) => if i + passo < 0 {
            0
        } else if i + passo > n - 1 {
            n - 1
        } else {
            i + passo
        },
    }
}

/// `↑` e `↓` andam um item, sem dar a volta: com o foco no item `i` de `n`,
/// o foco vai para `i + passo` quando ele existe, e para a ponta quando
/// passaria dela; sem foco, para o primeiro. O resultado é sempre um item.
pub proof fn lema_mover_anda_um_passo(i: usize, passo: i32, n: usize)
    requires
        i < n,
    ensures
        0 <= i + passo < n ==> item_seguinte(Some(i), passo, n) == i + passo,
        i + passo < 0 ==> item_seguinte(Some(i), passo, n) == 0,
        i + passo >= n ==> item_seguinte(Some(i), passo, n) == n - 1,
        0 <= item_seguinte(Some(i), passo, n) < n,
        item_seguinte(None, passo, n) == 0,
        0 < i ==> item_seguinte(Some(i), -1i32, n) == i - 1,
        i + 1 < n ==> item_seguinte(Some(i), 1i32, n) == i + 1,
{
}

/// Para onde o foco do cupom vai com `↑`/`↓`, num cupom de `n` itens.
pub fn mover_no_cupom(atual: Option<usize>, passo: i32, n: usize) -> (r: usize)
    requires
        n > 0,
        atual matches Some(i) ==> i < n,
        n <= i32::MAX,
    ensures
        r == item_seguinte(atual, passo, n),
        r < n,
{
    match atual {
        None => 0,
        Some(i) => {
            let alvo: i64 = i as i64 + passo as i64;
            if alvo < 0 {
                0
            } else if alvo > n as i64 - 1 {
                n - 1
            } else {
                alvo as usize
            }
        },
    }
}

/// Onde o foco está, lido da pilha de contextos de teclado.
#[derive(Debug, Clone, PartialEq, Eq)]
pub struct OndeEstaOFoco {
    /// Num diálogo do painel flutuante.
    pub no_dialogo: bool,
    /// O tipo do diálogo, quando é um dos que têm teclas próprias.
    pub tipo_do_dialogo: Option<String>,
    /// No cupom do painel.
    pub no_cupom: bool,
    /// Num campo de texto.
    pub no_campo: bool,
}

/// Algum contexto da pilha contém o nome.
pub open spec fn no_contexto(pilha: Seq<String>, nome: Seq<char>) -> bool {
    exists|k: int| 0 <= k < pilha.len() && contem((#[trigger] pilha[k])@, nome)
}

/// Os diálogos que têm teclas próprias, na ordem em que são procurados.
pub open spec fn dialogos_com_teclas() -> Seq<Seq<char>> {
    seq!["Pagamento"@, "Desconto"@, "Movimento"@, "Pessoas"@, "Negociacao"@]
}

/// O primeiro dos diálogos com teclas, a partir de `k`, que está na pilha.
pub open spec fn tipo_na_pilha_desde(pilha: Seq<String>, k: int) -> Option<Seq<char>>
    decreases 5 - k,
{
    if k < 0 || k >= 5 {
        None
    } else if no_contexto(pilha, dialogos_com_teclas()[k]) {
        Some(dialogos_com_teclas()[k])
    } else {
        tipo_na_pilha_desde(pilha, k + 1)
    }
}

/// Onde o foco está: num diálogo do painel quando a pilha tem o do diálogo
/// do caixa e o do painel flutuante; no cupom; num campo.
pub open spec fn onde_esta(pilha: Seq<String>) -> (bool, Option<Seq<char>>, bool, bool) {
    let no_dialogo = no_contexto(pilha, "CaixaDialogo"@) && no_contexto(pilha, "Flutuante"@);
    (
        no_dialogo,
        if no_dialogo {
            tipo_na_pilha_desde(pilha, 0)
        } else {
            None
        },
        no_contexto(pilha, "CaixaCupom"@),
        no_contexto(pilha, "Input"@),
    )
}

fn na_pilha(pilha: &[String], nome: &str) -> (r: bool)
    ensures
        r == no_contexto(pilha@, nome@),
{
    let agulha = caracteres(nome);
    let mut k: usize = 0;
    while k < pilha.len()
        invariant
            k <= pilha@.len(),
            agulha@ == nome@,
            forall|j: int| 0 <= j < k ==> !contem((#[trigger] pilha@[j])@, nome@),
        decreases pilha@.len() - k,
    {
        if contem_trecho(&caracteres(pilha[k].as_str()), &agulha) {
            return true;
        }
        k += 1;
    }
    false
}

/// Onde o foco está, lido da pilha de contextos de teclado da tecla.
pub fn contexto_da_tecla(pilha: &[String]) -> (r: OndeEstaOFoco)
    ensures
        (r.no_dialogo, match r.tipo_do_dialogo {
            Some(t) => Some(t@),
            None => None,
        }, r.no_cupom, r.no_campo) == onde_esta(pilha@),
{
    let no_dialogo = na_pilha(pilha, "CaixaDialogo") && na_pilha(pilha, "Flutuante");
    let tipo = if !no_dialogo {
        None
    } else if na_pilha(pilha, "Pagamento") {
        Some(texto_de(&caracteres("Pagamento")))
    } else if na_pilha(pilha, "Desconto") {
        Some(texto_de(&caracteres("Desconto")))
    } else if na_pilha(pilha, "Movimento") {
        Some(texto_de(&caracteres("Movimento")))
    } else if na_pilha(pilha, "Pessoas") {
        Some(texto_de(&caracteres("Pessoas")))
    } else if na_pilha(pilha, "Negociacao") {
        Some(texto_de(&caracteres("Negociacao")))
    } else {
        None
    };
    proof {
        reveal_with_fuel(tipo_na_pilha_desde, 6);
    }
    OndeEstaOFoco {
        no_dialogo,
        tipo_do_dialogo: tipo,
        no_cupom: na_pilha(pilha, "CaixaCupom"),
        no_campo: na_pilha(pilha, "Input"),
    }
}

} // verus!

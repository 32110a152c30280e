//! O painel do caixa dentro da galeria: o que ele acompanha do detalhe da
//! sessão e a quem a edição rápida do item se aplica.

use vstd::prelude::*;

use crate::texto::{anexar, caracteres, decimal, escrever_decimal, iguais, texto_de, texto_visto};

verus! {

/// O que mudou no detalhe da galeria desde o último quadro.
#[derive(Debug, Clone, Copy, PartialEq, Eq)]
pub struct MudancaNoDetalhe {
    /// Outra sessão aberta: o painel esquece a edição, o diálogo, o
    /// desconto e a última venda, e navega para ela.
    pub outra_galeria: bool,
    /// As fotos mudaram (nota, sinalização, negociação, faixa): o cupom se
    /// relê.
    pub reler: bool,
    /// Algo que se vê mudou: redesenhar.
    pub redesenhar: bool,
}

/// O que o painel faz com a mudança no detalhe.
pub open spec fn mudanca(
    galeria_antes: Option<Seq<char>>,
    galeria_agora: Option<Seq<char>>,
    retrato_antes: u64,
    retrato_agora: u64,
    foco_antes: Option<Seq<char>>,
    foco_agora: Option<Seq<char>>,
) -> MudancaNoDetalhe {
    if galeria_antes != galeria_agora {
        MudancaNoDetalhe { outra_galeria: true, reler: false, redesenhar: true }
    } else {
        MudancaNoDetalhe {
            outra_galeria: false,
            reler: retrato_antes != retrato_agora,
            redesenhar: foco_antes != foco_agora,
        }
    }
}

/// Na mesma galeria, o cupom se relê exatamente quando o retrato das fotos
/// mudou — faça o foco o que fizer — e o painel se redesenha exatamente
/// quando o foco mudou. Noutra galeria, o painel a segue e redesenha, sem
/// reler a velha.
pub proof fn lema_o_que_mudou(
    galeria_antes: Option<Seq<char>>,
    galeria_agora: Option<Seq<char>>,
    retrato_antes: u64,
    retrato_agora: u64,
    foco_antes: Option<Seq<char>>,
    foco_agora: Option<Seq<char>>,
)
    ensures
        ({
            let m = mudanca(galeria_antes, galeria_agora, retrato_antes, retrato_agora, foco_antes, foco_agora);
            &&& m.outra_galeria <==> galeria_antes != galeria_agora
            &&& galeria_antes == galeria_agora ==> (m.reler <==> retrato_antes != retrato_agora)
            &&& galeria_antes == galeria_agora ==> (m.redesenhar <==> foco_antes != foco_agora)
            &&& galeria_antes != galeria_agora ==> m.redesenhar && !m.reler
        }),
{
}

fn mesmo_texto(a: &Option<String>, b: &Option<String>) -> (r: bool)
    ensures
        r == (texto_visto(*a) == texto_visto(*b)),
{
    match (a, b) {
        (Some(x), Some(y)) => iguais(&caracteres(x.as_str()), &caracteres(y.as_str())),
        (None, None) => true,
        _ => false,
    }
}

/// A galeria mudou: outra sessão, outras fotos ou outro foco. O retrato é
/// o resumo das fotos que o cupom usa.
pub fn o_que_mudou(
    galeria_antes: &Option<String>,
    galeria_agora: &Option<String>,
    retrato_antes: u64,
    retrato_agora: u64,
    foco_antes: &Option<String>,
    foco_agora: &Option<String>,
) -> (r: MudancaNoDetalhe)
    ensures
        r == mudanca(
            texto_visto(*galeria_antes),
            texto_visto(*galeria_agora),
            retrato_antes,
            retrato_agora,
            texto_visto(*foco_antes),
            texto_visto(*foco_agora),
        ),
{
    if !mesmo_texto(galeria_antes, galeria_agora) {
        MudancaNoDetalhe { outra_galeria: true, reler: false, redesenhar: true }
    } else {
        MudancaNoDetalhe {
            outra_galeria: false,
            reler: retrato_antes != retrato_agora,
            redesenhar: !mesmo_texto(foco_antes, foco_agora),
        }
    }
}

/// Clicar noutro item fecha a barra de edição: ela é do item em que foi
/// aberta.
pub fn fecha_a_edicao(editando: Option<&str>, foto: &str) -> (r: bool)
    ensures
        r == (editando matches Some(e) && e@ != foto@),
{
    match editando {
        Some(e) => !iguais(&caracteres(e), &caracteres(foto)),
        None => false,
    }
}

/// A frase do recibo de uma ação da edição rápida.
pub open spec fn frase_das_quantas(todos: bool, n: nat) -> Seq<char> {
    if todos {
        decimal(n) + " foto(s)"@
    } else {
        "esta foto"@
    }
}

/// O recibo de uma ação só sobre o item editado diz "esta foto"; sobre todos,
/// conta as fotos: o número delas seguido de " foto(s)".
pub proof fn lema_frase_das_quantas(n: nat)
    ensures
        frase_das_quantas(false, n) == "esta foto"@,
        frase_das_quantas(true, n).take(decimal(n).len() as int) == decimal(n),
        frase_das_quantas(true, n).skip(decimal(n).len() as int) == " foto(s)"@,
{
    let f = frase_das_quantas(true, n);
    assert(f.take(decimal(n).len() as int) =~= decimal(n));
    assert(f.skip(decimal(n).len() as int) =~= " foto(s)"@);
}

/// A quem a ação da edição rápida se aplica — todos os itens do cupom
/// (`Shift`), ou só o editado, quando ele está no cupom — e a frase do
/// recibo.
pub fn quantas(todos: bool, itens: &[String], editado: Option<&str>) -> (r: (Vec<String>, String))
    ensures
        todos ==> r.0@ == itens@,
        !todos ==> match editado {
            Some(id) => r.0@.len() == 1 && r.0@[0]@ == id@,
            None => r.0@.len() == 0,
        },
        r.1@ == frase_das_quantas(todos, if todos { itens@.len() } else { 0 }),
{
    if todos {
        let mut ids: Vec<String> = Vec::new();
        let mut i: usize = 0;
        while i < itens.len()
            invariant
                i <= itens@.len(),
                ids@ == itens@.take(i as int),
            decreases itens@.len() - i,
        {
            ids.push(itens[i].clone());
            assert(itens@.take(i as int + 1) =~= itens@.take(i as int).push(itens@[i as int]));
            i += 1;
        }
        assert(itens@.take(itens@.len() as int) =~= itens@);
        let mut frase = escrever_decimal(itens.len() as u64);
        anexar(&mut frase, &caracteres(" foto(s)"));
        (ids, texto_de(&frase))
    } else {
        let mut ids: Vec<String> = Vec::new();
        if let Some(id) = editado {
            ids.push(texto_de(&caracteres(id)));
        }
        (ids, texto_de(&caracteres("esta foto")))
    }
}

} // verus!

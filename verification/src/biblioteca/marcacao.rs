//! Nota, cor e sinalizador: o que as treze teclas de triagem escrevem.
//!
//! A nota é **absoluta** (`3` põe 3, `0` tira), mas a cor e o sinalizador
//! **alternam**: teclar `7` numa foto já amarela tira o amarelo, e `P` numa
//! foto já escolhida a desmarca.

use vstd::prelude::*;

use crate::texto::{caracteres, iguais_ignorando_caixa, iguais_sem_caixa};

verus! {

/// O que uma tecla de marcação faz com a foto.
#[derive(Debug, Clone, PartialEq)]
pub enum Marca {
    Nota(i32),
    /// `None` é "sem cor" — o que teclar a mesma cor duas vezes produz.
    Cor(Option<String>),
    /// `1` escolhida, `-1` rejeitada, `0` sem marca.
    Sinalizador(i32),
    /// Levada no balcão (`true`) ou deixada para trás (`false`).
    Comprada(bool),
}

impl Marca {
    /// Uma cópia da marca.
    pub fn copiar(&self) -> (r: Marca)
        ensures
            r == *self,
    {
        match self {
            Marca::Nota(n) => Marca::Nota(*n),
            Marca::Cor(c) => Marca::Cor(crate::biblioteca::foto::copiar_opcional(c)),
            Marca::Sinalizador(s) => Marca::Sinalizador(*s),
            Marca::Comprada(b) => Marca::Comprada(*b),
        }
    }
}

/// Quem sabe gravar uma marcação.
///
/// Não devolve `Result`: a tela já mostrou a marca nova, e não há o que ela
/// faça com a falha depois disso além de registrar.
pub trait Marcador: Send + Sync + 'static {
    fn marcar(&self, id: String, marca: Marca);

    /// Tira a foto do catálogo — e só do catálogo: o arquivo fica no disco.
    fn apagar(&self, id: String);
}

/// A cor que fica: a mesma cor de novo (sem ligar para maiúsculas) tira a
/// cor; qualquer outra coisa põe a pedida.
pub open spec fn cor_resultante(atual: Option<Seq<char>>, pedida: Seq<char>) -> Option<Seq<char>> {
    match atual {
        Some(c) => if iguais_sem_caixa(c, pedida) {
            None
        } else {
            Some(pedida)
        },
        None => Some(pedida),
    }
}

/// O texto opcional, visto como caracteres.
pub open spec fn vista_opcional(o: Option<&str>) -> Option<Seq<char>> {
    match o {
        Some(s) => Some(s@),
        None => None,
    }
}

/// A cor que a tecla produz, dada a que a foto já tem.
///
/// A comparação ignora caixa porque o banco guarda o rótulo como texto livre
/// (`"Red"`, `"red"`).
pub fn cor_ao_teclar(atual: Option<&str>, pedida: &str) -> (r: Option<String>)
    ensures
        r matches Some(s) ==> cor_resultante(vista_opcional(atual), pedida@) == Some(s@),
        r is None ==> cor_resultante(vista_opcional(atual), pedida@) is None,
{
    let pedida_v = caracteres(pedida);
    match atual {
        Some(cor) => {
            if iguais_ignorando_caixa(&caracteres(cor), &pedida_v) {
                None
            } else {
                Some(crate::texto::texto_de(&pedida_v))
            }
        },
        None => Some(crate::texto::texto_de(&pedida_v)),
    }
}

/// O sinalizador que fica: `P` e `X` alternam, `U` desmarca sempre.
pub open spec fn sinalizador_resultante(atual: Option<i32>, pedido: i32) -> i32 {
    let ja = match atual {
        Some(a) => a,
        None => 0,
    };
    if pedido != 0 && ja == pedido {
        0
    } else {
        pedido
    }
}

/// O sinalizador que a tecla produz, dado o que a foto já tem.
pub fn sinalizador_ao_teclar(atual: Option<i32>, pedido: i32) -> (r: i32)
    ensures
        r == sinalizador_resultante(atual, pedido),
{
    let ja = match atual {
        Some(a) => a,
        None => 0,
    };
    if pedido != 0 && ja == pedido {
        0
    } else {
        pedido
    }
}

/// Teclar a mesma tecla duas vezes volta ao começo: o sinalizador pedido
/// sobre o que ele mesmo produziu desfaz a marca, e pedir de novo a refaz.
pub proof fn lema_sinalizador_alterna(pedido: i32)
    requires
        pedido != 0,
    ensures
        sinalizador_resultante(Some(pedido), pedido) == 0,
        sinalizador_resultante(Some(sinalizador_resultante(Some(pedido), pedido)), pedido)
            == pedido,
        sinalizador_resultante(None, pedido) == pedido,
{
}

/// `U` é absoluto: pedir "sem marca" dá sem marca, seja qual for a atual.
pub proof fn lema_desmarcar_e_absoluto(atual: Option<i32>)
    ensures
        sinalizador_resultante(atual, 0) == 0,
{
}

/// A mesma cor duas vezes desmarca, e uma terceira marca de novo.
pub proof fn lema_cor_alterna(cor: Seq<char>)
    ensures
        cor_resultante(Some(cor), cor) is None,
        cor_resultante(None, cor) == Some(cor),
{
}

} // verus!

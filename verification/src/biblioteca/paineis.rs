//! Os quatro painéis da Biblioteca e os nomes com que o arranjo os guarda.

use vstd::prelude::*;

verus! {

/// Qual dos quatro é este painel.
#[derive(Debug, Clone, Copy, PartialEq, Eq, Structural)]
pub enum Qual {
    Pastas,
    Grade,
    Informacoes,
    Filmstrip,
}

/// O nome de cada painel, como o arranjo gravado o guarda.
pub open spec fn nome_do_painel(q: Qual) -> Seq<char> {
    match q {
        Qual::Pastas => "biblioteca:pastas"@,
        Qual::Grade => "biblioteca:grade"@,
        Qual::Informacoes => "biblioteca:informacoes"@,
        Qual::Filmstrip => "biblioteca:filmstrip"@,
    }
}

/// O título que aparece na aba.
pub open spec fn titulo_do_painel(q: Qual) -> Seq<char> {
    match q {
        Qual::Pastas => "Pastas"@,
        Qual::Grade => "Grade"@,
        Qual::Informacoes => "Informações"@,
        Qual::Filmstrip => "Filmstrip"@,
    }
}

impl Qual {
    /// 🚨 **O nome é o que o arranjo gravado guarda**, e mudá-lo depois faz o
    /// leiaute salvo apontar para um painel que não existe mais.
    pub fn nome(&self) -> (r: &'static str)
        ensures
            r@ == nome_do_painel(*self),
    {
        match self {
            Qual::Pastas => "biblioteca:pastas",
            Qual::Grade => "biblioteca:grade",
            Qual::Informacoes => "biblioteca:informacoes",
            Qual::Filmstrip => "biblioteca:filmstrip",
        }
    }

    pub fn titulo(&self) -> (r: &'static str)
        ensures
            r@ == titulo_do_painel(*self),
    {
        match self {
            Qual::Pastas => "Pastas",
            Qual::Grade => "Grade",
            Qual::Informacoes => "Informações",
            Qual::Filmstrip => "Filmstrip",
        }
    }
}

/// Cada painel tem um nome só dele: dois iguais fariam o dock restaurar o
/// mesmo painel duas vezes.
pub proof fn lema_nomes_distintos(a: Qual, b: Qual)
    requires
        a != b,
    ensures
        nome_do_painel(a) != nome_do_painel(b),
{
    reveal_strlit("biblioteca:pastas");
    reveal_strlit("biblioteca:grade");
    reveal_strlit("biblioteca:informacoes");
    reveal_strlit("biblioteca:filmstrip");
    // Os quatro nomes têm tamanhos diferentes.
    assert(nome_do_painel(a).len() != nome_do_painel(b).len());
}

} // verus!

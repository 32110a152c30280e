//! Uma navegação do caixa: o que já chegou do site, quando a tela pode trocar
//! de vez, e os avisos que a vista nova leva.
//!
//! A tela só troca quando **tudo** chegou — trocar pedaço a pedaço mostraria,
//! por um instante, o caixa de um estúdio ao lado das sessões de outro.

use vstd::prelude::*;

use super::caminhos::{MAXIMO_DE_PAGINAS, PAGINA_DO_CATALOGO};
use super::dados::{EstudioDoCaixa, FaixaDoCatalogo, Funcionario, SessaoACobrar, SessaoDaLista};
use crate::texto::{anexar, caracteres, iguais, texto_de};

verus! {

/// O que uma navegação já recebeu. `G`, `V` e `C` são a galeria pedida, as
/// vendas dela e o caixa do estúdio, como a tela os lê.
pub struct Carga<G, V, C> {
    pub estudio_pedido: Option<String>,
    pub sessao_pedida: Option<String>,
    pub estudios: Option<Vec<EstudioDoCaixa>>,
    /// `Some(None)`: a lista chegou com erro.
    pub galerias: Option<Option<Vec<SessaoDaLista>>>,
    pub funcionarios: Option<Vec<Funcionario>>,
    pub catalogo: Vec<FaixaDoCatalogo>,
    pub catalogo_pronto: bool,
    pub paginas: usize,
    /// `Some(None)`: a sessão pedida não existe, foi excluída ou não carregou.
    pub galeria: Option<Option<G>>,
    pub vendas: Option<Option<V>>,
    /// Decidido quando os estúdios e a sessão pedida chegaram.
    pub estudio_id: Option<Option<String>>,
    /// `Some(None)`: a leitura do caixa falhou.
    pub caixa: Option<Option<Option<C>>>,
}

impl<G, V, C> Carga<G, V, C> {
    /// A sessão pedida (se há uma) já chegou, com as vendas.
    pub open spec fn sessao_chegou_spec(&self) -> bool {
        self.sessao_pedida is None || (self.galeria is Some && self.vendas is Some)
    }

    /// Tudo chegou: estúdios, sessões, funcionários, o catálogo inteiro, a
    /// sessão pedida e — com o estúdio decidido — o caixa dele.
    pub open spec fn pronta_spec(&self) -> bool {
        &&& self.estudios is Some
        &&& self.galerias is Some
        &&& self.funcionarios is Some
        &&& self.catalogo_pronto
        &&& self.sessao_chegou_spec()
        &&& match self.estudio_id {
            Some(Some(_)) => self.caixa is Some,
            Some(None) => true,
            None => false,
        }
    }

    /// Uma navegação nova para este estúdio e esta sessão: nada chegou. No
    /// painel da galeria não há lista de estúdios nem de sessões, e elas já
    /// nascem vazias.
    pub fn nova(estudio_pedido: Option<String>, sessao_pedida: Option<String>, flutuante: bool) -> (r: Carga<G, V, C>)
        ensures
            r.estudio_pedido == estudio_pedido,
            r.sessao_pedida == sessao_pedida,
            flutuante ==> (r.estudios matches Some(e) && e@.len() == 0),
            flutuante ==> (r.galerias matches Some(Some(g)) && g@.len() == 0),
            !flutuante ==> r.estudios is None && r.galerias is None,
            r.funcionarios is None,
            r.catalogo@.len() == 0,
            !r.catalogo_pronto,
            r.paginas == 0,
            r.galeria is None,
            r.vendas is None,
            r.estudio_id is None,
            r.caixa is None,
    {
        let (estudios, galerias) = if flutuante {
            (Some(Vec::new()), Some(Some(Vec::new())))
        } else {
            (None, None)
        };
        Carga {
            estudio_pedido,
            sessao_pedida,
            estudios,
            galerias,
            funcionarios: None,
            catalogo: Vec::new(),
            catalogo_pronto: false,
            paginas: 0,
            galeria: None,
            vendas: None,
            estudio_id: None,
            caixa: None,
        }
    }

    pub fn sessao_chegou(&self) -> (r: bool)
        ensures
            r == self.sessao_chegou_spec(),
    {
        self.sessao_pedida.is_none() || (self.galeria.is_some() && self.vendas.is_some())
    }

    pub fn pronta(&self) -> (r: bool)
        ensures
            r == self.pronta_spec(),
    {
        self.estudios.is_some() && self.galerias.is_some() && self.funcionarios.is_some()
            && self.catalogo_pronto && self.sessao_chegou() && match &self.estudio_id {
            Some(Some(_)) => self.caixa.is_some(),
            Some(None) => true,
            None => false,
        }
    }

    /// Uma página do catálogo chegou (ou falhou). Devolve a próxima página a
    /// pedir; `None` quando o catálogo ficou pronto. Sem catálogo, as faixas
    /// da galeria bastam: a falha limpa o que veio e dá o catálogo por
    /// pronto.
    pub fn receber_pagina(&mut self, pagina: Option<Vec<FaixaDoCatalogo>>) -> (r: Option<usize>)
        requires
            old(self).paginas < usize::MAX,
            pagina matches Some(p) ==> old(self).catalogo@.len() + p@.len() <= usize::MAX,
        ensures
            final(self).estudio_pedido == old(self).estudio_pedido,
            final(self).sessao_pedida == old(self).sessao_pedida,
            final(self).estudios == old(self).estudios,
            final(self).galerias == old(self).galerias,
            final(self).funcionarios == old(self).funcionarios,
            final(self).galeria == old(self).galeria,
            final(self).vendas == old(self).vendas,
            final(self).estudio_id == old(self).estudio_id,
            final(self).caixa == old(self).caixa,
            pagina is None ==> {
                &&& final(self).catalogo@.len() == 0
                &&& final(self).catalogo_pronto
                &&& final(self).paginas == old(self).paginas
                &&& r is None
            },
            pagina matches Some(p) ==> {
                &&& final(self).catalogo@ == old(self).catalogo@ + p@
                &&& final(self).paginas == old(self).paginas + 1
                &&& (p@.len() == PAGINA_DO_CATALOGO && final(self).paginas < MAXIMO_DE_PAGINAS) ==> (
                r == Some(final(self).paginas) && final(self).catalogo_pronto
                    == old(self).catalogo_pronto)
                &&& !(p@.len() == PAGINA_DO_CATALOGO && final(self).paginas < MAXIMO_DE_PAGINAS)
                    ==> (r is None && final(self).catalogo_pronto)
            },
    {
        match pagina {
            Some(mut p) => {
                let cheia = p.len() == PAGINA_DO_CATALOGO;
                self.catalogo.append(&mut p);
                self.paginas = self.paginas + 1;
                if cheia && self.paginas < MAXIMO_DE_PAGINAS {
                    Some(self.paginas)
                } else {
                    self.catalogo_pronto = true;
                    None
                }
            },
            None => {
                self.catalogo.clear();
                self.catalogo_pronto = true;
                None
            },
        }
    }
}

/// O caixa da vista e se ele está indisponível: com estúdio e a leitura
/// feita, o caixa lido; com estúdio e a leitura falha (ou ausente), nenhum,
/// e indisponível; sem estúdio, nenhum.
pub fn caixa_da_vista<C>(estudio_id: &Option<String>, caixa: Option<Option<Option<C>>>) -> (r: (
    Option<C>,
    bool,
))
    ensures
        estudio_id is None ==> r.0 is None && !r.1,
        estudio_id is Some ==> (caixa matches Some(Some(c)) ==> r.0 == c && !r.1),
        estudio_id is Some ==> (!(caixa matches Some(Some(_))) ==> r.0 is None && r.1),
{
    match estudio_id {
        Some(_) => match caixa {
            Some(Some(c)) => (c, false),
            _ => (None, true),
        },
        None => (None, false),
    }
}

/// As sessões do estúdio: só as linhas dele, e nenhuma sem estúdio decidido.
pub open spec fn sessoes_do_estudio_de(lista: Seq<SessaoDaLista>, estudio: Option<Seq<char>>) -> Seq<SessaoACobrar>
    decreases lista.len(),
{
    if lista.len() == 0 {
        Seq::empty()
    } else {
        let antes = sessoes_do_estudio_de(lista.drop_last(), estudio);
        let g = lista.last();
        if estudio is Some && (match g.estudio_id {
            Some(e) => Some(e@),
            None => None,
        }) == estudio {
            antes.push(g.sessao)
        } else {
            antes
        }
    }
}

fn mesmo_estudio(a: &Option<String>, b: &Option<String>) -> (r: bool)
    ensures
        r == ((match a {
            Some(e) => Some(e@),
            None => None::<Seq<char>>,
        }) == (match b {
            Some(e) => Some(e@),
            None => None::<Seq<char>>,
        })),
{
    match (a, b) {
        (Some(x), Some(y)) => iguais(&caracteres(x.as_str()), &caracteres(y.as_str())),
        (None, None) => true,
        _ => false,
    }
}

/// As sessões da lista que são do estúdio escolhido, na ordem da lista.
pub fn sessoes_do_estudio(lista: &[SessaoDaLista], estudio_id: &Option<String>) -> (r: Vec<SessaoACobrar>)
    ensures
        r@ == sessoes_do_estudio_de(
            lista@,
            match estudio_id {
                Some(e) => Some(e@),
                None => None,
            },
        ),
{
    let mut r: Vec<SessaoACobrar> = Vec::new();
    let mut i: usize = 0;
    while i < lista.len()
        invariant
            i <= lista@.len(),
            r@ == sessoes_do_estudio_de(
                lista@.take(i as int),
                match estudio_id {
                    Some(e) => Some(e@),
                    None => None,
                },
            ),
        decreases lista@.len() - i,
    {
        assert(lista@.take(i as int + 1).drop_last() =~= lista@.take(i as int));
        if estudio_id.is_some() && mesmo_estudio(&lista[i].estudio_id, estudio_id) {
            r.push(lista[i].sessao.copiar());
        }
        i += 1;
    }
    assert(lista@.take(lista@.len() as int) =~= lista@);
    r
}

/// O aviso da sessão pedida: a que não existe mais; a de outro estúdio (ou
/// sem estúdio), que não se cobra aqui; e a de vendas que não carregaram,
/// cujo cupom pode trazer foto já vendida.
pub open spec fn aviso_da_sessao(
    galeria: Option<(Seq<char>, Option<Seq<char>>)>,
    estudio_id: Option<Seq<char>>,
    vendas_ok: bool,
    indisponivel: bool,
) -> Option<Seq<char>> {
    match galeria {
        None => Some("A sessão pedida não existe mais ou foi excluída."@),
        Some(g) => if g.1 != estudio_id {
            if g.1 is Some {
                Some("“"@ + g.0 + "” é de outro estúdio: escolha o estúdio dela para cobrar."@)
            } else {
                Some("“"@ + g.0 + "” não tem estúdio: escolha o estúdio dela na sessão antes de cobrar."@)
            }
        } else if !vendas_ok || indisponivel {
            Some("As vendas desta sessão não carregaram: o cupom pode incluir foto já vendida."@)
        } else {
            None
        },
    }
}

/// Os avisos da vista: a lista de sessões que não veio, e o da sessão
/// pedida, quando há uma.
pub open spec fn avisos_da_vista_de(
    galerias_vieram: bool,
    sessao_pedida: bool,
    galeria: Option<(Seq<char>, Option<Seq<char>>)>,
    estudio_id: Option<Seq<char>>,
    vendas_ok: bool,
    indisponivel: bool,
) -> Seq<Seq<char>> {
    let lista: Seq<Seq<char>> = if galerias_vieram {
        Seq::empty()
    } else {
        seq!["A lista de sessões não carregou. Recarregue a página."@]
    };
    if sessao_pedida {
        match aviso_da_sessao(galeria, estudio_id, vendas_ok, indisponivel) {
            Some(a) => lista.push(a),
            None => lista,
        }
    } else {
        lista
    }
}

/// O título e o estúdio da galeria, como caracteres.
pub open spec fn galeria_vista(g: Option<(&str, Option<&str>)>) -> Option<(Seq<char>, Option<Seq<char>>)> {
    match g {
        Some(x) => Some(
            (
                x.0@,
                match x.1 {
                    Some(e) => Some(e@),
                    None => None,
                },
            ),
        ),
        None => None,
    }
}

/// Os avisos que a vista nova leva. `galeria` é o título e o estúdio da
/// sessão pedida, quando ela chegou.
pub fn avisos_da_vista(
    galerias_vieram: bool,
    sessao_pedida: bool,
    galeria: Option<(&str, Option<&str>)>,
    estudio_id: Option<&str>,
    vendas_ok: bool,
    indisponivel: bool,
) -> (r: Vec<String>)
    ensures
        r@.map_values(|s: String| s@) == avisos_da_vista_de(
            galerias_vieram,
            sessao_pedida,
            galeria_vista(galeria),
            match estudio_id {
                Some(e) => Some(e@),
                None => None,
            },
            vendas_ok,
            indisponivel,
        ),
{
    let mut r: Vec<String> = Vec::new();
    if !galerias_vieram {
        r.push(texto_de(&caracteres("A lista de sessões não carregou. Recarregue a página.")));
    }
    let ghost antes = r@.map_values(|s: String| s@);
    if sessao_pedida {
        match galeria {
            None => {
                r.push(texto_de(&caracteres("A sessão pedida não existe mais ou foi excluída.")));
            },
            Some((titulo, estudio_da_galeria)) => {
                let mesmo = match (estudio_da_galeria, estudio_id) {
                    (Some(a), Some(b)) => iguais(&caracteres(a), &caracteres(b)),
                    (None, None) => true,
                    _ => false,
                };
                if !mesmo {
                    let mut t = caracteres("“");
                    anexar(&mut t, &caracteres(titulo));
                    if estudio_da_galeria.is_some() {
                        anexar(&mut t, &caracteres("” é de outro estúdio: escolha o estúdio dela para cobrar."));
                    } else {
                        anexar(&mut t, &caracteres("” não tem estúdio: escolha o estúdio dela na sessão antes de cobrar."));
                    }
                    r.push(texto_de(&t));
                } else if !vendas_ok || indisponivel {
                    r.push(texto_de(&caracteres("As vendas desta sessão não carregaram: o cupom pode incluir foto já vendida.")));
                }
            },
        }
    }
    assert(r@.map_values(|s: String| s@) =~= avisos_da_vista_de(
        galerias_vieram,
        sessao_pedida,
        galeria_vista(galeria),
        match estudio_id {
            Some(e) => Some(e@),
            None => None,
        },
        vendas_ok,
        indisponivel,
    ));
    r
}

/// No painel da galeria, o estúdio do caixa é o da sessão — ativo ou não;
/// sessão sem estúdio não tem caixa. Decide quando a sessão pedida chegou.
pub fn estudio_do_painel(sessao_chegou: bool, ja_decidido: bool, estudio_da_galeria: Option<Option<String>>) -> (r: Option<Option<String>>)
    ensures
        (ja_decidido || !sessao_chegou) ==> r is None,
        (!ja_decidido && sessao_chegou) ==> r == Some(match estudio_da_galeria {
            Some(e) => e,
            None => None,
        }),
{
    if ja_decidido || !sessao_chegou {
        return None;
    }
    match estudio_da_galeria {
        Some(e) => Some(e),
        None => Some(None),
    }
}

} // verus!

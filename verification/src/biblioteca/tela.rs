//! O estado da Biblioteca sem o desenho: o acervo, os filtros, o que está na
//! grade e a seleção.
//!
//! Dois espaços de índice convivem aqui, e a razão de existir deste módulo é
//! não confundi-los: `visiveis` é a lista **filtrada**, e cada elemento dela é
//! um índice **no acervo**. A seleção guarda sempre índices do acervo.

use vstd::prelude::*;

use super::filtros::{aceita_foto, filtros_zerados, indices_visiveis, lema_posicoes_aceitas, posicoes_aceitas, Filtros};
use super::foto::Foto;
use super::marcacao::{cor_ao_teclar, sinalizador_ao_teclar, sinalizador_resultante, Marca};
use crate::texto::{
    anexar, caracteres, decimal, escrever_decimal, iguais, iguais_ignorando_caixa, iguais_sem_caixa,
    texto_de,
};
use super::pastas::{pastas_do_acervo, pastas_do_acervo_corretas, Pasta};

verus! {

/// As posições marcadas, em ordem.
pub open spec fn posicoes_marcadas(m: Seq<bool>) -> Seq<usize>
    decreases m.len(),
{
    if m.len() == 0 {
        Seq::empty()
    } else {
        let antes = posicoes_marcadas(m.drop_last());
        if m.last() {
            antes.push((m.len() - 1) as usize)
        } else {
            antes
        }
    }
}

/// A primeira posição marcada a partir de `k`.
pub open spec fn primeira_marcada_desde(m: Seq<bool>, k: int) -> Option<usize>
    decreases m.len() - k,
{
    if k < 0 || k >= m.len() {
        None
    } else if m[k] {
        Some(k as usize)
    } else {
        primeira_marcada_desde(m, k + 1)
    }
}

/// O primeiro elemento da lista, a partir de `k`, maior que `a`.
pub open spec fn seguinte_desde(v: Seq<usize>, a: usize, k: int) -> Option<usize>
    decreases v.len() - k,
{
    if k < 0 || k >= v.len() {
        None
    } else if v[k] > a {
        Some(v[k])
    } else {
        seguinte_desde(v, a, k + 1)
    }
}

/// Onde `x` está na lista, a partir de `k`.
pub open spec fn posicao_desde(v: Seq<usize>, x: usize, k: int) -> Option<int>
    decreases v.len() - k,
{
    if k < 0 || k >= v.len() {
        None
    } else if v[k] == x {
        Some(k)
    } else {
        posicao_desde(v, x, k + 1)
    }
}

pub open spec fn posicao_em(v: Seq<usize>, x: usize) -> Option<int> {
    posicao_desde(v, x, 0)
}

/// Quem vira a principal quando a principal `a` sai da grade: a primeira
/// das que sobraram selecionadas; senão a seguinte que ainda está na grade;
/// senão a última da grade.
pub open spec fn nova_principal(m: Seq<bool>, visiveis: Seq<usize>, a: usize) -> Option<usize> {
    match primeira_marcada_desde(m, 0) {
        Some(x) => Some(x),
        None => match seguinte_desde(visiveis, a, 0) {
            Some(y) => Some(y),
            None => if visiveis.len() > 0 {
                Some(visiveis.last())
            } else {
                None
            },
        },
    }
}

/// `i` é um dos elementos `v[ini..fim]`.
pub open spec fn no_trecho(v: Seq<usize>, ini: int, fim: int, i: int) -> bool {
    exists|j: int| ini <= j < fim && v[j] == i as usize
}

/// As posições na grade entre a âncora e a foto do `Shift+clique`, quando
/// as duas estão na grade.
pub open spec fn intervalo_do_shift(v: Seq<usize>, x: usize, ancora: Option<usize>) -> Option<
    (int, int),
> {
    match (posicao_em(v, x), ancora) {
        (Some(p), Some(a)) => match posicao_em(v, a) {
            Some(q) => if p <= q {
                Some((p, q))
            } else {
                Some((q, p))
            },
            None => None,
        },
        _ => None,
    }
}

/// O trecho da grade entre `ini` e `fim` (os dois inclusive) foi somado à
/// seleção `antes`, e nada mais mudou.
pub open spec fn trecho_somado(antes: Seq<bool>, depois: Seq<bool>, v: Seq<usize>, ini: int, fim: int) -> bool {
    &&& depois.len() == antes.len()
    &&& forall|i: int| 0 <= i < antes.len() ==> depois[i] == (antes[i] || no_trecho(v, ini, fim + 1, i))
}

proof fn lema_trecho_somado(antes: Seq<bool>, depois: Seq<bool>, v: Seq<usize>, ini: int, fim: int, k: int)
    requires
        k == fim + 1,
        depois.len() == antes.len(),
        forall|i: int| 0 <= i < antes.len() ==> depois[i] == (antes[i] || no_trecho(v, ini, k, i)),
    ensures
        trecho_somado(antes, depois, v, ini, fim),
{
}

/// O que o `Shift+clique` em `x` faz com a seleção: soma o trecho até a
/// âncora quando há um; senão, só marca `x`.
pub open spec fn shift_marcou(antes: Seq<bool>, depois: Seq<bool>, v: Seq<usize>, x: usize, ancora: Option<usize>) -> bool {
    match intervalo_do_shift(v, x, ancora) {
        Some(par) => trecho_somado(antes, depois, v, par.0, par.1),
        None => depois == antes.update(x as int, true),
    }
}

/// A seleção só com o que passa no filtro.
pub open spec fn so_visiveis(m: Seq<bool>, f: Filtros, fotos: Seq<Foto>) -> Seq<bool> {
    Seq::new(m.len(), |i: int| m[i] && aceita_foto(f, fotos[i]))
}

/// A seleção depois de o filtro mudar: as que saíram da grade saem da
/// seleção, e a principal que saiu é trocada por [`nova_principal`].
pub open spec fn saneada(
    fotos: Seq<Foto>,
    f: Filtros,
    m: Seq<bool>,
    sel: Option<usize>,
    ancora: Option<usize>,
) -> (Seq<bool>, Option<usize>, Option<usize>) {
    let m2 = so_visiveis(m, f, fotos);
    match sel {
        None => (m2, None, ancora),
        Some(a) => if (a as int) < fotos.len() && aceita_foto(f, fotos[a as int]) {
            (m2, sel, ancora)
        } else {
            let nova = nova_principal(m2, posicoes_aceitas(f, fotos), a);
            (
                match nova {
                    Some(x) => m2.update(x as int, true),
                    None => m2,
                },
                nova,
                nova,
            )
        },
    }
}

/// O contador do cabeçalho: nada no catálogo; todas; ou quantas de quantas.
pub open spec fn texto_do_contador(total: nat, mostradas: nat) -> Seq<char> {
    if total == 0 {
        "Nenhuma foto no catálogo — importe uma pasta pelo app de egui"@
    } else if mostradas == total {
        decimal(total) + " fotos"@
    } else {
        decimal(mostradas) + " de "@ + decimal(total) + " fotos"@
    }
}

/// Quantas estão selecionadas, a partir de duas.
pub open spec fn texto_da_selecao(n: nat) -> Option<Seq<char>> {
    if n > 1 {
        Some(decimal(n) + " selecionadas"@)
    } else {
        None
    }
}

/// A foto depois de receber a marca.
pub open spec fn marcada(foto: Foto, marca: Marca) -> Foto {
    match marca {
        Marca::Nota(n) => Foto { rating: n, ..foto },
        Marca::Cor(c) => Foto { color_label: c, ..foto },
        Marca::Sinalizador(s) => Foto { flag: Some(s), ..foto },
        Marca::Comprada(_) => foto,
    }
}

/// O acervo depois de a marca ser escrita em cada foto marcada.
pub open spec fn acervo_marcado(fotos: Seq<Foto>, m: Seq<bool>, marca: Marca) -> Seq<Foto> {
    Seq::new(fotos.len(), |i: int| if m[i] { marcada(fotos[i], marca) } else { fotos[i] })
}

/// As gravações pedidas: uma por foto de `sel`, na mesma ordem, com o id
/// dela e a marca.
pub open spec fn gravacoes_certas(r: Seq<(String, Marca)>, fotos: Seq<Foto>, sel: Seq<usize>, marca: Marca) -> bool {
    &&& r.len() == sel.len()
    &&& forall|k: int| 0 <= k < r.len() ==> (#[trigger] r[k]).0@ == fotos[sel[k] as int].id@ && r[k].1 == marca
}

/// A foto tem a cor pedida, sem ligar para maiúsculas.
pub open spec fn tem_a_cor(foto: Foto, cor: Seq<char>) -> bool {
    match foto.color_label {
        Some(c) => iguais_sem_caixa(c@, cor),
        None => false,
    }
}

/// Todas as marcadas já têm a cor.
pub open spec fn todas_com_a_cor(fotos: Seq<Foto>, m: Seq<bool>, cor: Seq<char>) -> bool {
    forall|i: int| 0 <= i < m.len() && m[i] ==> tem_a_cor(#[trigger] fotos[i], cor)
}

/// Todas as marcadas já têm o sinalizador (`NULL` conta como `0`).
pub open spec fn todas_com_o_sinalizador(fotos: Seq<Foto>, m: Seq<bool>, pedido: i32) -> bool {
    forall|i: int| 0 <= i < m.len() && m[i] ==> (match (#[trigger] fotos[i]).flag {
        Some(f) => f,
        None => 0i32,
    }) == pedido
}

/// A cor que a marca põe, vista como caracteres.
pub open spec fn cor_da_marca(marca: Marca) -> Option<Seq<char>> {
    match marca {
        Marca::Cor(Some(c)) => Some(c@),
        _ => None,
    }
}

/// O estado da Biblioteca.
pub struct Biblioteca {
    /// O acervo inteiro, na ordem do catálogo.
    pub fotos: Vec<Foto>,
    pub filtros: Filtros,
    /// Os índices do acervo que passam pelos filtros, em ordem.
    pub visiveis: Vec<usize>,
    /// As pastas do acervo, calculadas uma vez.
    pub pastas: Vec<Pasta>,
    /// Índice **no acervo** da foto principal — a que a Revelação abre.
    pub selecionada: Option<usize>,
    /// Para cada foto do acervo, se está selecionada. Ler as marcadas em
    /// ordem dá "as selecionadas" na ordem do acervo.
    pub marcadas: Vec<bool>,
    /// De onde o próximo `Shift+clique` mede o intervalo.
    pub ancora: Option<usize>,
    /// Quantas colunas a grade tem. `None` é automático.
    pub colunas_escolhidas: Option<u8>,
}

impl Biblioteca {
    /// O que todo estado da Biblioteca respeita.
    pub open spec fn bem_formada(&self) -> bool {
        &&& self.visiveis@ == posicoes_aceitas(self.filtros, self.fotos@)
        &&& self.fotos@.len() <= usize::MAX
        &&& self.marcadas@.len() == self.fotos@.len()
        &&& (self.selecionada matches Some(i) ==> (i as int) < self.fotos@.len())
        &&& (self.ancora matches Some(i) ==> (i as int) < self.fotos@.len())
    }

    /// A foto `i` do acervo está na grade.
    pub open spec fn na_grade(&self, i: int) -> bool {
        0 <= i < self.fotos@.len() && aceita_foto(self.filtros, self.fotos@[i])
    }

    /// As selecionadas, na ordem do acervo.
    pub open spec fn selecao(&self) -> Seq<usize> {
        posicoes_marcadas(self.marcadas@)
    }

    /// Abre o acervo sem filtro e sem seleção.
    pub fn nova(fotos: Vec<Foto>) -> (r: Biblioteca)
        ensures
            r.bem_formada(),
            r.fotos@ == fotos@,
            filtros_zerados(r.filtros),
            r.selecionada is None,
            r.ancora is None,
            r.colunas_escolhidas is None,
            forall|i: int| 0 <= i < r.marcadas@.len() ==> !r.marcadas@[i],
            pastas_do_acervo_corretas(fotos@, r.pastas@),
    {
        let filtros = Filtros::default();
        let visiveis = indices_visiveis(&fotos, &filtros);
        let pastas = pastas_do_acervo(&fotos);
        let marcadas = nenhuma(fotos.len());
        Biblioteca {
            fotos,
            filtros,
            visiveis,
            pastas,
            selecionada: None,
            marcadas,
            ancora: None,
            colunas_escolhidas: None,
        }
    }
}

/// Uma máscara com as posições de `v` marcadas.
fn mascara_de(v: &Vec<usize>, n: usize) -> (r: Vec<bool>)
    requires
        forall|k: int| 0 <= k < v@.len() ==> (v@[k] as int) < n,
    ensures
        r@.len() == n,
        forall|i: int| 0 <= i < n ==> r@[i] == v@.contains(i as usize),
{
    let mut r = nenhuma(n);
    let mut k: usize = 0;
    while k < v.len()
        invariant
            k <= v@.len(),
            r@.len() == n,
            forall|j: int| 0 <= j < v@.len() ==> (v@[j] as int) < n,
            forall|i: int| 0 <= i < n ==> r@[i] == v@.take(k as int).contains(i as usize),
        decreases v@.len() - k,
    {
        let x = v[k];
        r.set(x, true);
        proof {
            assert forall|i: int| 0 <= i < n implies r@[i] == v@.take(k as int + 1).contains(
                i as usize,
            ) by {
                vstd::seq_lib::lemma_seq_contains_after_push(v@.take(k as int), x, i as usize);
                assert(v@.take(k as int + 1) =~= v@.take(k as int).push(x));
            }
        }
        k += 1;
    }
    assert(v@.take(v@.len() as int) =~= v@);
    r
}

/// O que se sabe das posições marcadas.
pub proof fn lema_posicoes_marcadas(m: Seq<bool>)
    requires
        m.len() <= usize::MAX,
    ensures
        forall|a: int, b: int|
            0 <= a < b < posicoes_marcadas(m).len() ==> posicoes_marcadas(m)[a]
                < posicoes_marcadas(m)[b],
        forall|a: int|
            0 <= a < posicoes_marcadas(m).len() ==> (posicoes_marcadas(m)[a] as int) < m.len()
                && m[posicoes_marcadas(m)[a] as int],
        forall|i: int| 0 <= i < m.len() && m[i] ==> posicoes_marcadas(m).contains(i as usize),
        posicoes_marcadas(m).len() <= m.len(),
    decreases m.len(),
{
    if m.len() > 0 {
        let ini = m.drop_last();
        lema_posicoes_marcadas(ini);
        let p = posicoes_marcadas(ini);
        let q = posicoes_marcadas(m);
        let n = m.len() - 1;
        if m.last() {
            assert(q == p.push(n as usize));
            assert forall|a: int| 0 <= a < q.len() implies (q[a] as int) < m.len() && m[q[a] as int] by {
                if a < p.len() {
                    assert(q[a] == p[a]);
                    assert(ini[p[a] as int] == m[p[a] as int]);
                }
            }
            assert forall|a: int, b: int| 0 <= a < b < q.len() implies q[a] < q[b] by {
                if b < p.len() {
                    assert(q[a] == p[a] && q[b] == p[b]);
                } else {
                    assert(q[a] == p[a]);
                }
            }
        } else {
            assert(q == p);
            assert forall|a: int| 0 <= a < q.len() implies (q[a] as int) < m.len() && m[q[a] as int] by {
                assert(ini[p[a] as int] == m[p[a] as int]);
            }
        }
        assert forall|i: int| 0 <= i < m.len() && m[i] implies q.contains(i as usize) by {
            if i < n {
                assert(ini[i] == m[i]);
                let w = choose|w: int| 0 <= w < p.len() && p[w] == i as usize;
                assert(q[w] == i as usize);
            } else {
                assert(q[q.len() - 1] == i as usize);
            }
        }
    }
}

proof fn lema_posicoes_marcadas_passo(m: Seq<bool>, i: int)
    requires
        0 <= i < m.len(),
    ensures
        posicoes_marcadas(m.take(i + 1)) == if m[i] {
            posicoes_marcadas(m.take(i)).push(i as usize)
        } else {
            posicoes_marcadas(m.take(i))
        },
{
    assert(m.take(i + 1).drop_last() =~= m.take(i));
}

/// A primeira posição marcada.
fn primeira_marcada(m: &Vec<bool>) -> (r: Option<usize>)
    ensures
        r == primeira_marcada_desde(m@, 0),
{
    let mut i: usize = 0;
    while i < m.len()
        invariant
            i <= m@.len(),
            primeira_marcada_desde(m@, 0) == primeira_marcada_desde(m@, i as int),
        decreases m@.len() - i,
    {
        if m[i] {
            return Some(i);
        }
        i += 1;
    }
    None
}

/// O primeiro da lista maior que `a`.
fn seguinte(v: &Vec<usize>, a: usize) -> (r: Option<usize>)
    ensures
        r == seguinte_desde(v@, a, 0),
{
    let mut k: usize = 0;
    while k < v.len()
        invariant
            k <= v@.len(),
            seguinte_desde(v@, a, 0) == seguinte_desde(v@, a, k as int),
        decreases v@.len() - k,
    {
        if v[k] > a {
            return Some(v[k]);
        }
        k += 1;
    }
    None
}

/// Onde `x` está na lista.
fn posicao(v: &Vec<usize>, x: usize) -> (r: Option<usize>)
    ensures
        r matches Some(k) ==> posicao_em(v@, x) == Some(k as int),
        r is None ==> posicao_em(v@, x) is None,
{
    let mut k: usize = 0;
    while k < v.len()
        invariant
            k <= v@.len(),
            posicao_em(v@, x) == posicao_desde(v@, x, k as int),
        decreases v@.len() - k,
    {
        if v[k] == x {
            return Some(k);
        }
        k += 1;
    }
    None
}

proof fn lema_primeira_marcada(m: Seq<bool>, k: int)
    requires
        0 <= k,
        m.len() <= usize::MAX,
    ensures
        primeira_marcada_desde(m, k) matches Some(x) ==> k <= x < m.len() && m[x as int],
        primeira_marcada_desde(m, k) is None ==> forall|i: int| k <= i < m.len() ==> !m[i],
    decreases m.len() - k,
{
    if k < m.len() && !m[k] {
        lema_primeira_marcada(m, k + 1);
    }
}

proof fn lema_seguinte(v: Seq<usize>, a: usize, k: int)
    requires
        0 <= k,
    ensures
        seguinte_desde(v, a, k) matches Some(y) ==> v.subrange(k, v.len() as int).contains(y),
    decreases v.len() - k,
{
    if k < v.len() {
        if v[k] > a {
            assert(v.subrange(k, v.len() as int)[0] == v[k]);
        } else {
            lema_seguinte(v, a, k + 1);
            if let Some(y) = seguinte_desde(v, a, k + 1) {
                let t = v.subrange(k + 1, v.len() as int);
                let w = choose|w: int| 0 <= w < t.len() && #[trigger] t[w] == y;
                assert(v.subrange(k, v.len() as int)[w + 1] == y);
            }
        }
    }
}

proof fn lema_posicao(v: Seq<usize>, x: usize, k: int)
    requires
        0 <= k,
    ensures
        posicao_desde(v, x, k) matches Some(p) ==> k <= p < v.len() && v[p] == x,
        posicao_desde(v, x, k) is None ==> forall|j: int| k <= j < v.len() ==> v[j] != x,
    decreases v.len() - k,
{
    if k < v.len() && v[k] != x {
        lema_posicao(v, x, k + 1);
    }
}

impl Biblioteca {
    /// 🚨 A seleção não pode apontar para fora da grade.
    ///
    /// As que saíram da grade saem da seleção. Se a principal saiu, a nova é
    /// a primeira das que sobraram selecionadas; senão a **seguinte** que
    /// ainda está na grade (numa triagem, voltar ao começo faria perder o
    /// lugar); senão a última da grade.
    pub fn sanear_selecao(&mut self)
        requires
            old(self).bem_formada(),
        ensures
            final(self).bem_formada(),
            final(self).fotos == old(self).fotos,
            final(self).filtros == old(self).filtros,
            final(self).visiveis == old(self).visiveis,
            final(self).pastas == old(self).pastas,
            final(self).colunas_escolhidas == old(self).colunas_escolhidas,
            (final(self).marcadas@, final(self).selecionada, final(self).ancora) == saneada(
                old(self).fotos@,
                old(self).filtros,
                old(self).marcadas@,
                old(self).selecionada,
                old(self).ancora,
            ),
    {
        let n: usize = self.fotos.len();
        proof {
            lema_posicoes_aceitas(self.filtros, self.fotos@);
        }
        let visivel = mascara_de(&self.visiveis, n);
        let ghost m0 = self.marcadas@;
        let ghost m2 = so_visiveis(m0, self.filtros, self.fotos@);
        proof {
            assert forall|i: int| 0 <= i < n implies visivel@[i] == aceita_foto(
                self.filtros,
                self.fotos@[i],
            ) by {
                if visivel@[i] {
                    let w = choose|w: int| 0 <= w < self.visiveis@.len() && self.visiveis@[w] == i as usize;
                }
            }
        }
        let mut i: usize = 0;
        while i < n
            invariant
                n == self.fotos@.len(),
                i <= n,
                self.fotos == old(self).fotos,
                self.filtros == old(self).filtros,
                self.visiveis == old(self).visiveis,
                self.pastas == old(self).pastas,
                self.colunas_escolhidas == old(self).colunas_escolhidas,
                self.selecionada == old(self).selecionada,
                self.ancora == old(self).ancora,
                old(self).bem_formada(),
                m0 == old(self).marcadas@,
                self.marcadas@.len() == n,
                visivel@.len() == n,
                m0.len() == n,
                m2 == so_visiveis(m0, self.filtros, self.fotos@),
                forall|k: int| 0 <= k < n ==> visivel@[k] == aceita_foto(self.filtros, self.fotos@[k]),
                forall|k: int| 0 <= k < i ==> self.marcadas@[k] == m2[k],
                forall|k: int| i <= k < n ==> self.marcadas@[k] == m0[k],
            decreases n - i,
        {
            if self.marcadas[i] && !visivel[i] {
                self.marcadas.set(i, false);
            }
            i += 1;
        }
        assert(self.marcadas@ =~= m2);
        let atual = match self.selecionada {
            None => return,
            Some(a) => a,
        };
        if visivel[atual] {
            return;
        }
        let nova = match primeira_marcada(&self.marcadas) {
            Some(x) => Some(x),
            None => match seguinte(&self.visiveis, atual) {
                Some(y) => Some(y),
                None => if self.visiveis.len() > 0 {
                    Some(self.visiveis[self.visiveis.len() - 1])
                } else {
                    None
                },
            },
        };
        proof {
            lema_primeira_marcada(self.marcadas@, 0);
            lema_seguinte(self.visiveis@, atual, 0);
            if let Some(y) = seguinte_desde(self.visiveis@, atual, 0) {
                assert(self.visiveis@.subrange(0, self.visiveis@.len() as int) =~= self.visiveis@);
            }
        }
        self.selecionada = nova;
        self.ancora = nova;
        if let Some(x) = nova {
            self.marcadas.set(x, true);
        }
    }

    /// Recalcula o que está visível. Chamado só quando um filtro muda.
    fn refiltrar(&mut self)
        requires
            old(self).marcadas@.len() == old(self).fotos@.len(),
            old(self).fotos@.len() <= usize::MAX,
            old(self).selecionada matches Some(i) ==> (i as int) < old(self).fotos@.len(),
            old(self).ancora matches Some(i) ==> (i as int) < old(self).fotos@.len(),
        ensures
            final(self).bem_formada(),
            final(self).fotos == old(self).fotos,
            final(self).filtros == old(self).filtros,
            final(self).pastas == old(self).pastas,
            final(self).colunas_escolhidas == old(self).colunas_escolhidas,
            (final(self).marcadas@, final(self).selecionada, final(self).ancora) == saneada(
                old(self).fotos@,
                old(self).filtros,
                old(self).marcadas@,
                old(self).selecionada,
                old(self).ancora,
            ),
    {
        self.visiveis = indices_visiveis(&self.fotos, &self.filtros);
        self.sanear_selecao();
    }

    /// Troca os filtros, e a grade e a seleção acompanham.
    pub fn filtrar(&mut self, filtros: Filtros)
        requires
            old(self).bem_formada(),
        ensures
            final(self).bem_formada(),
            final(self).filtros == filtros,
            final(self).fotos == old(self).fotos,
            final(self).pastas == old(self).pastas,
            final(self).colunas_escolhidas == old(self).colunas_escolhidas,
            (final(self).marcadas@, final(self).selecionada, final(self).ancora) == saneada(
                old(self).fotos@,
                filtros,
                old(self).marcadas@,
                old(self).selecionada,
                old(self).ancora,
            ),
            // Depois do filtro, nada selecionado fica fora da grade.
            forall|i: int| 0 <= i < final(self).marcadas@.len() && final(self).marcadas@[i]
                ==> final(self).na_grade(i),
            final(self).selecionada matches Some(x) ==> final(self).na_grade(x as int),
    {
        let n: usize = self.fotos.len();
        self.filtros = filtros;
        self.refiltrar();
        proof {
            lema_saneada_so_na_grade(
                old(self).fotos@,
                filtros,
                old(self).marcadas@,
                old(self).selecionada,
                old(self).ancora,
            );
        }
    }
}

impl Biblioteca {
    /// `depois` é `antes` com a marca escrita nas selecionadas e a grade e a
    /// seleção recalculadas para o acervo novo.
    pub open spec fn marcou_e_refiltrou(antes: Biblioteca, depois: Biblioteca, marca: Marca) -> bool {
        &&& depois.fotos@ == acervo_marcado(antes.fotos@, antes.marcadas@, marca)
        &&& depois.filtros == antes.filtros
        &&& depois.pastas == antes.pastas
        &&& depois.colunas_escolhidas == antes.colunas_escolhidas
        &&& (depois.marcadas@, depois.selecionada, depois.ancora) == saneada(
            depois.fotos@,
            antes.filtros,
            antes.marcadas@,
            antes.selecionada,
            antes.ancora,
        )
    }

    /// O acervo, os filtros, a grade e as colunas são os mesmos.
    pub open spec fn mesma_grade(&self, outra: Biblioteca) -> bool {
        &&& self.fotos == outra.fotos
        &&& self.filtros == outra.filtros
        &&& self.visiveis == outra.visiveis
        &&& self.pastas == outra.pastas
        &&& self.colunas_escolhidas == outra.colunas_escolhidas
    }

    /// A foto selecionada, copiada.
    pub fn foto_selecionada(&self) -> (r: Option<Foto>)
        requires
            self.bem_formada(),
        ensures
            r matches Some(f) ==> self.selecionada matches Some(i) && f == self.fotos@[i as int],
            r is None ==> self.selecionada is None,
    {
        match self.selecionada {
            Some(i) => Some(self.fotos[i].copiar()),
            None => None,
        }
    }

    /// Os ids das selecionadas, **na ordem do acervo** — a posição na lista
    /// decide em qual célula da folha de impressão cada foto cai.
    pub fn ids_selecionados(&self) -> (r: Vec<String>)
        requires
            self.bem_formada(),
        ensures
            r@.len() == self.selecao().len(),
            forall|k: int|
                0 <= k < r@.len() ==> (#[trigger] r@[k])@ == self.fotos@[self.selecao()[k] as int].id@,
    {
        let n: usize = self.fotos.len();
        let mut r: Vec<String> = Vec::new();
        let mut i: usize = 0;
        proof {
            lema_posicoes_marcadas(self.marcadas@);
        }
        while i < n
            invariant
                n == self.fotos@.len(),
                self.bem_formada(),
                i <= n,
                r@.len() == posicoes_marcadas(self.marcadas@.take(i as int)).len(),
                forall|k: int|
                    0 <= k < r@.len() ==> (#[trigger] r@[k])@ == self.fotos@[posicoes_marcadas(
                        self.marcadas@.take(i as int),
                    )[k] as int].id@,
                forall|k: int|
                    0 <= k < posicoes_marcadas(self.marcadas@.take(i as int)).len() ==> (
                    posicoes_marcadas(self.marcadas@.take(i as int))[k] as int) < i,
            decreases n - i,
        {
            proof {
                lema_posicoes_marcadas_passo(self.marcadas@, i as int);
            }
            if self.marcadas[i] {
                r.push(self.fotos[i].id.clone());
            }
            i += 1;
        }
        assert(self.marcadas@.take(n as int) =~= self.marcadas@);
        r
    }

    /// As fotos que a grade está mostrando, já filtradas, copiadas.
    pub fn fotos_visiveis(&self) -> (r: Vec<Foto>)
        requires
            self.bem_formada(),
        ensures
            r@.len() == self.visiveis@.len(),
            forall|k: int| 0 <= k < r@.len() ==> r@[k] == self.fotos@[self.visiveis@[k] as int],
    {
        proof {
            lema_posicoes_aceitas(self.filtros, self.fotos@);
        }
        let mut r: Vec<Foto> = Vec::new();
        let mut k: usize = 0;
        while k < self.visiveis.len()
            invariant
                self.bem_formada(),
                k <= self.visiveis@.len(),
                r@.len() == k,
                forall|a: int| 0 <= a < self.visiveis@.len() ==> (self.visiveis@[a] as int) < self.fotos@.len(),
                forall|a: int| 0 <= a < k ==> r@[a] == self.fotos@[self.visiveis@[a] as int],
            decreases self.visiveis@.len() - k,
        {
            r.push(self.fotos[self.visiveis[k]].copiar());
            k += 1;
        }
        r
    }

    /// Quantas fotos estão selecionadas.
    pub fn quantas_selecionadas(&self) -> (r: usize)
        requires
            self.bem_formada(),
        ensures
            r == self.selecao().len(),
    {
        let n: usize = self.fotos.len();
        let mut c: usize = 0;
        let mut i: usize = 0;
        while i < n
            invariant
                n == self.marcadas@.len(),
                i <= n,
                c == posicoes_marcadas(self.marcadas@.take(i as int)).len(),
                c <= i,
            decreases n - i,
        {
            proof {
                lema_posicoes_marcadas_passo(self.marcadas@, i as int);
            }
            if self.marcadas[i] {
                c += 1;
            }
            i += 1;
        }
        assert(self.marcadas@.take(n as int) =~= self.marcadas@);
        c
    }

    /// Seleciona **uma só**, por índice no acervo — o clique sem
    /// modificador. `None` limpa tudo.
    pub fn selecionar(&mut self, no_acervo: Option<usize>)
        requires
            old(self).bem_formada(),
            no_acervo matches Some(i) ==> (i as int) < old(self).fotos@.len(),
        ensures
            final(self).bem_formada(),
            final(self).mesma_grade(*old(self)),
            final(self).selecionada == no_acervo,
            final(self).ancora == no_acervo,
            final(self).marcadas@ == Seq::new(
                old(self).fotos@.len(),
                |i: int| no_acervo == Some(i as usize),
            ),
    {
        let n: usize = self.fotos.len();
        let mut m = nenhuma(n);
        if let Some(i) = no_acervo {
            m.set(i, true);
        }
        assert(m@ =~= Seq::new(n as nat, |i: int| no_acervo == Some(i as usize)));
        self.marcadas = m;
        self.selecionada = no_acervo;
        self.ancora = no_acervo;
    }

    /// `Cmd+D`: limpa a seleção inteira.
    pub fn limpar_selecao(&mut self)
        requires
            old(self).bem_formada(),
        ensures
            final(self).bem_formada(),
            final(self).mesma_grade(*old(self)),
            final(self).selecionada is None,
            final(self).ancora is None,
            final(self).selecao().len() == 0,
    {
        self.selecionar(None);
        proof {
            lema_posicoes_marcadas(self.marcadas@);
            if self.selecao().len() > 0 {
                assert(self.marcadas@[self.selecao()[0] as int]);
            }
        }
    }

    /// `Cmd+clique`: põe ou tira uma foto da seleção, sem tocar nas outras.
    /// A âncora e a principal andam com o clique, mesmo quando ele **tirou**
    /// a foto da seleção.
    pub fn alternar_uma(&mut self, no_acervo: usize)
        requires
            old(self).bem_formada(),
            (no_acervo as int) < old(self).fotos@.len(),
        ensures
            final(self).bem_formada(),
            final(self).mesma_grade(*old(self)),
            final(self).marcadas@ == old(self).marcadas@.update(
                no_acervo as int,
                !old(self).marcadas@[no_acervo as int],
            ),
            final(self).selecionada == Some(no_acervo),
            final(self).ancora == Some(no_acervo),
    {
        let atual = self.marcadas[no_acervo];
        self.marcadas.set(no_acervo, !atual);
        self.ancora = Some(no_acervo);
        self.selecionada = Some(no_acervo);
    }

    /// `Shift+clique`: acrescenta o intervalo entre a âncora e esta foto,
    /// contado **na grade** — e não no acervo.
    ///
    /// Sem âncora, ou com a âncora fora da grade, vale como um clique sobre
    /// esta foto, que passa a ser a âncora.
    #[verifier::spinoff_prover]
    pub fn selecionar_ate(&mut self, no_acervo: usize)
        requires
            old(self).bem_formada(),
            (no_acervo as int) < old(self).fotos@.len(),
        ensures
            final(self).bem_formada(),
            final(self).mesma_grade(*old(self)),
            final(self).selecionada == Some(no_acervo),
            final(self).ancora == (if intervalo_do_shift(old(self).visiveis@, no_acervo, old(self).ancora) is Some {
                old(self).ancora
            } else {
                Some(no_acervo)
            }),
            shift_marcou(old(self).marcadas@, final(self).marcadas@, old(self).visiveis@, no_acervo, old(self).ancora),
    {
        let ghost v = self.visiveis@;
        let ghost m0 = self.marcadas@;
        proof {
            lema_posicoes_aceitas(self.filtros, self.fotos@);
        }
        let posicao_atual = posicao(&self.visiveis, no_acervo);
        let posicao_ancora = match self.ancora {
            Some(a) => posicao(&self.visiveis, a),
            None => None,
        };
        match (posicao_atual, posicao_ancora) {
            (Some(atual), Some(ancora)) => {
                proof {
                    lema_posicao(v, no_acervo, 0);
                    lema_posicao(v, self.ancora->0, 0);
                }
                let (inicio, fim) = if atual <= ancora {
                    (atual, ancora)
                } else {
                    (ancora, atual)
                };
                let mut k = inicio;
                while k <= fim
                    invariant
                        inicio <= k <= fim + 1,
                        fim < v.len(),
                        v.len() <= usize::MAX,
                        v == self.visiveis@,
                        self.fotos == old(self).fotos,
                        self.filtros == old(self).filtros,
                        self.visiveis == old(self).visiveis,
                        self.pastas == old(self).pastas,
                        self.colunas_escolhidas == old(self).colunas_escolhidas,
                        self.selecionada == old(self).selecionada,
                        self.ancora == old(self).ancora,
                        old(self).bem_formada(),
                        m0 == old(self).marcadas@,
                        forall|a: int| 0 <= a < v.len() ==> (v[a] as int) < m0.len(),
                        self.marcadas@.len() == m0.len(),
                        forall|i: int|
                            0 <= i < m0.len() ==> self.marcadas@[i] == (m0[i] || no_trecho(
                                v,
                                inicio as int,
                                k as int,
                                i,
                            )),
                    decreases fim + 1 - k,
                {
                    let x = self.visiveis[k];
                    let ghost antes = self.marcadas@;
                    self.marcadas.set(x, true);
                    let ghost k0 = k as int;
                    k += 1;
                    let ghost k1 = k as int;
                    proof {
                        assert forall|i: int| 0 <= i < m0.len() implies self.marcadas@[i] == (m0[i]
                            || no_trecho(v, inicio as int, k1, i)) by {
                            if i == x as int {
                                assert(inicio <= k0 < k1 && v[k0] == i as usize);
                                assert(no_trecho(v, inicio as int, k1, i));
                            } else {
                                assert(self.marcadas@[i] == antes[i]);
                                assert(antes[i] == (m0[i] || no_trecho(v, inicio as int, k0, i)));
                                if no_trecho(v, inicio as int, k1, i) {
                                    let j = choose|j: int| inicio <= j < k1 && v[j] == i as usize;
                                    if j == k0 {
                                        assert(v[j] == x);
                                        assert((i as usize) as int == i);
                                    }
                                    assert(no_trecho(v, inicio as int, k0, i));
                                }
                                if no_trecho(v, inicio as int, k0, i) {
                                    let j = choose|j: int| inicio <= j < k0 && v[j] == i as usize;
                                    assert(inicio <= j < k1);
                                }
                            }
                        }
                    }
                }
                assert(k == fim + 1);
                assert(intervalo_do_shift(v, no_acervo, old(self).ancora) == Some(
                    (inicio as int, fim as int),
                ));
                proof {
                    lema_trecho_somado(m0, self.marcadas@, v, inicio as int, fim as int, k as int);
                }
            },
            _ => {
                proof {
                    lema_posicao(v, no_acervo, 0);
                    if let Some(a) = self.ancora {
                        lema_posicao(v, a, 0);
                    }
                }
                assert(intervalo_do_shift(v, no_acervo, self.ancora) is None);
                self.marcadas.set(no_acervo, true);
                self.ancora = Some(no_acervo);
            },
        }
        self.selecionada = Some(no_acervo);
    }

    /// `Cmd+A`: tudo que está **na grade** — e não o acervo inteiro.
    ///
    /// A principal continua a que era, se está na grade; senão, a primeira
    /// da grade.
    pub fn selecionar_tudo(&mut self)
        requires
            old(self).bem_formada(),
        ensures
            final(self).bem_formada(),
            final(self).mesma_grade(*old(self)),
            forall|i: int|
                0 <= i < final(self).marcadas@.len() ==> final(self).marcadas@[i]
                    == old(self).na_grade(i),
            final(self).selecionada == (match old(self).selecionada {
                Some(a) => if old(self).na_grade(a as int) {
                    Some(a)
                } else if old(self).visiveis@.len() > 0 {
                    Some(old(self).visiveis@[0])
                } else {
                    None
                },
                None => if old(self).visiveis@.len() > 0 {
                    Some(old(self).visiveis@[0])
                } else {
                    None
                },
            }),
            final(self).ancora == final(self).selecionada,
    {
        let n: usize = self.fotos.len();
        proof {
            lema_posicoes_aceitas(self.filtros, self.fotos@);
        }
        let m = mascara_de(&self.visiveis, n);
        proof {
            assert forall|i: int| 0 <= i < n implies m@[i] == self.na_grade(i) by {
                if m@[i] {
                    let w = choose|w: int| 0 <= w < self.visiveis@.len() && self.visiveis@[w] == i as usize;
                }
            }
        }
        self.marcadas = m;
        let manter = match self.selecionada {
            Some(a) => self.marcadas[a],
            None => false,
        };
        if !manter {
            self.selecionada = if self.visiveis.len() > 0 {
                Some(self.visiveis[0])
            } else {
                None
            };
        }
        self.ancora = self.selecionada;
    }

    /// As setas: um passo na lista **filtrada**, sem dar a volta.
    ///
    /// Sem seleção (ou com a principal fora da grade), a primeira seta
    /// escolhe a primeira da grade (adiante) ou a última (atrás).
    pub fn andar(&mut self, passo: i32)
        requires
            old(self).bem_formada(),
        ensures
            final(self).bem_formada(),
            final(self).mesma_grade(*old(self)),
            ({
                let v = old(self).visiveis@;
                if v.len() == 0 {
                    *final(self) == *old(self)
                } else {
                    let pos = match old(self).selecionada {
                        Some(a) => posicao_em(v, a),
                        None => None,
                    };
                    let nova: int = match pos {
                        Some(p) => if passo > 0 {
                            if p + 1 < v.len() {
                                p + 1
                            } else {
                                v.len() - 1
                            }
                        } else if p > 0 {
                            p - 1
                        } else {
                            0
                        },
                        None => if passo > 0 {
                            0
                        } else {
                            v.len() - 1
                        },
                    };
                    &&& final(self).selecionada == Some(v[nova])
                    &&& final(self).ancora == Some(v[nova])
                    &&& final(self).marcadas@ == Seq::new(
                        old(self).fotos@.len(),
                        |i: int| i == v[nova] as int,
                    )
                }
            }),
    {
        if self.visiveis.len() == 0 {
            return;
        }
        proof {
            lema_posicoes_aceitas(self.filtros, self.fotos@);
        }
        let pos = match self.selecionada {
            Some(a) => posicao(&self.visiveis, a),
            None => None,
        };
        proof {
            if let Some(a) = self.selecionada {
                lema_posicao(self.visiveis@, a, 0);
            }
        }
        let ultimo: usize = self.visiveis.len() - 1;
        let nova = match pos {
            Some(atual) => if passo > 0 {
                if atual < ultimo {
                    atual + 1
                } else {
                    ultimo
                }
            } else if atual > 0 {
                atual - 1
            } else {
                0
            },
            None => if passo > 0 {
                0
            } else {
                ultimo
            },
        };
        let alvo = self.visiveis[nova];
        self.selecionar(Some(alvo));
        assert(self.marcadas@ =~= Seq::new(self.fotos@.len(), |i: int| i == alvo as int));
    }

    /// O clique sem modificador: seleciona só esta — e clicar na que já era
    /// a **única** selecionada desmarca. Com várias, encolhe para esta.
    pub fn alternar_selecao(&mut self, no_acervo: usize)
        requires
            old(self).bem_formada(),
            (no_acervo as int) < old(self).fotos@.len(),
        ensures
            final(self).bem_formada(),
            final(self).mesma_grade(*old(self)),
            ({
                let unica_e_esta = old(self).selecao().len() == 1 && old(self).marcadas@[no_acervo as int];
                let alvo = if unica_e_esta {
                    None
                } else {
                    Some(no_acervo)
                };
                &&& final(self).selecionada == alvo
                &&& final(self).ancora == alvo
                &&& final(self).marcadas@ == Seq::new(
                    old(self).fotos@.len(),
                    |i: int| alvo == Some(i as usize),
                )
            }),
    {
        let unica_e_esta = self.quantas_selecionadas() == 1 && self.marcadas[no_acervo];
        let alvo = if unica_e_esta {
            None
        } else {
            Some(no_acervo)
        };
        self.selecionar(alvo);
    }

    /// Escreve a marca nas fotos selecionadas **e** devolve o que mandar
    /// gravar: um par (id, marca) por selecionada, na ordem do acervo.
    ///
    /// A tela muda antes do banco responder, e refiltra: com "★★★ ou mais"
    /// ligado, baixar uma foto para 1 tira ela da grade na hora. Sem nenhuma
    /// selecionada, nada muda e nada é gravado.
    fn aplicar(&mut self, marca: Marca) -> (r: Vec<(String, Marca)>)
        requires
            old(self).bem_formada(),
        ensures
            final(self).bem_formada(),
            gravacoes_certas(r@, old(self).fotos@, old(self).selecao(), marca),
            old(self).selecao().len() == 0 ==> *final(self) == *old(self),
            old(self).selecao().len() > 0 ==> Biblioteca::marcou_e_refiltrou(*old(self), *final(self), marca),
    {
        let n: usize = self.fotos.len();
        if self.quantas_selecionadas() == 0 {
            return Vec::new();
        }
        let ghost f0 = self.fotos@;
        let ghost m0 = self.marcadas@;
        let mut r: Vec<(String, Marca)> = Vec::new();
        let mut i: usize = 0;
        proof {
            lema_posicoes_marcadas(m0);
        }
        while i < n
            invariant
                n == f0.len(),
                n == m0.len(),
                n <= usize::MAX,
                i <= n,
                self.fotos@.len() == n,
                self.marcadas@ == m0,
                self.filtros == old(self).filtros,
                self.pastas == old(self).pastas,
                self.colunas_escolhidas == old(self).colunas_escolhidas,
                self.selecionada == old(self).selecionada,
                self.ancora == old(self).ancora,
                f0 == old(self).fotos@,
                m0 == old(self).marcadas@,
                old(self).bem_formada(),
                forall|j: int| 0 <= j < i && m0[j] ==> self.fotos@[j] == marcada(f0[j], marca),
                forall|j: int| 0 <= j < n && !(j < i && m0[j]) ==> self.fotos@[j] == f0[j],
                gravacoes_certas(r@, f0, posicoes_marcadas(m0.take(i as int)), marca),
                forall|k: int|
                    0 <= k < posicoes_marcadas(m0.take(i as int)).len() ==> (posicoes_marcadas(
                        m0.take(i as int),
                    )[k] as int) < i,
            decreases n - i,
        {
            proof {
                lema_posicoes_marcadas_passo(m0, i as int);
            }
            let ghost antes = self.fotos@;
            if self.marcadas[i] {
                let atual = self.fotos[i].copiar();
                r.push((atual.id.clone(), marca.copiar()));
                let nova = match &marca {
                    Marca::Nota(nota) => Foto { rating: *nota, ..atual },
                    Marca::Cor(cor) => Foto { color_label: crate::biblioteca::foto::copiar_opcional(cor), ..atual },
                    Marca::Sinalizador(codigo) => Foto { flag: Some(*codigo), ..atual },
                    Marca::Comprada(_) => atual,
                };
                assert(nova == marcada(f0[i as int], marca));
                self.fotos.set(i, nova);
            }
            i += 1;
        }
        assert(m0.take(n as int) =~= m0);
        assert(self.fotos@ =~= acervo_marcado(f0, m0, marca));
        self.refiltrar();
        r
    }

    /// A nota das selecionadas — absoluta.
    pub fn dar_nota(&mut self, nota: i32) -> (r: Vec<(String, Marca)>)
        requires
            old(self).bem_formada(),
        ensures
            final(self).bem_formada(),
            gravacoes_certas(r@, old(self).fotos@, old(self).selecao(), Marca::Nota(nota)),
            old(self).selecao().len() == 0 ==> *final(self) == *old(self),
            old(self).selecao().len() > 0 ==> Biblioteca::marcou_e_refiltrou(*old(self), *final(self), Marca::Nota(nota)),
    {
        self.aplicar(Marca::Nota(nota))
    }

    /// A cor das selecionadas — e a mesma cor de novo tira a cor.
    ///
    /// A decisão é do grupo inteiro: só tira a cor se **todas** já estiverem
    /// com ela (sem ligar para maiúsculas). Senão, todas ficam com a pedida.
    pub fn dar_cor(&mut self, cor: &str) -> (r: Vec<(String, Marca)>)
        requires
            old(self).bem_formada(),
        ensures
            final(self).bem_formada(),
            old(self).selecao().len() == 0 ==> *final(self) == *old(self) && r@.len() == 0,
            old(self).selecao().len() > 0 ==> {
                &&& r@[0].1 is Cor
                &&& cor_da_marca(r@[0].1) == (if todas_com_a_cor(old(self).fotos@, old(self).marcadas@, cor@) {
                    None
                } else {
                    Some(cor@)
                })
                &&& gravacoes_certas(r@, old(self).fotos@, old(self).selecao(), r@[0].1)
                &&& Biblioteca::marcou_e_refiltrou(*old(self), *final(self), r@[0].1)
            },
    {
        let pedida = caracteres(cor);
        let n: usize = self.fotos.len();
        let mut todas = true;
        let mut i: usize = 0;
        while i < n
            invariant
                n == self.fotos@.len(),
                self.bem_formada(),
                i <= n,
                pedida@ == cor@,
                todas == todas_com_a_cor(self.fotos@, self.marcadas@.take(i as int), cor@),
            decreases n - i,
        {
            if self.marcadas[i] {
                let tem = match &self.fotos[i].color_label {
                    Some(c) => iguais_ignorando_caixa(&caracteres(c.as_str()), &pedida),
                    None => false,
                };
                todas = todas && tem;
            }
            proof {
                let t0 = self.marcadas@.take(i as int);
                let t1 = self.marcadas@.take(i as int + 1);
                assert forall|j: int| 0 <= j < i ==> t1[j] == t0[j] by {}
                assert(t1[i as int] == self.marcadas@[i as int]);
            }
            i += 1;
        }
        assert(self.marcadas@.take(n as int) =~= self.marcadas@);
        let atual = if todas {
            Some(cor)
        } else {
            None
        };
        proof {
            assert(iguais_sem_caixa(cor@, cor@));
        }
        let nova = cor_ao_teclar(atual, cor);
        let r = self.aplicar(Marca::Cor(nova));
        proof {
            if old(self).selecao().len() > 0 {
                assert(r@[0].1 == Marca::Cor(nova));
            }
        }
        r
    }

    /// O sinalizador das selecionadas — `1`, `-1` ou `0`.
    ///
    /// A decisão também é do grupo: só desmarca se **todas** já estiverem
    /// com o sinalizador pedido; `0` desmarca sempre.
    pub fn sinalizar(&mut self, pedido: i32) -> (r: Vec<(String, Marca)>)
        requires
            old(self).bem_formada(),
        ensures
            final(self).bem_formada(),
            ({
                let codigo = sinalizador_resultante(
                    if todas_com_o_sinalizador(old(self).fotos@, old(self).marcadas@, pedido) {
                        Some(pedido)
                    } else {
                        None
                    },
                    pedido,
                );
                &&& gravacoes_certas(r@, old(self).fotos@, old(self).selecao(), Marca::Sinalizador(codigo))
                &&& old(self).selecao().len() == 0 ==> *final(self) == *old(self)
                &&& old(self).selecao().len() > 0 ==> Biblioteca::marcou_e_refiltrou(
                    *old(self),
                    *final(self),
                    Marca::Sinalizador(codigo),
                )
            }),
    {
        let n: usize = self.fotos.len();
        let mut todas = true;
        let mut i: usize = 0;
        while i < n
            invariant
                n == self.fotos@.len(),
                self.bem_formada(),
                i <= n,
                todas == todas_com_o_sinalizador(self.fotos@, self.marcadas@.take(i as int), pedido),
            decreases n - i,
        {
            if self.marcadas[i] {
                let atual = match self.fotos[i].flag {
                    Some(f) => f,
                    None => 0,
                };
                todas = todas && atual == pedido;
            }
            proof {
                let t0 = self.marcadas@.take(i as int);
                let t1 = self.marcadas@.take(i as int + 1);
                assert forall|j: int| 0 <= j < i ==> t1[j] == t0[j] by {}
                assert(t1[i as int] == self.marcadas@[i as int]);
            }
            i += 1;
        }
        assert(self.marcadas@.take(n as int) =~= self.marcadas@);
        let atual = if todas {
            Some(pedido)
        } else {
            None
        };
        let codigo = sinalizador_ao_teclar(atual, pedido);
        self.aplicar(Marca::Sinalizador(codigo))
    }

    /// O contador do cabeçalho. Com filtro ele diz **as duas coisas** —
    /// "12 de 2000 fotos" —, porque só "12 fotos" seria um número parcial se
    /// apresentando como total.
    pub fn contador(&self) -> (r: String)
        requires
            self.bem_formada(),
        ensures
            r@ == texto_do_contador(self.fotos@.len(), self.visiveis@.len()),
    {
        let total = self.fotos.len();
        let mostradas = self.visiveis.len();
        if total == 0 {
            texto_de(&caracteres("Nenhuma foto no catálogo — importe uma pasta pelo app de egui"))
        } else if mostradas == total {
            let mut t = escrever_decimal(total as u64);
            anexar(&mut t, &caracteres(" fotos"));
            texto_de(&t)
        } else {
            let mut t = escrever_decimal(mostradas as u64);
            anexar(&mut t, &caracteres(" de "));
            anexar(&mut t, &escrever_decimal(total as u64));
            anexar(&mut t, &caracteres(" fotos"));
            texto_de(&t)
        }
    }

    /// Quantas estão selecionadas — só a partir de duas: com uma, a moldura
    /// na grade já diz tudo.
    pub fn contador_da_selecao(&self) -> (r: Option<String>)
        requires
            self.bem_formada(),
        ensures
            r is Some == texto_da_selecao(self.selecao().len()) is Some,
            r matches Some(t) ==> texto_da_selecao(self.selecao().len()) == Some(t@),
    {
        let n = self.quantas_selecionadas();
        if n > 1 {
            let mut t = escrever_decimal(n as u64);
            anexar(&mut t, &caracteres(" selecionadas"));
            Some(texto_de(&t))
        } else {
            None
        }
    }

    /// O botão de uma cor na barra: acende a cor, e clicar na acesa a apaga.
    pub fn alternar_cor_do_filtro(&mut self, cor: &str)
        requires
            old(self).bem_formada(),
        ensures
            final(self).bem_formada(),
            final(self).filtros.cor matches Some(c) ==> c@ == cor@,
            (final(self).filtros.cor is None) == (old(self).filtros.cor matches Some(c) && c@ == cor@),
            final(self).filtros.nota_minima == old(self).filtros.nota_minima,
            final(self).filtros.sinalizador == old(self).filtros.sinalizador,
            final(self).filtros.busca == old(self).filtros.busca,
            final(self).filtros.pasta == old(self).filtros.pasta,
            final(self).fotos == old(self).fotos,
            (final(self).marcadas@, final(self).selecionada, final(self).ancora) == saneada(
                old(self).fotos@,
                final(self).filtros,
                old(self).marcadas@,
                old(self).selecionada,
                old(self).ancora,
            ),
    {
        let acesa = match &self.filtros.cor {
            Some(c) => iguais(&caracteres(c.as_str()), &caracteres(cor)),
            None => false,
        };
        let filtros = Filtros {
            nota_minima: self.filtros.nota_minima,
            sinalizador: self.filtros.sinalizador,
            cor: if acesa {
                None
            } else {
                Some(texto_de(&caracteres(cor)))
            },
            busca: self.filtros.busca.clone(),
            pasta: crate::biblioteca::foto::copiar_opcional(&self.filtros.pasta),
        };
        self.filtrar(filtros);
    }

    pub fn colunas_escolhidas(&self) -> (r: Option<u8>)
        ensures
            r == self.colunas_escolhidas,
    {
        self.colunas_escolhidas
    }

    /// `None` volta para o automático.
    pub fn escolher_colunas(&mut self, quantas: Option<u8>)
        ensures
            final(self).colunas_escolhidas == quantas,
            final(self).fotos == old(self).fotos,
            final(self).filtros == old(self).filtros,
            final(self).visiveis == old(self).visiveis,
            final(self).pastas == old(self).pastas,
            final(self).marcadas == old(self).marcadas,
            final(self).selecionada == old(self).selecionada,
            final(self).ancora == old(self).ancora,
    {
        self.colunas_escolhidas = quantas;
    }

    /// As colunas escolhidas, presas entre 1 e 5. `None` é o automático,
    /// que depende da largura da janela.
    pub fn colunas_fixas(&self) -> (r: Option<usize>)
        ensures
            r == (match self.colunas_escolhidas {
                Some(q) => Some(if q < 1 {
                    1usize
                } else if q > 5 {
                    5usize
                } else {
                    q as usize
                }),
                None => None,
            }),
    {
        match self.colunas_escolhidas {
            Some(q) => Some(if q < 1 {
                1
            } else if q > 5 {
                5
            } else {
                q as usize
            }),
            None => None,
        }
    }
}

/// Depois de saneada, a seleção e a principal estão na grade.
pub proof fn lema_saneada_so_na_grade(
    fotos: Seq<Foto>,
    f: Filtros,
    m: Seq<bool>,
    sel: Option<usize>,
    ancora: Option<usize>,
)
    requires
        m.len() == fotos.len(),
        fotos.len() <= usize::MAX,
        sel matches Some(a) ==> (a as int) < fotos.len(),
    ensures
        ({
            let (m2, s2, _) = saneada(fotos, f, m, sel, ancora);
            &&& m2.len() == m.len()
            &&& forall|i: int| 0 <= i < m2.len() && m2[i] ==> aceita_foto(f, fotos[i])
            &&& s2 matches Some(x) ==> (x as int) < fotos.len() && aceita_foto(f, fotos[x as int])
        }),
{
    let m1 = so_visiveis(m, f, fotos);
    lema_posicoes_aceitas(f, fotos);
    lema_primeira_marcada(m1, 0);
    if let Some(a) = sel {
        let v = posicoes_aceitas(f, fotos);
        lema_seguinte(v, a, 0);
        assert(v.subrange(0, v.len() as int) =~= v);
        if let Some(y) = seguinte_desde(v, a, 0) {
            let w = choose|w: int| 0 <= w < v.len() && v[w] == y;
        }
    }
}

/// Filtrar de novo com o mesmo filtro não mexe na seleção: a seleção
/// saneada já está toda na grade.
pub proof fn lema_saneada_e_estavel(
    fotos: Seq<Foto>,
    f: Filtros,
    m: Seq<bool>,
    sel: Option<usize>,
    ancora: Option<usize>,
)
    requires
        m.len() == fotos.len(),
        fotos.len() <= usize::MAX,
        sel matches Some(a) ==> (a as int) < fotos.len(),
    ensures
        ({
            let (m2, s2, a2) = saneada(fotos, f, m, sel, ancora);
            saneada(fotos, f, m2, s2, a2) == (m2, s2, a2)
        }),
{
    lema_saneada_so_na_grade(fotos, f, m, sel, ancora);
    let (m2, s2, a2) = saneada(fotos, f, m, sel, ancora);
    assert(so_visiveis(m2, f, fotos) =~= m2);
}

/// `Cmd+clique` duas vezes na mesma foto devolve a seleção de antes.
pub proof fn lema_cmd_clique_duas_vezes(m: Seq<bool>, i: int)
    requires
        0 <= i < m.len(),
    ensures
        m.update(i, !m[i]).update(i, !m.update(i, !m[i])[i]) == m,
{
    assert(m.update(i, !m[i]).update(i, !m.update(i, !m[i])[i]) =~= m);
}

/// `n` posições, nenhuma marcada.
fn nenhuma(n: usize) -> (r: Vec<bool>)
    ensures
        r@ == Seq::new(n as nat, |i: int| false),
{
    let mut r: Vec<bool> = Vec::new();
    let mut i: usize = 0;
    while i < n
        invariant
            i <= n,
            r@ == Seq::new(i as nat, |k: int| false),
        decreases n - i,
    {
        r.push(false);
        assert(r@ =~= Seq::new((i + 1) as nat, |k: int| false));
        i += 1;
    }
    r
}

} // verus!

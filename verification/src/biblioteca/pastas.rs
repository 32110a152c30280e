//! As pastas do acervo, tiradas dos caminhos das fotos.
//!
//! O catálogo não guarda uma tabela de pastas — guarda o caminho de cada foto.
//! A árvore lateral é uma **leitura** desses caminhos, e não um cadastro.

use vstd::prelude::*;

use super::foto::Foto;
use crate::texto::{antes, caracteres, iguais, lema_ordem_estrita, lema_ordem_transitiva, texto_de, trecho, vem_antes};

verus! {

/// Uma pasta e quantas fotos ela tem.
#[derive(Debug, Clone, PartialEq, Eq)]
pub struct Pasta {
    /// Caminho completo do diretório, como está no banco.
    pub caminho: String,
    /// O nome que aparece na tela — o último trecho do caminho.
    pub nome: String,
    /// Quantas fotos estão **nesta** pasta, sem contar subpastas.
    pub quantas: usize,
}

/// `/` ou `\`: o caminho pode ter sido gravado noutro sistema operacional.
pub open spec fn e_separador(c: char) -> bool {
    c == '/' || c == '\\'
}

/// O último separador antes da posição `k`.
pub open spec fn ultimo_separador_ate(s: Seq<char>, k: int) -> Option<int>
    decreases k,
{
    if k <= 0 || k > s.len() {
        None
    } else if e_separador(s[k - 1]) {
        Some(k - 1)
    } else {
        ultimo_separador_ate(s, k - 1)
    }
}

/// O `rfind(['/', '\\'])`.
pub open spec fn ultimo_separador(s: Seq<char>) -> Option<int> {
    ultimo_separador_ate(s, s.len() as int)
}

/// O diretório de um caminho de arquivo: tudo antes do último separador, ou
/// a própria barra quando o arquivo está na raiz. Sem separador, nenhum.
pub open spec fn diretorio(s: Seq<char>) -> Option<Seq<char>> {
    match ultimo_separador(s) {
        None => None,
        Some(k) => if k == 0 {
            Some(s.take(1))
        } else {
            Some(s.take(k))
        },
    }
}

/// O último trecho de um caminho de diretório; a raiz fica com o separador.
pub open spec fn nome_da_pasta(s: Seq<char>) -> Seq<char> {
    match ultimo_separador(s) {
        Some(k) => if k + 1 < s.len() {
            s.skip(k + 1)
        } else {
            s
        },
        None => s,
    }
}

/// A foto está **exatamente** nesta pasta — e não numa de nome parecido.
pub open spec fn esta_na_pasta(foto: Foto, pasta: Seq<char>) -> bool {
    diretorio(foto.path@) == Some(pasta)
}

/// Quantas fotos estão nesta pasta.
pub open spec fn fotos_na_pasta(fotos: Seq<Foto>, pasta: Seq<char>) -> nat
    decreases fotos.len(),
{
    if fotos.len() == 0 {
        0
    } else {
        fotos_na_pasta(fotos.drop_last(), pasta) + if esta_na_pasta(fotos.last(), pasta) {
            1nat
        } else {
            0nat
        }
    }
}

/// Alguma foto do acervo está nesta pasta.
pub open spec fn e_pasta_do_acervo(fotos: Seq<Foto>, pasta: Seq<char>) -> bool {
    exists|i: int| 0 <= i < fotos.len() && #[trigger] esta_na_pasta(fotos[i], pasta)
}

proof fn lema_ultimo_separador_ate(s: Seq<char>, k: int)
    requires
        0 <= k <= s.len(),
    ensures
        ultimo_separador_ate(s, k) matches Some(j) ==> 0 <= j < k && e_separador(s[j]),
    decreases k,
{
    if k > 0 && !e_separador(s[k - 1]) {
        lema_ultimo_separador_ate(s, k - 1);
    }
}

fn ultimo_separador_em(v: &[char]) -> (r: Option<usize>)
    ensures
        r matches Some(k) ==> ultimo_separador(v@) == Some(k as int) && k < v@.len(),
        r is None ==> ultimo_separador(v@) is None,
{
    let mut k: usize = v.len();
    while k > 0 && !(v[k - 1] == '/' || v[k - 1] == '\\')
        invariant
            k <= v@.len(),
            ultimo_separador(v@) == ultimo_separador_ate(v@, k as int),
        decreases k,
    {
        k -= 1;
    }
    if k == 0 {
        None
    } else {
        Some(k - 1)
    }
}

/// O diretório de um caminho, em caracteres.
pub fn diretorio_dos(caminho: &[char]) -> (r: Option<Vec<char>>)
    ensures
        r matches Some(d) ==> diretorio(caminho@) == Some(d@),
        r is None ==> diretorio(caminho@) is None,
{
    match ultimo_separador_em(caminho) {
        None => None,
        Some(corte) => {
            if corte == 0 {
                Some(trecho(caminho, 0, 1))
            } else {
                Some(trecho(caminho, 0, corte))
            }
        },
    }
}

/// O diretório de um caminho de arquivo.
///
/// Feito por texto, e não por `Path::parent()`: o caminho vem do banco e pode
/// ter sido gravado noutro sistema operacional, com `\` no lugar de `/`.
pub fn diretorio_de(caminho: &str) -> (r: Option<String>)
    ensures
        r matches Some(d) ==> diretorio(caminho@) == Some(d@),
        r is None ==> diretorio(caminho@) is None,
{
    let v = caracteres(caminho);
    match diretorio_dos(&v) {
        Some(d) => Some(texto_de(&d)),
        None => None,
    }
}

fn nome_dos(caminho: &[char]) -> (r: Vec<char>)
    ensures
        r@ == nome_da_pasta(caminho@),
{
    match ultimo_separador_em(caminho) {
        Some(corte) => {
            if corte < caminho.len() - 1 {
                trecho(caminho, corte + 1, caminho.len())
            } else {
                trecho(caminho, 0, caminho.len())
            }
        },
        None => trecho(caminho, 0, caminho.len()),
    }
}

/// O último trecho de um caminho de diretório.
pub fn nome_de(caminho: &str) -> (r: String)
    ensures
        r@ == nome_da_pasta(caminho@),
{
    let v = caracteres(caminho);
    texto_de(&nome_dos(&v))
}

/// Se a foto está na pasta escolhida — comparação **exata** do diretório, e
/// não de prefixo: `/fotos/2024` não traz `/fotos/2024-descartes`.
pub fn na_pasta(foto: &Foto, pasta: &str) -> (r: bool)
    ensures
        r == esta_na_pasta(*foto, pasta@),
{
    let caminho = caracteres(foto.path.as_str());
    let alvo = caracteres(pasta);
    match diretorio_dos(&caminho) {
        Some(d) => iguais(&d, &alvo),
        None => false,
    }
}


proof fn lema_fotos_na_pasta_passo(fotos: Seq<Foto>, k: int, pasta: Seq<char>)
    requires
        0 <= k < fotos.len(),
    ensures
        fotos_na_pasta(fotos.take(k + 1), pasta) == fotos_na_pasta(fotos.take(k), pasta) + if esta_na_pasta(
            fotos[k],
            pasta,
        ) {
            1nat
        } else {
            0nat
        },
{
    assert(fotos.take(k + 1).drop_last() =~= fotos.take(k));
}

/// A lista de pastas descreve o acervo: em ordem alfabética e sem repetir,
/// cada uma com a sua contagem e o seu nome, e nenhum diretório de foto de
/// fora.
pub open spec fn pastas_do_acervo_corretas(fotos: Seq<Foto>, r: Seq<Pasta>) -> bool {
    &&& forall|i: int, j: int| 0 <= i < j < r.len() ==> vem_antes(r[i].caminho@, r[j].caminho@)
    &&& forall|i: int|
        0 <= i < r.len() ==> {
            &&& e_pasta_do_acervo(fotos, #[trigger] r[i].caminho@)
            &&& r[i].quantas == fotos_na_pasta(fotos, r[i].caminho@)
            &&& r[i].nome@ == nome_da_pasta(r[i].caminho@)
        }
    &&& forall|k: int|
        0 <= k < fotos.len() && (#[trigger] diretorio(fotos[k].path@)) is Some ==> exists|i: int|
            0 <= i < r.len() && diretorio(fotos[k].path@) == Some(#[trigger] r[i].caminho@)
}

/// As pastas do acervo, em ordem alfabética e com a contagem de cada uma.
///
/// A ordem é a de `str` e tem de ser estável entre execuções: com uma ordem
/// de hash, a árvore lateral se reorganizaria a cada abertura do app.
pub fn pastas_do_acervo(fotos: &[Foto]) -> (r: Vec<Pasta>)
    ensures
        pastas_do_acervo_corretas(fotos@, r@),
        forall|i: int, j: int|
            0 <= i < j < r@.len() ==> vem_antes(r@[i].caminho@, r@[j].caminho@),
        forall|i: int|
            0 <= i < r@.len() ==> {
                &&& e_pasta_do_acervo(fotos@, #[trigger] r@[i].caminho@)
                &&& r@[i].quantas == fotos_na_pasta(fotos@, r@[i].caminho@)
                &&& r@[i].nome@ == nome_da_pasta(r@[i].caminho@)
            },
        forall|k: int|
            0 <= k < fotos@.len() && (#[trigger] diretorio(fotos@[k].path@)) is Some ==> exists|
                i: int,
            |
                0 <= i < r@.len() && diretorio(fotos@[k].path@) == Some(#[trigger] r@[i].caminho@),
{
    let mut caminhos: Vec<Vec<char>> = Vec::new();
    let mut contagens: Vec<usize> = Vec::new();
    let mut k: usize = 0;
    while k < fotos.len()
        invariant
            k <= fotos@.len(),
            caminhos@.len() == contagens@.len(),
            forall|i: int, j: int|
                0 <= i < j < caminhos@.len() ==> vem_antes(caminhos@[i]@, caminhos@[j]@),
            forall|i: int|
                0 <= i < caminhos@.len() ==> {
                    &&& e_pasta_do_acervo(fotos@.take(k as int), #[trigger] caminhos@[i]@)
                    &&& contagens@[i] == fotos_na_pasta(fotos@.take(k as int), caminhos@[i]@)
                    &&& contagens@[i] <= k
                },
            forall|x: Seq<char>|
                (forall|i: int| 0 <= i < caminhos@.len() ==> caminhos@[i]@ != x) ==> #[trigger] fotos_na_pasta(
                    fotos@.take(k as int),
                    x,
                ) == 0,
            forall|m: int|
                0 <= m < k && (#[trigger] diretorio(fotos@[m].path@)) is Some ==> exists|i: int|
                    0 <= i < caminhos@.len() && diretorio(fotos@[m].path@) == Some(
                        #[trigger] caminhos@[i]@,
                    ),
        decreases fotos@.len() - k,
    {
        let ghost antes_c = caminhos@;
        let ghost antes_n = contagens@;
        let ghost t0 = fotos@.take(k as int);
        let ghost t1 = fotos@.take(k as int + 1);
        assert(t1.drop_last() =~= t0);
        proof {
            assert forall|x: Seq<char>| #[trigger]
                fotos_na_pasta(t1, x) == fotos_na_pasta(t0, x) + if esta_na_pasta(
                    fotos@[k as int],
                    x,
                ) {
                    1nat
                } else {
                    0nat
                } by {
                lema_fotos_na_pasta_passo(fotos@, k as int, x);
            }
            assert forall|x: Seq<char>| e_pasta_do_acervo(t0, x) implies e_pasta_do_acervo(
                t1,
                x,
            ) by {
                let w = choose|w: int| 0 <= w < t0.len() && #[trigger] esta_na_pasta(t0[w], x);
                assert(t1[w] == t0[w]);
            }
        }
        let caminho = caracteres(fotos[k].path.as_str());
        match diretorio_dos(&caminho) {
            None => {
                assert forall|x: Seq<char>| !esta_na_pasta(fotos@[k as int], x) by {}
            },
            Some(d) => {
                let mut j: usize = 0;
                while j < caminhos.len() && antes(&caminhos[j], &d)
                    invariant
                        j <= caminhos@.len(),
                        forall|i: int| 0 <= i < j ==> vem_antes(#[trigger] caminhos@[i]@, d@),
                    decreases caminhos@.len() - j,
                {
                    j += 1;
                }
                if j < caminhos.len() && !antes(&d, &caminhos[j]) {
                    proof {
                        lema_ordem_estrita(d@, caminhos@[j as int]@);
                    }
                    assert(caminhos@[j as int]@ == d@);
                    let c = contagens[j];
                    contagens.set(j, c + 1);
                    proof {
                        assert forall|i: int| 0 <= i < caminhos@.len() implies {
                            &&& e_pasta_do_acervo(t1, #[trigger] caminhos@[i]@)
                            &&& contagens@[i] == fotos_na_pasta(t1, caminhos@[i]@)
                            &&& contagens@[i] <= k + 1
                        } by {
                            if i != j {
                                lema_ordem_estrita(caminhos@[i]@, caminhos@[j as int]@);
                                if i < j {
                                    assert(vem_antes(caminhos@[i]@, caminhos@[j as int]@));
                                } else {
                                    assert(vem_antes(caminhos@[j as int]@, caminhos@[i]@));
                                }
                                assert(caminhos@[i]@ != d@);
                            }
                        }
                    }
                } else {
                    proof {
                        assert forall|i: int| j <= i < caminhos@.len() implies vem_antes(
                            d@,
                            #[trigger] caminhos@[i]@,
                        ) by {
                            lema_ordem_estrita(d@, caminhos@[j as int]@);
                            if i > j {
                                lema_ordem_transitiva(d@, caminhos@[j as int]@, caminhos@[i]@);
                            }
                        }
                        assert forall|i: int| 0 <= i < caminhos@.len() implies caminhos@[i]@
                            != d@ by {
                            lema_ordem_estrita(d@, caminhos@[i]@);
                            crate::texto::lema_ordem_irreflexiva(d@);
                        }
                        assert(fotos_na_pasta(t0, d@) == 0);
                    }
                    caminhos.insert(j, d);
                    contagens.insert(j, 1);
                    proof {
                        assert(esta_na_pasta(t1[k as int], caminhos@[j as int]@));
                        assert(e_pasta_do_acervo(t1, caminhos@[j as int]@));
                        assert forall|i: int| 0 <= i < caminhos@.len() implies {
                            &&& e_pasta_do_acervo(t1, #[trigger] caminhos@[i]@)
                            &&& contagens@[i] == fotos_na_pasta(t1, caminhos@[i]@)
                            &&& contagens@[i] <= k + 1
                        } by {
                            if i < j {
                                assert(caminhos@[i] == antes_c[i]);
                                assert(antes_c[i]@ != d@);
                            } else if i > j {
                                assert(caminhos@[i] == antes_c[i - 1]);
                                assert(antes_c[i - 1]@ != d@);
                            }
                        }
                        assert forall|a: int, b: int|
                            0 <= a < b < caminhos@.len() implies vem_antes(
                            caminhos@[a]@,
                            caminhos@[b]@,
                        ) by {
                            if b < j {
                                assert(caminhos@[a] == antes_c[a] && caminhos@[b] == antes_c[b]);
                            } else if b == j {
                                assert(caminhos@[a] == antes_c[a]);
                            } else if a == j {
                                assert(caminhos@[b] == antes_c[b - 1]);
                            } else if a < j {
                                assert(caminhos@[a] == antes_c[a]);
                                assert(caminhos@[b] == antes_c[b - 1]);
                                assert(vem_antes(antes_c[a]@, d@));
                                lema_ordem_transitiva(antes_c[a]@, d@, antes_c[b - 1]@);
                            } else {
                                assert(caminhos@[a] == antes_c[a - 1]);
                                assert(caminhos@[b] == antes_c[b - 1]);
                            }
                        }
                        assert forall|x: Seq<char>|
                            (forall|i: int| 0 <= i < caminhos@.len() ==> caminhos@[i]@ != x)
                                implies #[trigger] fotos_na_pasta(fotos@.take(k as int + 1), x)
                            == 0 by {
                            assert(caminhos@[j as int]@ != x);
                            assert forall|i: int| 0 <= i < antes_c.len() implies antes_c[i]@
                                != x by {
                                if i < j {
                                    assert(caminhos@[i] == antes_c[i]);
                                } else {
                                    assert(caminhos@[i + 1] == antes_c[i]);
                                }
                            }
                        }
                        assert forall|m: int|
                            0 <= m < k + 1 && (#[trigger] diretorio(
                                fotos@[m].path@,
                            )) is Some implies exists|i: int|
                            0 <= i < caminhos@.len() && diretorio(fotos@[m].path@) == Some(
                                #[trigger] caminhos@[i]@,
                            ) by {
                            if m < k {
                                let i = choose|i: int|
                                    0 <= i < antes_c.len() && diretorio(fotos@[m].path@) == Some(
                                        #[trigger] antes_c[i]@,
                                    );
                                if i < j {
                                    assert(caminhos@[i] == antes_c[i]);
                                } else {
                                    assert(caminhos@[i + 1] == antes_c[i]);
                                }
                            } else {
                                assert(caminhos@[j as int]@ == d@);
                            }
                        }
                    }
                }
            },
        }
        k += 1;
    }
    assert(fotos@.take(fotos@.len() as int) =~= fotos@);
    let mut r: Vec<Pasta> = Vec::new();
    let mut i: usize = 0;
    while i < caminhos.len()
        invariant
            i <= caminhos@.len(),
            caminhos@.len() == contagens@.len(),
            r@.len() == i,
            forall|a: int| 0 <= a < i ==> (#[trigger] r@[a]).caminho@ == caminhos@[a]@ && r@[a].quantas
                == contagens@[a] && r@[a].nome@ == nome_da_pasta(caminhos@[a]@),
        decreases caminhos@.len() - i,
    {
        let nome = nome_dos(&caminhos[i]);
        r.push(Pasta { caminho: texto_de(&caminhos[i]), nome: texto_de(&nome), quantas: contagens[i] });
        i += 1;
    }
    assert forall|k: int|
        0 <= k < fotos@.len() && (#[trigger] diretorio(fotos@[k].path@)) is Some implies exists|
        i: int,
    | 0 <= i < r@.len() && diretorio(fotos@[k].path@) == Some(#[trigger] r@[i].caminho@) by {
        let i = choose|i: int|
            0 <= i < caminhos@.len() && diretorio(fotos@[k].path@) == Some(
                #[trigger] caminhos@[i]@,
            );
        assert(r@[i].caminho@ == caminhos@[i]@);
    }
    r
}


proof fn lema_contagem_sem_uma(s: Seq<Foto>, j: int, pasta: Seq<char>)
    requires
        0 <= j < s.len(),
    ensures
        fotos_na_pasta(s, pasta) == fotos_na_pasta(s.remove(j), pasta) + if esta_na_pasta(
            s[j],
            pasta,
        ) {
            1nat
        } else {
            0nat
        },
    decreases s.len(),
{
    if j == s.len() - 1 {
        assert(s.remove(j) =~= s.drop_last());
    } else {
        lema_contagem_sem_uma(s.drop_last(), j, pasta);
        assert(s.remove(j).drop_last() =~= s.drop_last().remove(j));
        assert(s.remove(j).last() == s.last());
    }
}

/// As mesmas fotos, noutra ordem, dão a mesma contagem em cada pasta.
proof fn lema_contagem_permutada(a: Seq<Foto>, b: Seq<Foto>, pasta: Seq<char>)
    requires
        a.to_multiset() == b.to_multiset(),
    ensures
        fotos_na_pasta(a, pasta) == fotos_na_pasta(b, pasta),
    decreases a.len(),
{
    broadcast use vstd::seq_lib::group_to_multiset_ensures;

    if a.len() == 0 {
        assert(b.to_multiset().len() == 0);
    } else {
        let x = a.last();
        assert(a =~= a.drop_last().push(x));
        assert(a.to_multiset() =~= a.drop_last().to_multiset().insert(x));
        assert(b.to_multiset().count(x) > 0);
        assert(b.contains(x));
        let j = choose|j: int| 0 <= j < b.len() && b[j] == x;
        assert(b.remove(j).to_multiset() =~= a.drop_last().to_multiset());
        lema_contagem_permutada(a.drop_last(), b.remove(j), pasta);
        lema_contagem_sem_uma(b, j, pasta);
    }
}

/// Em ordem estrita: cada texto vem antes de todos os seguintes.
pub open spec fn em_ordem_estrita(a: Seq<Seq<char>>) -> bool {
    forall|i: int, j: int| 0 <= i < j < a.len() ==> vem_antes(#[trigger] a[i], #[trigger] a[j])
}

proof fn lema_ordenada_sem_a_primeira(a: Seq<Seq<char>>, x: Seq<char>)
    requires
        a.len() > 0,
        em_ordem_estrita(a),
        a.drop_first().contains(x),
    ensures
        x != a[0],
{
    let k = choose|k: int| 0 <= k < a.drop_first().len() && a.drop_first()[k] == x;
    assert(a.drop_first()[k] == a[k + 1]);
    assert(vem_antes(a[0], a[k + 1]));
    lema_ordem_estrita(a[0], a[k + 1]);
}

/// Duas listas em ordem estrita com os mesmos textos são a mesma lista.
proof fn lema_ordenadas_iguais(a: Seq<Seq<char>>, b: Seq<Seq<char>>)
    requires
        em_ordem_estrita(a),
        em_ordem_estrita(b),
        forall|x: Seq<char>| a.contains(x) <==> b.contains(x),
    ensures
        a == b,
    decreases a.len(),
{
    if a.len() == 0 {
        if b.len() > 0 {
            assert(b.contains(b[0]));
        }
        assert(a =~= b);
    } else if b.len() == 0 {
        assert(a.contains(a[0]));
    } else {
        assert(a.contains(a[0]));
        assert(b.contains(b[0]));
        let j = choose|j: int| 0 <= j < b.len() && b[j] == a[0];
        let i = choose|i: int| 0 <= i < a.len() && a[i] == b[0];
        if i > 0 && j > 0 {
            assert(vem_antes(a[0], a[i]));
            assert(vem_antes(b[0], b[j]));
            lema_ordem_estrita(a[0], b[0]);
        }
        assert(a[0] == b[0]);
        let a1 = a.drop_first();
        let b1 = b.drop_first();
        assert forall|x: Seq<char>| a1.contains(x) implies b1.contains(x) by {
            lema_ordenada_sem_a_primeira(a, x);
            let k = choose|k: int| 0 <= k < a1.len() && a1[k] == x;
            assert(a.contains(a[k + 1]));
            let m = choose|m: int| 0 <= m < b.len() && b[m] == x;
            assert(b1[m - 1] == b[m]);
        }
        assert forall|x: Seq<char>| b1.contains(x) implies a1.contains(x) by {
            lema_ordenada_sem_a_primeira(b, x);
            let k = choose|k: int| 0 <= k < b1.len() && b1[k] == x;
            assert(b.contains(b[k + 1]));
            let m = choose|m: int| 0 <= m < a.len() && a[m] == x;
            assert(a1[m - 1] == a[m]);
        }
        assert forall|p: int, q: int| 0 <= p < q < a1.len() implies vem_antes(
            #[trigger] a1[p],
            #[trigger] a1[q],
        ) by {
            assert(a1[p] == a[p + 1] && a1[q] == a[q + 1]);
        }
        assert forall|p: int, q: int| 0 <= p < q < b1.len() implies vem_antes(
            #[trigger] b1[p],
            #[trigger] b1[q],
        ) by {
            assert(b1[p] == b[p + 1] && b1[q] == b[q + 1]);
        }
        lema_ordenadas_iguais(a1, b1);
        assert(a =~= seq![a[0]] + a1);
        assert(b =~= seq![b[0]] + b1);
    }
}

/// Os caminhos de uma lista de pastas.
pub open spec fn caminhos_das(r: Seq<Pasta>) -> Seq<Seq<char>> {
    r.map_values(|p: Pasta| p.caminho@)
}

/// Um caminho está numa lista de pastas correta exatamente quando é o
/// diretório de alguma foto.
proof fn lema_caminhos_das_fotos(fotos: Seq<Foto>, r: Seq<Pasta>, c: Seq<char>)
    requires
        pastas_do_acervo_corretas(fotos, r),
    ensures
        (exists|i: int| 0 <= i < r.len() && (#[trigger] r[i]).caminho@ == c) <==> (exists|k: int|
            0 <= k < fotos.len() && diretorio((#[trigger] fotos[k]).path@) == Some(c)),
{
    if exists|i: int| 0 <= i < r.len() && (#[trigger] r[i]).caminho@ == c {
        let i = choose|i: int| 0 <= i < r.len() && (#[trigger] r[i]).caminho@ == c;
        assert(e_pasta_do_acervo(fotos, r[i].caminho@));
        let k = choose|k: int| 0 <= k < fotos.len() && #[trigger] esta_na_pasta(fotos[k], r[i].caminho@);
        assert(diretorio(fotos[k].path@) == Some(c));
    }
    if exists|k: int| 0 <= k < fotos.len() && diretorio((#[trigger] fotos[k]).path@) == Some(c) {
        let k = choose|k: int| 0 <= k < fotos.len() && diretorio((#[trigger] fotos[k]).path@) == Some(c);
        assert(diretorio(fotos[k].path@) is Some);
        let i = choose|i: int| 0 <= i < r.len() && diretorio(fotos[k].path@) == Some(#[trigger] r[i].caminho@);
        assert(r[i].caminho@ == c);
    }
}

/// As mesmas fotos, noutra ordem, têm os mesmos diretórios.
proof fn lema_mesmos_diretorios(fotos: Seq<Foto>, outra: Seq<Foto>, c: Seq<char>)
    requires
        fotos.to_multiset() == outra.to_multiset(),
    ensures
        (exists|k: int| 0 <= k < fotos.len() && diretorio((#[trigger] fotos[k]).path@) == Some(c))
            <==> (exists|k: int|
            0 <= k < outra.len() && diretorio((#[trigger] outra[k]).path@) == Some(c)),
{
    broadcast use vstd::seq_lib::group_to_multiset_ensures;

    if exists|k: int| 0 <= k < fotos.len() && diretorio((#[trigger] fotos[k]).path@) == Some(c) {
        let k = choose|k: int| 0 <= k < fotos.len() && diretorio((#[trigger] fotos[k]).path@) == Some(c);
        assert(fotos.contains(fotos[k]));
        assert(outra.to_multiset().count(fotos[k]) > 0);
        assert(outra.contains(fotos[k]));
    }
    if exists|k: int| 0 <= k < outra.len() && diretorio((#[trigger] outra[k]).path@) == Some(c) {
        let k = choose|k: int| 0 <= k < outra.len() && diretorio((#[trigger] outra[k]).path@) == Some(c);
        assert(outra.contains(outra[k]));
        assert(fotos.to_multiset().count(outra[k]) > 0);
        assert(fotos.contains(outra[k]));
    }
}

/// A lista de pastas não depende da ordem das fotos: as mesmas fotos, noutra
/// ordem, dão as mesmas pastas, com os mesmos nomes e as mesmas contagens.
pub proof fn lema_pastas_nao_dependem_da_ordem(
    fotos: Seq<Foto>,
    outra: Seq<Foto>,
    r: Seq<Pasta>,
    s: Seq<Pasta>,
)
    requires
        fotos.to_multiset() == outra.to_multiset(),
        pastas_do_acervo_corretas(fotos, r),
        pastas_do_acervo_corretas(outra, s),
    ensures
        r.len() == s.len(),
        forall|i: int|
            0 <= i < r.len() ==> {
                &&& r[i].caminho@ == s[i].caminho@
                &&& r[i].nome@ == s[i].nome@
                &&& r[i].quantas == s[i].quantas
            },
{
    broadcast use vstd::seq_lib::group_to_multiset_ensures;

    let cr = caminhos_das(r);
    let cs = caminhos_das(s);
    assert forall|x: Seq<char>| cr.contains(x) <==> cs.contains(x) by {
        lema_caminhos_das_fotos(fotos, r, x);
        lema_caminhos_das_fotos(outra, s, x);
        lema_mesmos_diretorios(fotos, outra, x);
        if cr.contains(x) {
            let i = choose|i: int| 0 <= i < cr.len() && cr[i] == x;
            assert(r[i].caminho@ == x);
            let j = choose|j: int| 0 <= j < s.len() && (#[trigger] s[j]).caminho@ == x;
            assert(cs[j] == x);
        }
        if cs.contains(x) {
            let j = choose|j: int| 0 <= j < cs.len() && cs[j] == x;
            assert(s[j].caminho@ == x);
            let i = choose|i: int| 0 <= i < r.len() && (#[trigger] r[i]).caminho@ == x;
            assert(cr[i] == x);
        }
    }
    assert forall|i: int, j: int| 0 <= i < j < cr.len() implies vem_antes(#[trigger] cr[i], #[trigger] cr[j]) by {
        assert(cr[i] == r[i].caminho@ && cr[j] == r[j].caminho@);
    }
    assert forall|i: int, j: int| 0 <= i < j < cs.len() implies vem_antes(#[trigger] cs[i], #[trigger] cs[j]) by {
        assert(cs[i] == s[i].caminho@ && cs[j] == s[j].caminho@);
    }
    lema_ordenadas_iguais(cr, cs);
    assert forall|i: int| 0 <= i < r.len() implies r[i].caminho@ == s[i].caminho@ by {
        assert(cr[i] == r[i].caminho@ && cs[i] == s[i].caminho@);
    }
    assert forall|i: int| 0 <= i < r.len() implies r[i].quantas == s[i].quantas by {
        lema_contagem_permutada(fotos, outra, r[i].caminho@);
    }
}

} // verus!

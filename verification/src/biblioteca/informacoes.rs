//! O que o acervo tem dentro: a contagem por nota e as câmeras mais usadas.
//!
//! Lê o acervo inteiro, e não a lista filtrada: a distribuição por nota
//! responde "como está o acervo", não "como está o filtro".

use vstd::prelude::*;

use super::foto::Foto;
use crate::texto::iguais;
use crate::texto::{antes, caracteres, lema_ordem_estrita, lema_ordem_irreflexiva, lema_ordem_transitiva, texto_de, vem_antes};

verus! {

/// Quantas câmeras entram na lista.
pub const CAMERAS_LISTADAS: usize = 5;

/// O retrato do acervo.
#[derive(Debug, Clone, PartialEq, Eq)]
pub struct Estatisticas {
    /// Quantas fotos em cada nota, de 0 a 5.
    pub por_nota: [usize; 6],
    pub total: usize,
    /// As câmeras mais usadas, da mais para a menos.
    pub cameras: Vec<(String, usize)>,
}

impl Default for Estatisticas {
    fn default() -> (r: Self)
        ensures
            r.total == 0,
            r.cameras@.len() == 0,
            forall|n: int| 0 <= n < 6 ==> r.por_nota@[n] == 0,
    {
        Estatisticas { por_nota: [0usize; 6], total: 0, cameras: Vec::new() }
    }
}

/// A nota presa entre 0 e 5 — um `7` ou um `-1` vindo do banco não sai da
/// faixa.
pub open spec fn nota_presa(nota: i32) -> int {
    if nota < 0 {
        0
    } else if nota > 5 {
        5
    } else {
        nota as int
    }
}

/// Quantas fotos têm esta nota, depois de presa.
pub open spec fn fotos_com_nota(fotos: Seq<Foto>, n: int) -> nat
    decreases fotos.len(),
{
    if fotos.len() == 0 {
        0
    } else {
        fotos_com_nota(fotos.drop_last(), n) + if nota_presa(fotos.last().rating) == n {
            1nat
        } else {
            0nat
        }
    }
}

/// As contas por nota somam o acervo inteiro: toda foto cai em exatamente
/// uma nota de 0 a 5.
pub proof fn lema_notas_somam_o_total(fotos: Seq<Foto>)
    ensures
        fotos_com_nota(fotos, 0) + fotos_com_nota(fotos, 1) + fotos_com_nota(fotos, 2)
            + fotos_com_nota(fotos, 3) + fotos_com_nota(fotos, 4) + fotos_com_nota(fotos, 5)
            == fotos.len(),
    decreases fotos.len(),
{
    if fotos.len() > 0 {
        lema_notas_somam_o_total(fotos.drop_last());
    }
}

/// "Unknown" e vazio não são câmeras: é o que o extrator grava quando não
/// achou nada.
pub open spec fn camera_conhecida(c: Seq<char>) -> bool {
    c.len() > 0 && c != "Unknown"@
}

/// Quantas fotos foram feitas com esta câmera.
pub open spec fn fotos_da_camera(fotos: Seq<Foto>, c: Seq<char>) -> nat
    decreases fotos.len(),
{
    if fotos.len() == 0 {
        0
    } else {
        fotos_da_camera(fotos.drop_last(), c) + if fotos.last().camera@ == c {
            1nat
        } else {
            0nat
        }
    }
}

/// Alguma foto do acervo foi feita com esta câmera.
pub open spec fn camera_do_acervo(fotos: Seq<Foto>, c: Seq<char>) -> bool {
    exists|i: int| 0 <= i < fotos.len() && (#[trigger] fotos[i]).camera@ == c
}

/// `a` vem antes de `b` na lista: mais fotos, ou o mesmo tanto e o nome
/// antes na ordem alfabética.
pub open spec fn mais_usada(a: (Seq<char>, nat), b: (Seq<char>, nat)) -> bool {
    a.1 > b.1 || (a.1 == b.1 && vem_antes(a.0, b.0))
}

pub proof fn lema_mais_usada_estrita(a: (Seq<char>, nat), b: (Seq<char>, nat))
    ensures
        !(mais_usada(a, b) && mais_usada(b, a)),
        !mais_usada(a, a),
        a.0 != b.0 ==> mais_usada(a, b) || mais_usada(b, a),
{
    lema_ordem_estrita(a.0, b.0);
    lema_ordem_irreflexiva(a.0);
}

pub proof fn lema_mais_usada_transitiva(
    a: (Seq<char>, nat),
    b: (Seq<char>, nat),
    c: (Seq<char>, nat),
)
    requires
        mais_usada(a, b),
        mais_usada(b, c),
    ensures
        mais_usada(a, c),
{
    if a.1 == b.1 && b.1 == c.1 {
        lema_ordem_transitiva(a.0, b.0, c.0);
    }
}

/// A câmera de uma entrada da lista, com a contagem.
pub open spec fn entrada(c: (String, usize)) -> (Seq<char>, nat) {
    (c.0@, c.1 as nat)
}

/// A nota em estrelas, como o resto do app a mostra.
pub open spec fn estrelas_de(nota: i32) -> Seq<char> {
    Seq::new(nota_presa(nota) as nat, |i: int| '★')
}

pub fn estrelas(nota: i32) -> (r: String)
    ensures
        r@ == estrelas_de(nota),
{
    let n: usize = if nota < 0 {
        0
    } else if nota > 5 {
        5
    } else {
        nota as usize
    };
    let mut v: Vec<char> = Vec::new();
    let mut i: usize = 0;
    while i < n
        invariant
            i <= n,
            n == nota_presa(nota),
            v@ == Seq::new(i as nat, |k: int| '★'),
        decreases n - i,
    {
        v.push('★');
        assert(v@ =~= Seq::new((i + 1) as nat, |k: int| '★'));
        i += 1;
    }
    texto_de(&v)
}

fn e_camera_conhecida(c: &[char]) -> (r: bool)
    ensures
        r == camera_conhecida(c@),
{
    let desconhecida = caracteres("Unknown");
    c.len() > 0 && !iguais(c, &desconhecida)
}

proof fn lema_passo_da_camera(fotos: Seq<Foto>, k: int, c: Seq<char>)
    requires
        0 <= k < fotos.len(),
    ensures
        fotos_da_camera(fotos.take(k + 1), c) == fotos_da_camera(fotos.take(k), c) + if fotos[k].camera@
            == c {
            1nat
        } else {
            0nat
        },
{
    assert(fotos.take(k + 1).drop_last() =~= fotos.take(k));
}

proof fn lema_passo_da_nota(fotos: Seq<Foto>, k: int, n: int)
    requires
        0 <= k < fotos.len(),
    ensures
        fotos_com_nota(fotos.take(k + 1), n) == fotos_com_nota(fotos.take(k), n) + if nota_presa(
            fotos[k].rating,
        ) == n {
            1nat
        } else {
            0nat
        },
{
    assert(fotos.take(k + 1).drop_last() =~= fotos.take(k));
}

/// As câmeras conhecidas do acervo, cada uma uma vez, com a contagem.
fn contar_cameras(fotos: &[Foto]) -> (r: (Vec<Vec<char>>, Vec<usize>))
    ensures
        r.0@.len() == r.1@.len(),
        forall|i: int, j: int| 0 <= i < j < r.0@.len() ==> r.0@[i]@ != r.0@[j]@,
        forall|i: int|
            0 <= i < r.0@.len() ==> {
                &&& camera_conhecida(#[trigger] r.0@[i]@)
                &&& camera_do_acervo(fotos@, r.0@[i]@)
                &&& r.1@[i] == fotos_da_camera(fotos@, r.0@[i]@)
            },
        forall|c: Seq<char>|
            camera_conhecida(c) && #[trigger] camera_do_acervo(fotos@, c) ==> exists|i: int|
                0 <= i < r.0@.len() && #[trigger] r.0@[i]@ == c,
{
    let mut nomes: Vec<Vec<char>> = Vec::new();
    let mut contas: Vec<usize> = Vec::new();
    let mut k: usize = 0;
    while k < fotos.len()
        invariant
            k <= fotos@.len(),
            nomes@.len() == contas@.len(),
            forall|i: int, j: int| 0 <= i < j < nomes@.len() ==> nomes@[i]@ != nomes@[j]@,
            forall|i: int|
                0 <= i < nomes@.len() ==> {
                    &&& camera_conhecida(#[trigger] nomes@[i]@)
                    &&& camera_do_acervo(fotos@.take(k as int), nomes@[i]@)
                    &&& contas@[i] == fotos_da_camera(fotos@.take(k as int), nomes@[i]@)
                    &&& contas@[i] <= k
                },
            forall|c: Seq<char>|
                camera_conhecida(c) && (forall|i: int| 0 <= i < nomes@.len() ==> nomes@[i]@ != c)
                    ==> #[trigger] fotos_da_camera(fotos@.take(k as int), c) == 0,
            forall|c: Seq<char>|
                camera_conhecida(c) && #[trigger] camera_do_acervo(fotos@.take(k as int), c)
                    ==> exists|i: int| 0 <= i < nomes@.len() && #[trigger] nomes@[i]@ == c,
        decreases fotos@.len() - k,
    {
        let ghost t0 = fotos@.take(k as int);
        let ghost t1 = fotos@.take(k as int + 1);
        let ghost antes_n = nomes@;
        assert(t1.drop_last() =~= t0);
        assert(t1[k as int] == fotos@[k as int]);
        proof {
            assert forall|c: Seq<char>| #[trigger]
                fotos_da_camera(t1, c) == fotos_da_camera(t0, c) + if fotos@[k as int].camera@
                    == c {
                    1nat
                } else {
                    0nat
                } by {
                lema_passo_da_camera(fotos@, k as int, c);
            }
            assert forall|c: Seq<char>| camera_do_acervo(t0, c) implies camera_do_acervo(t1, c) by {
                let w = choose|w: int| 0 <= w < t0.len() && (#[trigger] t0[w]).camera@ == c;
                assert(t1[w] == t0[w]);
            }
            assert forall|c: Seq<char>| #[trigger] camera_do_acervo(t1, c) && c != fotos@[
                k as int
            ].camera@ implies camera_do_acervo(t0, c) by {
                let w = choose|w: int| 0 <= w < t1.len() && (#[trigger] t1[w]).camera@ == c;
                assert(w < k);
                assert(t0[w] == t1[w]);
            }
        }
        let camera = caracteres(fotos[k].camera.as_str());
        if e_camera_conhecida(&camera) {
            let mut j: usize = 0;
            while j < nomes.len() && !iguais(&nomes[j], &camera)
                invariant
                    j <= nomes@.len(),
                    forall|i: int| 0 <= i < j ==> nomes@[i]@ != camera@,
                decreases nomes@.len() - j,
            {
                j += 1;
            }
            if j < nomes.len() {
                let c = contas[j];
                contas.set(j, c + 1);
                assert forall|i: int| 0 <= i < nomes@.len() implies {
                    &&& camera_conhecida(#[trigger] nomes@[i]@)
                    &&& camera_do_acervo(t1, nomes@[i]@)
                    &&& contas@[i] == fotos_da_camera(t1, nomes@[i]@)
                    &&& contas@[i] <= k + 1
                } by {
                    if i != j {
                        assert(nomes@[i]@ != nomes@[j as int]@);
                    }
                }
            } else {
                assert(fotos_da_camera(t0, camera@) == 0);
                nomes.push(camera);
                contas.push(1);
                proof {
                    let n = nomes@.len() - 1;
                    assert(t1[k as int].camera@ == nomes@[n]@);
                    assert(camera_do_acervo(t1, nomes@[n]@));
                    assert forall|i: int| 0 <= i < nomes@.len() implies {
                        &&& camera_conhecida(#[trigger] nomes@[i]@)
                        &&& camera_do_acervo(t1, nomes@[i]@)
                        &&& contas@[i] == fotos_da_camera(t1, nomes@[i]@)
                        &&& contas@[i] <= k + 1
                    } by {
                        if i < n {
                            assert(nomes@[i] == antes_n[i]);
                        }
                    }
                    assert forall|c: Seq<char>|
                        camera_conhecida(c) && #[trigger] camera_do_acervo(t1, c) implies exists|
                        i: int,
                    | 0 <= i < nomes@.len() && #[trigger] nomes@[i]@ == c by {
                        if c != fotos@[k as int].camera@ {
                            let i = choose|i: int| 0 <= i < antes_n.len() && #[trigger] antes_n[i]@ == c;
                            assert(nomes@[i] == antes_n[i]);
                        } else {
                            assert(nomes@[n]@ == c);
                        }
                    }
                    assert forall|c: Seq<char>|
                        camera_conhecida(c) && (forall|i: int|
                            0 <= i < nomes@.len() ==> nomes@[i]@ != c) implies #[trigger] fotos_da_camera(
                        t1,
                        c,
                    ) == 0 by {
                        assert(nomes@[n]@ != c);
                        assert forall|i: int| 0 <= i < antes_n.len() implies antes_n[i]@ != c by {
                            assert(nomes@[i] == antes_n[i]);
                        }
                    }
                }
            }
        } else {
            proof {
                assert forall|c: Seq<char>|
                    camera_conhecida(c) && #[trigger] camera_do_acervo(t1, c) implies exists|i: int|
                    0 <= i < nomes@.len() && #[trigger] nomes@[i]@ == c by {
                    assert(c != camera@);
                }
            }
        }
        k += 1;
    }
    assert(fotos@.take(fotos@.len() as int) =~= fotos@);
    (nomes, contas)
}

/// As contas do acervo.
///
/// 🔑 **Desempate por nome**: duas câmeras com o mesmo número de fotos saem
/// sempre na mesma ordem, e a quinta colocada não muda entre execuções.
pub fn estatisticas(fotos: &[Foto]) -> (r: Estatisticas)
    ensures
        r.total == fotos@.len(),
        forall|n: int| 0 <= n < 6 ==> r.por_nota@[n] == fotos_com_nota(fotos@, n),
        r.cameras@.len() <= CAMERAS_LISTADAS,
        forall|i: int|
            0 <= i < r.cameras@.len() ==> {
                &&& camera_conhecida(#[trigger] r.cameras@[i].0@)
                &&& camera_do_acervo(fotos@, r.cameras@[i].0@)
                &&& r.cameras@[i].1 == fotos_da_camera(fotos@, r.cameras@[i].0@)
            },
        forall|i: int, j: int|
            0 <= i < j < r.cameras@.len() ==> mais_usada(
                entrada(r.cameras@[i]),
                entrada(r.cameras@[j]),
            ),
        forall|c: Seq<char>|
            camera_conhecida(c) && #[trigger] camera_do_acervo(fotos@, c) && (forall|i: int|
                0 <= i < r.cameras@.len() ==> r.cameras@[i].0@ != c) ==> r.cameras@.len()
                == CAMERAS_LISTADAS && forall|i: int|
                0 <= i < r.cameras@.len() ==> mais_usada(
                    entrada(#[trigger] r.cameras@[i]),
                    (c, fotos_da_camera(fotos@, c)),
                ),
{
    // A distribuição por nota.
    let mut por_nota = [0usize; 6];
    let mut k: usize = 0;
    while k < fotos.len()
        invariant
            k <= fotos@.len(),
            forall|n: int|
                0 <= n < 6 ==> por_nota@[n] == fotos_com_nota(fotos@.take(k as int), n)
                    && por_nota@[n] <= k,
        decreases fotos@.len() - k,
    {
        let nota = fotos[k].rating;
        let n: usize = if nota < 0 {
            0
        } else if nota > 5 {
            5
        } else {
            nota as usize
        };
        proof {
            assert forall|m: int| 0 <= m < 6 implies #[trigger] fotos_com_nota(
                fotos@.take(k as int + 1),
                m,
            ) == fotos_com_nota(fotos@.take(k as int), m) + if nota_presa(fotos@[k as int].rating)
                == m {
                1nat
            } else {
                0nat
            } by {
                lema_passo_da_nota(fotos@, k as int, m);
            }
        }
        let atual = por_nota[n];
        por_nota[n] = atual + 1;
        k += 1;
    }
    assert(fotos@.take(fotos@.len() as int) =~= fotos@);

    // As câmeras, escolhidas da mais usada para a menos, até cinco.
    let (nomes, contas) = contar_cameras(fotos);
    let ghost es = Seq::new(nomes@.len(), |i: int| (nomes@[i]@, contas@[i] as nat));
    let mut usada: Vec<bool> = Vec::new();
    let mut i: usize = 0;
    while i < nomes.len()
        invariant
            i <= nomes@.len(),
            usada@ == Seq::new(i as nat, |k: int| false),
        decreases nomes@.len() - i,
    {
        usada.push(false);
        assert(usada@ =~= Seq::new((i + 1) as nat, |k: int| false));
        i += 1;
    }
    let mut escolhidas: Vec<usize> = Vec::new();
    let mut restam: usize = nomes.len();
    while escolhidas.len() < CAMERAS_LISTADAS && restam > 0
        invariant
            nomes@.len() == contas@.len(),
            usada@.len() == nomes@.len(),
            es == Seq::new(nomes@.len(), |i: int| (nomes@[i]@, contas@[i] as nat)),
            forall|i: int, j: int| 0 <= i < j < nomes@.len() ==> nomes@[i]@ != nomes@[j]@,
            escolhidas@.len() <= CAMERAS_LISTADAS,
            restam <= nomes@.len(),
            restam + escolhidas@.len() == nomes@.len(),
            restam == 0 ==> forall|u: int| 0 <= u < usada@.len() ==> usada@[u],
            forall|a: int|
                0 <= a < escolhidas@.len() ==> (escolhidas@[a] as int) < nomes@.len() && usada@[
                    escolhidas@[a] as int
                ],
            forall|u: int|
                0 <= u < usada@.len() && usada@[u] ==> exists|a: int|
                    0 <= a < escolhidas@.len() && escolhidas@[a] == u,
            forall|a: int, b: int|
                0 <= a < b < escolhidas@.len() ==> mais_usada(
                    es[escolhidas@[a] as int],
                    es[escolhidas@[b] as int],
                ),
            forall|a: int, b: int|
                0 <= a < b < escolhidas@.len() ==> escolhidas@[a] != escolhidas@[b],
            forall|a: int, u: int|
                #![trigger escolhidas@[a], usada@[u]]
                0 <= a < escolhidas@.len() && 0 <= u < usada@.len() && !usada@[u] ==> mais_usada(
                    es[escolhidas@[a] as int],
                    es[u],
                ),
        decreases restam,
    {
        // A melhor das que ainda não entraram.
        let mut melhor: usize = nomes.len();
        let mut j: usize = 0;
        while j < nomes.len()
            invariant
                nomes@.len() == contas@.len(),
                usada@.len() == nomes@.len(),
                es == Seq::new(nomes@.len(), |i: int| (nomes@[i]@, contas@[i] as nat)),
                forall|i: int, j: int| 0 <= i < j < nomes@.len() ==> nomes@[i]@ != nomes@[j]@,
                j <= nomes@.len(),
                melhor == nomes@.len() || (melhor < j && !usada@[melhor as int]),
                melhor == nomes@.len() ==> forall|u: int| 0 <= u < j ==> usada@[u],
                melhor < nomes@.len() ==> forall|u: int|
                    0 <= u < j && !usada@[u] && u != melhor ==> mais_usada(
                        es[melhor as int],
                        #[trigger] es[u],
                    ),
            decreases nomes@.len() - j,
        {
            if !usada[j] {
                if melhor == nomes.len() {
                    melhor = j;
                } else {
                    let mais = contas[j] > contas[melhor] || (contas[j] == contas[melhor] && antes(
                        &nomes[j],
                        &nomes[melhor],
                    ));
                    proof {
                        lema_mais_usada_estrita(es[j as int], es[melhor as int]);
                    }
                    if mais {
                        proof {
                            assert forall|u: int|
                                0 <= u < j + 1 && !usada@[u] && u != j implies mais_usada(
                                es[j as int],
                                #[trigger] es[u],
                            ) by {
                                if u != melhor {
                                    lema_mais_usada_transitiva(es[j as int], es[melhor as int], es[u]);
                                }
                            }
                        }
                        melhor = j;
                    }
                }
            }
            j += 1;
        }
        assert(melhor < nomes@.len()) by {
            if melhor == nomes@.len() {
                lema_sem_sobra(escolhidas@, usada@);
            }
        }
        let ghost antes_u = usada@;
        let ghost antes_e = escolhidas@;
        usada.set(melhor, true);
        escolhidas.push(melhor);
        restam -= 1;
        proof {
            assert forall|u: int|
                0 <= u < usada@.len() && usada@[u] implies exists|a: int|
                0 <= a < escolhidas@.len() && escolhidas@[a] == u by {
                if u != melhor {
                    let a = choose|a: int| 0 <= a < antes_e.len() && antes_e[a] == u;
                    assert(escolhidas@[a] == u);
                } else {
                    assert(escolhidas@[escolhidas@.len() - 1] == u);
                }
            }
            assert forall|a: int, b: int|
                0 <= a < b < escolhidas@.len() implies mais_usada(
                es[escolhidas@[a] as int],
                es[escolhidas@[b] as int],
            ) by {
                if b == escolhidas@.len() - 1 {
                    assert(escolhidas@[a] == antes_e[a]);
                    assert(!antes_u[melhor as int]);
                } else {
                    assert(escolhidas@[a] == antes_e[a] && escolhidas@[b] == antes_e[b]);
                }
            }
            assert forall|a: int, u: int|
                #![trigger escolhidas@[a], usada@[u]]
                0 <= a < escolhidas@.len() && 0 <= u < usada@.len() && !usada@[u] implies mais_usada(
                es[escolhidas@[a] as int],
                es[u],
            ) by {
                assert(u != melhor);
                if a == escolhidas@.len() - 1 {
                } else {
                    assert(escolhidas@[a] == antes_e[a]);
                }
            }
            if restam == 0 {
                assert forall|u: int| 0 <= u < usada@.len() implies usada@[u] by {
                    lema_escolhidas_cobrem(escolhidas@, usada@, u);
                }
            }
            assert forall|a: int, b: int| 0 <= a < b < escolhidas@.len() implies escolhidas@[a]
                != escolhidas@[b] by {
                if b == escolhidas@.len() - 1 {
                    assert(escolhidas@[a] == antes_e[a]);
                    assert(antes_u[antes_e[a] as int]);
                } else {
                    assert(escolhidas@[a] == antes_e[a] && escolhidas@[b] == antes_e[b]);
                }
            }
        }
    }
    let mut cameras: Vec<(String, usize)> = Vec::new();
    let mut a: usize = 0;
    while a < escolhidas.len()
        invariant
            a <= escolhidas@.len(),
            cameras@.len() == a,
            nomes@.len() == contas@.len(),
            forall|b: int| 0 <= b < escolhidas@.len() ==> (escolhidas@[b] as int) < nomes@.len(),
            forall|b: int|
                0 <= b < a ==> entrada(#[trigger] cameras@[b]) == es[escolhidas@[b] as int],
            es == Seq::new(nomes@.len(), |i: int| (nomes@[i]@, contas@[i] as nat)),
        decreases escolhidas@.len() - a,
    {
        let e = escolhidas[a];
        cameras.push((texto_de(&nomes[e]), contas[e]));
        a += 1;
    }
    proof {
        assert forall|c: Seq<char>|
            camera_conhecida(c) && #[trigger] camera_do_acervo(fotos@, c) && (forall|i: int|
                0 <= i < cameras@.len() ==> cameras@[i].0@ != c) implies cameras@.len()
            == CAMERAS_LISTADAS && forall|i: int|
            0 <= i < cameras@.len() ==> mais_usada(
                entrada(#[trigger] cameras@[i]),
                (c, fotos_da_camera(fotos@, c)),
            ) by {
            let u = choose|u: int| 0 <= u < nomes@.len() && #[trigger] nomes@[u]@ == c;
            if usada@[u] {
                let b = choose|b: int| 0 <= b < escolhidas@.len() && escolhidas@[b] == u;
                assert(entrada(cameras@[b]) == es[u]);
                assert(cameras@[b].0@ == c);
            }
            assert(es[u] == (c, fotos_da_camera(fotos@, c)));
            assert forall|i: int| 0 <= i < cameras@.len() implies mais_usada(
                entrada(#[trigger] cameras@[i]),
                (c, fotos_da_camera(fotos@, c)),
            ) by {
                assert(entrada(cameras@[i]) == es[escolhidas@[i] as int]);
            }
        }
        assert forall|i: int| 0 <= i < cameras@.len() implies {
            &&& camera_conhecida(#[trigger] cameras@[i].0@)
            &&& camera_do_acervo(fotos@, cameras@[i].0@)
            &&& cameras@[i].1 == fotos_da_camera(fotos@, cameras@[i].0@)
        } by {
            assert(entrada(cameras@[i]) == es[escolhidas@[i] as int]);
        }
        assert forall|i: int, j: int|
            0 <= i < j < cameras@.len() implies mais_usada(
            entrada(cameras@[i]),
            entrada(cameras@[j]),
        ) by {
            assert(entrada(cameras@[i]) == es[escolhidas@[i] as int]);
            assert(entrada(cameras@[j]) == es[escolhidas@[j] as int]);
        }
    }
    Estatisticas { por_nota, total: fotos.len(), cameras }
}

/// Com tantas escolhidas quantas marcadas, e cada marcada escolhida, não há
/// marcada a menos: se as escolhidas são distintas e cobrem todas as
/// posições, nenhuma ficou de fora.
proof fn lema_escolhidas_cobrem(escolhidas: Seq<usize>, usada: Seq<bool>, u: int)
    requires
        escolhidas.len() == usada.len(),
        0 <= u < usada.len(),
        forall|a: int|
            0 <= a < escolhidas.len() ==> (escolhidas[a] as int) < usada.len() && usada[
                escolhidas[a] as int
            ],
        forall|a: int, b: int| 0 <= a < b < escolhidas.len() ==> escolhidas[a] != escolhidas[b],
    ensures
        usada[u],
{
    let m = escolhidas.map_values(|x: usize| x as int);
    assert forall|a: int, b: int| 0 <= a < m.len() && 0 <= b < m.len() && a != b implies m[a]
        != m[b] by {
        if a < b {
            assert(escolhidas[a] != escolhidas[b]);
        } else {
            assert(escolhidas[b] != escolhidas[a]);
        }
    }
    assert(m.no_duplicates());
    m.unique_seq_to_set();
    let s = m.to_set();
    if !usada[u] {
        let resto = vstd::set_lib::set_int_range(0, usada.len() as int).remove(u);
        vstd::set_lib::lemma_int_range(0, usada.len() as int);
        assert forall|x: int| #[trigger] s.contains(x) implies resto.contains(x) by {
            assert(m.contains(x));
            let a = choose|a: int| 0 <= a < m.len() && m[a] == x;
            assert(escolhidas[a] as int == x);
        }
        assert(s.subset_of(resto));
        vstd::set_lib::lemma_len_subset(s, resto);
    }
}

/// Se todas as posições estão marcadas e cada marcada foi escolhida, houve
/// pelo menos tantas escolhas quantas posições.
proof fn lema_sem_sobra(escolhidas: Seq<usize>, usada: Seq<bool>)
    requires
        forall|u: int| 0 <= u < usada.len() ==> usada[u],
        forall|u: int|
            0 <= u < usada.len() && usada[u] ==> exists|a: int|
                0 <= a < escolhidas.len() && escolhidas[a] == u,
    ensures
        escolhidas.len() >= usada.len(),
{
    let m = escolhidas.map_values(|x: usize| x as int);
    let faixa = vstd::set_lib::set_int_range(0, usada.len() as int);
    vstd::set_lib::lemma_int_range(0, usada.len() as int);
    assert forall|x: int| #[trigger] faixa.contains(x) implies m.to_set().contains(x) by {
        assert(usada[x]);
        let a = choose|a: int| 0 <= a < escolhidas.len() && escolhidas[a] == x;
        assert(m[a] == x);
    }
    m.lemma_cardinality_of_set();
    vstd::seq_lib::seq_to_set_is_finite(m);
    vstd::set_lib::lemma_len_subset(faixa, m.to_set());
}

} // verus!

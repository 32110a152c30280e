//! Texto como sequência de caracteres: as poucas operações de `str` que a
//! biblioteca usa, cada uma com o que devolve dito por extenso.
//!
//! O trabalho é feito sobre `Vec<char>`: o texto entra por [`caracteres`] e
//! volta por [`texto_de`]. Os separadores e dígitos que interessam aqui são
//! todos ASCII, então cortar por caractere dá o mesmo trecho que cortar por
//! byte.

use vstd::prelude::*;
use vstd::std_specs::iter::IteratorSpec;

verus! {

broadcast use vstd::string::group_string_axioms;

// ── Ida e volta ─────────────────────────────────────────────────────────────

/// Os caracteres de um texto, na ordem.
pub fn caracteres(s: &str) -> (v: Vec<char>)
    ensures
        v@ == s@,
{
    let mut v: Vec<char> = Vec::new();
    for c in it: s.chars()
        invariant
            v@ == it.seq().take(it.index()),
    {
        v.push(c);
    }
    v
}

/// O texto opcional, visto como caracteres.
pub open spec fn texto_visto(o: Option<String>) -> Option<Seq<char>> {
    match o {
        Some(s) => Some(s@),
        None => None,
    }
}

/// Os textos, vistos como caracteres.
pub open spec fn vistas(v: Seq<String>) -> Seq<Seq<char>> {
    v.map_values(|s: String| s@)
}

/// `String::push`: o caractere entra no fim.
#[verifier::external_body]
fn empurrar(s: &mut String, c: char)
    ensures
        final(s)@ == old(s)@.push(c),
{
    s.push(c);
}

/// Um texto com estes caracteres.
pub fn texto_de(v: &[char]) -> (s: String)
    ensures
        s@ == v@,
{
    let mut s = String::new();
    let mut i: usize = 0;
    while i < v.len()
        invariant
            i <= v@.len(),
            s@ == v@.take(i as int),
        decreases v@.len() - i,
    {
        empurrar(&mut s, v[i]);
        assert(v@.take(i as int + 1) =~= v@.take(i as int).push(v@[i as int]));
        i += 1;
    }
    assert(v@.take(v@.len() as int) =~= v@);
    s
}

/// `v` ganha `s` no fim.
pub fn anexar(v: &mut Vec<char>, s: &[char])
    ensures
        final(v)@ == old(v)@ + s@,
{
    let ghost antes = v@;
    let mut j: usize = 0;
    while j < s.len()
        invariant
            j <= s@.len(),
            v@ == antes + s@.take(j as int),
        decreases s@.len() - j,
    {
        v.push(s[j]);
        assert(s@.take(j as int + 1) =~= s@.take(j as int).push(s@[j as int]));
        assert(v@ =~= antes + s@.take(j as int + 1));
        j += 1;
    }
    assert(s@.take(s@.len() as int) =~= s@);
}

/// Um trecho de caracteres copiado.
pub fn trecho(v: &[char], de: usize, ate: usize) -> (r: Vec<char>)
    requires
        de <= ate <= v@.len(),
    ensures
        r@ == v@.subrange(de as int, ate as int),
{
    let mut r: Vec<char> = Vec::new();
    let mut i: usize = de;
    while i < ate
        invariant
            de <= i <= ate <= v@.len(),
            r@ == v@.subrange(de as int, i as int),
        decreases ate - i,
    {
        r.push(v[i]);
        assert(v@.subrange(de as int, i as int + 1) =~= v@.subrange(de as int, i as int).push(
            v@[i as int],
        ));
        i += 1;
    }
    r
}

/// Os mesmos caracteres, na mesma ordem.
pub fn iguais(a: &[char], b: &[char]) -> (r: bool)
    ensures
        r == (a@ == b@),
{
    if a.len() != b.len() {
        return false;
    }
    let mut i: usize = 0;
    while i < a.len()
        invariant
            a@.len() == b@.len(),
            i <= a@.len(),
            forall|k: int| 0 <= k < i ==> a@[k] == b@[k],
        decreases a@.len() - i,
    {
        if a[i] != b[i] {
            return false;
        }
        i += 1;
    }
    assert(a@ =~= b@);
    true
}

// ── Espaços e o `trim` ──────────────────────────────────────────────────────

/// O `char::is_whitespace` do Rust: a propriedade `White_Space` do Unicode.
pub open spec fn e_espaco(c: char) -> bool {
    let u = c as u32;
    ||| 9 <= u <= 13
    ||| u == 32
    ||| u == 0x85
    ||| u == 0xA0
    ||| u == 0x1680
    ||| 0x2000 <= u <= 0x200A
    ||| u == 0x2028
    ||| u == 0x2029
    ||| u == 0x202F
    ||| u == 0x205F
    ||| u == 0x3000
}

pub fn espaco(c: char) -> (r: bool)
    ensures
        r == e_espaco(c),
{
    let u = c as u32;
    (9 <= u && u <= 13) || u == 32 || u == 0x85 || u == 0xA0 || u == 0x1680 || (0x2000 <= u && u
        <= 0x200A) || u == 0x2028 || u == 0x2029 || u == 0x202F || u == 0x205F || u == 0x3000
}

/// Onde acaba o espaço do começo, olhando a partir de `k`.
pub open spec fn primeiro_nao_espaco(s: Seq<char>, k: int) -> int
    decreases s.len() - k,
{
    if k < 0 || k >= s.len() {
        s.len() as int
    } else if !e_espaco(s[k]) {
        k
    } else {
        primeiro_nao_espaco(s, k + 1)
    }
}

/// Onde começa o espaço do fim, olhando para trás a partir de `k`.
pub open spec fn fim_sem_espaco(s: Seq<char>, k: int) -> int
    decreases k,
{
    if k <= 0 || k > s.len() {
        0
    } else if !e_espaco(s[k - 1]) {
        k
    } else {
        fim_sem_espaco(s, k - 1)
    }
}

/// O `str::trim`: sem os espaços do começo, e depois sem os do fim.
pub open spec fn aparado(s: Seq<char>) -> Seq<char> {
    let t = s.subrange(primeiro_nao_espaco(s, 0), s.len() as int);
    t.subrange(0, fim_sem_espaco(t, t.len() as int))
}

proof fn lema_primeiro_nao_espaco(s: Seq<char>, k: int)
    requires
        0 <= k <= s.len(),
    ensures
        k <= primeiro_nao_espaco(s, k) <= s.len(),
    decreases s.len() - k,
{
    if k < s.len() && e_espaco(s[k]) {
        lema_primeiro_nao_espaco(s, k + 1);
    }
}

proof fn lema_fim_sem_espaco(s: Seq<char>, k: int)
    requires
        0 <= k <= s.len(),
    ensures
        0 <= fim_sem_espaco(s, k) <= k,
    decreases k,
{
    if k > 0 && e_espaco(s[k - 1]) {
        lema_fim_sem_espaco(s, k - 1);
    }
}

/// O texto sem os espaços das pontas.
pub fn aparar(v: &[char]) -> (r: Vec<char>)
    ensures
        r@ == aparado(v@),
{
    let mut i: usize = 0;
    while i < v.len() && espaco(v[i])
        invariant
            i <= v@.len(),
            primeiro_nao_espaco(v@, 0) == primeiro_nao_espaco(v@, i as int),
        decreases v@.len() - i,
    {
        i += 1;
    }
    let ghost t = v@.subrange(i as int, v@.len() as int);
    let mut j: usize = v.len();
    while j > i && espaco(v[j - 1])
        invariant
            i <= j <= v@.len(),
            t == v@.subrange(i as int, v@.len() as int),
            fim_sem_espaco(t, t.len() as int) == fim_sem_espaco(t, j - i),
        decreases j,
    {
        assert(t[j - i - 1] == v@[j - 1]);
        j -= 1;
    }
    proof {
        if j > i {
            assert(t[j - i - 1] == v@[j - 1]);
        }
        assert(fim_sem_espaco(t, j - i) == j - i);
    }
    let r = trecho(v, i, j);
    assert(r@ =~= t.subrange(0, j - i));
    r
}

proof fn lema_espaco_antes(s: Seq<char>, j: int)
    requires
        0 <= j <= s.len(),
    ensures
        forall|k: int| j <= k < primeiro_nao_espaco(s, j) ==> e_espaco(#[trigger] s[k]),
    decreases s.len() - j,
{
    if j < s.len() && e_espaco(s[j]) {
        lema_espaco_antes(s, j + 1);
    }
}

proof fn lema_espaco_depois(s: Seq<char>, k: int)
    requires
        0 <= k <= s.len(),
    ensures
        forall|m: int| fim_sem_espaco(s, k) <= m < k ==> e_espaco(#[trigger] s[m]),
    decreases k,
{
    if k > 0 && e_espaco(s[k - 1]) {
        lema_espaco_depois(s, k - 1);
    }
}

/// O `trim` só tira espaço: o texto aparado é um trecho `[p, q)` do texto, e
/// tudo fora desse trecho é espaço.
pub(crate) proof fn lema_aparado_e_trecho(s: Seq<char>)
    ensures
        exists|p: int, q: int|
            {
                &&& 0 <= p <= q <= s.len()
                &&& aparado(s) == s.subrange(p, q)
                &&& forall|k: int| 0 <= k < p ==> e_espaco(#[trigger] s[k])
                &&& forall|k: int| q <= k < s.len() ==> e_espaco(#[trigger] s[k])
            },
{
    let p = primeiro_nao_espaco(s, 0);
    lema_primeiro_nao_espaco(s, 0);
    lema_espaco_antes(s, 0);
    let t = s.subrange(p, s.len() as int);
    lema_fim_sem_espaco(t, t.len() as int);
    lema_espaco_depois(t, t.len() as int);
    let q = p + fim_sem_espaco(t, t.len() as int);
    assert(aparado(s) =~= s.subrange(p, q));
    assert forall|k: int| q <= k < s.len() implies e_espaco(#[trigger] s[k]) by {
        assert(t[k - p] == s[k]);
    }
}

/// Um texto já aparado, com um caractere que não é espaço na frente,
/// continua aparado.
pub(crate) proof fn lema_aparado_com_um_na_frente(c: char, s: Seq<char>)
    requires
        aparado(s) == s,
        !e_espaco(c),
    ensures
        aparado(seq![c] + s) == seq![c] + s,
{
    let u = seq![c] + s;
    assert(u[0] == c);
    assert(primeiro_nao_espaco(u, 0) == 0);
    assert(u.subrange(0, u.len() as int) =~= u);
    if s.len() > 0 {
        let p = primeiro_nao_espaco(s, 0);
        lema_primeiro_nao_espaco(s, 0);
        let t = s.subrange(p, s.len() as int);
        lema_fim_sem_espaco(t, t.len() as int);
        assert(p == 0);
        assert(t =~= s);
        if e_espaco(s[s.len() - 1]) {
            lema_fim_sem_espaco(s, s.len() - 1);
            assert(false);
        }
        assert(u[u.len() - 1] == s[s.len() - 1]);
    }
    assert(fim_sem_espaco(u, u.len() as int) == u.len());
    assert(u.subrange(0, u.len() as int) =~= u);
}

/// Só espaço, ou nada.
pub open spec fn em_branco(s: Seq<char>) -> bool {
    aparado(s).len() == 0
}

// ── Maiúsculas e minúsculas ─────────────────────────────────────────────────

/// O código de `char::to_ascii_lowercase`: as letras ASCII maiúsculas viram
/// minúsculas, o resto fica.
pub open spec fn minuscula_ascii(c: char) -> u32 {
    if 'A' <= c <= 'Z' {
        ((c as u32) + 32) as u32
    } else {
        c as u32
    }
}

/// `str::eq_ignore_ascii_case`: mesmo tamanho, e cada par igual depois de
/// passar as letras ASCII para minúscula.
pub open spec fn iguais_sem_caixa(a: Seq<char>, b: Seq<char>) -> bool {
    &&& a.len() == b.len()
    &&& forall|i: int| 0 <= i < a.len() ==> minuscula_ascii(#[trigger] a[i]) == minuscula_ascii(
        b[i],
    )
}

fn para_minuscula_ascii(c: char) -> (r: u32)
    ensures
        r == minuscula_ascii(c),
{
    if 'A' <= c && c <= 'Z' {
        (c as u32) + 32
    } else {
        c as u32
    }
}

pub fn iguais_ignorando_caixa(a: &[char], b: &[char]) -> (r: bool)
    ensures
        r == iguais_sem_caixa(a@, b@),
{
    if a.len() != b.len() {
        return false;
    }
    let mut i: usize = 0;
    while i < a.len()
        invariant
            a@.len() == b@.len(),
            i <= a@.len(),
            forall|k: int| 0 <= k < i ==> minuscula_ascii(#[trigger] a@[k]) == minuscula_ascii(
                b@[k],
            ),
        decreases a@.len() - i,
    {
        if para_minuscula_ascii(a[i]) != para_minuscula_ascii(b[i]) {
            return false;
        }
        i += 1;
    }
    true
}

/// O que `str::to_lowercase` devolve: a conversão do Unicode, que o `std`
/// faz e que aqui só tem nome.
pub uninterp spec fn minusculas(s: Seq<char>) -> Seq<char>;

/// `str::to_lowercase`.
#[verifier::external_body]
pub(crate) fn em_minusculas(s: &str) -> (r: String)
    ensures
        r@ == minusculas(s@),
{
    s.to_lowercase()
}

// ── Procurar ────────────────────────────────────────────────────────────────

/// `agulha` aparece inteira em algum ponto de `palheiro`.
pub open spec fn contem(palheiro: Seq<char>, agulha: Seq<char>) -> bool {
    exists|i: int|
        0 <= i && i + agulha.len() <= palheiro.len() && #[trigger] palheiro.subrange(
            i,
            i + agulha.len(),
        ) == agulha
}

/// `agulha` aparece a partir da posição `i`.
pub open spec fn aparece_em(palheiro: Seq<char>, agulha: Seq<char>, i: int) -> bool {
    &&& 0 <= i
    &&& i + agulha.len() <= palheiro.len()
    &&& forall|k: int| 0 <= k < agulha.len() ==> #[trigger] palheiro[i + k] == agulha[k]
}

proof fn lema_aparece_e_trecho(palheiro: Seq<char>, agulha: Seq<char>, i: int)
    requires
        0 <= i,
        i + agulha.len() <= palheiro.len(),
    ensures
        aparece_em(palheiro, agulha, i) <==> palheiro.subrange(i, i + agulha.len()) == agulha,
{
    if aparece_em(palheiro, agulha, i) {
        assert forall|k: int| 0 <= k < agulha.len() implies #[trigger] palheiro.subrange(
            i,
            i + agulha.len(),
        )[k] == agulha[k] by {
            assert(palheiro[i + k] == agulha[k]);
        }
        assert(palheiro.subrange(i, i + agulha.len()) =~= agulha);
    }
    if palheiro.subrange(i, i + agulha.len()) == agulha {
        assert forall|k: int| 0 <= k < agulha.len() implies #[trigger] palheiro[i + k]
            == agulha[k] by {
            assert(palheiro.subrange(i, i + agulha.len())[k] == palheiro[i + k]);
        }
    }
}

fn aparece_na_posicao(palheiro: &[char], agulha: &[char], i: usize) -> (r: bool)
    requires
        i + agulha@.len() <= palheiro@.len(),
    ensures
        r == aparece_em(palheiro@, agulha@, i as int),
{
    let n: usize = palheiro.len();
    let mut k: usize = 0;
    while k < agulha.len()
        invariant
            n == palheiro@.len(),
            i + agulha@.len() <= n,
            k <= agulha@.len(),
            forall|m: int| 0 <= m < k ==> #[trigger] palheiro@[i + m] == agulha@[m],
        decreases agulha@.len() - k,
    {
        if palheiro[i + k] != agulha[k] {
            return false;
        }
        k += 1;
    }
    true
}

/// Onde `agulha` aparece pela primeira vez em `palheiro` — o `str::find`.
pub fn procurar(palheiro: &[char], agulha: &[char]) -> (r: Option<usize>)
    ensures
        r matches Some(i) ==> aparece_em(palheiro@, agulha@, i as int) && forall|j: int|
            0 <= j < i ==> !aparece_em(palheiro@, agulha@, j),
        r is None <==> !contem(palheiro@, agulha@),
{
    if agulha.len() > palheiro.len() {
        assert(!contem(palheiro@, agulha@));
        return None;
    }
    let ultimo: usize = palheiro.len() - agulha.len();
    let mut i: usize = 0;
    loop
        invariant
            ultimo + agulha@.len() == palheiro@.len(),
            i <= ultimo,
            forall|j: int| 0 <= j < i ==> !aparece_em(palheiro@, agulha@, j),
        ensures
            forall|j: int| 0 <= j <= ultimo ==> !aparece_em(palheiro@, agulha@, j),
        decreases ultimo - i,
    {
        if aparece_na_posicao(palheiro, agulha, i) {
            proof {
                lema_aparece_e_trecho(palheiro@, agulha@, i as int);
                assert(contem(palheiro@, agulha@));
                let e = choose|e: int|
                    aparece_em(palheiro@, agulha@, e) && forall|j: int|
                        0 <= j < e ==> !aparece_em(palheiro@, agulha@, j);
                assert(aparece_em(palheiro@, agulha@, e) && forall|j: int|
                    0 <= j < e ==> !aparece_em(palheiro@, agulha@, j));
                if e < i {
                } else if e > i {
                    assert(!aparece_em(palheiro@, agulha@, i as int));
                }
            }
            return Some(i);
        }
        if i == ultimo {
            break ;
        }
        i += 1;
    }
    proof {
        if contem(palheiro@, agulha@) {
            let e = choose|e: int|
                0 <= e && e + agulha@.len() <= palheiro@.len() && #[trigger] palheiro@.subrange(
                    e,
                    e + agulha@.len(),
                ) == agulha@;
            lema_aparece_e_trecho(palheiro@, agulha@, e);
        }
    }
    None
}

/// `i` é a primeira posição onde `agulha` aparece.
pub open spec fn e_a_primeira(palheiro: Seq<char>, agulha: Seq<char>, i: int) -> bool {
    &&& aparece_em(palheiro, agulha, i)
    &&& forall|j: int| 0 <= j < i ==> !aparece_em(palheiro, agulha, j)
}

/// A primeira posição onde `agulha` aparece, se aparece.
pub open spec fn primeira_ocorrencia(palheiro: Seq<char>, agulha: Seq<char>) -> Option<int> {
    if contem(palheiro, agulha) {
        Some(choose|i: int| e_a_primeira(palheiro, agulha, i))
    } else {
        None
    }
}

/// Só uma posição é a primeira.
pub proof fn lema_primeira_unica(palheiro: Seq<char>, agulha: Seq<char>, i: int)
    requires
        e_a_primeira(palheiro, agulha, i),
    ensures
        primeira_ocorrencia(palheiro, agulha) == Some(i),
{
    lema_aparece_e_trecho(palheiro, agulha, i);
    assert(palheiro.subrange(i, i + agulha.len()) == agulha);
    assert(contem(palheiro, agulha));
    let k = choose|k: int| e_a_primeira(palheiro, agulha, k);
    assert(e_a_primeira(palheiro, agulha, k));
    if k < i {
        assert(!aparece_em(palheiro, agulha, k));
    } else if k > i {
        assert(!aparece_em(palheiro, agulha, i));
    }
}

proof fn lema_primeira_ate(palheiro: Seq<char>, agulha: Seq<char>, i: int)
    requires
        aparece_em(palheiro, agulha, i),
    ensures
        exists|j: int| e_a_primeira(palheiro, agulha, j),
    decreases i,
{
    if !e_a_primeira(palheiro, agulha, i) {
        let j = choose|j: int| 0 <= j < i && aparece_em(palheiro, agulha, j);
        lema_primeira_ate(palheiro, agulha, j);
    }
}

/// Quando a agulha aparece, a primeira ocorrência é mesmo a primeira.
pub(crate) proof fn lema_primeira_existe(palheiro: Seq<char>, agulha: Seq<char>)
    requires
        contem(palheiro, agulha),
    ensures
        primeira_ocorrencia(palheiro, agulha) matches Some(i) && e_a_primeira(palheiro, agulha, i),
{
    let i0 = choose|i: int|
        0 <= i && i + agulha.len() <= palheiro.len() && #[trigger] palheiro.subrange(
            i,
            i + agulha.len(),
        ) == agulha;
    lema_aparece_e_trecho(palheiro, agulha, i0);
    lema_primeira_ate(palheiro, agulha, i0);
}

/// O `str::split_once`: o que vem antes e o que vem depois da primeira
/// ocorrência do separador.
pub open spec fn partido(v: Seq<char>, sep: Seq<char>) -> Option<(Seq<char>, Seq<char>)> {
    match primeira_ocorrencia(v, sep) {
        Some(i) => Some((v.take(i), v.skip(i + sep.len()))),
        None => None,
    }
}

pub fn partir_na_primeira(v: &[char], sep: &[char]) -> (r: Option<(Vec<char>, Vec<char>)>)
    ensures
        r is Some <==> partido(v@, sep@) is Some,
        r matches Some(par) ==> partido(v@, sep@) == Some((par.0@, par.1@)),
{
    match procurar(v, sep) {
        Some(i) => {
            proof {
                lema_primeira_unica(v@, sep@, i as int);
            }
            assert(aparece_em(v@, sep@, i as int));
            let n: usize = v.len();
            let m: usize = sep.len();
            assert(i + m <= n);
            let antes = trecho(v, 0, i);
            let depois = trecho(v, i + m, n);
            assert(antes@ =~= v@.take(i as int));
            assert(depois@ =~= v@.skip(i + sep@.len()));
            Some((antes, depois))
        },
        None => None,
    }
}

/// `str::contains`.
pub fn contem_trecho(palheiro: &[char], agulha: &[char]) -> (r: bool)
    ensures
        r == contem(palheiro@, agulha@),
{
    procurar(palheiro, agulha).is_some()
}

// ── Ordem ───────────────────────────────────────────────────────────────────

/// A ordem de `str`: lexicográfica, caractere a caractere pelo código. (A
/// ordem dos bytes em UTF-8 é a mesma dos códigos, então é a ordem de `Ord`.)
pub open spec fn vem_antes(a: Seq<char>, b: Seq<char>) -> bool
    decreases a.len(),
{
    if a.len() == 0 {
        b.len() > 0
    } else if b.len() == 0 {
        false
    } else if a[0] != b[0] {
        (a[0] as u32) < (b[0] as u32)
    } else {
        vem_antes(a.drop_first(), b.drop_first())
    }
}

pub fn antes(a: &[char], b: &[char]) -> (r: bool)
    ensures
        r == vem_antes(a@, b@),
{
    assert(a@.skip(0) =~= a@);
    assert(b@.skip(0) =~= b@);
    let mut k: usize = 0;
    while k < a.len() && k < b.len() && a[k] == b[k]
        invariant
            k <= a@.len(),
            k <= b@.len(),
            vem_antes(a@, b@) == vem_antes(a@.skip(k as int), b@.skip(k as int)),
        decreases a@.len() - k,
    {
        assert(a@.skip(k as int).drop_first() =~= a@.skip(k as int + 1));
        assert(b@.skip(k as int).drop_first() =~= b@.skip(k as int + 1));
        k += 1;
    }
    if k == a.len() {
        k < b.len()
    } else if k == b.len() {
        false
    } else {
        (a[k] as u32) < (b[k] as u32)
    }
}

/// `vem_antes` não põe um texto antes de si mesmo.
pub proof fn lema_ordem_irreflexiva(a: Seq<char>)
    ensures
        !vem_antes(a, a),
    decreases a.len(),
{
    if a.len() > 0 {
        lema_ordem_irreflexiva(a.drop_first());
    }
}

/// `vem_antes` é uma ordem estrita e total.
pub proof fn lema_ordem_estrita(a: Seq<char>, b: Seq<char>)
    ensures
        !(vem_antes(a, b) && vem_antes(b, a)),
        a != b ==> vem_antes(a, b) || vem_antes(b, a),
    decreases a.len(),
{
    if a.len() > 0 && b.len() > 0 {
        if a[0] == b[0] {
            lema_ordem_estrita(a.drop_first(), b.drop_first());
            if a != b {
                assert(a =~= seq![a[0]] + a.drop_first());
                assert(b =~= seq![b[0]] + b.drop_first());
            }
        } else {
            lema_char_u32_injetivo(a[0], b[0]);
        }
    } else if a.len() == 0 && b.len() == 0 {
        assert(a =~= b);
    }
}

proof fn lema_char_u32_injetivo(x: char, y: char)
    ensures
        x != y ==> (x as u32) != (y as u32),
{
}

pub proof fn lema_ordem_transitiva(a: Seq<char>, b: Seq<char>, c: Seq<char>)
    requires
        vem_antes(a, b),
        vem_antes(b, c),
    ensures
        vem_antes(a, c),
    decreases a.len(),
{
    if a.len() > 0 && b.len() > 0 && c.len() > 0 {
        if a[0] == b[0] && b[0] == c[0] {
            lema_ordem_transitiva(a.drop_first(), b.drop_first(), c.drop_first());
        }
    }
}

// ── Números ─────────────────────────────────────────────────────────────────

pub open spec fn e_digito(c: char) -> bool {
    '0' <= c <= '9'
}

pub open spec fn so_digitos(s: Seq<char>) -> bool {
    forall|i: int| 0 <= i < s.len() ==> e_digito(#[trigger] s[i])
}

pub open spec fn valor_do_digito(c: char) -> nat {
    ((c as u32) - ('0' as u32)) as nat
}

/// O número que uma fileira de dígitos escreve, em base dez.
pub open spec fn valor_decimal(s: Seq<char>) -> nat
    decreases s.len(),
{
    if s.len() == 0 {
        0
    } else {
        valor_decimal(s.drop_last()) * 10 + valor_do_digito(s.last())
    }
}

proof fn lema_valor_cresce(s: Seq<char>, k: int)
    requires
        0 <= k <= s.len(),
        so_digitos(s),
    ensures
        valor_decimal(s.take(k)) <= valor_decimal(s),
    decreases s.len() - k,
{
    if k < s.len() {
        lema_valor_cresce(s, k + 1);
        assert(s.take(k + 1).drop_last() =~= s.take(k));
    } else {
        assert(s.take(k) =~= s);
    }
}

/// Os dígitos de `v` lidos em base dez, quando o número não passa de
/// `limite`.
pub fn ler_digitos(v: &[char], limite: u64) -> (r: Option<u64>)
    requires
        so_digitos(v@),
        limite >= 9,
    ensures
        r matches Some(n) ==> n == valor_decimal(v@) && valor_decimal(v@) <= limite,
        r is None ==> valor_decimal(v@) > limite,
{
    let mut acc: u64 = 0;
    let mut i: usize = 0;
    while i < v.len()
        invariant
            i <= v@.len(),
            so_digitos(v@),
            acc == valor_decimal(v@.take(i as int)),
            acc <= limite,
            limite >= 9,
        decreases v@.len() - i,
    {
        let c = v[i];
        assert(e_digito(v@[i as int]));
        let d = (c as u32 - '0' as u32) as u64;
        assert(d <= 9);
        assert(v@.take(i as int + 1).drop_last() =~= v@.take(i as int));
        assert(v@.take(i as int + 1).last() == c);
        if acc > (limite - d) / 10 {
            proof {
                assert(acc * 10 + d > limite) by (nonlinear_arith)
                    requires
                        acc > (limite - d) / 10,
                        d <= limite || d > limite,
                        d <= 9,
                ;
                lema_valor_cresce(v@, i as int + 1);
            }
            return None;
        }
        assert(acc * 10 + d <= limite) by (nonlinear_arith)
            requires
                acc <= (limite - d) / 10,
                d <= limite,
        ;
        acc = acc * 10 + d;
        i += 1;
    }
    assert(v@.take(v@.len() as int) =~= v@);
    Some(acc)
}

/// Só dígitos ASCII?
pub fn so_de_digitos(v: &[char]) -> (r: bool)
    ensures
        r == so_digitos(v@),
{
    let mut i: usize = 0;
    while i < v.len()
        invariant
            i <= v@.len(),
            forall|k: int| 0 <= k < i ==> e_digito(#[trigger] v@[k]),
        decreases v@.len() - i,
    {
        if !('0' <= v[i] && v[i] <= '9') {
            assert(!e_digito(v@[i as int]));
            return false;
        }
        i += 1;
    }
    true
}

/// O caractere do dígito `d`.
pub open spec fn digito(d: nat) -> char {
    (('0' as u32) + d) as char
}

/// `n` escrito em base dez, sem zeros à esquerda.
pub open spec fn decimal(n: nat) -> Seq<char>
    decreases n,
{
    if n < 10 {
        seq![digito(n)]
    } else {
        decimal(n / 10).push(digito(n % 10))
    }
}

fn caractere_do_digito(d: u64) -> (c: char)
    requires
        d < 10,
    ensures
        c == digito(d as nat),
{
    let b: u8 = 48u8 + (d as u8);
    b as char
}

/// `n` em base dez — o `to_string` de um inteiro sem sinal.
pub fn escrever_decimal(n: u64) -> (r: Vec<char>)
    ensures
        r@ == decimal(n as nat),
    decreases n,
{
    if n < 10 {
        let mut r: Vec<char> = Vec::new();
        r.push(caractere_do_digito(n));
        assert(r@ =~= seq![digito(n as nat)]);
        r
    } else {
        let mut r = escrever_decimal(n / 10);
        r.push(caractere_do_digito(n % 10));
        r
    }
}

/// O `str::parse::<u16>`: um `+` opcional e depois só dígitos, sem passar
/// de 65535.
pub open spec fn le_u16(s: Seq<char>) -> Option<u16> {
    let digitos = if s.len() > 0 && s[0] == '+' {
        s.drop_first()
    } else {
        s
    };
    if digitos.len() == 0 || !so_digitos(digitos) || valor_decimal(digitos) > 65535 {
        None
    } else {
        Some(valor_decimal(digitos) as u16)
    }
}

pub fn ler_u16(v: &[char]) -> (r: Option<u16>)
    ensures
        r == le_u16(v@),
{
    let digitos = if v.len() > 0 && v[0] == '+' {
        let d = trecho(v, 1, v.len());
        assert(d@ =~= v@.drop_first());
        d
    } else {
        let d = trecho(v, 0, v.len());
        assert(d@ =~= v@);
        d
    };
    if digitos.len() == 0 {
        return None;
    }
    let mut i: usize = 0;
    while i < digitos.len()
        invariant
            i <= digitos@.len(),
            digitos@ == (if v@.len() > 0 && v@[0] == '+' {
                v@.drop_first()
            } else {
                v@
            }),
            forall|k: int| 0 <= k < i ==> e_digito(#[trigger] digitos@[k]),
        decreases digitos@.len() - i,
    {
        if !('0' <= digitos[i] && digitos[i] <= '9') {
            assert(!e_digito(digitos@[i as int]));
            return None;
        }
        i += 1;
    }
    match ler_digitos(&digitos, 65535) {
        Some(n) => Some(n as u16),
        None => None,
    }
}

} // verus!

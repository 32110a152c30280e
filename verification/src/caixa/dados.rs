//! O que o caixa lê da API e escreve de volta, como valores: o dinheiro em
//! centavos, a hora do estúdio, a frase de erro que a tela mostra e as listas
//! que a carga monta.
//!
//! O JSON em si é lido fora daqui; o que chega são os campos já separados.

use chrono::{Datelike, Timelike};
use vstd::prelude::*;

use crate::texto::{
    lema_aparado_com_um_na_frente, vistas,
    aparece_em, contem, e_espaco, lema_aparado_e_trecho, lema_primeira_existe, lema_primeira_unica,
    primeira_ocorrencia,
    anexar, aparado, aparar, caracteres, decimal, iguais, digito, escrever_decimal, ler_digitos, partido,
    le_u16, ler_u16, partir_na_primeira, so_de_digitos, so_digitos, texto_de, trecho, valor_decimal,
    valor_do_digito,
};

verus! {

// ── Dinheiro ────────────────────────────────────────────────────────────────

/// O texto começa com o sinal de menos.
pub open spec fn e_negativo(t: Seq<char>) -> bool {
    t.len() > 0 && t[0] == '-'
}

/// O texto sem o sinal de menos da frente (um só).
pub open spec fn sem_sinal(t: Seq<char>) -> Seq<char> {
    if e_negativo(t) {
        t.drop_first()
    } else {
        t
    }
}

/// Os reais: o que vem antes do primeiro ponto (ou tudo, sem ponto).
pub open spec fn parte_inteira(corpo: Seq<char>) -> Seq<char> {
    match partido(corpo, seq!['.']) {
        Some(par) => par.0,
        None => corpo,
    }
}

/// Os decimais: o que vem depois do primeiro ponto (nada, sem ponto).
pub open spec fn parte_decimal(corpo: Seq<char>) -> Seq<char> {
    match partido(corpo, seq!['.']) {
        Some(par) => par.1,
        None => Seq::empty(),
    }
}

/// O dígito `k` dos decimais, ou zero quando eles acabam antes.
pub open spec fn decimal_em(d: Seq<char>, k: int) -> nat {
    if k < d.len() {
        valor_do_digito(d[k])
    } else {
        0
    }
}

/// Os três primeiros decimais, completados com zeros: `"5"` é 500.
pub open spec fn tres_decimais(d: Seq<char>) -> nat {
    100 * decimal_em(d, 0) + 10 * decimal_em(d, 1) + decimal_em(d, 2)
}

/// Os centavos sem o sinal, quando o texto é dinheiro: só dígitos dos dois
/// lados do ponto, e os reais cabendo num `i64`. Arredonda no terceiro
/// decimal, meio para cima.
pub open spec fn centavos_sem_sinal(texto: Seq<char>) -> Option<int> {
    let corpo = sem_sinal(aparado(texto));
    let inteiros = parte_inteira(corpo);
    let decimais = parte_decimal(corpo);
    if !so_digitos(inteiros) || !so_digitos(decimais) || valor_decimal(inteiros) > i64::MAX {
        None
    } else {
        Some((valor_decimal(inteiros) * 100 + (tres_decimais(decimais) + 5) / 10) as int)
    }
}

/// O valor em centavos; o que não é dinheiro vale zero.
pub open spec fn centavos(texto: Seq<char>) -> int {
    match centavos_sem_sinal(texto) {
        Some(c) => if e_negativo(aparado(texto)) {
            -c
        } else {
            c
        },
        None => 0,
    }
}

/// A conta em centavos cabe num `i64`.
pub open spec fn cabe(texto: Seq<char>) -> bool {
    match centavos_sem_sinal(texto) {
        Some(c) => c <= i64::MAX,
        None => true,
    }
}

/// O sinal de menos na frente nega o valor: `"-2.505"` vale o oposto de
/// `"2.505"`, arredondado do mesmo jeito — e o que não é dinheiro vale zero
/// com e sem o sinal.
pub proof fn lema_o_sinal_nega(s: Seq<char>)
    requires
        aparado(s) == s,
        !e_negativo(s),
    ensures
        centavos(seq!['-'] + s) == -centavos(s),
{
    lema_aparado_com_um_na_frente('-', s);
    let u = seq!['-'] + s;
    assert(u.drop_first() =~= s);
    assert(sem_sinal(aparado(u)) == s);
    assert(sem_sinal(aparado(s)) == s);
}

/// As partes de um texto de dinheiro.
struct Partes {
    negativo: bool,
    reais: u64,
    tres: u64,
}

fn partes_do_dinheiro(texto: &str) -> (r: Option<Partes>)
    ensures
        r is Some <==> centavos_sem_sinal(texto@) is Some,
        r matches Some(p) ==> {
            &&& centavos_sem_sinal(texto@) == Some(p.reais * 100 + (p.tres + 5) / 10)
            &&& p.negativo == e_negativo(aparado(texto@))
            &&& p.reais <= i64::MAX
            &&& p.tres <= 999
        },
{
    let t = aparar(&caracteres(texto));
    let negativo = t.len() > 0 && t[0] == '-';
    let corpo = if negativo {
        let c = trecho(&t, 1, t.len());
        assert(c@ =~= t@.drop_first());
        c
    } else {
        let c = trecho(&t, 0, t.len());
        assert(c@ =~= t@);
        c
    };
    let mut ponto: Vec<char> = Vec::new();
    ponto.push('.');
    assert(ponto@ =~= seq!['.']);
    let (inteiros, decimais) = match partir_na_primeira(&corpo, &ponto) {
        Some(par) => par,
        None => (corpo, Vec::new()),
    };
    assert(inteiros@ == parte_inteira(corpo@));
    assert(decimais@ =~= parte_decimal(corpo@));
    if !so_de_digitos(&inteiros) || !so_de_digitos(&decimais) {
        return None;
    }
    let reais: u64 = if inteiros.len() == 0 {
        0
    } else {
        match ler_digitos(&inteiros, 9223372036854775807u64) {
            Some(r) => r,
            None => {
                return None;
            },
        }
    };
    let mut tres: u64 = 0;
    let mut k: usize = 0;
    while k < 3
        invariant
            k <= 3,
            so_digitos(decimais@),
            tres == (if k >= 1 { 100 * decimal_em(decimais@, 0) } else { 0 }) + (if k >= 2 {
                10 * decimal_em(decimais@, 1)
            } else {
                0
            }) + (if k >= 3 { decimal_em(decimais@, 2) } else { 0 }),
        decreases 3 - k,
    {
        let d: u64 = if k < decimais.len() {
            assert(crate::texto::e_digito(decimais@[k as int]));
            (decimais[k] as u32 - '0' as u32) as u64
        } else {
            0
        };
        let peso: u64 = if k == 0 {
            100
        } else if k == 1 {
            10
        } else {
            1
        };
        tres = tres + d * peso;
        k += 1;
    }
    Some(Partes { negativo, reais, tres })
}

/// O valor em centavos: o backend manda dinheiro como texto (`"99.99"`);
/// o que não é dinheiro vira zero. Arredonda no terceiro decimal em vez de
/// cortar: `299.8999…` é R$ 299,90.
pub fn centavos_da_api(texto: &str) -> (r: i64)
    requires
        cabe(texto@),
    ensures
        r == centavos(texto@),
{
    match partes_do_dinheiro(texto) {
        Some(p) => {
            let c: u128 = (p.reais as u128) * 100 + ((p.tres + 5) / 10) as u128;
            let c: i64 = c as i64;
            if p.negativo {
                -c
            } else {
                c
            }
        },
        None => 0,
    }
}

/// Se a conta de [`centavos_da_api`] cabe num `i64` — o que quem lê da API
/// confere antes de chamá-la.
pub fn cabe_em_centavos(texto: &str) -> (r: bool)
    ensures
        r == cabe(texto@),
{
    match partes_do_dinheiro(texto) {
        Some(p) => (p.reais as u128) * 100 + ((p.tres + 5) / 10) as u128 <= 9223372036854775807u128,
        None => true,
    }
}

// ── Hora ────────────────────────────────────────────────────────────────────

/// O fuso do estúdio: três horas a oeste de UTC (`UTC−3`, o de
/// `America/Sao_Paulo` sem horário de verão), em segundos.
pub const A_OESTE_DO_ESTUDIO: i32 = 10800;

/// O instante de um texto RFC 3339 levado a um fuso fixo `a_oeste` segundos
/// a oeste de UTC: ano, mês, dia, hora e minuto. `None` quando o texto não é
/// um instante RFC 3339, ou quando o fuso não cabe num dia.
pub uninterp spec fn instante_no_fuso(iso: Seq<char>, a_oeste: i32) -> Option<(i32, u32, u32, u32, u32)>;

/// Mês de 1 a 12, dia de 1 a 31, hora de 0 a 23 e minuto de 0 a 59.
pub open spec fn instante_valido(t: (i32, u32, u32, u32, u32)) -> bool {
    1 <= t.1 <= 12 && 1 <= t.2 <= 31 && t.3 <= 23 && t.4 <= 59
}

/// `chrono::FixedOffset::west_opt`, `chrono::DateTime::parse_from_rfc3339`
/// e `with_timezone` para esse fuso, lidos com `Datelike::{year, month, day}`
/// e `Timelike::{hour, minute}`.
///
/// Promete o que a documentação do chrono promete dessas leituras: o mês de
/// 1 a 12, o dia de 1 a 31, a hora de 0 a 23 e o minuto de 0 a 59. Qual
/// instante um texto dá fica com o nome [`instante_no_fuso`].
#[verifier::external_body]
fn no_fuso(iso: &str, a_oeste: i32) -> (r: Option<(i32, u32, u32, u32, u32)>)
    ensures
        r == instante_no_fuso(iso@, a_oeste),
        r matches Some(t) ==> instante_valido(t),
{
    let fuso = chrono::FixedOffset::west_opt(a_oeste)?;
    let d = chrono::DateTime::parse_from_rfc3339(iso).ok()?.with_timezone(&fuso);
    Some((d.year(), d.month(), d.day(), d.hour(), d.minute()))
}

/// `n` com zeros à esquerda até ter `largura` caracteres.
pub open spec fn com_zeros(s: Seq<char>, largura: nat) -> Seq<char> {
    if s.len() >= largura {
        s
    } else {
        Seq::new((largura - s.len()) as nat, |i: int| '0') + s
    }
}

/// Dois dígitos: o `%H`, `%M`, `%d` e `%m` do chrono.
pub open spec fn dois_digitos(n: u32) -> Seq<char> {
    com_zeros(decimal(n as nat), 2)
}

/// O `%Y` do chrono: quatro dígitos de 0 a 9999; fora disso, o sinal e ao
/// menos quatro dígitos.
pub open spec fn ano_escrito(y: i32) -> Seq<char> {
    if 0 <= y <= 9999 {
        com_zeros(decimal(y as nat), 4)
    } else if y > 9999 {
        seq!['+'] + com_zeros(decimal(y as nat), 4)
    } else {
        seq!['-'] + com_zeros(decimal((-y) as nat), 4)
    }
}

/// `"14:09"`.
pub open spec fn hora_escrita(iso: Seq<char>) -> Seq<char> {
    match instante_no_fuso(iso, A_OESTE_DO_ESTUDIO) {
        Some(t) => dois_digitos(t.3) + seq![':'] + dois_digitos(t.4),
        None => Seq::empty(),
    }
}

/// `"16/09/2026"`.
pub open spec fn data_escrita(iso: Seq<char>) -> Seq<char> {
    match instante_no_fuso(iso, A_OESTE_DO_ESTUDIO) {
        Some(t) => dois_digitos(t.2) + seq!['/'] + dois_digitos(t.1) + seq!['/'] + ano_escrito(t.0),
        None => Seq::empty(),
    }
}

/// `"16/09, 14:09"`.
pub open spec fn dia_e_hora_escritos(iso: Seq<char>) -> Seq<char> {
    match instante_no_fuso(iso, A_OESTE_DO_ESTUDIO) {
        Some(t) => dois_digitos(t.2) + seq!['/'] + dois_digitos(t.1) + seq![',', ' '] + dois_digitos(t.3)
            + seq![':'] + dois_digitos(t.4),
        None => Seq::empty(),
    }
}

/// Abaixo de cem, dois dígitos são exatamente dois caracteres.
proof fn lema_dois_digitos(n: u32)
    requires
        n < 100,
    ensures
        dois_digitos(n).len() == 2,
{
    reveal_with_fuel(decimal, 2);
}

fn escrever_com_zeros(v: Vec<char>, largura: usize) -> (r: Vec<char>)
    ensures
        r@ == com_zeros(v@, largura as nat),
{
    if v.len() >= largura {
        return v;
    }
    let mut r: Vec<char> = Vec::new();
    let falta = largura - v.len();
    let mut i: usize = 0;
    while i < falta
        invariant
            i <= falta,
            r@ == Seq::new(i as nat, |k: int| '0'),
        decreases falta - i,
    {
        r.push('0');
        assert(r@ =~= Seq::new((i + 1) as nat, |k: int| '0'));
        i += 1;
    }
    let mut j: usize = 0;
    while j < v.len()
        invariant
            j <= v@.len(),
            r@ == Seq::new(falta as nat, |k: int| '0') + v@.take(j as int),
        decreases v@.len() - j,
    {
        r.push(v[j]);
        assert(v@.take(j as int + 1) =~= v@.take(j as int).push(v@[j as int]));
        assert(r@ =~= Seq::new(falta as nat, |k: int| '0') + v@.take(j as int + 1));
        j += 1;
    }
    assert(v@.take(v@.len() as int) =~= v@);
    r
}

fn escrever_dois(n: u32) -> (r: Vec<char>)
    ensures
        r@ == dois_digitos(n),
{
    escrever_com_zeros(escrever_decimal(n as u64), 2)
}

fn escrever_ano(y: i32) -> (r: Vec<char>)
    ensures
        r@ == ano_escrito(y),
{
    if 0 <= y && y <= 9999 {
        escrever_com_zeros(escrever_decimal(y as u64), 4)
    } else {
        let mut r: Vec<char> = Vec::new();
        let a: u64 = if y > 9999 {
            r.push('+');
            y as u64
        } else {
            r.push('-');
            (0i64 - (y as i64)) as u64
        };
        let digitos = escrever_com_zeros(escrever_decimal(a), 4);
        let mut j: usize = 0;
        let ghost sinal = r@;
        while j < digitos.len()
            invariant
                j <= digitos@.len(),
                r@ == sinal + digitos@.take(j as int),
            decreases digitos@.len() - j,
        {
            r.push(digitos[j]);
            assert(digitos@.take(j as int + 1) =~= digitos@.take(j as int).push(digitos@[j as int]));
            assert(r@ =~= sinal + digitos@.take(j as int + 1));
            j += 1;
        }
        assert(digitos@.take(digitos@.len() as int) =~= digitos@);
        assert(r@ =~= ano_escrito(y));
        r
    }
}

/// `"14:09"`, no fuso do estúdio (`UTC−3`); vazio quando o texto não é um
/// instante.
pub fn hora_br(iso: &str) -> (r: String)
    ensures
        r@ == hora_escrita(iso@),
        instante_no_fuso(iso@, A_OESTE_DO_ESTUDIO) matches Some(t) ==> instante_valido(t),
{
    match no_fuso(iso, A_OESTE_DO_ESTUDIO) {
        Some(t) => {
            let mut v = escrever_dois(t.3);
            v.push(':');
            anexar(&mut v, &escrever_dois(t.4));
            texto_de(&v)
        },
        None => String::new(),
    }
}

/// `"16/09/2026"`, no fuso do estúdio (`UTC−3`); vazio quando o texto não
/// é um instante.
pub fn data_br(iso: &str) -> (r: String)
    ensures
        r@ == data_escrita(iso@),
        instante_no_fuso(iso@, A_OESTE_DO_ESTUDIO) matches Some(t) ==> instante_valido(t),
{
    match no_fuso(iso, A_OESTE_DO_ESTUDIO) {
        Some(t) => {
            let mut v = escrever_dois(t.2);
            v.push('/');
            anexar(&mut v, &escrever_dois(t.1));
            v.push('/');
            anexar(&mut v, &escrever_ano(t.0));
            texto_de(&v)
        },
        None => String::new(),
    }
}

/// `"16/09, 14:09"` — o dia e a hora do diálogo de vendas, no fuso do
/// estúdio (`UTC−3`).
///
/// É o dia e o mês de [`data_br`] (os cinco primeiros caracteres), uma
/// vírgula e a [`hora_br`] do mesmo instante; vazio quando elas são vazias.
pub fn dia_e_hora_br(iso: &str) -> (r: String)
    ensures
        r@ == dia_e_hora_escritos(iso@),
        instante_no_fuso(iso@, A_OESTE_DO_ESTUDIO) matches Some(t) ==> instante_valido(t),
        data_escrita(iso@).len() == 0 ==> hora_escrita(iso@).len() == 0 && r@.len() == 0,
        data_escrita(iso@).len() > 0 ==> r@ == data_escrita(iso@).take(5) + seq![',', ' ']
            + hora_escrita(iso@),
{
    match no_fuso(iso, A_OESTE_DO_ESTUDIO) {
        Some(t) => {
            proof {
                lema_dois_digitos(t.2);
                lema_dois_digitos(t.1);
                let d = dois_digitos(t.2) + seq!['/'] + dois_digitos(t.1);
                assert((d + seq!['/'] + ano_escrito(t.0)).take(5) =~= d);
                assert(data_escrita(iso@) == d + seq!['/'] + ano_escrito(t.0));
                assert(dia_e_hora_escritos(iso@) =~= d + seq![',', ' '] + hora_escrita(iso@));
            }
            let mut v = escrever_dois(t.2);
            v.push('/');
            anexar(&mut v, &escrever_dois(t.1));
            v.push(',');
            v.push(' ');
            anexar(&mut v, &escrever_dois(t.3));
            v.push(':');
            anexar(&mut v, &escrever_dois(t.4));
            texto_de(&v)
        },
        None => String::new(),
    }
}

// ── A frase do erro ─────────────────────────────────────────────────────────

/// O que vem depois de "o site respondeu " — a parte do erro que a porta
/// escreve quando o site responde com erro.
pub open spec fn resposta_do_site(erro: Seq<char>) -> Option<Seq<char>> {
    match partido(erro, "o site respondeu "@) {
        Some(par) => Some(par.1),
        None => None,
    }
}

/// O status da resposta: o que vem antes do primeiro `": "`.
pub open spec fn status_na_resposta(depois: Seq<char>) -> Seq<char> {
    match partido(depois, ": "@) {
        Some(par) => par.0,
        None => depois,
    }
}

/// A mensagem da resposta: o que vem depois do primeiro `": "`.
pub open spec fn mensagem_na_resposta(depois: Seq<char>) -> Seq<char> {
    match partido(depois, ": "@) {
        Some(par) => par.1,
        None => Seq::empty(),
    }
}

/// Os status em que a frase do backend vale a pena mostrar.
pub open spec fn status_que_explica(c: u16) -> bool {
    c == 400 || c == 404 || c == 409 || c == 422
}

/// A frase que a tela mostra: a do backend nos casos que importam
/// (400, 404, 409 e 422, quando ela não é vazia), a frase da conta sem
/// direito no 403, e o padrão no resto.
pub open spec fn mensagem_escolhida(erro: Seq<char>, padrao: Seq<char>, proibido: Seq<char>) -> Seq<char> {
    match resposta_do_site(erro) {
        None => padrao,
        Some(depois) => match le_u16(aparado(status_na_resposta(depois))) {
            Some(c) => if c == 403 {
                proibido
            } else if status_que_explica(c) && aparado(mensagem_na_resposta(depois)).len() > 0 {
                aparado(mensagem_na_resposta(depois))
            } else {
                padrao
            },
            None => padrao,
        },
    }
}

/// O status HTTP que o erro diz: o que vem antes do primeiro `:` depois de
/// "o site respondeu ", lido como `u16`.
pub open spec fn status_escrito(erro: Seq<char>) -> Option<u16> {
    match resposta_do_site(erro) {
        None => None,
        Some(depois) => le_u16(
            aparado(
                match partido(depois, seq![':']) {
                    Some(par) => par.0,
                    None => depois,
                },
            ),
        ),
    }
}

/// A frase que a tela mostra de um erro da porta, com a da conta sem
/// direito de cada ação (a da galeria é "administrar galerias").
pub fn mensagem_do_erro_com(erro: &str, padrao: &str, proibido: &str) -> (r: String)
    ensures
        r@ == mensagem_escolhida(erro@, padrao@, proibido@),
{
    let e = caracteres(erro);
    let marca = caracteres("o site respondeu ");
    let depois = match partir_na_primeira(&e, &marca) {
        Some(par) => par.1,
        None => {
            return texto_de(&caracteres(padrao));
        },
    };
    let sep = caracteres(": ");
    let (status, mensagem) = match partir_na_primeira(&depois, &sep) {
        Some(par) => par,
        None => (trecho(&depois, 0, depois.len()), Vec::new()),
    };
    assert(status@ =~= status_na_resposta(depois@));
    assert(mensagem@ =~= mensagem_na_resposta(depois@));
    let msg = aparar(&mensagem);
    match ler_u16(&aparar(&status)) {
        Some(c) => {
            if c == 403 {
                texto_de(&caracteres(proibido))
            } else if (c == 400 || c == 404 || c == 409 || c == 422) && msg.len() > 0 {
                texto_de(&msg)
            } else {
                texto_de(&caracteres(padrao))
            }
        },
        None => texto_de(&caracteres(padrao)),
    }
}

/// O mesmo, com a frase de quem não pode operar o caixa.
pub fn mensagem_do_erro(erro: &str, padrao: &str) -> (r: String)
    ensures
        r@ == mensagem_escolhida(erro@, padrao@, "Sua conta não pode operar o caixa."@),
{
    mensagem_do_erro_com(erro, padrao, "Sua conta não pode operar o caixa.")
}

/// O status HTTP de um erro da porta, quando ele diz.
pub fn status_do_erro(erro: &str) -> (r: Option<u16>)
    ensures
        r == status_escrito(erro@),
{
    let e = caracteres(erro);
    let marca = caracteres("o site respondeu ");
    let depois = match partir_na_primeira(&e, &marca) {
        Some(par) => par.1,
        None => {
            return None;
        },
    };
    let mut dois_pontos: Vec<char> = Vec::new();
    dois_pontos.push(':');
    assert(dois_pontos@ =~= seq![':']);
    let status = match partir_na_primeira(&depois, &dois_pontos) {
        Some(par) => par.0,
        None => depois,
    };
    ler_u16(&aparar(&status))
}

/// Um status que se lê como número não tem `:`, nem no meio nem nos
/// espaços em volta.
proof fn lema_numero_sem_dois_pontos(x: Seq<char>)
    requires
        le_u16(aparado(x)) is Some,
    ensures
        forall|k: int| 0 <= k < x.len() ==> #[trigger] x[k] != ':',
{
    lema_aparado_e_trecho(x);
    let (p, q) = choose|p: int, q: int|
        {
            &&& 0 <= p <= q <= x.len()
            &&& aparado(x) == x.subrange(p, q)
            &&& forall|k: int| 0 <= k < p ==> e_espaco(#[trigger] x[k])
            &&& forall|k: int| q <= k < x.len() ==> e_espaco(#[trigger] x[k])
        };
    let a = aparado(x);
    assert forall|k: int| 0 <= k < x.len() implies #[trigger] x[k] != ':' by {
        if p <= k < q {
            assert(a[k - p] == x[k]);
            if !(k == p && a[0] == '+') {
                if a.len() > 0 && a[0] == '+' {
                    assert(a.drop_first()[k - p - 1] == a[k - p]);
                }
            }
        }
    }
}

/// A frase e o status concordam: quando o erro não diz um status, a frase é
/// o padrão; e uma frase que não é o padrão vem de um status que o erro diz,
/// o 403 ou um dos que explicam (400, 404, 409, 422).
pub proof fn lema_frase_e_status(erro: Seq<char>, padrao: Seq<char>, proibido: Seq<char>)
    ensures
        status_escrito(erro) is None ==> mensagem_escolhida(erro, padrao, proibido) == padrao,
        mensagem_escolhida(erro, padrao, proibido) != padrao ==> (status_escrito(erro) matches Some(
            c,
        ) && (c == 403 || status_que_explica(c))),
{
    reveal_strlit(": ");
    if let Some(depois) = resposta_do_site(erro) {
        let st = status_na_resposta(depois);
        if le_u16(aparado(st)) is Some {
            lema_numero_sem_dois_pontos(st);
            let dp = seq![':'];
            match partido(depois, ": "@) {
                Some(par) => {
                    lema_primeira_existe(depois, ": "@);
                    let i = primeira_ocorrencia(depois, ": "@)->0;
                    assert(depois[i + 0] == ": "@[0]);
                    assert forall|j: int| 0 <= j < i implies !aparece_em(depois, dp, j) by {
                        assert(st[j] == depois[j]);
                        assert(depois[j + 0] != dp[0]);
                    }
                    assert(aparece_em(depois, dp, i));
                    lema_primeira_unica(depois, dp, i);
                    assert(partido(depois, dp) == Some((depois.take(i), depois.skip(i + 1))));
                },
                None => {
                    assert(st == depois);
                    if contem(depois, dp) {
                        let i0 = choose|i: int|
                            0 <= i && i + dp.len() <= depois.len() && #[trigger] depois.subrange(
                                i,
                                i + dp.len(),
                            ) == dp;
                        assert(depois.subrange(i0, i0 + 1)[0] == depois[i0]);
                    }
                    assert(primeira_ocorrencia(depois, dp) is None);
                },
            }
        }
    }
}

// ── Estúdios, funcionários e sessões ────────────────────────────────────────

/// Um estúdio que o caixa pode escolher.
#[derive(Debug, Clone, PartialEq, Eq)]
pub struct EstudioDoCaixa {
    pub id: String,
    pub nome: String,
    pub cidade: String,
}

/// Um estúdio como a lista da API o traz (`GET /bookings/studios/admin`).
#[derive(Debug)]
pub struct EstudioDaApi {
    pub id: String,
    pub name: String,
    pub city: String,
    pub is_active: bool,
}

/// O estúdio da API como o caixa o mostra.
pub open spec fn como_estudio(e: EstudioDaApi) -> EstudioDoCaixa {
    EstudioDoCaixa { id: e.id, nome: e.name, cidade: e.city }
}

/// Só os ativos, na ordem da lista.
pub open spec fn estudios_ativos_de(lista: Seq<EstudioDaApi>) -> Seq<EstudioDoCaixa>
    decreases lista.len(),
{
    if lista.len() == 0 {
        Seq::empty()
    } else {
        let antes = estudios_ativos_de(lista.drop_last());
        if lista.last().is_active {
            antes.push(como_estudio(lista.last()))
        } else {
            antes
        }
    }
}

/// Os estúdios que o caixa oferece: só os ativos, na ordem da API.
pub fn estudios_ativos(lista: Vec<EstudioDaApi>) -> (r: Vec<EstudioDoCaixa>)
    ensures
        r@ == estudios_ativos_de(lista@),
{
    let mut r: Vec<EstudioDoCaixa> = Vec::new();
    let mut i: usize = 0;
    while i < lista.len()
        invariant
            i <= lista@.len(),
            r@ == estudios_ativos_de(lista@.take(i as int)),
        decreases lista@.len() - i,
    {
        assert(lista@.take(i as int + 1).drop_last() =~= lista@.take(i as int));
        if lista[i].is_active {
            r.push(
                EstudioDoCaixa {
                    id: lista[i].id.clone(),
                    nome: lista[i].name.clone(),
                    cidade: lista[i].city.clone(),
                },
            );
        }
        i += 1;
    }
    assert(lista@.take(lista@.len() as int) =~= lista@);
    r
}

/// Um funcionário do balcão (`GET /pos-venda/funcionarios`).
#[derive(Debug, Clone, PartialEq, Eq)]
pub struct Funcionario {
    pub id: String,
    pub nome: String,
    pub whatsapp: Option<String>,
    pub email: Option<String>,
    pub ativo: bool,
}

impl Funcionario {
    /// Uma cópia, campo a campo.
    pub fn copiar(&self) -> (r: Funcionario)
        ensures
            r == *self,
    {
        Funcionario {
            id: self.id.clone(),
            nome: self.nome.clone(),
            whatsapp: crate::biblioteca::foto::copiar_opcional(&self.whatsapp),
            email: crate::biblioteca::foto::copiar_opcional(&self.email),
            ativo: self.ativo,
        }
    }
}

/// Algum funcionário da lista tem este id.
pub open spec fn tem_funcionario(s: Seq<Funcionario>, id: Seq<char>) -> bool {
    exists|k: int| 0 <= k < s.len() && (#[trigger] s[k]).id@ == id
}

/// A lista, mais os cadastrados que ela ainda não tem.
pub open spec fn funcionarios_juntos(lista: Seq<Funcionario>, novos: Seq<Funcionario>) -> Seq<Funcionario>
    decreases novos.len(),
{
    if novos.len() == 0 {
        lista
    } else {
        let antes = funcionarios_juntos(lista, novos.drop_last());
        if tem_funcionario(antes, novos.last().id@) {
            antes
        } else {
            antes.push(novos.last())
        }
    }
}

fn achar_funcionario(s: &Vec<Funcionario>, id: &[char]) -> (r: Option<usize>)
    ensures
        r is Some <==> tem_funcionario(s@, id@),
        r matches Some(k) ==> k < s@.len() && s@[k as int].id@ == id@ && forall|j: int|
            0 <= j < k ==> s@[j].id@ != id@,
{
    let mut k: usize = 0;
    while k < s.len()
        invariant
            k <= s@.len(),
            forall|j: int| 0 <= j < k ==> (#[trigger] s@[j]).id@ != id@,
        decreases s@.len() - k,
    {
        if iguais(&caracteres(s[k].id.as_str()), id) {
            return Some(k);
        }
        k += 1;
    }
    None
}

/// Os funcionários conhecidos: a lista, mais os cadastrados agora que ela
/// ainda não traz.
pub fn todos_os_funcionarios(lista: &[Funcionario], cadastrados: &[Funcionario]) -> (r: Vec<Funcionario>)
    ensures
        r@ == funcionarios_juntos(lista@, cadastrados@),
{
    let mut r: Vec<Funcionario> = Vec::new();
    let mut i: usize = 0;
    while i < lista.len()
        invariant
            i <= lista@.len(),
            r@ == lista@.take(i as int),
        decreases lista@.len() - i,
    {
        r.push(lista[i].copiar());
        assert(lista@.take(i as int + 1) =~= lista@.take(i as int).push(lista@[i as int]));
        i += 1;
    }
    assert(lista@.take(lista@.len() as int) =~= lista@);
    let mut j: usize = 0;
    while j < cadastrados.len()
        invariant
            j <= cadastrados@.len(),
            r@ == funcionarios_juntos(lista@, cadastrados@.take(j as int)),
        decreases cadastrados@.len() - j,
    {
        assert(cadastrados@.take(j as int + 1).drop_last() =~= cadastrados@.take(j as int));
        if achar_funcionario(&r, &caracteres(cadastrados[j].id.as_str())).is_none() {
            r.push(cadastrados[j].copiar());
        }
        j += 1;
    }
    assert(cadastrados@.take(cadastrados@.len() as int) =~= cadastrados@);
    r
}

/// O nome do primeiro funcionário com este id.
pub fn nome_do_funcionario(todos: &Vec<Funcionario>, id: Option<&str>) -> (r: Option<String>)
    ensures
        r matches Some(n) ==> id matches Some(i) && exists|k: int|
            0 <= k < todos@.len() && todos@[k].id@ == i@ && n == todos@[k].nome && forall|j: int|
                0 <= j < k ==> todos@[j].id@ != i@,
        r is None ==> id is None || !tem_funcionario(todos@, id->0@),
{
    match id {
        Some(i) => match achar_funcionario(todos, &caracteres(i)) {
            Some(k) => Some(todos[k].nome.clone()),
            None => None,
        },
        None => None,
    }
}

/// O contato do cadastro: sem os espaços das pontas, e vazio vai nulo.
pub fn contato_informado(texto: &str) -> (r: Option<String>)
    ensures
        r is None <==> aparado(texto@).len() == 0,
        r matches Some(t) ==> t@ == aparado(texto@),
{
    let t = aparar(&caracteres(texto));
    if t.len() == 0 {
        None
    } else {
        Some(texto_de(&t))
    }
}

/// Uma sessão à espera de cobrança, como a lista do caixa mostra.
#[derive(Debug, Clone, PartialEq, Eq)]
pub struct SessaoACobrar {
    pub id: String,
    pub titulo: String,
    pub contato: Option<String>,
    pub criada_em: String,
    /// As fotos levadas no balcão, à espera do caixa.
    pub sinalizadas: i64,
}

impl SessaoACobrar {
    /// Uma cópia, campo a campo.
    pub fn copiar(&self) -> (r: SessaoACobrar)
        ensures
            r == *self,
    {
        SessaoACobrar {
            id: self.id.clone(),
            titulo: self.titulo.clone(),
            contato: crate::biblioteca::foto::copiar_opcional(&self.contato),
            criada_em: self.criada_em.clone(),
            sinalizadas: self.sinalizadas,
        }
    }
}

/// Uma linha da lista, com o estúdio para filtrar.
#[derive(Debug, Clone, PartialEq, Eq)]
pub struct SessaoDaLista {
    pub sessao: SessaoACobrar,
    pub estudio_id: Option<String>,
}

/// Uma galeria como a lista da API a traz (`GET /pos-venda/galerias`).
#[derive(Debug)]
pub struct GaleriaDaLista {
    pub id: String,
    pub titulo: String,
    pub email: Option<String>,
    pub whatsapp: Option<String>,
    pub estudio_id: Option<String>,
    pub criada_em: String,
    pub levadas_no_balcao: i64,
}

/// A linha da lista: o contato é o e-mail, e senão o WhatsApp.
pub fn sessao_da_lista(g: GaleriaDaLista) -> (r: SessaoDaLista)
    ensures
        r.sessao.id == g.id,
        r.sessao.titulo == g.titulo,
        r.sessao.contato == (match g.email {
            Some(e) => Some(e),
            None => g.whatsapp,
        }),
        r.sessao.criada_em == g.criada_em,
        r.sessao.sinalizadas == g.levadas_no_balcao,
        r.estudio_id == g.estudio_id,
{
    let contato = match g.email {
        Some(e) => Some(e),
        None => g.whatsapp,
    };
    SessaoDaLista {
        sessao: SessaoACobrar {
            id: g.id,
            titulo: g.titulo,
            contato,
            criada_em: g.criada_em,
            sinalizadas: g.levadas_no_balcao,
        },
        estudio_id: g.estudio_id,
    }
}

// ── As faixas de preço ──────────────────────────────────────────────────────

/// Um produto e o preço dele, em centavos.
#[derive(Debug, Clone, PartialEq, Eq)]
pub struct Faixa {
    pub nome: String,
    pub preco: i64,
}

/// Uma faixa com o id do produto.
#[derive(Debug, Clone, PartialEq, Eq)]
pub struct FaixaDoCatalogo {
    pub id: String,
    pub faixa: Faixa,
}

impl FaixaDoCatalogo {
    /// Uma cópia, campo a campo.
    pub fn copiar(&self) -> (r: FaixaDoCatalogo)
        ensures
            r == *self,
    {
        FaixaDoCatalogo {
            id: self.id.clone(),
            faixa: Faixa { nome: self.faixa.nome.clone(), preco: self.faixa.preco },
        }
    }
}

/// Em que pé está uma foto da galeria aberta.
#[derive(Debug, Clone, Copy, PartialEq, Eq, Structural)]
pub enum EstadoDaFoto {
    Disponivel,
    Comprada,
    LevadaNoBalcao,
}

/// O estado que a API escreve: `"levada_no_balcao"`, `"comprada"`; qualquer
/// outro texto é disponível.
pub open spec fn estado_escrito(texto: Seq<char>) -> EstadoDaFoto {
    if texto == "levada_no_balcao"@ {
        EstadoDaFoto::LevadaNoBalcao
    } else if texto == "comprada"@ {
        EstadoDaFoto::Comprada
    } else {
        EstadoDaFoto::Disponivel
    }
}

/// O estado de uma foto, lido do texto da API.
pub fn estado(texto: &str) -> (r: EstadoDaFoto)
    ensures
        r == estado_escrito(texto@),
{
    let t = caracteres(texto);
    if iguais(&t, &caracteres("levada_no_balcao")) {
        EstadoDaFoto::LevadaNoBalcao
    } else if iguais(&t, &caracteres("comprada")) {
        EstadoDaFoto::Comprada
    } else {
        EstadoDaFoto::Disponivel
    }
}

/// O preço de balcão: o cheio, senão o preço, senão zero.
pub open spec fn preco_de_balcao_de(cheio: Option<i64>, preco: Option<i64>) -> i64 {
    match cheio {
        Some(c) => c,
        None => match preco {
            Some(p) => p,
            None => 0,
        },
    }
}

/// Um produto como a API o traz, com os preços já em centavos.
#[derive(Debug)]
pub struct ProdutoDaApi {
    pub id: String,
    pub nome: String,
    pub preco: Option<i64>,
    pub preco_cheio: Option<i64>,
}

impl ProdutoDaApi {
    /// A faixa a preço de balcão: o preço cheio, senão o preço.
    pub fn de_balcao(self) -> (r: FaixaDoCatalogo)
        ensures
            r.id == self.id,
            r.faixa.nome == self.nome,
            r.faixa.preco == preco_de_balcao_de(self.preco_cheio, self.preco),
    {
        let preco = match self.preco_cheio {
            Some(c) => c,
            None => match self.preco {
                Some(p) => p,
                None => 0,
            },
        };
        FaixaDoCatalogo { id: self.id, faixa: Faixa { nome: self.nome, preco } }
    }
}

/// Alguma faixa da lista tem este id.
pub open spec fn tem_a_faixa(s: Seq<FaixaDoCatalogo>, id: Seq<char>) -> bool {
    exists|k: int| 0 <= k < s.len() && (#[trigger] s[k]).id@ == id
}

/// O catálogo inteiro, mais as faixas da galeria que ele não tem — cada uma
/// na primeira vez que aparece.
pub open spec fn faixas_juntas(catalogo: Seq<FaixaDoCatalogo>, da_galeria: Seq<FaixaDoCatalogo>) -> Seq<FaixaDoCatalogo>
    decreases da_galeria.len(),
{
    if da_galeria.len() == 0 {
        catalogo
    } else {
        let antes = faixas_juntas(catalogo, da_galeria.drop_last());
        if tem_a_faixa(antes, da_galeria.last().id@) {
            antes
        } else {
            antes.push(da_galeria.last())
        }
    }
}

fn achar_faixa(s: &Vec<FaixaDoCatalogo>, id: &[char]) -> (r: bool)
    ensures
        r == tem_a_faixa(s@, id@),
{
    let mut k: usize = 0;
    while k < s.len()
        invariant
            k <= s@.len(),
            forall|j: int| 0 <= j < k ==> (#[trigger] s@[j]).id@ != id@,
        decreases s@.len() - k,
    {
        if iguais(&caracteres(s[k].id.as_str()), id) {
            return true;
        }
        k += 1;
    }
    false
}

/// As faixas onde o cupom acha nome e preço: o catálogo inteiro, mais as da
/// galeria que ele não tem (um produto apagado do catálogo ainda precisa ter
/// nome na foto que o usa).
pub fn juntar_faixas(catalogo: &[FaixaDoCatalogo], da_galeria: &[FaixaDoCatalogo]) -> (r: Vec<FaixaDoCatalogo>)
    ensures
        r@ == faixas_juntas(catalogo@, da_galeria@),
{
    let mut r: Vec<FaixaDoCatalogo> = Vec::new();
    let mut i: usize = 0;
    while i < catalogo.len()
        invariant
            i <= catalogo@.len(),
            r@ == catalogo@.take(i as int),
        decreases catalogo@.len() - i,
    {
        r.push(catalogo[i].copiar());
        assert(catalogo@.take(i as int + 1) =~= catalogo@.take(i as int).push(catalogo@[i as int]));
        i += 1;
    }
    assert(catalogo@.take(catalogo@.len() as int) =~= catalogo@);
    let mut j: usize = 0;
    while j < da_galeria.len()
        invariant
            j <= da_galeria@.len(),
            r@ == faixas_juntas(catalogo@, da_galeria@.take(j as int)),
        decreases da_galeria@.len() - j,
    {
        assert(da_galeria@.take(j as int + 1).drop_last() =~= da_galeria@.take(j as int));
        if !achar_faixa(&r, &caracteres(da_galeria[j].id.as_str())) {
            r.push(da_galeria[j].copiar());
        }
        j += 1;
    }
    assert(da_galeria@.take(da_galeria@.len() as int) =~= da_galeria@);
    r
}

/// Nenhum id se repete na lista de faixas.
pub open spec fn ids_distintos(s: Seq<FaixaDoCatalogo>) -> bool {
    forall|i: int, j: int| 0 <= i < j < s.len() ==> (#[trigger] s[i]).id@ != (#[trigger] s[j]).id@
}

/// O catálogo manda e a galeria completa: as faixas juntas começam pelo
/// catálogo inteiro, sem mudar nada nele; todo id da galeria aparece nelas;
/// o que vem depois do catálogo veio da galeria; e um catálogo sem ids
/// repetidos continua sem.
pub proof fn lema_catalogo_manda(catalogo: Seq<FaixaDoCatalogo>, da_galeria: Seq<FaixaDoCatalogo>)
    ensures
        faixas_juntas(catalogo, da_galeria).len() >= catalogo.len(),
        forall|k: int|
            0 <= k < catalogo.len() ==> #[trigger] faixas_juntas(catalogo, da_galeria)[k]
                == catalogo[k],
        forall|k: int|
            0 <= k < da_galeria.len() ==> tem_a_faixa(
                faixas_juntas(catalogo, da_galeria),
                (#[trigger] da_galeria[k]).id@,
            ),
        forall|k: int|
            catalogo.len() <= k < faixas_juntas(catalogo, da_galeria).len() ==> exists|j: int|
                0 <= j < da_galeria.len() && #[trigger] faixas_juntas(catalogo, da_galeria)[k]
                    == da_galeria[j],
        ids_distintos(catalogo) ==> ids_distintos(faixas_juntas(catalogo, da_galeria)),
    decreases da_galeria.len(),
{
    if da_galeria.len() > 0 {
        let ini = da_galeria.drop_last();
        let ult = da_galeria.last();
        lema_catalogo_manda(catalogo, ini);
        let antes = faixas_juntas(catalogo, ini);
        let depois = faixas_juntas(catalogo, da_galeria);
        if tem_a_faixa(antes, ult.id@) {
            assert(depois == antes);
            assert forall|k: int| 0 <= k < da_galeria.len() implies tem_a_faixa(
                depois,
                (#[trigger] da_galeria[k]).id@,
            ) by {
                if k < ini.len() {
                    assert(da_galeria[k] == ini[k]);
                }
            }
            assert forall|k: int| catalogo.len() <= k < depois.len() implies exists|j: int|
                0 <= j < da_galeria.len() && #[trigger] depois[k] == da_galeria[j] by {
                let j = choose|j: int| 0 <= j < ini.len() && antes[k] == ini[j];
                assert(da_galeria[j] == ini[j]);
            }
        } else {
            assert(depois == antes.push(ult));
            assert forall|k: int| 0 <= k < da_galeria.len() implies tem_a_faixa(
                depois,
                (#[trigger] da_galeria[k]).id@,
            ) by {
                if k < ini.len() {
                    assert(da_galeria[k] == ini[k]);
                    let m = choose|m: int| 0 <= m < antes.len() && (#[trigger] antes[m]).id@ == ini[k].id@;
                    assert(depois[m] == antes[m]);
                } else {
                    assert(depois[antes.len() as int] == ult);
                }
            }
            assert forall|k: int| catalogo.len() <= k < depois.len() implies exists|j: int|
                0 <= j < da_galeria.len() && #[trigger] depois[k] == da_galeria[j] by {
                if k < antes.len() {
                    let j = choose|j: int| 0 <= j < ini.len() && antes[k] == ini[j];
                    assert(da_galeria[j] == ini[j]);
                    assert(depois[k] == antes[k]);
                } else {
                    assert(depois[k] == da_galeria[da_galeria.len() - 1]);
                }
            }
            if ids_distintos(catalogo) {
                assert forall|i: int, j: int| 0 <= i < j < depois.len() implies (
                #[trigger] depois[i]).id@ != (#[trigger] depois[j]).id@ by {
                    if j < antes.len() {
                        assert(depois[i] == antes[i] && depois[j] == antes[j]);
                    } else {
                        assert(depois[i] == antes[i]);
                        assert(depois[j] == ult);
                        if antes[i].id@ == ult.id@ {
                            assert(tem_a_faixa(antes, ult.id@));
                        }
                    }
                }
            }
        }
    }
}

// ── A ordem dos corpos ──────────────────────────────────────────────────────

/// O texto está no conjunto (comparado pelos caracteres).
pub open spec fn no_conjunto(conjunto: Seq<String>, x: String) -> bool {
    exists|k: int| 0 <= k < conjunto.len() && (#[trigger] conjunto[k])@ == x@
}

/// Os de `ordem` que estão no conjunto, na ordem de `ordem`.
pub open spec fn na_ordem_de(ordem: Seq<String>, conjunto: Seq<String>) -> Seq<String>
    decreases ordem.len(),
{
    if ordem.len() == 0 {
        Seq::empty()
    } else {
        let antes = na_ordem_de(ordem.drop_last(), conjunto);
        if no_conjunto(conjunto, ordem.last()) {
            antes.push(ordem.last())
        } else {
            antes
        }
    }
}

/// O que está no resultado é o que está em `ordem` e no conjunto; e sem
/// repetição em `ordem`, sem repetição no resultado.
proof fn lema_na_ordem_de(ordem: Seq<String>, conjunto: Seq<String>)
    ensures
        forall|x: Seq<char>|
            #[trigger] vistas(na_ordem_de(ordem, conjunto)).contains(x) <==> (vistas(ordem).contains(x)
                && vistas(conjunto).contains(x)),
        vistas(ordem).no_duplicates() ==> vistas(na_ordem_de(ordem, conjunto)).no_duplicates(),
    decreases ordem.len(),
{
    if ordem.len() > 0 {
        let o = ordem.drop_last();
        let y = ordem.last();
        lema_na_ordem_de(o, conjunto);
        let antes = na_ordem_de(o, conjunto);
        assert(vistas(ordem) =~= vistas(o).push(y@));
        assert(vistas(antes.push(y)) =~= vistas(antes).push(y@));
        assert(no_conjunto(conjunto, y) <==> vistas(conjunto).contains(y@)) by {
            if no_conjunto(conjunto, y) {
                let k = choose|k: int| 0 <= k < conjunto.len() && (#[trigger] conjunto[k])@ == y@;
                assert(vistas(conjunto)[k] == y@);
            }
            if vistas(conjunto).contains(y@) {
                let k = choose|k: int| 0 <= k < vistas(conjunto).len() && vistas(conjunto)[k] == y@;
                assert(conjunto[k]@ == y@);
            }
        }
        let na = na_ordem_de(ordem, conjunto);
        assert forall|x: Seq<char>|
            #[trigger] vistas(na).contains(x) <==> (vistas(ordem).contains(x) && vistas(
                conjunto,
            ).contains(x)) by {
            assert(vistas(antes).contains(x) == (vistas(o).contains(x) && vistas(conjunto).contains(x)));
            assert(vistas(ordem)[ordem.len() - 1] == y@);
            if vistas(ordem).contains(x) {
                let k = choose|k: int| 0 <= k < vistas(ordem).len() && vistas(ordem)[k] == x;
                if k < o.len() {
                    assert(vistas(o)[k] == x);
                }
            }
            if vistas(o).contains(x) {
                let k = choose|k: int| 0 <= k < vistas(o).len() && vistas(o)[k] == x;
                assert(vistas(ordem)[k] == x);
            }
            if no_conjunto(conjunto, y) {
                assert(vistas(na) == vistas(antes).push(y@));
                assert(vistas(na)[vistas(antes).len() as int] == y@);
                if vistas(antes).contains(x) {
                    let k = choose|k: int| 0 <= k < vistas(antes).len() && vistas(antes)[k] == x;
                    assert(vistas(na)[k] == x);
                }
                if vistas(na).contains(x) {
                    let k = choose|k: int| 0 <= k < vistas(na).len() && vistas(na)[k] == x;
                    if k < vistas(antes).len() {
                        assert(vistas(antes)[k] == x);
                    }
                }
                assert(vistas(ordem)[ordem.len() - 1] == y@);
            } else {
                assert(vistas(na) == vistas(antes));
            }
        }
        if vistas(ordem).no_duplicates() {
            assert(vistas(o) =~= vistas(ordem).drop_last());
            assert(vistas(o).no_duplicates());
            if vistas(o).contains(y@) {
                let k = choose|k: int| 0 <= k < vistas(o).len() && vistas(o)[k] == y@;
                assert(vistas(ordem)[k] == vistas(ordem)[ordem.len() - 1]);
            }
            if no_conjunto(conjunto, y) {
                assert(!vistas(antes).contains(y@));
                assert(vistas(na) == vistas(antes).push(y@));
                assert forall|i: int, j: int|
                    0 <= i < vistas(na).len() && 0 <= j < vistas(na).len() && i != j implies vistas(
                    na,
                )[i] != vistas(na)[j] by {
                    if i < vistas(antes).len() && j < vistas(antes).len() {
                        assert(vistas(na)[i] == vistas(antes)[i] && vistas(na)[j] == vistas(antes)[j]);
                    } else if i < vistas(antes).len() {
                        assert(vistas(na)[i] == vistas(antes)[i]);
                    } else if j < vistas(antes).len() {
                        assert(vistas(na)[j] == vistas(antes)[j]);
                    }
                }
            }
        }
    } else {
        assert(vistas(na_ordem_de(ordem, conjunto)) =~= Seq::empty());
    }
}

/// Com `ordem` sem ids repetidos e todo id do conjunto em `ordem`, o
/// resultado é o conjunto reordenado: os mesmos ids, cada um uma vez.
pub proof fn lema_na_ordem_reordena(ordem: Seq<String>, conjunto: Seq<String>)
    requires
        vistas(ordem).no_duplicates(),
        forall|k: int| 0 <= k < conjunto.len() ==> vistas(ordem).contains(#[trigger] conjunto[k]@),
    ensures
        vistas(na_ordem_de(ordem, conjunto)).no_duplicates(),
        forall|x: Seq<char>|
            #[trigger] vistas(na_ordem_de(ordem, conjunto)).contains(x) <==> vistas(conjunto).contains(x),
{
    lema_na_ordem_de(ordem, conjunto);
    assert forall|x: Seq<char>| vistas(conjunto).contains(x) implies vistas(ordem).contains(x) by {
        let k = choose|k: int| 0 <= k < vistas(conjunto).len() && vistas(conjunto)[k] == x;
        assert(vistas(ordem).contains(conjunto[k]@));
    }
}

/// Os ids de um conjunto, na ordem em que aparecem numa lista — para o
/// corpo sair igual a cada vez. O conjunto chega como lista; repetir um id
/// nele não muda nada.
pub fn na_ordem(ordem: &[String], conjunto: &[String]) -> (r: Vec<String>)
    ensures
        r@ == na_ordem_de(ordem@, conjunto@),
{
    let mut r: Vec<String> = Vec::new();
    let mut i: usize = 0;
    while i < ordem.len()
        invariant
            i <= ordem@.len(),
            r@ == na_ordem_de(ordem@.take(i as int), conjunto@),
        decreases ordem@.len() - i,
    {
        assert(ordem@.take(i as int + 1).drop_last() =~= ordem@.take(i as int));
        let alvo = caracteres(ordem[i].as_str());
        let mut k: usize = 0;
        let mut achou = false;
        while k < conjunto.len()
            invariant
                k <= conjunto@.len(),
                alvo@ == ordem@[i as int]@,
                i < ordem@.len(),
                achou == exists|m: int| 0 <= m < k && (#[trigger] conjunto@[m])@ == alvo@,
            decreases conjunto@.len() - k,
        {
            if iguais(&caracteres(conjunto[k].as_str()), &alvo) {
                achou = true;
            }
            k += 1;
        }
        if achou {
            r.push(ordem[i].clone());
        }
        i += 1;
    }
    assert(ordem@.take(ordem@.len() as int) =~= ordem@);
    r
}

} // verus!

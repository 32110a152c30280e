//! Faixa ou negociação em várias fotos, poucas por vez.
//!
//! O lote guarda a fila do que falta mandar e conta o que está no ar, o que
//! deu certo e as frases do que deu errado. Quem manda os pedidos e recebe
//! as respostas é a tela: daqui sai **quais** ids mandar agora e, quando o
//! último responde, os avisos do fim.

use vstd::prelude::*;

use super::dados::{mensagem_do_erro_com, mensagem_escolhida};
use crate::texto::{anexar, caracteres, decimal, escrever_decimal, iguais, texto_de, vistas};

verus! {

/// Quantas gravações de um lote ficam no ar ao mesmo tempo.
pub const EM_VOO: usize = 4;

/// O que o lote grava.
#[derive(Debug, Clone, Copy, PartialEq, Eq)]
pub enum TipoDeLote {
    /// Pela edição rápida; `removida` = a negociação saiu.
    NegociacaoRapida { removida: bool },
    /// Pelo diálogo completo.
    NegociacaoDoDialogo { removida: bool },
    /// O tipo de ensaio (a faixa) da foto.
    Tipo,
}

/// O tom de um aviso passageiro.
#[derive(Debug, Clone, Copy, PartialEq, Eq)]
pub enum TipoDeRecado {
    Sucesso,
    Erro,
    Informacao,
}

/// Um aviso no canto da tela, e por quantos segundos ele fica.
#[derive(Debug)]
pub struct Recado {
    pub texto: String,
    pub tipo: TipoDeRecado,
    pub segundos: u64,
}

/// Um lote no ar.
pub struct Lote {
    pub tipo: TipoDeLote,
    /// Os ids na ordem pedida.
    pub ids: Ghost<Seq<String>>,
    /// O que falta mandar, do último para o primeiro: o próximo sai do fim.
    pub fila: Vec<String>,
    /// Pedidos mandados que ainda não responderam.
    pub no_ar: usize,
    pub total: usize,
    /// Respostas de sucesso.
    pub feitas: usize,
    /// As frases de erro, cada uma uma vez só.
    pub falhas: Vec<String>,
    /// "esta foto" ou "N foto(s)" — a frase do recibo.
    pub quantas: String,
}

/// Nenhuma frase se repete.
pub open spec fn sem_repetidas(s: Seq<String>) -> bool {
    forall|i: int, j: int| 0 <= i < j < s.len() ==> (#[trigger] s[i])@ != (#[trigger] s[j])@
}

impl Lote {
    /// Quantos já foram mandados.
    pub open spec fn mandadas(&self) -> int {
        self.total - self.fila@.len()
    }

    /// O que todo lote respeita: nunca mais de [`EM_VOO`] no ar, a fila é o
    /// resto dos ids pedidos, e as contas não passam do total.
    pub open spec fn bem_formado(&self) -> bool {
        &&& self.ids@.len() == self.total
        &&& self.fila@.len() <= self.total
        &&& self.fila@ == self.ids@.skip(self.mandadas()).reverse()
        &&& self.no_ar <= EM_VOO
        &&& self.feitas + self.no_ar <= self.mandadas()
        &&& sem_repetidas(self.falhas@)
    }

    /// Um lote novo com estes ids, na ordem. Sem ids não há lote.
    pub fn novo(ids: Vec<String>, tipo: TipoDeLote, quantas: String) -> (r: Option<Lote>)
        ensures
            r is None <==> ids@.len() == 0,
            r matches Some(l) ==> {
                &&& l.bem_formado()
                &&& l.ids@ == ids@
                &&& l.tipo == tipo
                &&& l.quantas == quantas
                &&& l.no_ar == 0
                &&& l.feitas == 0
                &&& l.falhas@.len() == 0
                &&& l.mandadas() == 0
            },
    {
        if ids.len() == 0 {
            return None;
        }
        let total: usize = ids.len();
        let mut fila: Vec<String> = Vec::new();
        let mut k: usize = total;
        while k > 0
            invariant
                k <= total,
                total == ids@.len(),
                fila@ == ids@.skip(k as int).reverse(),
            decreases k,
        {
            k -= 1;
            fila.push(ids[k].clone());
            assert(ids@.skip(k as int).reverse() =~= ids@.skip(k as int + 1).reverse().push(ids@[k as int]));
        }
        assert(ids@.skip(0) =~= ids@);
        Some(Lote {
            tipo,
            ids: Ghost(ids@),
            fila,
            no_ar: 0,
            total,
            feitas: 0,
            falhas: Vec::new(),
            quantas,
        })
    }

    /// Tira da fila os próximos, até [`EM_VOO`] no ar, e os devolve na
    /// ordem em que foram pedidos.
    pub fn soltar(&mut self) -> (r: Vec<String>)
        requires
            old(self).bem_formado(),
        ensures
            final(self).bem_formado(),
            old(self).mandadas() <= final(self).mandadas(),
            r@ == old(self).ids@.subrange(old(self).mandadas(), final(self).mandadas()),
            final(self).no_ar == old(self).no_ar + r@.len(),
            final(self).fila@.len() == 0 || final(self).no_ar == EM_VOO,
            final(self).tipo == old(self).tipo,
            final(self).ids == old(self).ids,
            final(self).total == old(self).total,
            final(self).feitas == old(self).feitas,
            final(self).falhas == old(self).falhas,
            final(self).quantas == old(self).quantas,
    {
        let mut r: Vec<String> = Vec::new();
        let ghost m0 = self.mandadas();
        while self.no_ar < EM_VOO && self.fila.len() > 0
            invariant
                self.bem_formado(),
                0 <= m0 <= self.mandadas(),
                r@ == self.ids@.subrange(m0, self.mandadas()),
                self.no_ar == old(self).no_ar + r@.len(),
                self.tipo == old(self).tipo,
                self.ids == old(self).ids,
                self.total == old(self).total,
                self.feitas == old(self).feitas,
                self.falhas == old(self).falhas,
                self.quantas == old(self).quantas,
                m0 == old(self).mandadas(),
            decreases self.fila@.len(),
        {
            let ghost m = self.mandadas();
            let ghost f = self.fila@;
            assert(f.last() == self.ids@[m]) by {
                assert(f == self.ids@.skip(m).reverse());
            }
            let id = self.fila.pop().unwrap();
            assert(id == self.ids@[m]);
            assert(m + 1 <= self.ids@.len());
            let ghost r0 = r@;
            self.no_ar = self.no_ar + 1;
            r.push(id);
            assert(self.fila@ =~= self.ids@.skip(m + 1).reverse()) by {
                assert(self.fila@ == f.drop_last());
            }
            assert(r@ == r0.push(self.ids@[m]));
            assert(r@ =~= self.ids@.subrange(m0, m + 1));
        }
        r
    }
}

/// A frase padrão de um erro do lote.
pub open spec fn padrao_do_lote(tipo: TipoDeLote) -> Seq<char> {
    match tipo {
        TipoDeLote::Tipo => "Não foi possível mudar a faixa da foto."@,
        _ => "Não foi possível registrar a negociação."@,
    }
}

/// Alguma das frases já é esta.
pub open spec fn ja_tem_a_frase(s: Seq<String>, frase: Seq<char>) -> bool {
    exists|k: int| 0 <= k < s.len() && (#[trigger] s[k])@ == frase
}

/// Já tem a frase?
fn tem_a_frase(s: &Vec<String>, frase: &[char]) -> (r: bool)
    ensures
        r == ja_tem_a_frase(s@, frase@),
{
    let mut k: usize = 0;
    while k < s.len()
        invariant
            k <= s@.len(),
            forall|j: int| 0 <= j < k ==> (#[trigger] s@[j])@ != frase@,
        decreases s@.len() - k,
    {
        if iguais(&caracteres(s[k].as_str()), frase) {
            return true;
        }
        k += 1;
    }
    false
}

/// As frases, uma atrás da outra, com o separador entre elas.
pub open spec fn juntas_com(frases: Seq<Seq<char>>, sep: Seq<char>) -> Seq<char>
    decreases frases.len(),
{
    if frases.len() == 0 {
        Seq::empty()
    } else if frases.len() == 1 {
        frases[0]
    } else {
        juntas_com(frases.drop_last(), sep) + sep + frases.last()
    }
}

fn juntar_com(frases: &Vec<String>, sep: &[char]) -> (r: Vec<char>)
    ensures
        r@ == juntas_com(vistas(frases@), sep@),
{
    let mut r: Vec<char> = Vec::new();
    let mut i: usize = 0;
    while i < frases.len()
        invariant
            i <= frases@.len(),
            r@ == juntas_com(vistas(frases@.take(i as int)), sep@),
        decreases frases@.len() - i,
    {
        let ghost v = vistas(frases@.take(i as int + 1));
        assert(v.drop_last() =~= vistas(frases@.take(i as int)));
        assert(v.last() == frases@[i as int]@);
        if i > 0 {
            anexar(&mut r, sep);
        } else {
            assert(vistas(frases@.take(0)).len() == 0);
        }
        anexar(&mut r, &caracteres(frases[i].as_str()));
        i += 1;
    }
    assert(frases@.take(frases@.len() as int) =~= frases@);
    r
}

/// Um aviso visto como valores: o texto, o tom e os segundos.
pub open spec fn recado_visto(r: Recado) -> (Seq<char>, TipoDeRecado, u64) {
    (r.texto@, r.tipo, r.segundos)
}

/// Os avisos do fim de um lote: as falhas juntas, por oito segundos; e o
/// recibo de sucesso de cada tipo.
pub open spec fn avisos_do_fim(
    tipo: TipoDeLote,
    total: int,
    feitas: int,
    falhas: Seq<Seq<char>>,
    quantas: Seq<char>,
) -> Seq<(Seq<char>, TipoDeRecado, u64)> {
    let erro: Seq<(Seq<char>, TipoDeRecado, u64)> = if falhas.len() > 0 {
        seq![
            (
                decimal((total - feitas) as nat) + " não mudaram: "@ + juntas_com(falhas, " / "@),
                TipoDeRecado::Erro,
                8u64,
            ),
        ]
    } else {
        Seq::empty()
    };
    let recibo: Seq<(Seq<char>, TipoDeRecado, u64)> = match tipo {
        TipoDeLote::NegociacaoRapida { removida } => if falhas.len() == 0 {
            seq![
                (
                    (if removida {
                        "Negociação removida de "@
                    } else {
                        "Negociação registrada em "@
                    }) + quantas + "."@,
                    TipoDeRecado::Sucesso,
                    5u64,
                ),
            ]
        } else {
            Seq::empty()
        },
        TipoDeLote::Tipo => if falhas.len() == 0 {
            seq![("Tipo de ensaio alterado em "@ + quantas + "."@, TipoDeRecado::Sucesso, 5u64)]
        } else {
            Seq::empty()
        },
        TipoDeLote::NegociacaoDoDialogo { removida } => if feitas > 0 {
            seq![
                (
                    decimal(feitas as nat) + " foto(s) com a negociação "@ + (if removida {
                        "removida"@
                    } else {
                        "registrada"@
                    }) + "."@,
                    TipoDeRecado::Sucesso,
                    5u64,
                ),
            ]
        } else {
            Seq::empty()
        },
    };
    erro + recibo
}

/// O recibo de um lote rápido sem falhas diz o que aconteceu: "registrada
/// em" quando a negociação entrou, "removida de" quando saiu — um aviso só,
/// de sucesso, por cinco segundos; e os dois textos nunca se confundem.
pub proof fn lema_recibo_da_negociacao_rapida(removida: bool, total: int, feitas: int, quantas: Seq<char>)
    ensures
        ({
            let r = avisos_do_fim(TipoDeLote::NegociacaoRapida { removida }, total, feitas, Seq::empty(), quantas);
            &&& r.len() == 1
            &&& r[0].1 == TipoDeRecado::Sucesso
            &&& r[0].2 == 5
            &&& !removida ==> r[0].0 == "Negociação registrada em "@ + quantas + "."@
            &&& removida ==> r[0].0 == "Negociação removida de "@ + quantas + "."@
        }),
        "Negociação registrada em "@ + quantas + "."@ != "Negociação removida de "@ + quantas + "."@,
{
    reveal_strlit("Negociação registrada em ");
    reveal_strlit("Negociação removida de ");
    let a = "Negociação registrada em "@ + quantas + "."@;
    let b = "Negociação removida de "@ + quantas + "."@;
    assert(a[13] == 'g' && b[13] == 'm');
}

/// O recibo do lote de tipo sem falhas diz que o tipo de ensaio mudou; o do
/// diálogo de negociação conta as fotos que mudaram e diz se a negociação
/// foi registrada ou removida — e não sai quando nenhuma mudou.
pub proof fn lema_recibos_do_tipo_e_do_dialogo(removida: bool, total: int, feitas: int, falhas: Seq<Seq<char>>, quantas: Seq<char>)
    ensures
        avisos_do_fim(TipoDeLote::Tipo, total, feitas, Seq::empty(), quantas) == seq![
            ("Tipo de ensaio alterado em "@ + quantas + "."@, TipoDeRecado::Sucesso, 5u64),
        ],
        feitas > 0 && falhas.len() == 0 ==> avisos_do_fim(
            TipoDeLote::NegociacaoDoDialogo { removida },
            total,
            feitas,
            falhas,
            quantas,
        ) == seq![
            (
                decimal(feitas as nat) + " foto(s) com a negociação "@ + (if removida {
                    "removida"@
                } else {
                    "registrada"@
                }) + "."@,
                TipoDeRecado::Sucesso,
                5u64,
            ),
        ],
        feitas <= 0 ==> forall|i: int|
            0 <= i < avisos_do_fim(TipoDeLote::NegociacaoDoDialogo { removida }, total, feitas, falhas, quantas).len()
                ==> (#[trigger] avisos_do_fim(TipoDeLote::NegociacaoDoDialogo { removida }, total, feitas, falhas, quantas)[i]).1
                == TipoDeRecado::Erro,
{
    assert(Seq::<(Seq<char>, TipoDeRecado, u64)>::empty() + seq![
        ("Tipo de ensaio alterado em "@ + quantas + "."@, TipoDeRecado::Sucesso, 5u64),
    ] =~= seq![("Tipo de ensaio alterado em "@ + quantas + "."@, TipoDeRecado::Sucesso, 5u64)]);
}

/// Com falha, o lote rápido e o de tipo não dão recibo de sucesso: o único
/// aviso é o erro, por oito segundos, com quantas não mudaram.
pub proof fn lema_com_falha_so_o_erro(tipo: TipoDeLote, total: int, feitas: int, falhas: Seq<Seq<char>>, quantas: Seq<char>)
    requires
        falhas.len() > 0,
        !(tipo is NegociacaoDoDialogo),
        feitas <= total,
    ensures
        ({
            let r = avisos_do_fim(tipo, total, feitas, falhas, quantas);
            &&& r.len() == 1
            &&& r[0].1 == TipoDeRecado::Erro
            &&& r[0].2 == 8
            &&& r[0].0.take(decimal((total - feitas) as nat).len() as int) == decimal((total - feitas) as nat)
        }),
{
    let d = decimal((total - feitas) as nat);
    let t = d + " não mudaram: "@ + juntas_com(falhas, " / "@);
    assert(t.take(d.len() as int) =~= d);
}

/// O fim de um lote: o que ele gravou e o que a tela avisa.
pub struct FimDoLote {
    pub tipo: TipoDeLote,
    pub total: usize,
    pub feitas: usize,
    pub recados: Vec<Recado>,
    /// Alguma deu certo: a galeria e o detalhe se releem.
    pub reler: bool,
}

/// O que mandar agora.
pub enum Envio {
    /// Estes ids, nesta ordem.
    Mandar(Vec<String>),
    /// Não há conta do site: nada sai, e o lote acabou.
    SemConta,
}

/// O que fazer depois de uma resposta do lote.
pub enum DepoisDaResposta {
    /// Não havia lote.
    Nada,
    /// Ainda há fila: mandar os próximos (ou o lote acabou sem conta).
    Seguir(Envio),
    /// A fila acabou, mas há pedidos no ar.
    Esperar,
    /// O último respondeu.
    Terminou(FimDoLote),
}

fn frase(s: &str) -> (r: Vec<char>)
    ensures
        r@ == s@,
{
    caracteres(s)
}

/// Os avisos do fim, escritos.
fn escrever_avisos(l: &Lote) -> (r: Vec<Recado>)
    requires
        l.feitas <= l.total,
    ensures
        r@.map_values(|x: Recado| recado_visto(x)) == avisos_do_fim(
            l.tipo,
            l.total as int,
            l.feitas as int,
            vistas(l.falhas@),
            l.quantas@,
        ),
{
    let mut r: Vec<Recado> = Vec::new();
    if l.falhas.len() > 0 {
        let mut t = escrever_decimal((l.total - l.feitas) as u64);
        anexar(&mut t, &frase(" não mudaram: "));
        anexar(&mut t, &juntar_com(&l.falhas, &frase(" / ")));
        r.push(Recado { texto: texto_de(&t), tipo: TipoDeRecado::Erro, segundos: 8 });
    }
    let ghost erro = r@;
    match l.tipo {
        TipoDeLote::NegociacaoRapida { removida } => {
            if l.falhas.len() == 0 {
                let mut t = if removida {
                    frase("Negociação removida de ")
                } else {
                    frase("Negociação registrada em ")
                };
                anexar(&mut t, &caracteres(l.quantas.as_str()));
                anexar(&mut t, &frase("."));
                r.push(Recado { texto: texto_de(&t), tipo: TipoDeRecado::Sucesso, segundos: 5 });
            }
        },
        TipoDeLote::Tipo => {
            if l.falhas.len() == 0 {
                let mut t = frase("Tipo de ensaio alterado em ");
                anexar(&mut t, &caracteres(l.quantas.as_str()));
                anexar(&mut t, &frase("."));
                r.push(Recado { texto: texto_de(&t), tipo: TipoDeRecado::Sucesso, segundos: 5 });
            }
        },
        TipoDeLote::NegociacaoDoDialogo { removida } => {
            if l.feitas > 0 {
                let mut t = escrever_decimal(l.feitas as u64);
                anexar(&mut t, &frase(" foto(s) com a negociação "));
                if removida {
                    anexar(&mut t, &frase("removida"));
                } else {
                    anexar(&mut t, &frase("registrada"));
                }
                anexar(&mut t, &frase("."));
                r.push(Recado { texto: texto_de(&t), tipo: TipoDeRecado::Sucesso, segundos: 5 });
            }
        },
    }
    assert(r@.map_values(|x: Recado| recado_visto(x)) =~= avisos_do_fim(
        l.tipo,
        l.total as int,
        l.feitas as int,
        vistas(l.falhas@),
        l.quantas@,
    ));
    r
}

/// O lote, quando há um, respeita o que todo lote respeita.
pub open spec fn lote_bem_formado(l: Option<Lote>) -> bool {
    l matches Some(x) ==> x.bem_formado()
}

/// A frase de um erro do lote.
pub open spec fn frase_do_erro(tipo: TipoDeLote, erro: Seq<char>) -> Seq<char> {
    mensagem_escolhida(erro, padrao_do_lote(tipo), "Sua conta não pode administrar galerias."@)
}

/// As frases com mais esta, se ela ainda não está lá.
pub open spec fn com_a_frase(frases: Seq<Seq<char>>, f: Seq<char>) -> Seq<Seq<char>> {
    if frases.contains(f) {
        frases
    } else {
        frases.push(f)
    }
}

/// As respostas de sucesso depois desta.
pub open spec fn feitas_depois(l: Lote, resultado: Result<(), String>) -> int {
    if resultado is Ok {
        l.feitas + 1
    } else {
        l.feitas as int
    }
}

/// As frases de erro depois desta.
pub open spec fn falhas_depois(l: Lote, resultado: Result<(), String>) -> Seq<Seq<char>> {
    match resultado {
        Ok(_) => vistas(l.falhas@),
        Err(e) => com_a_frase(vistas(l.falhas@), frase_do_erro(l.tipo, e@)),
    }
}

/// `depois` é `antes` com a resposta contada.
pub open spec fn contou(antes: Lote, depois: Lote, resultado: Result<(), String>) -> bool {
    &&& depois.tipo == antes.tipo
    &&& depois.ids == antes.ids
    &&& depois.total == antes.total
    &&& depois.quantas == antes.quantas
    &&& depois.feitas == feitas_depois(antes, resultado)
    &&& vistas(depois.falhas@) == falhas_depois(antes, resultado)
}

/// Manda os próximos do lote, até [`EM_VOO`] no ar. Sem conta do site nada
/// sai, e o lote acaba.
pub fn soltar_lote(lote: &mut Option<Lote>, tem_conta: bool) -> (r: Envio)
    requires
        lote_bem_formado(*old(lote)),
    ensures
        lote_bem_formado(*final(lote)),
        *old(lote) is None ==> {
            &&& *final(lote) is None
            &&& r matches Envio::Mandar(ids)
            &&& ids@.len() == 0
        },
        *old(lote) matches Some(l) ==> (l.fila@.len() > 0 && l.no_ar < EM_VOO && !tem_conta ==> {
            &&& *final(lote) is None
            &&& r is SemConta
        }),
        *old(lote) matches Some(l) ==> (l.fila@.len() == 0 || l.no_ar == EM_VOO || tem_conta ==> {
            &&& *final(lote) matches Some(n)
            &&& r matches Envio::Mandar(ids)
            &&& n.tipo == l.tipo
            &&& n.ids == l.ids
            &&& n.total == l.total
            &&& n.feitas == l.feitas
            &&& n.falhas == l.falhas
            &&& n.quantas == l.quantas
            &&& ids@ == l.ids@.subrange(l.mandadas(), n.mandadas())
            &&& n.no_ar == l.no_ar + ids@.len()
            &&& (n.fila@.len() == 0 || n.no_ar == EM_VOO)
        }),
{
    match lote {
        None => Envio::Mandar(Vec::new()),
        Some(l) => {
            let ids = l.soltar();
            if ids.len() > 0 && !tem_conta {
                *lote = None;
                Envio::SemConta
            } else {
                Envio::Mandar(ids)
            }
        },
    }
}

/// Começa um lote com estes ids — se há ids e nenhum outro lote no ar — e
/// devolve o que mandar primeiro.
pub fn gravar_lote(
    lote: &mut Option<Lote>,
    ids: Vec<String>,
    tipo: TipoDeLote,
    quantas: String,
    tem_conta: bool,
) -> (r: Option<Envio>)
    requires
        lote_bem_formado(*old(lote)),
    ensures
        lote_bem_formado(*final(lote)),
        r is None <==> (ids@.len() == 0 || *old(lote) is Some),
        r is None ==> *final(lote) == *old(lote),
        r matches Some(Envio::SemConta) ==> (!tem_conta && *final(lote) is None),
        r is Some && !tem_conta ==> (r matches Some(Envio::SemConta)),
        r matches Some(Envio::Mandar(enviados)) ==> {
            &&& tem_conta
            &&& *final(lote) matches Some(n)
            &&& n.ids@ == ids@
            &&& n.tipo == tipo
            &&& n.quantas == quantas
            &&& n.feitas == 0
            &&& n.falhas@.len() == 0
            &&& enviados@ == ids@.take(n.mandadas())
            &&& n.no_ar == enviados@.len()
            &&& enviados@.len() == if ids@.len() < EM_VOO { ids@.len() } else { EM_VOO as nat }
        },
{
    if ids.len() == 0 || lote.is_some() {
        return None;
    }
    let ghost pedidos = ids@;
    *lote = Lote::novo(ids, tipo, quantas);
    let envio = soltar_lote(lote, tem_conta);
    proof {
        if lote.is_some() {
            let m = lote->0.mandadas();
            assert(pedidos.subrange(0, m) =~= pedidos.take(m));
        }
    }
    Some(envio)
}

/// Uma resposta de um pedido do lote: conta o sucesso ou guarda a frase do
/// erro (cada frase uma vez), e decide o que vem agora — mandar os
/// próximos, esperar os que estão no ar, ou terminar com os avisos.
///
/// Cada resposta responde a um pedido que está no ar.
pub fn receber_lote(lote: &mut Option<Lote>, resultado: Result<(), String>, tem_conta: bool) -> (r:
    DepoisDaResposta)
    requires
        lote_bem_formado(*old(lote)),
        *old(lote) matches Some(l) ==> l.no_ar > 0,
    ensures
        lote_bem_formado(*final(lote)),
        *old(lote) is None ==> r is Nada && *final(lote) is None,
        *old(lote) matches Some(l) ==> (l.fila@.len() > 0 && !tem_conta ==> {
            &&& r matches DepoisDaResposta::Seguir(Envio::SemConta)
            &&& *final(lote) is None
        }),
        *old(lote) matches Some(l) ==> (l.fila@.len() > 0 && tem_conta ==> {
            &&& r matches DepoisDaResposta::Seguir(Envio::Mandar(ids))
            &&& *final(lote) matches Some(n)
            &&& contou(l, n, resultado)
            &&& ids@.len() > 0
            &&& ids@ == l.ids@.subrange(l.mandadas(), n.mandadas())
            &&& n.no_ar == l.no_ar - 1 + ids@.len()
        }),
        *old(lote) matches Some(l) ==> (l.fila@.len() == 0 && l.no_ar > 1 ==> {
            &&& r is Esperar
            &&& *final(lote) matches Some(n)
            &&& contou(l, n, resultado)
            &&& n.fila == l.fila
            &&& n.no_ar == l.no_ar - 1
        }),
        *old(lote) matches Some(l) ==> (l.fila@.len() == 0 && l.no_ar == 1 ==> {
            &&& *final(lote) is None
            &&& r matches DepoisDaResposta::Terminou(fim)
            &&& fim.tipo == l.tipo
            &&& fim.total == l.total
            &&& fim.feitas == feitas_depois(l, resultado)
            &&& fim.reler == (feitas_depois(l, resultado) > 0)
            &&& fim.recados@.map_values(|x: Recado| recado_visto(x)) == avisos_do_fim(
                l.tipo,
                l.total as int,
                feitas_depois(l, resultado),
                falhas_depois(l, resultado),
                l.quantas@,
            )
        }),
{
    let ghost antes = *lote;
    let terminou = match lote {
        None => {
            return DepoisDaResposta::Nada;
        },
        Some(l) => {
            let ghost l0 = *l;
            l.no_ar = l.no_ar - 1;
            match resultado {
                Ok(_) => {
                    l.feitas = l.feitas + 1;
                },
                Err(erro) => {
                    let padrao = match l.tipo {
                        TipoDeLote::Tipo => "Não foi possível mudar a faixa da foto.",
                        _ => "Não foi possível registrar a negociação.",
                    };
                    let f = mensagem_do_erro_com(
                        erro.as_str(),
                        padrao,
                        "Sua conta não pode administrar galerias.",
                    );
                    let fv = caracteres(f.as_str());
                    proof {
                        assert(ja_tem_a_frase(l.falhas@, fv@) <==> vistas(l.falhas@).contains(fv@)) by {
                            if vistas(l.falhas@).contains(fv@) {
                                let k = choose|k: int| 0 <= k < vistas(l.falhas@).len() && vistas(l.falhas@)[k] == fv@;
                                assert(l.falhas@[k]@ == fv@);
                            }
                            if ja_tem_a_frase(l.falhas@, fv@) {
                                let k = choose|k: int| 0 <= k < l.falhas@.len() && (#[trigger] l.falhas@[k])@ == fv@;
                                assert(vistas(l.falhas@)[k] == fv@);
                            }
                        }
                    }
                    if !tem_a_frase(&l.falhas, &fv) {
                        let ghost fs = l.falhas@;
                        l.falhas.push(f);
                        assert(vistas(l.falhas@) =~= vistas(fs).push(fv@));
                        assert forall|i: int, j: int| 0 <= i < j < l.falhas@.len() implies (
                        #[trigger] l.falhas@[i])@ != (#[trigger] l.falhas@[j])@ by {
                            if j == l.falhas@.len() - 1 {
                                assert(l.falhas@[i] == fs[i]);
                                if fs[i]@ == fv@ {
                                    assert(ja_tem_a_frase(fs, fv@));
                                }
                            } else {
                                assert(l.falhas@[i] == fs[i] && l.falhas@[j] == fs[j]);
                            }
                        }
                    }
                },
            }
            assert(l.bem_formado());
            l.fila.len() == 0 && l.no_ar == 0
        },
    };
    if !terminou {
        let tem_fila = match lote {
            Some(l) => l.fila.len() > 0,
            None => false,
        };
        if tem_fila {
            return DepoisDaResposta::Seguir(soltar_lote(lote, tem_conta));
        }
        return DepoisDaResposta::Esperar;
    }
    let l = lote.take().unwrap();
    let recados = escrever_avisos(&l);
    DepoisDaResposta::Terminou(
        FimDoLote { tipo: l.tipo, total: l.total, feitas: l.feitas, reler: l.feitas > 0, recados },
    )
}

} // verus!

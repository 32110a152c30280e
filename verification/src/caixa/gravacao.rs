//! A resposta de cada gravação da tela do caixa: abrir o caixa, um movimento,
//! uma venda, um estorno e a volta das fotos dele a "à venda", a conferência,
//! o fechamento e o cadastro de um funcionário.
//!
//! A tela manda a gravação e guarda o que foi pedido; quando a resposta
//! chega, [`depois_da_gravacao`] decide o que muda na tela e o que fazer:
//! os avisos, fechar ou reabilitar o diálogo, recarregar, zerar o desconto,
//! e as gravações que o estorno pede depois de si. O dinheiro fica em
//! centavos dentro das frases; o desenho do valor é da tela.
//!
//! A resposta do lote da galeria vai para [`super::lote::receber_lote`].

use vstd::prelude::*;

use super::caminhos::{caminho_com_id, codificado};
use super::dados::{mensagem_do_erro, mensagem_escolhida, Funcionario};
use super::estorno::{
    aviso_das_que_ficaram, escrever_aviso_das_que_ficaram, escrever_fim_do_recibo, fim_do_recibo,
    DesSinalizacao,
};
use super::lote::TipoDeRecado;
use crate::texto::{anexar, caracteres, iguais, texto_de};

verus! {

// ── Os tipos ────────────────────────────────────────────────────────────────

/// O que um aviso diz. As frases com dinheiro levam o valor em centavos.
#[derive(Debug)]
pub enum Frase {
    /// Uma frase pronta.
    Texto(String),
    /// "Caixa aberto com {fundo} de fundo de troco."
    CaixaAberto { fundo: i64 },
    /// "{rotulo} de {valor} registrado."
    Movimento { rotulo: String, valor: i64 },
    /// "Venda #{numero} registrada · {total}", e " · troco {troco}" quando
    /// há troco.
    Venda { numero: i64, total: i64, troco: i64 },
    /// "Estorno de {valor} na venda #{numero}", seguido de `fim`.
    Estorno { valor: i64, numero: i64, fim: String },
}

/// Um aviso no canto da tela, e por quantos segundos ele fica.
#[derive(Debug)]
pub struct Aviso {
    pub frase: Frase,
    pub tipo: TipoDeRecado,
    pub segundos: u64,
}

/// O diálogo aberto, no que as respostas precisam saber dele.
#[derive(Debug, Clone, Copy, PartialEq, Eq, Structural)]
pub enum QualDialogo {
    Atalhos,
    Abrir,
    Desconto,
    /// O das pessoas, com ou sem o formulário de cadastro aberto dentro.
    Pessoas { cadastro_aberto: bool },
    Pagamento,
    Movimento,
    Vendas,
    Estorno,
    Fechar,
    Negociacao,
}

/// Uma gravação mandada e ainda sem resposta, com o que a resposta precisa.
#[derive(Debug)]
pub enum EmCurso {
    Abrir { fundo: i64 },
    /// `rotulo` é o nome do tipo de movimento ("Sangria", "Suprimento").
    Movimento { rotulo: String, valor: i64 },
    Estorno { venda_id: String, numero: i64, valor: i64, fotos: Vec<String>, des_sinalizar: bool },
}

/// Qual tipo de gravação em curso.
#[derive(Debug, Clone, Copy, PartialEq, Eq, Structural)]
pub enum TipoDeEmCurso {
    Abrir,
    Movimento,
    Estorno,
}

/// A venda que acabou de gravar, no que a tela usa dela.
#[derive(Debug)]
pub struct VendaGravada {
    pub id: String,
    pub numero: i64,
    pub total: i64,
    pub troco: i64,
}

/// O estado da tela do caixa que as respostas leem e mudam.
pub struct TelaDoCaixa {
    pub dialogo: Option<QualDialogo>,
    /// As gravações mandadas, na ordem em que foram.
    pub em_curso: Vec<EmCurso>,
    pub ultima_venda: Option<VendaGravada>,
    pub des_sinalizacao: Option<DesSinalizacao>,
    /// Os funcionários cadastrados nesta tela.
    pub cadastrados: Vec<Funcionario>,
}

/// A resposta de uma gravação, pelo rótulo, já lida.
pub enum Resposta {
    Abrir(Result<(), String>),
    Movimento(Result<(), String>),
    /// `Ok(None)`: a venda gravou, mas a resposta não se leu.
    Venda(Result<Option<VendaGravada>, String>),
    Estorno(Result<(), String>),
    /// A volta de uma foto do estorno a "à venda": deu certo ou não.
    DesSinalizar(bool),
    /// A conferência do caixa, lida, ou o erro (do site ou da leitura).
    Conferir(Result<(), String>),
    /// `Ok(true)`: o caixa fechado se leu da resposta.
    Fechar(Result<bool, String>),
    /// O funcionário cadastrado, lido, ou o erro.
    Cadastrar(Result<Funcionario, String>),
    /// Um rótulo que esta tela não trata.
    Outra,
}

/// O que a tela faz depois de uma resposta.
pub struct DepoisDaGravacao {
    /// Os avisos, na ordem.
    pub avisos: Vec<Aviso>,
    /// O diálogo fechou: o foco volta para quem o tinha.
    pub fechar_dialogo: bool,
    /// O formulário do diálogo aberto volta a aceitar envio.
    pub reabilitar: bool,
    /// Reler o caixa e a sessão.
    pub recarregar: bool,
    /// O desconto no total volta ao padrão.
    pub zerar_desconto: bool,
    /// Reler o detalhe da galeria: fotos mudaram de estado.
    pub reler_detalhe: bool,
    /// Os caminhos das fotos a mandar de volta a "à venda" (`PATCH`, com
    /// `{"estado": "disponivel"}`), um pedido cada.
    pub des_sinalizar: Vec<String>,
    /// A conferência chegou: o diálogo de fechamento a mostra e o foco vai
    /// para a observação.
    pub conferencia_chegou: bool,
    /// O fechamento se leu: o diálogo mostra o caixa fechado.
    pub mostrar_fechamento: bool,
    /// O cadastro terminou: o id do funcionário, ou a frase do erro para o
    /// formulário.
    pub cadastro: Option<Result<String, String>>,
}

// ── As vistas ───────────────────────────────────────────────────────────────

/// Uma frase vista como valores.
pub enum FraseVista {
    Texto(Seq<char>),
    CaixaAberto(i64),
    Movimento(Seq<char>, i64),
    Venda(i64, i64, i64),
    Estorno(i64, i64, Seq<char>),
}

pub open spec fn frase_vista(f: Frase) -> FraseVista {
    match f {
        Frase::Texto(t) => FraseVista::Texto(t@),
        Frase::CaixaAberto { fundo } => FraseVista::CaixaAberto(fundo),
        Frase::Movimento { rotulo, valor } => FraseVista::Movimento(rotulo@, valor),
        Frase::Venda { numero, total, troco } => FraseVista::Venda(numero, total, troco),
        Frase::Estorno { valor, numero, fim } => FraseVista::Estorno(valor, numero, fim@),
    }
}

pub open spec fn aviso_visto(a: Aviso) -> (FraseVista, TipoDeRecado, u64) {
    (frase_vista(a.frase), a.tipo, a.segundos)
}

pub open spec fn cadastro_visto(c: Option<Result<String, String>>) -> Option<Result<Seq<char>, Seq<char>>> {
    match c {
        Some(Ok(i)) => Some(Ok(i@)),
        Some(Err(e)) => Some(Err(e@)),
        None => None,
    }
}

/// O que a tela faz, visto como valores.
pub struct Efeitos {
    pub avisos: Seq<(FraseVista, TipoDeRecado, u64)>,
    pub fechar_dialogo: bool,
    pub reabilitar: bool,
    pub recarregar: bool,
    pub zerar_desconto: bool,
    pub reler_detalhe: bool,
    pub des_sinalizar: Seq<Seq<char>>,
    pub conferencia_chegou: bool,
    pub mostrar_fechamento: bool,
    pub cadastro: Option<Result<Seq<char>, Seq<char>>>,
}

pub open spec fn efeitos(d: DepoisDaGravacao) -> Efeitos {
    Efeitos {
        avisos: d.avisos@.map_values(|a: Aviso| aviso_visto(a)),
        fechar_dialogo: d.fechar_dialogo,
        reabilitar: d.reabilitar,
        recarregar: d.recarregar,
        zerar_desconto: d.zerar_desconto,
        reler_detalhe: d.reler_detalhe,
        des_sinalizar: d.des_sinalizar@.map_values(|s: String| s@),
        conferencia_chegou: d.conferencia_chegou,
        mostrar_fechamento: d.mostrar_fechamento,
        cadastro: cadastro_visto(d.cadastro),
    }
}

/// Nada a fazer.
pub open spec fn nenhum() -> Efeitos {
    Efeitos {
        avisos: Seq::empty(),
        fechar_dialogo: false,
        reabilitar: false,
        recarregar: false,
        zerar_desconto: false,
        reler_detalhe: false,
        des_sinalizar: Seq::empty(),
        conferencia_chegou: false,
        mostrar_fechamento: false,
        cadastro: None,
    }
}

/// A tela, vista como valores.
pub struct TelaVista {
    pub dialogo: Option<QualDialogo>,
    pub em_curso: Seq<EmCurso>,
    pub ultima_venda: Option<VendaGravada>,
    pub des_sinalizacao: Option<DesSinalizacao>,
    pub cadastrados: Seq<Funcionario>,
}

pub open spec fn tela_vista(t: TelaDoCaixa) -> TelaVista {
    TelaVista {
        dialogo: t.dialogo,
        em_curso: t.em_curso@,
        ultima_venda: t.ultima_venda,
        des_sinalizacao: t.des_sinalizacao,
        cadastrados: t.cadastrados@,
    }
}

// ── O que cada resposta faz ─────────────────────────────────────────────────

/// A frase de erro da tela do caixa.
pub open spec fn erro_do_caixa(erro: Seq<char>, padrao: Seq<char>) -> Seq<char> {
    mensagem_escolhida(erro, padrao, "Sua conta não pode operar o caixa."@)
}

/// Um aviso de erro que some em oito segundos.
pub open spec fn aviso_de_erro(frase: Seq<char>) -> (FraseVista, TipoDeRecado, u64) {
    (FraseVista::Texto(frase), TipoDeRecado::Erro, 8)
}

pub open spec fn e_do_tipo(e: EmCurso, t: TipoDeEmCurso) -> bool {
    match t {
        TipoDeEmCurso::Abrir => e is Abrir,
        TipoDeEmCurso::Movimento => e is Movimento,
        TipoDeEmCurso::Estorno => e is Estorno,
    }
}

/// A primeira gravação em curso deste tipo, olhando a partir de `k`.
pub open spec fn primeira_do_tipo(s: Seq<EmCurso>, t: TipoDeEmCurso, k: int) -> Option<int>
    decreases s.len() - k,
{
    if k < 0 || k >= s.len() {
        None
    } else if e_do_tipo(s[k], t) {
        Some(k)
    } else {
        primeira_do_tipo(s, t, k + 1)
    }
}

/// A lista sem a primeira gravação deste tipo, e ela.
pub open spec fn tirada(s: Seq<EmCurso>, t: TipoDeEmCurso) -> (Seq<EmCurso>, Option<EmCurso>) {
    match primeira_do_tipo(s, t, 0) {
        Some(i) => (s.remove(i), Some(s[i])),
        None => (s, None),
    }
}

pub open spec fn com_em_curso(t: TelaVista, e: Seq<EmCurso>) -> TelaVista {
    TelaVista { em_curso: e, ..t }
}

/// O diálogo fecha se for este.
pub open spec fn fecha_se(t: TelaVista, qual: QualDialogo) -> TelaVista {
    if t.dialogo == Some(qual) {
        TelaVista { dialogo: None, ..t }
    } else {
        t
    }
}

/// O caminho de uma foto na API.
pub open spec fn caminho_da_foto(f: Seq<char>) -> Seq<char> {
    "/pos-venda/fotos/"@ + codificado(vstd::utf8::encode_utf8(f))
}

/// O fim do estorno: o recibo, o aviso das fotos que ficaram sinalizadas,
/// o diálogo do estorno fecha, a galeria se relê se alguma foto voltou, e o
/// caixa recarrega.
pub open spec fn terminado(t: TelaVista, d: DesSinalizacao, des_sinalizou: bool, e: Efeitos) -> (TelaVista, Efeitos) {
    let recibo = (
        FraseVista::Estorno(d.valor, d.numero, fim_do_recibo(des_sinalizou, d.feitas as nat)),
        TipoDeRecado::Sucesso,
        8u64,
    );
    let ficaram = match aviso_das_que_ficaram(d.falhas as nat) {
        Some(f) => seq![(FraseVista::Texto(f), TipoDeRecado::Erro, 10u64)],
        None => Seq::empty(),
    };
    (
        fecha_se(t, QualDialogo::Estorno),
        Efeitos {
            avisos: e.avisos.push(recibo) + ficaram,
            fechar_dialogo: e.fechar_dialogo || t.dialogo == Some(QualDialogo::Estorno),
            reler_detalhe: e.reler_detalhe || (des_sinalizou && d.feitas > 0),
            recarregar: true,
            ..e
        },
    )
}

pub open spec fn depois_de_abrir(t: TelaVista, r: Result<(), String>) -> (TelaVista, Efeitos) {
    let (resto, pedido) = tirada(t.em_curso, TipoDeEmCurso::Abrir);
    let t1 = com_em_curso(t, resto);
    match r {
        Ok(_) => {
            let fundo = match pedido {
                Some(EmCurso::Abrir { fundo }) => fundo,
                _ => 0,
            };
            (
                fecha_se(t1, QualDialogo::Abrir),
                Efeitos {
                    avisos: seq![(FraseVista::CaixaAberto(fundo), TipoDeRecado::Sucesso, 5u64)],
                    fechar_dialogo: t.dialogo == Some(QualDialogo::Abrir),
                    recarregar: true,
                    ..nenhum()
                },
            )
        },
        Err(e) => (
            t1,
            Efeitos {
                avisos: seq![aviso_de_erro(erro_do_caixa(e@, "Não foi possível abrir o caixa."@))],
                reabilitar: t.dialogo == Some(QualDialogo::Abrir),
                ..nenhum()
            },
        ),
    }
}

pub open spec fn depois_do_movimento(t: TelaVista, r: Result<(), String>) -> (TelaVista, Efeitos) {
    let (resto, pedido) = tirada(t.em_curso, TipoDeEmCurso::Movimento);
    let t1 = com_em_curso(t, resto);
    match r {
        Ok(_) => (
            fecha_se(t1, QualDialogo::Movimento),
            Efeitos {
                avisos: match pedido {
                    Some(EmCurso::Movimento { rotulo, valor }) => seq![
                        (FraseVista::Movimento(rotulo@, valor), TipoDeRecado::Sucesso, 5u64),
                    ],
                    _ => Seq::empty(),
                },
                fechar_dialogo: t.dialogo == Some(QualDialogo::Movimento),
                recarregar: true,
                ..nenhum()
            },
        ),
        Err(e) => (
            t1,
            Efeitos {
                avisos: seq![aviso_de_erro(erro_do_caixa(e@, "Não foi possível registrar o movimento."@))],
                reabilitar: t.dialogo == Some(QualDialogo::Movimento),
                ..nenhum()
            },
        ),
    }
}

pub open spec fn depois_da_venda(t: TelaVista, r: Result<Option<VendaGravada>, String>) -> (TelaVista, Efeitos) {
    match r {
        Ok(lida) => {
            let (t1, frase) = match lida {
                Some(v) => (
                    TelaVista { ultima_venda: Some(v), ..t },
                    FraseVista::Venda(v.numero, v.total, v.troco),
                ),
                None => (t, FraseVista::Texto("Venda registrada."@)),
            };
            (
                fecha_se(t1, QualDialogo::Pagamento),
                Efeitos {
                    avisos: seq![(frase, TipoDeRecado::Sucesso, 8u64)],
                    fechar_dialogo: t.dialogo == Some(QualDialogo::Pagamento),
                    zerar_desconto: true,
                    recarregar: true,
                    ..nenhum()
                },
            )
        },
        Err(e) => (
            t,
            Efeitos {
                avisos: seq![aviso_de_erro(erro_do_caixa(e@, "Não foi possível registrar a venda."@))],
                reabilitar: t.dialogo == Some(QualDialogo::Pagamento),
                ..nenhum()
            },
        ),
    }
}

/// O aviso de quem tenta gravar sem a conta do site.
pub open spec fn sem_conta() -> (FraseVista, TipoDeRecado, u64) {
    aviso_de_erro("Esta tela precisa da conta do site."@)
}

pub open spec fn depois_do_estorno(t: TelaVista, r: Result<(), String>, tem_conta: bool) -> (TelaVista, Efeitos) {
    let (resto, pedido) = tirada(t.em_curso, TipoDeEmCurso::Estorno);
    let t1 = com_em_curso(t, resto);
    match pedido {
        Some(EmCurso::Estorno { venda_id, numero, valor, fotos, des_sinalizar }) => match r {
            Ok(_) => {
                let t2 = match t1.ultima_venda {
                    Some(v) => if v.id@ == venda_id@ {
                        TelaVista { ultima_venda: None, ..t1 }
                    } else {
                        t1
                    },
                    None => t1,
                };
                let n = fotos@.len();
                let d = DesSinalizacao {
                    numero,
                    valor,
                    faltam: (if des_sinalizar && tem_conta { n } else { 0 }) as usize,
                    feitas: 0,
                    falhas: (if des_sinalizar && !tem_conta { n } else { 0 }) as usize,
                };
                let e = Efeitos {
                    avisos: if des_sinalizar && !tem_conta {
                        Seq::new(n, |i: int| sem_conta())
                    } else {
                        Seq::empty()
                    },
                    des_sinalizar: if des_sinalizar && tem_conta {
                        fotos@.map_values(|f: String| caminho_da_foto(f@))
                    } else {
                        Seq::empty()
                    },
                    ..nenhum()
                };
                if d.faltam == 0 {
                    terminado(t2, d, des_sinalizar, e)
                } else {
                    (TelaVista { des_sinalizacao: Some(d), ..t2 }, e)
                }
            },
            Err(e) => (
                t1,
                Efeitos {
                    avisos: seq![aviso_de_erro(erro_do_caixa(e@, "Não foi possível estornar."@))],
                    reabilitar: t.dialogo == Some(QualDialogo::Estorno),
                    ..nenhum()
                },
            ),
        },
        _ => (t1, nenhum()),
    }
}

pub open spec fn depois_de_des_sinalizar(t: TelaVista, deu_certo: bool) -> (TelaVista, Efeitos) {
    match t.des_sinalizacao {
        None => (t, nenhum()),
        Some(d) => {
            let d2 = DesSinalizacao {
                faltam: (if d.faltam > 0 { d.faltam - 1 } else { 0 }) as usize,
                feitas: (d.feitas + if deu_certo { 1int } else { 0 }) as usize,
                falhas: (d.falhas + if deu_certo { 0int } else { 1 }) as usize,
                ..d
            };
            if d2.faltam == 0 {
                terminado(TelaVista { des_sinalizacao: None, ..t }, d2, true, nenhum())
            } else {
                (TelaVista { des_sinalizacao: Some(d2), ..t }, nenhum())
            }
        },
    }
}

pub open spec fn depois_de_conferir(t: TelaVista, r: Result<(), String>) -> (TelaVista, Efeitos) {
    if t.dialogo == Some(QualDialogo::Fechar) {
        match r {
            Ok(_) => (t, Efeitos { reabilitar: true, conferencia_chegou: true, ..nenhum() }),
            Err(e) => (
                t,
                Efeitos {
                    avisos: seq![aviso_de_erro(erro_do_caixa(e@, "Não foi possível conferir o caixa."@))],
                    reabilitar: true,
                    ..nenhum()
                },
            ),
        }
    } else {
        (t, nenhum())
    }
}

pub open spec fn depois_de_fechar(t: TelaVista, r: Result<bool, String>) -> (TelaVista, Efeitos) {
    let aberto = t.dialogo == Some(QualDialogo::Fechar);
    match r {
        Ok(lido) => {
            let t1 = TelaVista { ultima_venda: None, ..t };
            if aberto && !lido {
                (
                    TelaVista { dialogo: None, ..t1 },
                    Efeitos {
                        avisos: seq![(FraseVista::Texto("Caixa fechado."@), TipoDeRecado::Sucesso, 5u64)],
                        fechar_dialogo: true,
                        reabilitar: true,
                        recarregar: true,
                        ..nenhum()
                    },
                )
            } else {
                (t1, Efeitos { reabilitar: aberto, mostrar_fechamento: aberto, recarregar: true, ..nenhum() })
            }
        },
        Err(e) => (
            t,
            Efeitos {
                avisos: seq![aviso_de_erro(erro_do_caixa(e@, "Não foi possível fechar o caixa."@))],
                reabilitar: aberto,
                ..nenhum()
            },
        ),
    }
}

/// Os funcionários sem os deste id.
pub open spec fn sem_o_id(s: Seq<Funcionario>, id: Seq<char>) -> Seq<Funcionario>
    decreases s.len(),
{
    if s.len() == 0 {
        s
    } else if s.last().id@ == id {
        sem_o_id(s.drop_last(), id)
    } else {
        sem_o_id(s.drop_last(), id).push(s.last())
    }
}

pub open spec fn depois_de_cadastrar(t: TelaVista, r: Result<Funcionario, String>) -> (TelaVista, Efeitos) {
    if t.dialogo == Some(QualDialogo::Pessoas { cadastro_aberto: true }) {
        match r {
            Ok(f) => (
                TelaVista {
                    dialogo: Some(QualDialogo::Pessoas { cadastro_aberto: false }),
                    cadastrados: sem_o_id(t.cadastrados, f.id@).push(f),
                    ..t
                },
                Efeitos {
                    avisos: seq![(FraseVista::Texto(f.nome@ + " cadastrado."@), TipoDeRecado::Sucesso, 5u64)],
                    cadastro: Some(Ok(f.id@)),
                    ..nenhum()
                },
            ),
            Err(e) => (
                t,
                Efeitos {
                    cadastro: Some(Err(erro_do_caixa(e@, "Não foi possível cadastrar o funcionário."@))),
                    ..nenhum()
                },
            ),
        }
    } else {
        (t, nenhum())
    }
}

/// O que uma resposta faz com a tela, e o que a tela faz depois.
pub open spec fn depois_de(t: TelaVista, r: Resposta, tem_conta: bool) -> (TelaVista, Efeitos) {
    match r {
        Resposta::Abrir(x) => depois_de_abrir(t, x),
        Resposta::Movimento(x) => depois_do_movimento(t, x),
        Resposta::Venda(x) => depois_da_venda(t, x),
        Resposta::Estorno(x) => depois_do_estorno(t, x, tem_conta),
        Resposta::DesSinalizar(ok) => depois_de_des_sinalizar(t, ok),
        Resposta::Conferir(x) => depois_de_conferir(t, x),
        Resposta::Fechar(x) => depois_de_fechar(t, x),
        Resposta::Cadastrar(x) => depois_de_cadastrar(t, x),
        Resposta::Outra => (t, nenhum()),
    }
}

// ── O que as respostas prometem ─────────────────────────────────────────────

/// Toda gravação que muda o caixa e dá certo — abrir, um movimento, uma
/// venda, o fechamento — pede que ele se releia; nenhuma recusa pede.
pub proof fn lema_o_que_grava_recarrega(
    t: TelaVista,
    tem_conta: bool,
    erro: String,
    lida: Option<VendaGravada>,
    lido: bool,
)
    ensures
        depois_de(t, Resposta::Abrir(Ok(())), tem_conta).1.recarregar,
        depois_de(t, Resposta::Movimento(Ok(())), tem_conta).1.recarregar,
        depois_de(t, Resposta::Venda(Ok(lida)), tem_conta).1.recarregar,
        depois_de(t, Resposta::Fechar(Ok(lido)), tem_conta).1.recarregar,
        !depois_de(t, Resposta::Abrir(Err(erro)), tem_conta).1.recarregar,
        !depois_de(t, Resposta::Movimento(Err(erro)), tem_conta).1.recarregar,
        !depois_de(t, Resposta::Venda(Err(erro)), tem_conta).1.recarregar,
        !depois_de(t, Resposta::Fechar(Err(erro)), tem_conta).1.recarregar,
        !depois_de(t, Resposta::Estorno(Err(erro)), tem_conta).1.recarregar,
        !depois_de(t, Resposta::Conferir(Err(erro)), tem_conta).1.recarregar,
{
}

/// O resultado de uma gravação do seu diálogo: a que dá certo fecha o
/// diálogo dela — e só o dela —, a recusada o deixa aberto, reabilita o
/// formulário dele e dá um aviso de erro só, por oito segundos.
pub proof fn lema_o_dialogo_da_gravacao(t: TelaVista, tem_conta: bool, erro: String, lida: Option<VendaGravada>)
    ensures
        ({
            let (t2, e) = depois_de(t, Resposta::Abrir(Ok(())), tem_conta);
            &&& e.fechar_dialogo == (t.dialogo == Some(QualDialogo::Abrir))
            &&& t2.dialogo == (if t.dialogo == Some(QualDialogo::Abrir) { None } else { t.dialogo })
            &&& !e.reabilitar
        }),
        ({
            let (t2, e) = depois_de(t, Resposta::Movimento(Ok(())), tem_conta);
            &&& e.fechar_dialogo == (t.dialogo == Some(QualDialogo::Movimento))
            &&& t2.dialogo == (if t.dialogo == Some(QualDialogo::Movimento) { None } else { t.dialogo })
            &&& !e.reabilitar
        }),
        ({
            let (t2, e) = depois_de(t, Resposta::Venda(Ok(lida)), tem_conta);
            &&& e.fechar_dialogo == (t.dialogo == Some(QualDialogo::Pagamento))
            &&& t2.dialogo == (if t.dialogo == Some(QualDialogo::Pagamento) { None } else { t.dialogo })
            &&& !e.reabilitar
        }),
        ({
            let (t2, e) = depois_de(t, Resposta::Abrir(Err(erro)), tem_conta);
            &&& t2.dialogo == t.dialogo && !e.fechar_dialogo
            &&& e.reabilitar == (t.dialogo == Some(QualDialogo::Abrir))
            &&& e.avisos.len() == 1 && e.avisos[0].1 == TipoDeRecado::Erro && e.avisos[0].2 == 8
        }),
        ({
            let (t2, e) = depois_de(t, Resposta::Movimento(Err(erro)), tem_conta);
            &&& t2.dialogo == t.dialogo && !e.fechar_dialogo
            &&& e.reabilitar == (t.dialogo == Some(QualDialogo::Movimento))
            &&& e.avisos.len() == 1 && e.avisos[0].1 == TipoDeRecado::Erro && e.avisos[0].2 == 8
        }),
        ({
            let (t2, e) = depois_de(t, Resposta::Venda(Err(erro)), tem_conta);
            &&& t2.dialogo == t.dialogo && !e.fechar_dialogo
            &&& e.reabilitar == (t.dialogo == Some(QualDialogo::Pagamento))
            &&& e.avisos.len() == 1 && e.avisos[0].1 == TipoDeRecado::Erro && e.avisos[0].2 == 8
        }),
        ({
            let (t2, e) = depois_de(t, Resposta::Fechar(Err(erro)), tem_conta);
            &&& t2.dialogo == t.dialogo && !e.fechar_dialogo
            &&& e.reabilitar == (t.dialogo == Some(QualDialogo::Fechar))
            &&& e.avisos.len() == 1 && e.avisos[0].1 == TipoDeRecado::Erro && e.avisos[0].2 == 8
        }),
{
}

/// A venda que grava vira a última e zera o desconto; a que não se leu, ou
/// a recusada, deixa a última como estava; e o fechamento a esquece.
pub proof fn lema_a_ultima_venda(t: TelaVista, tem_conta: bool, v: VendaGravada, erro: String, lido: bool)
    ensures
        depois_de(t, Resposta::Venda(Ok(Some(v))), tem_conta).0.ultima_venda == Some(v),
        depois_de(t, Resposta::Venda(Ok(Some(v))), tem_conta).1.zerar_desconto,
        depois_de(t, Resposta::Venda(Ok(None)), tem_conta).0.ultima_venda == t.ultima_venda,
        depois_de(t, Resposta::Venda(Ok(None)), tem_conta).1.zerar_desconto,
        depois_de(t, Resposta::Venda(Err(erro)), tem_conta).0.ultima_venda == t.ultima_venda,
        !depois_de(t, Resposta::Venda(Err(erro)), tem_conta).1.zerar_desconto,
        depois_de(t, Resposta::Fechar(Ok(lido)), tem_conta).0.ultima_venda is None,
{
}

proof fn lema_primeira_do_tipo(s: Seq<EmCurso>, t: TipoDeEmCurso, k: int)
    requires
        0 <= k,
    ensures
        primeira_do_tipo(s, t, k) matches Some(i) ==> k <= i < s.len() && e_do_tipo(s[i], t),
        primeira_do_tipo(s, t, k) is None ==> forall|j: int| k <= j < s.len() ==> !e_do_tipo(#[trigger] s[j], t),
    decreases s.len() - k,
{
    if k < s.len() && !e_do_tipo(s[k], t) {
        lema_primeira_do_tipo(s, t, k + 1);
    }
}

/// A resposta tira da lista uma gravação em curso do seu tipo, e só uma,
/// quando há alguma; sem nenhuma do seu tipo, a lista fica como estava.
pub proof fn lema_tira_uma_do_seu_tipo(t: TelaVista, tem_conta: bool, x: Result<(), String>)
    ensures
        ({
            let e = depois_de(t, Resposta::Abrir(x), tem_conta).0.em_curso;
            ||| (exists|i: int| 0 <= i < t.em_curso.len() && (#[trigger] t.em_curso[i]) is Abrir
                && e == t.em_curso.remove(i))
            ||| ((forall|i: int| 0 <= i < t.em_curso.len() ==> !(#[trigger] t.em_curso[i] is Abrir))
                && e == t.em_curso)
        }),
        ({
            let e = depois_de(t, Resposta::Movimento(x), tem_conta).0.em_curso;
            ||| (exists|i: int| 0 <= i < t.em_curso.len() && (#[trigger] t.em_curso[i]) is Movimento
                && e == t.em_curso.remove(i))
            ||| ((forall|i: int| 0 <= i < t.em_curso.len() ==> !(#[trigger] t.em_curso[i] is Movimento))
                && e == t.em_curso)
        }),
        (exists|i: int| 0 <= i < t.em_curso.len() && (#[trigger] t.em_curso[i]) is Abrir) ==>
            depois_de(t, Resposta::Abrir(x), tem_conta).0.em_curso.len() == t.em_curso.len() - 1,
        (exists|i: int| 0 <= i < t.em_curso.len() && (#[trigger] t.em_curso[i]) is Movimento) ==>
            depois_de(t, Resposta::Movimento(x), tem_conta).0.em_curso.len() == t.em_curso.len() - 1,
{
    lema_primeira_do_tipo(t.em_curso, TipoDeEmCurso::Abrir, 0);
    lema_primeira_do_tipo(t.em_curso, TipoDeEmCurso::Movimento, 0);
}

/// O aviso do caixa aberto mostra o fundo que foi pedido.
pub proof fn lema_o_fundo_pedido(t: TelaVista, tem_conta: bool, fundo: i64)
    requires
        t.em_curso == seq![EmCurso::Abrir { fundo }],
    ensures
        depois_de(t, Resposta::Abrir(Ok(())), tem_conta).1.avisos == seq![
            (FraseVista::CaixaAberto(fundo), TipoDeRecado::Sucesso, 5u64),
        ],
        depois_de(t, Resposta::Abrir(Ok(())), tem_conta).0.em_curso.len() == 0,
{
    assert(primeira_do_tipo(t.em_curso, TipoDeEmCurso::Abrir, 0) == Some(0int));
}

/// Um estorno que grava com a conta do site manda uma volta a "à venda"
/// por foto, cada uma para o caminho da foto, e espera todas antes do
/// recibo; sem a conta, cada foto é um aviso de erro e o recibo sai já,
/// com o aviso das que ficaram sinalizadas.
pub proof fn lema_estorno_uma_por_foto(
    t: TelaVista,
    venda_id: String,
    numero: i64,
    valor: i64,
    fotos: Vec<String>,
)
    requires
        t.em_curso == seq![EmCurso::Estorno { venda_id, numero, valor, fotos, des_sinalizar: true }],
        0 < fotos@.len() <= usize::MAX,
    ensures
        ({
            let (t2, e) = depois_de(t, Resposta::Estorno(Ok(())), true);
            &&& e.des_sinalizar.len() == fotos@.len()
            &&& forall|j: int| 0 <= j < fotos@.len() ==> #[trigger] e.des_sinalizar[j] == caminho_da_foto(fotos@[j]@)
            &&& e.avisos.len() == 0 && !e.recarregar
            &&& t2.des_sinalizacao matches Some(d) && d.faltam == fotos@.len() && d.feitas == 0 && d.falhas == 0
            &&& t2.em_curso.len() == 0
        }),
        ({
            let (t2, e) = depois_de(t, Resposta::Estorno(Ok(())), false);
            &&& e.des_sinalizar.len() == 0
            &&& e.avisos.len() == fotos@.len() + 2
            &&& forall|j: int| 0 <= j < fotos@.len() ==> #[trigger] e.avisos[j] == sem_conta()
            &&& e.avisos[fotos@.len() as int].1 == TipoDeRecado::Sucesso
            &&& e.avisos[fotos@.len() as int + 1].1 == TipoDeRecado::Erro
            &&& e.recarregar
            &&& t2.des_sinalizacao == t.des_sinalizacao
        }),
{
    assert(primeira_do_tipo(t.em_curso, TipoDeEmCurso::Estorno, 0) == Some(0int));
    let (resto, pedido) = tirada(t.em_curso, TipoDeEmCurso::Estorno);
    assert(pedido == Some(t.em_curso[0]));
    assert(resto =~= Seq::<EmCurso>::empty());
    let n = fotos@.len();
    assert(aviso_das_que_ficaram(n) is Some);
    let caminhos = fotos@.map_values(|f: String| caminho_da_foto(f@));
    assert(caminhos.len() == n);
    let (t2, e) = depois_de(t, Resposta::Estorno(Ok(())), true);
    assert(e.des_sinalizar == caminhos);
    let avisos = Seq::new(n, |i: int| sem_conta());
    let (t3, e3) = depois_de(t, Resposta::Estorno(Ok(())), false);
    assert(e3.avisos.subrange(0, n as int) =~= avisos);
}

/// Cada foto do estorno que responde conta uma, de acerto ou de falha; o
/// recibo sai exatamente quando a última responde, com quantas voltaram, e
/// o aviso das que ficaram sai exatamente quando alguma falhou.
pub proof fn lema_cada_foto_conta(t: TelaVista, tem_conta: bool, ok: bool, d: DesSinalizacao)
    requires
        t.des_sinalizacao == Some(d),
        d.faltam > 0,
        d.feitas < usize::MAX,
        d.falhas < usize::MAX,
    ensures
        ({
            let (t2, e) = depois_de(t, Resposta::DesSinalizar(ok), tem_conta);
            let feitas = d.feitas + if ok { 1int } else { 0 };
            let falhas = d.falhas + if ok { 0int } else { 1 };
            &&& d.faltam > 1 ==> {
                &&& t2.des_sinalizacao matches Some(d2)
                &&& d2.faltam == d.faltam - 1 && d2.feitas == feitas && d2.falhas == falhas
                &&& d2.numero == d.numero && d2.valor == d.valor
                &&& e.avisos.len() == 0 && !e.recarregar && !e.fechar_dialogo
            }
            &&& d.faltam == 1 ==> {
                &&& t2.des_sinalizacao is None
                &&& e.recarregar
                &&& e.reler_detalhe == (feitas > 0)
                &&& e.avisos[0] == (
                    FraseVista::Estorno(d.valor, d.numero, fim_do_recibo(true, feitas as nat)),
                    TipoDeRecado::Sucesso,
                    8u64,
                )
                &&& (e.avisos.len() == 2) == (falhas > 0)
                &&& (e.avisos.len() == 1) == (falhas == 0)
            }
        }),
{
}

/// Sem estorno em andamento, a resposta de uma foto não muda nada.
pub proof fn lema_foto_sem_estorno(t: TelaVista, tem_conta: bool, ok: bool)
    requires
        t.des_sinalizacao is None,
    ensures
        depois_de(t, Resposta::DesSinalizar(ok), tem_conta) == (t, nenhum()),
{
}

/// A conferência só vale com o diálogo de fechamento aberto: ali ela
/// reabilita o formulário e chega quando deu certo; senão, nada muda.
pub proof fn lema_a_conferencia(t: TelaVista, tem_conta: bool, x: Result<(), String>)
    ensures
        ({
            let (t2, e) = depois_de(t, Resposta::Conferir(x), tem_conta);
            &&& t2 == t
            &&& t.dialogo == Some(QualDialogo::Fechar) ==> e.reabilitar && (e.conferencia_chegou <==> x is Ok)
                && (e.avisos.len() == 1 <==> x is Err)
            &&& t.dialogo != Some(QualDialogo::Fechar) ==> e == nenhum()
        }),
{
}

proof fn lema_sem_o_id(s: Seq<Funcionario>, id: Seq<char>)
    ensures
        forall|x: Funcionario| #[trigger] sem_o_id(s, id).contains(x) <==> (s.contains(x) && x.id@ != id),
        forall|i: int| 0 <= i < sem_o_id(s, id).len() ==> (#[trigger] sem_o_id(s, id)[i]).id@ != id,
    decreases s.len(),
{
    if s.len() > 0 {
        lema_sem_o_id(s.drop_last(), id);
        let r0 = sem_o_id(s.drop_last(), id);
        assert(s =~= s.drop_last().push(s.last()));
        assert forall|x: Funcionario| #[trigger] sem_o_id(s, id).contains(x) <==> (s.contains(x) && x.id@ != id) by {
            assert(r0.contains(x) <==> (s.drop_last().contains(x) && x.id@ != id));
            if s.contains(x) {
                let k = choose|k: int| 0 <= k < s.len() && s[k] == x;
                if k < s.len() - 1 {
                    assert(s.drop_last()[k] == x);
                }
            }
            if s.drop_last().contains(x) {
                let k = choose|k: int| 0 <= k < s.drop_last().len() && s.drop_last()[k] == x;
                assert(s[k] == x);
            }
            if s.last().id@ != id {
                assert(sem_o_id(s, id) == r0.push(s.last()));
                if r0.contains(x) {
                    let k = choose|k: int| 0 <= k < r0.len() && r0[k] == x;
                    assert(r0.push(s.last())[k] == x);
                }
                if r0.push(s.last()).contains(x) {
                    let k = choose|k: int| 0 <= k < r0.push(s.last()).len() && r0.push(s.last())[k] == x;
                    if k < r0.len() {
                        assert(r0[k] == x);
                    }
                }
                assert(r0.push(s.last())[r0.len() as int] == s.last());
            }
        }
        assert forall|i: int| 0 <= i < sem_o_id(s, id).len() implies (#[trigger] sem_o_id(s, id)[i]).id@ != id by {
            if s.last().id@ != id && i < r0.len() {
                assert(sem_o_id(s, id)[i] == r0[i]);
            }
        }
    }
}

/// O cadastro que dá certo põe o funcionário no fim da lista, tira dela
/// quem tinha o mesmo id, guarda todos os outros, e fecha o formulário de
/// cadastro; o recusado não muda a lista. Fora do formulário, nada muda.
pub proof fn lema_o_cadastro(t: TelaVista, tem_conta: bool, f: Funcionario, erro: String)
    ensures
        t.dialogo == Some(QualDialogo::Pessoas { cadastro_aberto: true }) ==> ({
            let (t2, e) = depois_de(t, Resposta::Cadastrar(Ok(f)), tem_conta);
            &&& t2.cadastrados.last() == f
            &&& forall|i: int| 0 <= i < t2.cadastrados.len() - 1 ==> (#[trigger] t2.cadastrados[i]).id@ != f.id@
            &&& forall|x: Funcionario| #[trigger] t.cadastrados.contains(x) && x.id@ != f.id@ ==> t2.cadastrados.contains(x)
            &&& t2.dialogo == Some(QualDialogo::Pessoas { cadastro_aberto: false })
            &&& e.cadastro == Some(Ok::<Seq<char>, Seq<char>>(f.id@))
        }),
        t.dialogo == Some(QualDialogo::Pessoas { cadastro_aberto: true }) ==> ({
            let (t2, e) = depois_de(t, Resposta::Cadastrar(Err(erro)), tem_conta);
            &&& t2 == t
            &&& e.cadastro is Some && e.cadastro->0 is Err
            &&& e.avisos.len() == 0
        }),
        t.dialogo != Some(QualDialogo::Pessoas { cadastro_aberto: true }) ==> depois_de(
            t,
            Resposta::Cadastrar(Ok(f)),
            tem_conta,
        ) == (t, nenhum()),
{
    lema_sem_o_id(t.cadastrados, f.id@);
    let r = sem_o_id(t.cadastrados, f.id@);
    assert forall|i: int| 0 <= i < r.push(f).len() - 1 implies (#[trigger] r.push(f)[i]).id@ != f.id@ by {
        assert(r.push(f)[i] == r[i]);
    }
    assert forall|x: Funcionario| #[trigger] t.cadastrados.contains(x) && x.id@ != f.id@ implies r.push(f).contains(x) by {
        assert(r.contains(x));
        let k = choose|k: int| 0 <= k < r.len() && r[k] == x;
        assert(r.push(f)[k] == x);
    }
}

// ── A execução ──────────────────────────────────────────────────────────────

fn nada() -> (r: DepoisDaGravacao)
    ensures
        efeitos(r) == nenhum(),
        r.avisos@.len() == 0,
        r.des_sinalizar@.len() == 0,
{
    let r = DepoisDaGravacao {
        avisos: Vec::new(),
        fechar_dialogo: false,
        reabilitar: false,
        recarregar: false,
        zerar_desconto: false,
        reler_detalhe: false,
        des_sinalizar: Vec::new(),
        conferencia_chegou: false,
        mostrar_fechamento: false,
        cadastro: None,
    };
    assert(r.avisos@.map_values(|a: Aviso| aviso_visto(a)) =~= Seq::empty());
    assert(r.des_sinalizar@.map_values(|s: String| s@) =~= Seq::empty());
    r
}

/// Um aviso com uma frase pronta.
fn aviso_de_texto(texto: String, tipo: TipoDeRecado, segundos: u64) -> (a: Aviso)
    ensures
        aviso_visto(a) == (FraseVista::Texto(texto@), tipo, segundos),
{
    Aviso { frase: Frase::Texto(texto), tipo, segundos }
}

/// Só um aviso: o de erro da resposta, por oito segundos.
fn so_o_erro(erro: &str, padrao: &str) -> (r: DepoisDaGravacao)
    ensures
        efeitos(r) == (Efeitos { avisos: seq![aviso_de_erro(erro_do_caixa(erro@, padrao@))], ..nenhum() }),
{
    let mut r = nada();
    let ghost antes = r.avisos@;
    r.avisos.push(aviso_de_texto(mensagem_do_erro(erro, padrao), TipoDeRecado::Erro, 8));
    assert(r.avisos@.map_values(|a: Aviso| aviso_visto(a)) =~= seq![
        aviso_de_erro(erro_do_caixa(erro@, padrao@)),
    ]);
    r
}

/// Só um aviso.
fn so_o_aviso(a: Aviso) -> (r: DepoisDaGravacao)
    ensures
        efeitos(r) == (Efeitos { avisos: seq![aviso_visto(a)], ..nenhum() }),
{
    let mut r = nada();
    let ghost v = aviso_visto(a);
    r.avisos.push(a);
    assert(r.avisos@.map_values(|a: Aviso| aviso_visto(a)) =~= seq![v]);
    r
}

fn e_o_dialogo(d: Option<QualDialogo>, q: QualDialogo) -> (r: bool)
    ensures
        r == (d == Some(q)),
{
    match d {
        Some(x) => x == q,
        None => false,
    }
}

fn do_tipo(e: &EmCurso, t: TipoDeEmCurso) -> (r: bool)
    ensures
        r == e_do_tipo(*e, t),
{
    match (e, t) {
        (EmCurso::Abrir { .. }, TipoDeEmCurso::Abrir) => true,
        (EmCurso::Movimento { .. }, TipoDeEmCurso::Movimento) => true,
        (EmCurso::Estorno { .. }, TipoDeEmCurso::Estorno) => true,
        _ => false,
    }
}

/// Tira da lista a primeira gravação em curso deste tipo.
fn tirar(em_curso: &mut Vec<EmCurso>, t: TipoDeEmCurso) -> (r: Option<EmCurso>)
    ensures
        (final(em_curso)@, r) == tirada(old(em_curso)@, t),
{
    let mut i: usize = 0;
    while i < em_curso.len()
        invariant
            i <= em_curso@.len(),
            em_curso@ == old(em_curso)@,
            primeira_do_tipo(em_curso@, t, 0) == primeira_do_tipo(em_curso@, t, i as int),
        decreases em_curso@.len() - i,
    {
        if do_tipo(&em_curso[i], t) {
            let e = em_curso.remove(i);
            return Some(e);
        }
        i += 1;
    }
    None
}

/// Os funcionários sem os deste id, na ordem.
fn sem_o_id_de(s: &Vec<Funcionario>, id: &str) -> (r: Vec<Funcionario>)
    ensures
        r@ == sem_o_id(s@, id@),
{
    let alvo = caracteres(id);
    let mut r: Vec<Funcionario> = Vec::new();
    let mut i: usize = 0;
    while i < s.len()
        invariant
            i <= s@.len(),
            alvo@ == id@,
            r@ == sem_o_id(s@.take(i as int), id@),
        decreases s@.len() - i,
    {
        assert(s@.take(i as int + 1).drop_last() =~= s@.take(i as int));
        assert(s@.take(i as int + 1).last() == s@[i as int]);
        if !iguais(&caracteres(s[i].id.as_str()), &alvo) {
            r.push(s[i].copiar());
        }
        i += 1;
    }
    assert(s@.take(s@.len() as int) =~= s@);
    r
}

/// O fim do estorno.
fn terminar(tela: &mut TelaDoCaixa, d: DesSinalizacao, des_sinalizou: bool, e: DepoisDaGravacao) -> (r:
    DepoisDaGravacao)
    ensures
        (tela_vista(*final(tela)), efeitos(r)) == terminado(
            tela_vista(*old(tela)),
            d,
            des_sinalizou,
            efeitos(e),
        ),
{
    let mut e = e;
    let ghost a0 = e.avisos@.map_values(|a: Aviso| aviso_visto(a));
    let fim = escrever_fim_do_recibo(des_sinalizou, d.feitas);
    let recibo = Aviso {
        frase: Frase::Estorno { valor: d.valor, numero: d.numero, fim },
        tipo: TipoDeRecado::Sucesso,
        segundos: 8,
    };
    let ghost vr = aviso_visto(recibo);
    e.avisos.push(recibo);
    assert(e.avisos@.map_values(|a: Aviso| aviso_visto(a)) =~= a0.push(vr));
    let ghost a1 = a0.push(vr);
    match escrever_aviso_das_que_ficaram(d.falhas) {
        Some(f) => {
            let ficou = aviso_de_texto(f, TipoDeRecado::Erro, 10);
            let ghost vf = aviso_visto(ficou);
            e.avisos.push(ficou);
            assert(e.avisos@.map_values(|a: Aviso| aviso_visto(a)) =~= a1 + seq![vf]);
        },
        None => {
            assert(a1 + Seq::<(FraseVista, TipoDeRecado, u64)>::empty() =~= a1);
        },
    }
    if e_o_dialogo(tela.dialogo, QualDialogo::Estorno) {
        tela.dialogo = None;
        e.fechar_dialogo = true;
    }
    if des_sinalizou && d.feitas > 0 {
        e.reler_detalhe = true;
    }
    e.recarregar = true;
    e
}

fn depois_de_abrir_exec(tela: &mut TelaDoCaixa, r: Result<(), String>) -> (d: DepoisDaGravacao)
    ensures
        (tela_vista(*final(tela)), efeitos(d)) == depois_de_abrir(tela_vista(*old(tela)), r),
{
    let pedido = tirar(&mut tela.em_curso, TipoDeEmCurso::Abrir);
    let aberto = e_o_dialogo(tela.dialogo, QualDialogo::Abrir);
    match r {
        Ok(_) => {
            let fundo = match pedido {
                Some(EmCurso::Abrir { fundo }) => fundo,
                _ => 0,
            };
            let mut d = so_o_aviso(
                Aviso { frase: Frase::CaixaAberto { fundo }, tipo: TipoDeRecado::Sucesso, segundos: 5 },
            );
            if aberto {
                tela.dialogo = None;
                d.fechar_dialogo = true;
            }
            d.recarregar = true;
            d
        },
        Err(erro) => {
            let mut d = so_o_erro(erro.as_str(), "Não foi possível abrir o caixa.");
            d.reabilitar = aberto;
            d
        },
    }
}

fn depois_do_movimento_exec(tela: &mut TelaDoCaixa, r: Result<(), String>) -> (d: DepoisDaGravacao)
    ensures
        (tela_vista(*final(tela)), efeitos(d)) == depois_do_movimento(tela_vista(*old(tela)), r),
{
    let pedido = tirar(&mut tela.em_curso, TipoDeEmCurso::Movimento);
    let aberto = e_o_dialogo(tela.dialogo, QualDialogo::Movimento);
    match r {
        Ok(_) => {
            let mut d = match pedido {
                Some(EmCurso::Movimento { rotulo, valor }) => so_o_aviso(
                    Aviso { frase: Frase::Movimento { rotulo, valor }, tipo: TipoDeRecado::Sucesso, segundos: 5 },
                ),
                _ => nada(),
            };
            if aberto {
                tela.dialogo = None;
                d.fechar_dialogo = true;
            }
            d.recarregar = true;
            d
        },
        Err(erro) => {
            let mut d = so_o_erro(erro.as_str(), "Não foi possível registrar o movimento.");
            d.reabilitar = aberto;
            d
        },
    }
}

fn depois_da_venda_exec(tela: &mut TelaDoCaixa, r: Result<Option<VendaGravada>, String>) -> (d:
    DepoisDaGravacao)
    ensures
        (tela_vista(*final(tela)), efeitos(d)) == depois_da_venda(tela_vista(*old(tela)), r),
{
    let aberto = e_o_dialogo(tela.dialogo, QualDialogo::Pagamento);
    match r {
        Ok(lida) => {
            let frase = match lida {
                Some(v) => {
                    let f = Frase::Venda { numero: v.numero, total: v.total, troco: v.troco };
                    tela.ultima_venda = Some(v);
                    f
                },
                None => Frase::Texto(texto_de(&caracteres("Venda registrada."))),
            };
            let mut d = so_o_aviso(Aviso { frase, tipo: TipoDeRecado::Sucesso, segundos: 8 });
            if aberto {
                tela.dialogo = None;
                d.fechar_dialogo = true;
            }
            d.zerar_desconto = true;
            d.recarregar = true;
            d
        },
        Err(erro) => {
            let mut d = so_o_erro(erro.as_str(), "Não foi possível registrar a venda.");
            d.reabilitar = aberto;
            d
        },
    }
}

fn depois_do_estorno_exec(tela: &mut TelaDoCaixa, r: Result<(), String>, tem_conta: bool) -> (d:
    DepoisDaGravacao)
    ensures
        (tela_vista(*final(tela)), efeitos(d)) == depois_do_estorno(tela_vista(*old(tela)), r, tem_conta),
{
    let pedido = tirar(&mut tela.em_curso, TipoDeEmCurso::Estorno);
    let aberto = e_o_dialogo(tela.dialogo, QualDialogo::Estorno);
    match pedido {
        Some(EmCurso::Estorno { venda_id, numero, valor, fotos, des_sinalizar }) => match r {
            Ok(_) => {
                let esquecer = match &tela.ultima_venda {
                    Some(v) => iguais(&caracteres(v.id.as_str()), &caracteres(venda_id.as_str())),
                    None => false,
                };
                if esquecer {
                    tela.ultima_venda = None;
                }
                let n: usize = fotos.len();
                let des = DesSinalizacao::comecar(numero, valor, des_sinalizar, n, tem_conta);
                let mut e = nada();
                if des_sinalizar && tem_conta {
                    let mut k: usize = 0;
                    while k < n
                        invariant
                            k <= n,
                            n == fotos@.len(),
                            e.avisos@.len() == 0,
                            e.des_sinalizar@.len() == k,
                            forall|j: int| 0 <= j < k ==> (#[trigger] e.des_sinalizar@[j])@ == caminho_da_foto(fotos@[j]@),
                            !e.fechar_dialogo && !e.reabilitar && !e.recarregar && !e.zerar_desconto,
                            !e.reler_detalhe && !e.conferencia_chegou && !e.mostrar_fechamento,
                            e.cadastro is None,
                        decreases n - k,
                    {
                        proof {
                            reveal_strlit("");
                        }
                        let caminho = caminho_com_id("/pos-venda/fotos/", fotos[k].as_str(), "");
                        assert(caminho@ =~= caminho_da_foto(fotos@[k as int]@));
                        e.des_sinalizar.push(caminho);
                        k += 1;
                    }
                    assert(e.des_sinalizar@.map_values(|s: String| s@) =~= fotos@.map_values(
                        |f: String| caminho_da_foto(f@),
                    ));
                    assert(e.avisos@.map_values(|a: Aviso| aviso_visto(a)) =~= Seq::empty());
                } else if des_sinalizar {
                    let mut k: usize = 0;
                    while k < n
                        invariant
                            k <= n,
                            n == fotos@.len(),
                            e.avisos@.len() == k,
                            forall|j: int| 0 <= j < k ==> aviso_visto(#[trigger] e.avisos@[j]) == sem_conta(),
                            e.des_sinalizar@.len() == 0,
                            !e.fechar_dialogo && !e.reabilitar && !e.recarregar && !e.zerar_desconto,
                            !e.reler_detalhe && !e.conferencia_chegou && !e.mostrar_fechamento,
                            e.cadastro is None,
                        decreases n - k,
                    {
                        e.avisos.push(
                            aviso_de_texto(
                                texto_de(&caracteres("Esta tela precisa da conta do site.")),
                                TipoDeRecado::Erro,
                                8,
                            ),
                        );
                        k += 1;
                    }
                    assert(e.avisos@.map_values(|a: Aviso| aviso_visto(a)) =~= Seq::new(
                        n as nat,
                        |i: int| sem_conta(),
                    ));
                    assert(e.des_sinalizar@.map_values(|s: String| s@) =~= Seq::empty());
                }
                if des.faltam == 0 {
                    terminar(tela, des, des_sinalizar, e)
                } else {
                    tela.des_sinalizacao = Some(des);
                    e
                }
            },
            Err(erro) => {
                let mut d = so_o_erro(erro.as_str(), "Não foi possível estornar.");
                d.reabilitar = aberto;
                d
            },
        },
        _ => nada(),
    }
}

fn depois_de_des_sinalizar_exec(tela: &mut TelaDoCaixa, deu_certo: bool) -> (d: DepoisDaGravacao)
    requires
        old(tela).des_sinalizacao matches Some(d) ==> d.feitas < usize::MAX && d.falhas < usize::MAX,
    ensures
        (tela_vista(*final(tela)), efeitos(d)) == depois_de_des_sinalizar(tela_vista(*old(tela)), deu_certo),
{
    match tela.des_sinalizacao.take() {
        None => nada(),
        Some(mut d) => {
            let acabou = d.receber(deu_certo);
            if acabou {
                terminar(tela, d, true, nada())
            } else {
                tela.des_sinalizacao = Some(d);
                nada()
            }
        },
    }
}

fn depois_de_conferir_exec(tela: &mut TelaDoCaixa, r: Result<(), String>) -> (d: DepoisDaGravacao)
    ensures
        (tela_vista(*final(tela)), efeitos(d)) == depois_de_conferir(tela_vista(*old(tela)), r),
{
    if !e_o_dialogo(tela.dialogo, QualDialogo::Fechar) {
        return nada();
    }
    let mut d = match r {
        Ok(_) => {
            let mut d = nada();
            d.conferencia_chegou = true;
            d
        },
        Err(erro) => so_o_erro(erro.as_str(), "Não foi possível conferir o caixa."),
    };
    d.reabilitar = true;
    d
}

fn depois_de_fechar_exec(tela: &mut TelaDoCaixa, r: Result<bool, String>) -> (d: DepoisDaGravacao)
    ensures
        (tela_vista(*final(tela)), efeitos(d)) == depois_de_fechar(tela_vista(*old(tela)), r),
{
    let aberto = e_o_dialogo(tela.dialogo, QualDialogo::Fechar);
    match r {
        Ok(lido) => {
            tela.ultima_venda = None;
            let mut d = if aberto && !lido {
                tela.dialogo = None;
                let mut d = so_o_aviso(
                    aviso_de_texto(texto_de(&caracteres("Caixa fechado.")), TipoDeRecado::Sucesso, 5),
                );
                d.fechar_dialogo = true;
                d
            } else {
                let mut d = nada();
                d.mostrar_fechamento = aberto;
                d
            };
            d.reabilitar = aberto;
            d.recarregar = true;
            d
        },
        Err(erro) => {
            let mut d = so_o_erro(erro.as_str(), "Não foi possível fechar o caixa.");
            d.reabilitar = aberto;
            d
        },
    }
}

fn depois_de_cadastrar_exec(tela: &mut TelaDoCaixa, r: Result<Funcionario, String>) -> (d:
    DepoisDaGravacao)
    ensures
        (tela_vista(*final(tela)), efeitos(d)) == depois_de_cadastrar(tela_vista(*old(tela)), r),
{
    if !e_o_dialogo(tela.dialogo, QualDialogo::Pessoas { cadastro_aberto: true }) {
        return nada();
    }
    match r {
        Ok(f) => {
            let id = texto_de(&caracteres(f.id.as_str()));
            let mut frase = caracteres(f.nome.as_str());
            anexar(&mut frase, &caracteres(" cadastrado."));
            let mut d = so_o_aviso(aviso_de_texto(texto_de(&frase), TipoDeRecado::Sucesso, 5));
            let mut outros = sem_o_id_de(&tela.cadastrados, f.id.as_str());
            outros.push(f);
            tela.cadastrados = outros;
            tela.dialogo = Some(QualDialogo::Pessoas { cadastro_aberto: false });
            d.cadastro = Some(Ok(id));
            d
        },
        Err(erro) => {
            let mut d = nada();
            d.cadastro = Some(
                Err(mensagem_do_erro(erro.as_str(), "Não foi possível cadastrar o funcionário.")),
            );
            d
        },
    }
}

/// A resposta de uma gravação da tela do caixa: o que muda na tela e o que
/// a tela faz depois.
///
/// A gravação em curso que a resposta responde sai da lista (a primeira do
/// seu tipo). O dinheiro das frases fica em centavos; `tem_conta` diz se a
/// tela pode mandar as gravações que o estorno pede depois de si.
pub fn depois_da_gravacao(tela: &mut TelaDoCaixa, resposta: Resposta, tem_conta: bool) -> (r:
    DepoisDaGravacao)
    requires
        old(tela).des_sinalizacao matches Some(d) ==> d.feitas < usize::MAX && d.falhas < usize::MAX,
    ensures
        (tela_vista(*final(tela)), efeitos(r)) == depois_de(tela_vista(*old(tela)), resposta, tem_conta),
{
    match resposta {
        Resposta::Abrir(x) => depois_de_abrir_exec(tela, x),
        Resposta::Movimento(x) => depois_do_movimento_exec(tela, x),
        Resposta::Venda(x) => depois_da_venda_exec(tela, x),
        Resposta::Estorno(x) => depois_do_estorno_exec(tela, x, tem_conta),
        Resposta::DesSinalizar(ok) => depois_de_des_sinalizar_exec(tela, ok),
        Resposta::Conferir(x) => depois_de_conferir_exec(tela, x),
        Resposta::Fechar(x) => depois_de_fechar_exec(tela, x),
        Resposta::Cadastrar(x) => depois_de_cadastrar_exec(tela, x),
        Resposta::Outra => nada(),
    }
}

} // verus!

//! Os caminhos que o caixa pede ao site e os campos que ele escreve no corpo.

use vstd::prelude::*;
use vstd::string::StrSliceExecFns;
use vstd::string::StringSliceAdditionalSpecFns;

use crate::texto::{
    anexar, aparado, aparar, caracteres, decimal, escrever_decimal, texto_de, texto_visto, trecho,
};

verus! {

/// Os bytes que o `encodeURIComponent` deixa como estão: letras e dígitos
/// ASCII e `- _ . ! ~ * ' ( )`.
pub open spec fn passa_direto(b: u8) -> bool {
    ||| (65 <= b <= 90)
    ||| (97 <= b <= 122)
    ||| (48 <= b <= 57)
    ||| b == 45
    ||| b == 95
    ||| b == 46
    ||| b == 33
    ||| b == 126
    ||| b == 42
    ||| b == 39
    ||| b == 40
    ||| b == 41
}

/// Um algarismo hexadecimal maiúsculo.
pub open spec fn hexa(d: u8) -> char {
    if d < 10 {
        (48 + d) as char
    } else {
        (55 + d) as char
    }
}

/// Os bytes codificados: os que passam direto viram o caractere, os outros
/// `%` e dois algarismos hexadecimais.
pub open spec fn codificado(bytes: Seq<u8>) -> Seq<char>
    decreases bytes.len(),
{
    if bytes.len() == 0 {
        Seq::empty()
    } else {
        let b = bytes.last();
        codificado(bytes.drop_last()) + if passa_direto(b) {
            seq![b as char]
        } else {
            seq!['%', hexa(b / 16), hexa(b % 16)]
        }
    }
}

fn algarismo_hexa(d: u8) -> (c: char)
    requires
        d < 16,
    ensures
        c == hexa(d),
{
    if d < 10 {
        (48u8 + d) as char
    } else {
        (55u8 + d) as char
    }
}

/// O `encodeURIComponent` do JavaScript, sobre os bytes UTF-8 do texto — para ids
/// e parâmetros.
pub fn codificar(texto: &str) -> (r: String)
    ensures
        r@ == codificado(texto.spec_bytes()),
{
    let bytes = texto.as_bytes_vec();
    let mut saida: Vec<char> = Vec::new();
    let mut i: usize = 0;
    while i < bytes.len()
        invariant
            i <= bytes@.len(),
            bytes@ == texto.spec_bytes(),
            saida@ == codificado(bytes@.take(i as int)),
        decreases bytes@.len() - i,
    {
        let b = bytes[i];
        assert(bytes@.take(i as int + 1).drop_last() =~= bytes@.take(i as int));
        assert(bytes@.take(i as int + 1).last() == b);
        let ghost antes = saida@;
        if (65 <= b && b <= 90) || (97 <= b && b <= 122) || (48 <= b && b <= 57) || b == 45 || b
            == 95 || b == 46 || b == 33 || b == 126 || b == 42 || b == 39 || b == 40 || b == 41 {
            saida.push(b as char);
        } else {
            saida.push('%');
            saida.push(algarismo_hexa(b / 16));
            saida.push(algarismo_hexa(b % 16));
        }
        assert(saida@ =~= codificado(bytes@.take(i as int + 1)));
        i += 1;
    }
    assert(bytes@.take(bytes@.len() as int) =~= bytes@);
    texto_de(&saida)
}

/// Um caminho com o id codificado no meio: `prefixo`, o id e `sufixo`.
pub fn caminho_com_id(prefixo: &str, id: &str, sufixo: &str) -> (r: String)
    ensures
        r@ == prefixo@ + codificado(id.spec_bytes()) + sufixo@,
{
    let mut v = caracteres(prefixo);
    anexar(&mut v, &caracteres(codificar(id).as_str()));
    anexar(&mut v, &caracteres(sufixo));
    texto_de(&v)
}

/// Quantos produtos vêm numa página do catálogo.
pub const PAGINA_DO_CATALOGO: usize = 200;

/// Quantas páginas do catálogo o caixa lê, no máximo.
pub const MAXIMO_DE_PAGINAS: usize = 20;

/// O caminho de uma página do catálogo.
pub open spec fn caminho_da_pagina(pagina: nat) -> Seq<char> {
    "/products/admin?limit=200&offset="@ + decimal(pagina * 200)
}

/// `GET /products/admin?limit=200&offset=…`, a página `pagina` (a partir
/// de zero).
pub fn pagina_do_catalogo(pagina: usize) -> (r: String)
    requires
        pagina * PAGINA_DO_CATALOGO <= u64::MAX,
    ensures
        r@ == caminho_da_pagina(pagina as nat),
{
    let mut v = caracteres("/products/admin?limit=200&offset=");
    let deslocamento: u64 = (pagina as u64) * 200;
    anexar(&mut v, &escrever_decimal(deslocamento));
    texto_de(&v)
}

/// Depois de uma página do catálogo com `tamanho` produtos, a `lidas`-ésima:
/// a próxima a pedir, ou `None` quando o catálogo acabou (página incompleta,
/// ou o máximo de páginas).
pub open spec fn proxima_pagina_de(tamanho: nat, lidas: nat) -> Option<nat> {
    if tamanho == PAGINA_DO_CATALOGO && lidas < MAXIMO_DE_PAGINAS {
        Some(lidas)
    } else {
        None
    }
}

/// A página a pedir depois de ler `lidas` páginas, a última com `tamanho`
/// produtos; `None` é o catálogo pronto.
pub fn proxima_pagina(tamanho: usize, lidas: usize) -> (r: Option<usize>)
    ensures
        r == match proxima_pagina_de(tamanho as nat, lidas as nat) {
            Some(p) => Some(p as usize),
            None => None::<usize>,
        },
{
    if tamanho == PAGINA_DO_CATALOGO && lidas < MAXIMO_DE_PAGINAS {
        Some(lidas)
    } else {
        None
    }
}

/// Os pedidos de uma navegação, com o rótulo de cada um: os estúdios e as
/// sessões (só na tela inteira — o painel da galeria não tem lista nem
/// seletor de estúdio), os funcionários, a primeira página do catálogo e,
/// com uma sessão pedida, a galeria e as vendas dela.
pub open spec fn pedidos_de(flutuante: bool, sessao: Option<Seq<u8>>) -> Seq<(Seq<char>, Seq<char>)> {
    let listas: Seq<(Seq<char>, Seq<char>)> = if flutuante {
        Seq::empty()
    } else {
        seq![
            ("estudios"@, "/bookings/studios/admin"@),
            ("galerias"@, "/pos-venda/galerias"@),
        ]
    };
    let sempre = seq![
        ("funcionarios"@, "/pos-venda/funcionarios"@),
        ("catalogo"@, caminho_da_pagina(0)),
    ];
    let da_sessao: Seq<(Seq<char>, Seq<char>)> = match sessao {
        Some(b) => seq![
            ("galeria"@, "/pos-venda/galerias/"@ + codificado(b) + ""@),
            ("vendas"@, "/pos-venda/caixa/galerias/"@ + codificado(b) + "/vendas"@),
        ],
        None => Seq::empty(),
    };
    listas + sempre + da_sessao
}

/// Um pedido visto como caracteres.
pub open spec fn pedido_visto(p: (String, String)) -> (Seq<char>, Seq<char>) {
    (p.0@, p.1@)
}

fn pedido(rotulo: &str, caminho: String) -> (r: (String, String))
    ensures
        r.0@ == rotulo@,
        r.1 == caminho,
{
    (texto_de(&caracteres(rotulo)), caminho)
}

/// O que uma navegação pede ao site, na ordem em que pede.
pub fn pedidos_da_navegacao(flutuante: bool, sessao: Option<&str>) -> (r: Vec<(String, String)>)
    ensures
        r@.map_values(|p: (String, String)| pedido_visto(p)) == pedidos_de(
            flutuante,
            match sessao {
                Some(id) => Some(id.spec_bytes()),
                None => None,
            },
        ),
{
    let mut r: Vec<(String, String)> = Vec::new();
    if !flutuante {
        r.push(pedido("estudios", texto_de(&caracteres("/bookings/studios/admin"))));
        r.push(pedido("galerias", texto_de(&caracteres("/pos-venda/galerias"))));
    }
    r.push(pedido("funcionarios", texto_de(&caracteres("/pos-venda/funcionarios"))));
    r.push(pedido("catalogo", pagina_do_catalogo(0)));
    if let Some(id) = sessao {
        r.push(pedido("galeria", caminho_com_id("/pos-venda/galerias/", id, "")));
        r.push(pedido("vendas", caminho_com_id("/pos-venda/caixa/galerias/", id, "/vendas")));
    }
    assert(r@.map_values(|p: (String, String)| pedido_visto(p)) =~= pedidos_de(
        flutuante,
        match sessao {
            Some(id) => Some(id.spec_bytes()),
            None => None,
        },
    ));
    r
}

/// A observação da negociação como vai no corpo: sem os espaços das pontas,
/// até 500 caracteres, e vazia vai nula.
pub open spec fn observacao_gravada(o: Option<Seq<char>>) -> Option<Seq<char>> {
    match o {
        None => None,
        Some(s) => {
            let a = aparado(s);
            let t = if a.len() <= 500 {
                a
            } else {
                a.take(500)
            };
            if t.len() == 0 {
                None
            } else {
                Some(t)
            }
        },
    }
}

/// A observação que vai no corpo da negociação.
pub fn observacao_da_negociacao(o: Option<String>) -> (r: Option<String>)
    ensures
        r is Some == observacao_gravada(texto_visto(o)) is Some,
        r matches Some(t) ==> observacao_gravada(texto_visto(o)) == Some(t@),
{
    match o {
        None => None,
        Some(s) => {
            let a = aparar(&caracteres(s.as_str()));
            let t = if a.len() <= 500 {
                a
            } else {
                let c = trecho(&a, 0, 500);
                assert(c@ =~= a@.take(500));
                c
            };
            if t.len() == 0 {
                None
            } else {
                Some(texto_de(&t))
            }
        },
    }
}

} // verus!

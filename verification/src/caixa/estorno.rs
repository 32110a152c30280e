//! As fotos de um estorno voltando a "à venda", uma a uma: o estorno é o que
//! precisa acontecer; tirar a sinalização das fotos é o ajuste que o
//! acompanha, e conta à parte o que deu certo e o que ficou.

use vstd::prelude::*;

use crate::texto::{anexar, caracteres, decimal, escrever_decimal, texto_de};

verus! {

/// A volta das fotos estornadas a "à venda".
#[derive(Debug)]
pub struct DesSinalizacao {
    /// O número da venda estornada.
    pub numero: i64,
    /// O valor estornado, em centavos.
    pub valor: i64,
    /// Pedidos no ar.
    pub faltam: usize,
    pub feitas: usize,
    pub falhas: usize,
}

impl DesSinalizacao {
    /// Depois de o estorno gravar: uma gravação por foto, quando a tela tem a
    /// conta do site; sem conta, cada foto é uma falha. Sem tirar a
    /// sinalização (ou sem fotos), nada vai ao ar.
    pub fn comecar(numero: i64, valor: i64, des_sinalizar: bool, fotos: usize, tem_conta: bool) -> (r: DesSinalizacao)
        ensures
            r.numero == numero,
            r.valor == valor,
            r.feitas == 0,
            r.faltam == (if des_sinalizar && tem_conta { fotos } else { 0 }),
            r.falhas == (if des_sinalizar && !tem_conta { fotos } else { 0 }),
    {
        let (faltam, falhas) = if des_sinalizar && tem_conta {
            (fotos, 0)
        } else if des_sinalizar {
            (0, fotos)
        } else {
            (0, 0)
        };
        DesSinalizacao { numero, valor, faltam, feitas: 0, falhas }
    }

    /// Nenhum pedido no ar: o estorno pode dar o recibo.
    pub fn terminou(&self) -> (r: bool)
        ensures
            r == (self.faltam == 0),
    {
        self.faltam == 0
    }

    /// A resposta de uma das fotos. Devolve se era a última no ar.
    pub fn receber(&mut self, deu_certo: bool) -> (r: bool)
        requires
            old(self).feitas < usize::MAX,
            old(self).falhas < usize::MAX,
        ensures
            final(self).numero == old(self).numero,
            final(self).valor == old(self).valor,
            final(self).faltam == (if old(self).faltam > 0 { old(self).faltam - 1 } else { 0 }),
            final(self).feitas == old(self).feitas + (if deu_certo { 1int } else { 0 }),
            final(self).falhas == old(self).falhas + (if deu_certo { 0int } else { 1 }),
            r == (final(self).faltam == 0),
    {
        self.faltam = if self.faltam > 0 { self.faltam - 1 } else { 0 };
        if deu_certo {
            self.feitas = self.feitas + 1;
        } else {
            self.falhas = self.falhas + 1;
        }
        self.faltam == 0
    }
}

/// O fim do recibo do estorno: quantas fotos voltaram, ou que elas voltam ao
/// cupom quando não se tirou a sinalização.
pub open spec fn fim_do_recibo(des_sinalizou: bool, feitas: nat) -> Seq<char> {
    if des_sinalizou {
        " · "@ + decimal(feitas) + " foto(s) de volta a “à venda”"@
    } else {
        " · as fotos voltam ao cupom"@
    }
}

pub fn escrever_fim_do_recibo(des_sinalizou: bool, feitas: usize) -> (r: String)
    ensures
        r@ == fim_do_recibo(des_sinalizou, feitas as nat),
{
    if des_sinalizou {
        let mut t = caracteres(" · ");
        anexar(&mut t, &escrever_decimal(feitas as u64));
        anexar(&mut t, &caracteres(" foto(s) de volta a “à venda”"));
        texto_de(&t)
    } else {
        texto_de(&caracteres(" · as fotos voltam ao cupom"))
    }
}

/// O aviso das fotos que continuam sinalizadas, quando alguma ficou.
pub open spec fn aviso_das_que_ficaram(falhas: nat) -> Option<Seq<char>> {
    if falhas > 0 {
        Some(decimal(falhas) + " foto(s) continuam sinalizadas: tire a sinalização (P) na grade."@)
    } else {
        None
    }
}

pub fn escrever_aviso_das_que_ficaram(falhas: usize) -> (r: Option<String>)
    ensures
        r is Some == aviso_das_que_ficaram(falhas as nat) is Some,
        r matches Some(t) ==> aviso_das_que_ficaram(falhas as nat) == Some(t@),
{
    if falhas > 0 {
        let mut t = escrever_decimal(falhas as u64);
        anexar(&mut t, &caracteres(" foto(s) continuam sinalizadas: tire a sinalização (P) na grade."));
        Some(texto_de(&t))
    } else {
        None
    }
}

} // verus!

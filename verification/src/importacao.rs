//! O placar de um gesto no estresse da importação: quantas vezes deu certo,
//! quantas falhou, e a frase do último erro.

use vstd::prelude::*;

verus! {

/// Um contador por gesto (gravar nota, sinalizar, mostrar ao cliente…).
///
/// Os contadores dão a volta ao passar do máximo, como um `fetch_add`.
#[derive(Debug)]
pub struct Conta {
    pub ok: usize,
    pub erro: usize,
    pub ultimo: Option<String>,
}

impl Default for Conta {
    fn default() -> (r: Self)
        ensures
            r.ok == 0,
            r.erro == 0,
            r.ultimo is None,
    {
        Conta { ok: 0, erro: 0, ultimo: None }
    }
}

/// Um a mais, dando a volta no máximo.
pub open spec fn mais_um(n: usize) -> usize {
    if n == usize::MAX {
        0
    } else {
        (n + 1) as usize
    }
}

impl Conta {
    /// Conta o desfecho de uma tentativa; o erro deixa a sua frase.
    pub fn anotar<T>(&mut self, r: Result<T, String>)
        ensures
            r is Ok ==> {
                &&& final(self).ok == mais_um(old(self).ok)
                &&& final(self).erro == old(self).erro
                &&& final(self).ultimo == old(self).ultimo
            },
            r matches Err(e) ==> {
                &&& final(self).erro == mais_um(old(self).erro)
                &&& final(self).ok == old(self).ok
                &&& final(self).ultimo == Some(e)
            },
    {
        match r {
            Ok(_) => {
                self.ok = self.ok.wrapping_add(1);
            },
            Err(e) => {
                self.ultimo = Some(e);
                self.erro = self.erro.wrapping_add(1);
            },
        }
    }
}

} // verus!

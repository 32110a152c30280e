//! Coleções: o ensaio de um cliente, e o que a grade mostra dele.
//!
//! Aqui fica a regra — qual coleção está aberta e quais fotos passam por ela;
//! quem busca a lista e os ids no banco é a tela.

use vstd::prelude::*;

use crate::texto::iguais;
use crate::texto::{caracteres, vistas};

verus! {

/// Uma coleção da lista lateral.
#[derive(Debug, Clone, PartialEq, Eq)]
pub struct Colecao {
    pub id: String,
    pub name: String,
    pub photo_count: usize,
}

/// O que a Biblioteca sabe sobre coleções — sem tela.
pub struct Estado {
    pub lista: Vec<Colecao>,
    /// A coleção aberta. `None` é "todas as fotos", que é o estado normal.
    pub aberta: Option<String>,
    /// Os ids da coleção aberta, cada um uma vez (ver [`Estado::bem_formado`]).
    pub ids: Vec<String>,
    pub aviso: Option<String>,
}

/// O primeiro lugar da lista com este id, a partir de `k`.
pub open spec fn primeira_com_id_desde(lista: Seq<Colecao>, id: Seq<char>, k: int) -> Option<int>
    decreases lista.len() - k,
{
    if k < 0 || k >= lista.len() {
        None
    } else if lista[k].id@ == id {
        Some(k)
    } else {
        primeira_com_id_desde(lista, id, k + 1)
    }
}

/// O primeiro lugar da lista com este id.
pub open spec fn primeira_com_id(lista: Seq<Colecao>, id: Seq<char>) -> Option<int> {
    primeira_com_id_desde(lista, id, 0)
}

impl Default for Estado {
    /// Nenhuma coleção aberta e a lista vazia.
    fn default() -> (r: Estado)
        ensures
            r.bem_formado(),
            r.aberta_vista() is None,
            r.conjunto() == Set::<Seq<char>>::empty(),
            r.lista@.len() == 0,
            r.aviso is None,
    {
        let r = Estado { lista: Vec::new(), aberta: None, ids: Vec::new(), aviso: None };
        assert(vistas(r.ids@).to_set() =~= Set::<Seq<char>>::empty());
        r
    }
}

impl Estado {
    /// Os ids da coleção aberta, como conjunto.
    pub open spec fn conjunto(&self) -> Set<Seq<char>> {
        vistas(self.ids@).to_set()
    }

    /// A coleção aberta, como caracteres.
    pub open spec fn aberta_vista(&self) -> Option<Seq<char>> {
        match self.aberta {
            Some(a) => Some(a@),
            None => None,
        }
    }

    /// Cada id guardado uma vez só.
    pub open spec fn bem_formado(&self) -> bool {
        vistas(self.ids@).no_duplicates()
    }

    pub fn aberta(&self) -> (r: Option<&str>)
        ensures
            r matches Some(a) ==> self.aberta_vista() == Some(a@),
            r is None ==> self.aberta_vista() is None,
    {
        match &self.aberta {
            Some(a) => Some(a.as_str()),
            None => None,
        }
    }

    /// O nome da coleção aberta, para a tela poder dizer o que está mostrando.
    pub fn nome_da_aberta(&self) -> (r: Option<&str>)
        ensures
            r matches Some(n) ==> self.aberta_vista() matches Some(a) && primeira_com_id(
                self.lista@,
                a,
            ) matches Some(i) && n@ == self.lista@[i].name@,
            r is None ==> self.aberta_vista() is None || (self.aberta_vista() matches Some(a)
                && primeira_com_id(self.lista@, a) is None),
    {
        let id = match &self.aberta {
            Some(a) => caracteres(a.as_str()),
            None => return None,
        };
        let mut i: usize = 0;
        while i < self.lista.len()
            invariant
                i <= self.lista@.len(),
                self.aberta_vista() == Some(id@),
                primeira_com_id(self.lista@, id@) == primeira_com_id_desde(self.lista@, id@, i as int),
            decreases self.lista@.len() - i,
        {
            if iguais(&caracteres(self.lista[i].id.as_str()), &id) {
                return Some(self.lista[i].name.as_str());
            }
            i += 1;
        }
        None
    }

    /// Esta foto passa pelo filtro de coleção? **Sem coleção aberta, tudo
    /// passa** — e é isso que faz o filtro conviver com os de nota e cor.
    pub fn aceita(&self, id_da_foto: &str) -> (r: bool)
        ensures
            r == (self.aberta_vista() is None || self.conjunto().contains(id_da_foto@)),
    {
        if self.aberta.is_none() {
            return true;
        }
        let alvo = caracteres(id_da_foto);
        let mut i: usize = 0;
        while i < self.ids.len()
            invariant
                i <= self.ids@.len(),
                alvo@ == id_da_foto@,
                forall|j: int| 0 <= j < i ==> self.ids@[j]@ != alvo@,
            decreases self.ids@.len() - i,
        {
            if iguais(&caracteres(self.ids[i].as_str()), &alvo) {
                assert(vistas(self.ids@)[i as int] == alvo@);
                assert(vistas(self.ids@).contains(alvo@));
                assert(vistas(self.ids@).to_set().contains(alvo@));
                return true;
            }
            i += 1;
        }
        proof {
            if vistas(self.ids@).contains(id_da_foto@) {
                let k = choose|k: int| 0 <= k < vistas(self.ids@).len() && vistas(self.ids@)[k]
                    == id_da_foto@;
                assert(self.ids@[k]@ == alvo@);
            }
        }
        false
    }

    /// Abre uma coleção. Devolve `true` quando os ids precisam ser buscados.
    ///
    /// 🔑 **Abrir a mesma que já está aberta fecha.**
    pub fn abrir(&mut self, colecao: &str) -> (r: bool)
        ensures
            final(self).conjunto() == Set::<Seq<char>>::empty(),
            final(self).bem_formado(),
            final(self).lista == old(self).lista,
            final(self).aviso == old(self).aviso,
            old(self).aberta_vista() == Some(colecao@) ==> !r && final(self).aberta_vista() is None,
            old(self).aberta_vista() != Some(colecao@) ==> r && final(self).aberta_vista() == Some(
                colecao@,
            ),
    {
        let mesma = match &self.aberta {
            Some(a) => iguais(&caracteres(a.as_str()), &caracteres(colecao)),
            None => false,
        };
        self.ids = Vec::new();
        assert(vistas(self.ids@).to_set() =~= Set::<Seq<char>>::empty());
        if mesma {
            self.aberta = None;
            false
        } else {
            self.aberta = Some(crate::texto::texto_de(&caracteres(colecao)));
            true
        }
    }

    pub fn fechar(&mut self)
        ensures
            final(self).aberta_vista() is None,
            final(self).conjunto() == Set::<Seq<char>>::empty(),
            final(self).bem_formado(),
            final(self).lista == old(self).lista,
            final(self).aviso == old(self).aviso,
    {
        self.aberta = None;
        self.ids = Vec::new();
        assert(vistas(self.ids@).to_set() =~= Set::<Seq<char>>::empty());
    }

    /// Recebe os ids de uma coleção.
    ///
    /// 🚨 **Descarta a resposta que não é da coleção aberta**: duas buscas em
    /// sequência voltam na ordem que o banco quiser.
    pub fn receber_fotos(&mut self, colecao: &str, ids: Vec<String>) -> (r: bool)
        requires
            old(self).bem_formado(),
        ensures
            r == (old(self).aberta_vista() == Some(colecao@)),
            !r ==> *final(self) == *old(self),
            r ==> final(self).conjunto() == vistas(ids@).to_set() && final(self).aberta_vista()
                == old(self).aberta_vista() && final(self).lista == old(self).lista
                && final(self).aviso == old(self).aviso,
            final(self).bem_formado(),
    {
        let mesma = match &self.aberta {
            Some(a) => iguais(&caracteres(a.as_str()), &caracteres(colecao)),
            None => false,
        };
        if !mesma {
            return false;
        }
        let mut unicos: Vec<String> = Vec::new();
        let mut k: usize = 0;
        while k < ids.len()
            invariant
                k <= ids@.len(),
                vistas(unicos@).no_duplicates(),
                vistas(unicos@).to_set() == vistas(ids@.take(k as int)).to_set(),
            decreases ids@.len() - k,
        {
            let alvo = caracteres(ids[k].as_str());
            let mut j: usize = 0;
            let mut achou = false;
            while j < unicos.len()
                invariant
                    j <= unicos@.len(),
                    !achou ==> forall|m: int| 0 <= m < j ==> unicos@[m]@ != alvo@,
                    achou ==> vistas(unicos@).contains(alvo@),
                decreases unicos@.len() - j,
            {
                if iguais(&caracteres(unicos[j].as_str()), &alvo) {
                    achou = true;
                    assert(vistas(unicos@)[j as int] == alvo@);
                }
                j += 1;
            }
            let ghost antes = vistas(unicos@);
            assert(vistas(ids@.take(k as int + 1)) =~= vistas(ids@.take(k as int)).push(alvo@));
            if !achou {
                unicos.push(crate::texto::texto_de(&alvo));
                assert(vistas(unicos@) =~= antes.push(alvo@));
                assert(!antes.contains(alvo@));
            }
            proof {
                vistas(ids@.take(k as int)).lemma_push_to_set_commute(alvo@);
                if !achou {
                    antes.lemma_push_to_set_commute(alvo@);
                    assert forall|a: int, b: int|
                        0 <= a < vistas(unicos@).len() && 0 <= b < vistas(unicos@).len() && a
                            != b implies vistas(unicos@)[a] != vistas(unicos@)[b] by {
                        if a < antes.len() && b < antes.len() {
                        } else if a == antes.len() {
                            assert(antes[b] != alvo@);
                        } else {
                            assert(antes[a] != alvo@);
                        }
                    }
                } else {
                    assert(antes.to_set().contains(alvo@));
                    assert(antes.to_set().insert(alvo@) =~= antes.to_set());
                }
                assert(vistas(unicos@).to_set() =~= vistas(ids@.take(k as int + 1)).to_set());
            }
            k += 1;
        }
        assert(ids@.take(ids@.len() as int) =~= ids@);
        self.ids = unicos;
        true
    }

    /// Quantos ids distintos a coleção aberta tem.
    pub fn quantas_na_aberta(&self) -> (r: usize)
        requires
            self.bem_formado(),
        ensures
            r == self.conjunto().len(),
    {
        proof {
            vistas(self.ids@).unique_seq_to_set();
        }
        self.ids.len()
    }
}

} // verus!

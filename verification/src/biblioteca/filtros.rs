//! O que a Biblioteca mostra, dado o que foi filtrado.

use vstd::prelude::*;

use super::foto::Foto;
use super::pastas::{diretorio, esta_na_pasta, na_pasta};
use crate::texto::{
    aparado, aparar, caracteres, contem, contem_trecho, em_branco, em_minusculas, minusculas,
    texto_de,
};

verus! {

/// Nota mínima exigida.
///
/// **Mínima, e não exata**: quem filtra por 3 estrelas quer ver as de 4 e 5
/// também.
#[derive(Debug, Clone, Copy, PartialEq, Eq, Structural)]
pub struct NotaMinima(pub u8);

impl Default for NotaMinima {
    fn default() -> (r: Self)
        ensures
            r.0 == 0,
    {
        NotaMinima(0)
    }
}

/// O sinalizador que se quer ver.
#[derive(Debug, Clone, Copy, PartialEq, Eq, Structural)]
pub enum FiltroDeSinalizador {
    Qualquer,
    /// Só as marcadas como boas (`flag = 1`).
    Escolhidas,
    /// Só as rejeitadas (`flag = -1`, e não `2`).
    Rejeitadas,
    /// Só as que não têm sinalizador nenhum (`NULL` na coluna).
    SemSinalizador,
}

impl Default for FiltroDeSinalizador {
    fn default() -> (r: Self)
        ensures
            r == FiltroDeSinalizador::Qualquer,
    {
        FiltroDeSinalizador::Qualquer
    }
}

/// Tudo que a barra de filtros decide.
#[derive(Debug, Clone)]
pub struct Filtros {
    pub nota_minima: NotaMinima,
    pub sinalizador: FiltroDeSinalizador,
    /// Cor exata, como o catálogo guarda (`"Red"`, `"Blue"`…). `None` é "qualquer".
    pub cor: Option<String>,
    /// Trecho do nome do arquivo, sem diferenciar maiúsculas.
    pub busca: String,
    /// Diretório escolhido na árvore lateral. `None` é "todas as pastas".
    pub pasta: Option<String>,
}

/// Os filtros do começo: nada escolhido.
pub open spec fn filtros_zerados(f: Filtros) -> bool {
    &&& f.nota_minima.0 == 0
    &&& f.sinalizador == FiltroDeSinalizador::Qualquer
    &&& f.cor is None
    &&& f.busca@ == Seq::<char>::empty()
    &&& f.pasta is None
}

impl Default for Filtros {
    fn default() -> (r: Self)
        ensures
            filtros_zerados(r),
    {
        Filtros {
            nota_minima: NotaMinima(0),
            sinalizador: FiltroDeSinalizador::Qualquer,
            cor: None,
            busca: String::new(),
            pasta: None,
        }
    }
}

/// A nota como o filtro a lê: negativa conta como zero, e o resto passa por
/// `as u8` (o `rating.max(0) as u8` do filtro).
pub open spec fn nota_para_filtro(nota: i32) -> int {
    (if nota < 0 {
        0
    } else {
        nota as int
    }) % 256
}

pub open spec fn passa_no_sinalizador(filtro: FiltroDeSinalizador, flag: Option<i32>) -> bool {
    match filtro {
        FiltroDeSinalizador::Qualquer => true,
        FiltroDeSinalizador::Escolhidas => flag == Some(1i32),
        FiltroDeSinalizador::Rejeitadas => flag == Some(-1i32),
        FiltroDeSinalizador::SemSinalizador => flag is None,
    }
}

/// O termo da busca: sem os espaços das pontas, em minúsculas. Só espaço
/// é termo vazio.
pub open spec fn termo_da_busca(busca: Seq<char>) -> Seq<char> {
    if aparado(busca).len() == 0 {
        Seq::empty()
    } else {
        minusculas(aparado(busca))
    }
}

/// O nome em minúsculas contém o termo — ou o termo é vazio.
pub open spec fn casa_com_a_busca(nome_minusculo: Seq<char>, termo: Seq<char>) -> bool {
    termo.len() == 0 || contem(nome_minusculo, termo)
}

/// A foto passa por todos os filtros.
pub open spec fn aceita_foto(f: Filtros, foto: Foto) -> bool {
    &&& nota_para_filtro(foto.rating) >= f.nota_minima.0
    &&& passa_no_sinalizador(f.sinalizador, foto.flag)
    &&& (f.cor matches Some(cor) ==> (foto.color_label matches Some(c) && c@ == cor@))
    &&& (f.pasta matches Some(p) ==> esta_na_pasta(foto, p@))
    &&& casa_com_a_busca(minusculas(foto.name@), termo_da_busca(f.busca@))
}

/// Nada foi escolhido na barra.
pub open spec fn sem_filtro(f: Filtros) -> bool {
    &&& f.nota_minima.0 == 0
    &&& f.sinalizador == FiltroDeSinalizador::Qualquer
    &&& f.cor is None
    &&& em_branco(f.busca@)
    &&& f.pasta is None
}

/// As posições, em ordem, das fotos que passam.
pub open spec fn posicoes_aceitas(f: Filtros, fotos: Seq<Foto>) -> Seq<usize>
    decreases fotos.len(),
{
    if fotos.len() == 0 {
        Seq::empty()
    } else {
        let antes = posicoes_aceitas(f, fotos.drop_last());
        if aceita_foto(f, fotos.last()) {
            antes.push((fotos.len() - 1) as usize)
        } else {
            antes
        }
    }
}

/// Depois de passar as letras para minúsculas, procurar o termo no nome.
///
/// É o que sobra da busca quando o `to_lowercase` já foi feito: o termo vazio
/// aceita tudo, e o resto tem de aparecer inteiro em algum ponto do nome.
pub fn casa_a_busca(nome_minusculo: &str, termo: &str) -> (r: bool)
    ensures
        r == casa_com_a_busca(nome_minusculo@, termo@),
{
    let termo = caracteres(termo);
    if termo.len() == 0 {
        return true;
    }
    let nome = caracteres(nome_minusculo);
    contem_trecho(&nome, &termo)
}

/// O termo que a busca procura.
pub fn termo_de(busca: &str) -> (r: String)
    ensures
        r@ == termo_da_busca(busca@),
{
    let aparada = aparar(&caracteres(busca));
    if aparada.len() == 0 {
        return String::new();
    }
    em_minusculas(texto_de(&aparada).as_str())
}

/// Cor exata: a foto tem uma cor, e é esta.
fn mesma_cor(foto: &Option<String>, cor: &str) -> (r: bool)
    ensures
        r == (foto matches Some(c) && c@ == cor@),
{
    match foto {
        Some(c) => crate::texto::iguais(&caracteres(c.as_str()), &caracteres(cor)),
        None => false,
    }
}

impl Filtros {
    /// Se nada foi escolhido, a grade mostra o acervo inteiro — e é isso que
    /// permite pular o trabalho de filtrar.
    pub fn vazio(&self) -> (r: bool)
        ensures
            r == sem_filtro(*self),
    {
        self.nota_minima.0 == 0 && self.sinalizador == FiltroDeSinalizador::Qualquer
            && self.cor.is_none() && aparar(&caracteres(self.busca.as_str())).len() == 0
            && self.pasta.is_none()
    }

    /// Esta foto passa por todos os filtros ao mesmo tempo.
    pub fn aceita(&self, foto: &Foto) -> (r: bool)
        ensures
            r == aceita_foto(*self, *foto),
    {
        let nota: u8 = if foto.rating < 0 {
            0
        } else {
            (foto.rating % 256) as u8
        };
        if nota < self.nota_minima.0 {
            return false;
        }
        let passa_sinalizador = match self.sinalizador {
            FiltroDeSinalizador::Qualquer => true,
            FiltroDeSinalizador::Escolhidas => foto.flag == Some(1i32),
            FiltroDeSinalizador::Rejeitadas => foto.flag == Some(-1i32),
            FiltroDeSinalizador::SemSinalizador => foto.flag.is_none(),
        };
        if !passa_sinalizador {
            return false;
        }
        if let Some(cor) = &self.cor {
            if !mesma_cor(&foto.color_label, cor.as_str()) {
                return false;
            }
        }
        if let Some(pasta) = &self.pasta {
            if !na_pasta(foto, pasta.as_str()) {
                return false;
            }
        }
        let termo = termo_de(self.busca.as_str());
        let nome = em_minusculas(foto.name.as_str());
        casa_a_busca(nome.as_str(), termo.as_str())
    }
}

/// Sem filtro, toda foto passa.
pub proof fn lema_sem_filtro_aceita_tudo(f: Filtros, foto: Foto)
    requires
        sem_filtro(f),
    ensures
        aceita_foto(f, foto),
{
}

/// A nota é mínima, e não exata: a foto que passa com uma nota mínima passa
/// também com qualquer nota mínima menor, com o resto dos filtros igual.
pub proof fn lema_nota_minima_e_minima(f: Filtros, g: Filtros, foto: Foto)
    requires
        aceita_foto(f, foto),
        g.nota_minima.0 <= f.nota_minima.0,
        g.sinalizador == f.sinalizador,
        g.cor == f.cor,
        g.busca == f.busca,
        g.pasta == f.pasta,
    ensures
        aceita_foto(g, foto),
{
}

proof fn lema_sem_filtro_posicoes(f: Filtros, fotos: Seq<Foto>)
    requires
        sem_filtro(f),
        fotos.len() <= usize::MAX,
    ensures
        posicoes_aceitas(f, fotos) == Seq::new(fotos.len(), |i: int| i as usize),
    decreases fotos.len(),
{
    if fotos.len() > 0 {
        lema_sem_filtro_posicoes(f, fotos.drop_last());
        lema_sem_filtro_aceita_tudo(f, fotos.last());
        assert(posicoes_aceitas(f, fotos) =~= Seq::new(fotos.len(), |i: int| i as usize));
    } else {
        assert(posicoes_aceitas(f, fotos) =~= Seq::new(fotos.len(), |i: int| i as usize));
    }
}

/// O que se sabe de cada posição que passa, e de cada uma que não.
pub proof fn lema_posicoes_aceitas(f: Filtros, fotos: Seq<Foto>)
    requires
        fotos.len() <= usize::MAX,
    ensures
        forall|a: int, b: int|
            0 <= a < b < posicoes_aceitas(f, fotos).len() ==> posicoes_aceitas(f, fotos)[a]
                < posicoes_aceitas(f, fotos)[b],
        forall|a: int|
            0 <= a < posicoes_aceitas(f, fotos).len() ==> (posicoes_aceitas(f, fotos)[a] as int)
                < fotos.len() && aceita_foto(f, fotos[posicoes_aceitas(f, fotos)[a] as int]),
        forall|i: int|
            0 <= i < fotos.len() && aceita_foto(f, fotos[i]) ==> posicoes_aceitas(
                f,
                fotos,
            ).contains(i as usize),
        posicoes_aceitas(f, fotos).len() <= fotos.len(),
    decreases fotos.len(),
{
    if fotos.len() > 0 {
        let ini = fotos.drop_last();
        lema_posicoes_aceitas(f, ini);
        let p = posicoes_aceitas(f, ini);
        let q = posicoes_aceitas(f, fotos);
        let n = fotos.len() - 1;
        assert(forall|a: int| 0 <= a < p.len() ==> fotos[p[a] as int] == ini[p[a] as int]);
        if aceita_foto(f, fotos.last()) {
            assert(q == p.push(n as usize));
            assert forall|a: int| 0 <= a < q.len() implies (q[a] as int) < fotos.len()
                && aceita_foto(f, fotos[q[a] as int]) by {
                if a < p.len() {
                    assert(q[a] == p[a]);
                }
            }
            assert forall|a: int, b: int| 0 <= a < b < q.len() implies q[a] < q[b] by {
                if b < p.len() {
                    assert(q[a] == p[a] && q[b] == p[b]);
                } else {
                    assert(q[a] == p[a]);
                }
            }
        } else {
            assert(q == p);
        }
        assert forall|i: int| 0 <= i < fotos.len() && aceita_foto(f, fotos[i]) implies q.contains(
            i as usize,
        ) by {
            if i < n {
                assert(ini[i] == fotos[i]);
                let w = choose|w: int| 0 <= w < p.len() && p[w] == i as usize;
                if aceita_foto(f, fotos.last()) {
                    assert(q[w] == i as usize);
                } else {
                    assert(q[w] == i as usize);
                }
            } else {
                assert(q[q.len() - 1] == i as usize);
            }
        }
    }
}

/// Os índices das fotos que passam — e **não** as fotos.
///
/// A grade guarda o acervo inteiro e pede linhas por índice: devolver índices
/// não copia nenhuma foto, e cada um aponta para a foto no próprio acervo.
pub fn indices_visiveis(fotos: &[Foto], filtros: &Filtros) -> (r: Vec<usize>)
    ensures
        r@ == posicoes_aceitas(*filtros, fotos@),
{
    let mut r: Vec<usize> = Vec::new();
    if filtros.vazio() {
        let mut i: usize = 0;
        while i < fotos.len()
            invariant
                i <= fotos@.len(),
                r@ == Seq::new(i as nat, |k: int| k as usize),
            decreases fotos@.len() - i,
        {
            r.push(i);
            assert(r@ =~= Seq::new((i + 1) as nat, |k: int| k as usize));
            i += 1;
        }
        proof {
            lema_sem_filtro_posicoes(*filtros, fotos@);
        }
        assert(r@ =~= posicoes_aceitas(*filtros, fotos@));
        return r;
    }
    let mut i: usize = 0;
    while i < fotos.len()
        invariant
            i <= fotos@.len(),
            r@ == posicoes_aceitas(*filtros, fotos@.take(i as int)),
        decreases fotos@.len() - i,
    {
        assert(fotos@.take(i as int + 1).drop_last() =~= fotos@.take(i as int));
        if filtros.aceita(&fotos[i]) {
            r.push(i);
        }
        i += 1;
    }
    assert(fotos@.take(fotos@.len() as int) =~= fotos@);
    r
}

} // verus!

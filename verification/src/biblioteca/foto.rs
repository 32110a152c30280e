//! Uma foto do catálogo, com o que a Biblioteca lê e escreve dela.

use vstd::prelude::*;

verus! {

/// Uma foto do acervo.
///
/// São os campos que a grade, os filtros, as estatísticas e as marcações
/// usam; o resto do catálogo fica com quem o lê do banco.
#[derive(Debug)]
pub struct Foto {
    pub id: String,
    /// O nome do arquivo — o que a busca procura.
    pub name: String,
    /// O caminho completo, como está no banco.
    pub path: String,
    pub date: String,
    pub camera: String,
    pub exposure: String,
    /// A nota, como o banco guarda: `i32`, e nada impede um `-1` ou um `7`.
    pub rating: i32,
    /// A cor, em texto livre (`"Red"`, `"red"`…). `None` é sem cor.
    pub color_label: Option<String>,
    /// `1` escolhida, `-1` rejeitada, `0` sem marca; `None` é `NULL`.
    pub flag: Option<i32>,
}

/// Uma cópia do texto opcional.
pub fn copiar_opcional(o: &Option<String>) -> (r: Option<String>)
    ensures
        r == *o,
{
    match o {
        Some(s) => Some(s.clone()),
        None => None,
    }
}

impl Foto {
    /// Uma cópia da foto, campo a campo.
    pub fn copiar(&self) -> (r: Foto)
        ensures
            r == *self,
    {
        Foto {
            id: self.id.clone(),
            name: self.name.clone(),
            path: self.path.clone(),
            date: self.date.clone(),
            camera: self.camera.clone(),
            exposure: self.exposure.clone(),
            rating: self.rating,
            color_label: copiar_opcional(&self.color_label),
            flag: self.flag,
        }
    }
}

} // verus!

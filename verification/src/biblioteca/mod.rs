//! A Biblioteca: o acervo, os filtros, as pastas, as marcações e a seleção.

pub mod colecoes;
pub mod foto;
pub mod informacoes;
pub mod marcacao;
pub mod paineis;
pub mod filtros;
pub mod pastas;
pub mod tela;

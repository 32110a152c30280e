//! A biblioteca de fotos e o caixa do balcão, sem tela.
//!
//! O que decide o que a grade mostra, o que cada tecla de triagem grava e o
//! que o caixa lê e escreve — a parte que se confere sem abrir janela.

pub mod biblioteca;
pub mod texto;
pub mod caixa;
pub mod importacao;

//! O caixa do balcão: o que a tela do caixa e o painel da galeria decidem,
//! sem o desenho e sem a rede.

pub mod caminhos;
pub mod carga;
pub mod dados;
pub mod estorno;
pub mod gravacao;
pub mod lote;
pub mod painel;
pub mod teclado;

# ui_gpui

A biblioteca de fotos e o caixa do balcão sem a tela: o que decide o que a
grade mostra, o que cada tecla de triagem grava, o que o caixa lê da API e
escreve de volta, e o que cada tecla do painel do caixa faz. Tudo em `src/` é
verificado pelo Verus; cada função pública diz no contrato o que devolve.

## Organização

- `src/texto.rs` — texto como sequência de caracteres: aparar, procurar,
  partir na primeira ocorrência, comparar sem caixa, ler e escrever números.
- `src/biblioteca/` — o acervo e a Biblioteca:
  - `foto.rs`, `filtros.rs`, `pastas.rs`, `informacoes.rs` — o que passa nos
    filtros, a árvore de pastas e as contas do painel de informações;
  - `marcacao.rs` — nota, cor e sinalizador, e as regras de alternância;
  - `colecoes.rs` — a coleção aberta e a resposta atrasada que se descarta;
  - `paineis.rs` — os nomes que o arranjo gravado guarda;
  - `tela.rs` — o estado da Biblioteca: a grade filtrada, a seleção
    (clique, `Cmd`, `Shift`, `Cmd+A`, setas) e as marcações em grupo.
- `src/caixa/` — o caixa do balcão:
  - `dados.rs` — dinheiro em centavos, a hora do estúdio, a frase de erro,
    estúdios, funcionários, sessões e faixas de preço;
  - `caminhos.rs` — os caminhos pedidos ao site e o corpo da negociação;
  - `carga.rs` — quando uma navegação está pronta e os avisos da vista;
  - `lote.rs` — a gravação em lote, no máximo quatro no ar;
  - `estorno.rs` — as fotos do estorno voltando a "à venda";
  - `gravacao.rs` — a resposta de cada gravação da tela do caixa: avisos, diálogo, recarga e o que o estorno pede depois de si;
  - `painel.rs`, `teclado.rs` — o painel da galeria e o que cada tecla faz.
- `src/importacao.rs` — o placar de cada gesto no estresse da importação.
- `app/` — o que não se verifica: o JSON lido com serde, a posição do painel
  em ponto flutuante e o placar impresso.
- `tests/` — os cenários, com os valores esperados.

# Jabuti

Núcleo de proteção criptográfica local e *crypto-shredding*: cada registro é
cifrado com AES-256-GCM sob uma chave própria, guardada num cofre; apagar o
registro é destruir a sua chave.

## Organização

- `src/` — a biblioteca, verificada com Verus:
  - `servico.rs`: `Jabuti` (`proteger`, `abrir`, `verificar_integridade`,
    `destruir`) com os seus contratos; os de `abrir` e
    `verificar_integridade` fixam o resultado, e os de `proteger` e
    `destruir` dizem o que vale em cada desfecho quando o relógio, o gerador
    aleatório ou o cofre decidem, e `proteger_com`, `destruir_em` e
    `comprovante_destruicao` recebem essas leituras e fixam o resultado;
  - `cofre.rs`: o contrato `CofreDeChaves`, com o estado do cofre descrito por
    funções de especificação (um cofre escrito fora do Verus não é conferido
    contra ele);
  - `memoria.rs`: `CofreMemoria`, cofre em RAM verificado contra esse contrato;
  - `autoteste.rs`: o autoteste do núcleo e o de um cofre, com o veredito
    amarrado à sequência de estados e respostas de cada passo;
  - `aad.rs`: o documento JSON autenticado junto com o ciphertext, e a prova
    de que dois AAD iguais vêm dos mesmos metadados;
  - `json.rs`: o literal de string JSON e o fato de que ele se delimita sozinho;
  - `aead.rs`: cifragem AES-256-GCM com nonce aleatório;
  - `sistema.rs`: regras do cofre nativo (nomes de entrada, codificação da
    chave, interpretação das respostas do keyring);
  - `tipos.rs`, `erro.rs`, `configuracao.rs`, `texto.rs`, `inspecao.rs`;
  - `leis.rs`: propriedades entre operações (abrir devolve o protegido,
    destruição idempotente e autenticada, chaves distintas, rollback);
  - `primitivas.rs`: as chamadas a aes-gcm, sha2, base64, serde_json, uuid,
    rand_core e zeroize, e ao relógio do sistema, com o que se supõe de cada
    uma; o plaintext devolvido e o material de chave em memória ficam em
    `Zeroizing`.
- `app/` — a CLI (que imprime o veredito dos autotestes), o cofre do sistema sobre o keyring nativo e as
  formas serializáveis dos tipos.
- `tests/` — testes de integração.

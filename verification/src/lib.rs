//! Jabuti: proteção criptográfica local e crypto-shredding.
//!
//! ```text
//! plaintext -> RAM -> AEAD -> ciphertext -> persistência
//!
//! DELETE:
//!   autenticar registro -> destruir chave -> apagar ciphertext lógico
//!   -> limpar caches/índices/previews -> propagar tombstone
//! ```
//!
//! O núcleo não conhece rede, banco ou UI. A guarda das chaves é delegada a
//! [`CofreDeChaves`].

pub mod aad;
pub mod aead;
pub mod autoteste;
pub mod cofre;
pub mod configuracao;
pub mod erro;
pub mod inspecao;
pub mod json;
pub mod leis;
pub mod memoria;
pub mod primitivas;
pub mod servico;
pub mod sistema;
pub mod texto;
pub mod tipos;

pub use cofre::CofreDeChaves;
pub use configuracao::ConfiguracaoJabuti;
pub use erro::{ErroJabuti, Resultado};
pub use memoria::CofreMemoria;
pub use primitivas::BytesProtegidos;
pub use servico::Jabuti;
pub use tipos::{
    CategoriaRegistro, ComprovanteDestruicao, EstadoIntegridade, IdChave, MomentoUtc, NivelProtecao,
    PacoteCifrado, RegistroCifrado,
};

//! Chamadas às bibliotecas criptográficas e de codificação, com o que o
//! Jabuti supõe de cada uma. Nada aqui é provado: cada contrato descreve o
//! comportamento que o código-fonte da biblioteca chamada mostra.
use vstd::prelude::*;

use aes_gcm::aead::{Aead, KeyInit, Payload};
use aes_gcm::{Aes256Gcm, Key, Nonce};
use base64::engine::general_purpose::STANDARD;
use base64::Engine;
use rand_core::{OsRng, RngCore};
use sha2::{Digest, Sha256};
use std::time::{SystemTime, UNIX_EPOCH};
use zeroize::Zeroizing;

use crate::json::json_texto;
use crate::texto::hex_minusculo;

verus! {

/// Maior plaintext (e maior AAD) que o AES-GCM aceita, em bytes (2^36).
pub open spec fn limite_aes_gcm() -> int {
    0x10_0000_0000
}

/// Ciphertext (com a tag de 16 bytes ao final) que o AES-256-GCM produz.
pub uninterp spec fn aes256gcm_cifra(chave: Seq<u8>, nonce: Seq<u8>, msg: Seq<u8>, aad: Seq<u8>) -> Seq<u8>;

/// Plaintext que o AES-256-GCM recupera, ou `None` quando a autenticação falha.
pub uninterp spec fn aes256gcm_decifra(chave: Seq<u8>, nonce: Seq<u8>, cifrado: Seq<u8>, aad: Seq<u8>) -> Option<Seq<u8>>;

/// Resumo SHA-256.
pub uninterp spec fn sha256_spec(dados: Seq<u8>) -> Seq<u8>;

/// Base64 no alfabeto padrão, com preenchimento `=`.
pub uninterp spec fn base64_codifica(dados: Seq<u8>) -> Seq<char>;

/// Decodificação Base64 no alfabeto padrão; `None` para texto inválido.
pub uninterp spec fn base64_decodifica(texto: Seq<char>) -> Option<Seq<u8>>;

/// Os 16 bytes de um UUID com a versão 4 (nibble alto do byte 6) e a
/// variante RFC 4122 (dois bits altos do byte 8, `10`) gravadas.
pub open spec fn bytes_uuid_v4(b: Seq<u8>) -> Seq<u8> {
    b.update(6, (b[6] % 16 + 0x40) as u8).update(8, (b[8] % 64 + 0x80) as u8)
}

/// Texto de um UUID versão 4 montado a partir de 16 bytes aleatórios:
/// hexadecimal minúsculo nos grupos 8-4-4-4-12, separados por hífens.
pub open spec fn uuid_v4_texto(bytes: Seq<u8>) -> Seq<char> {
    let h = hex_minusculo(bytes_uuid_v4(bytes));
    h.subrange(0, 8) + seq!['-'] + h.subrange(8, 12) + seq!['-'] + h.subrange(12, 16) + seq!['-']
        + h.subrange(16, 20) + seq!['-'] + h.subrange(20, 32)
}

#[verifier::external_type_specification]
#[verifier::external_body]
pub struct ExErroJson(serde_json::Error);

#[verifier::external_type_specification]
#[verifier::external_body]
pub struct ExInstante(SystemTime);

/// Bytes guardados num `Zeroizing<Vec<u8>>` (zeroize), que os zera quando o
/// valor é descartado. O Verus não aceita declarar o próprio `Zeroizing`,
/// cujo parâmetro tem por limite o trait `Zeroize`, e por isso o invólucro
/// fica num campo privado, visto só pelos bytes que guarda.
#[verifier::external_body]
pub struct BytesProtegidos {
    conteudo: Zeroizing<Vec<u8>>,
}

/// Bytes guardados num [`BytesProtegidos`].
pub uninterp spec fn bytes_protegidos(z: BytesProtegidos) -> Seq<u8>;

/// `Aes256Gcm::encrypt` (aes-gcm), com a tag de 16 bytes anexada ao ciphertext.
/// Falha só quando o plaintext ou o AAD passam de 2^36 bytes; o ciphertext
/// tem 16 bytes a mais que o plaintext, e decifrá-lo com a mesma chave, nonce
/// e AAD devolve o plaintext.
#[verifier::external_body]
pub(crate) fn aes256gcm_cifrar(chave: &[u8], nonce: &[u8], msg: &[u8], aad: &[u8]) -> (r: Option<Vec<u8>>)
    requires
        chave@.len() == 32,
        nonce@.len() == 12,
    ensures
        r is Some <==> (msg@.len() <= limite_aes_gcm() && aad@.len() <= limite_aes_gcm()),
        r matches Some(c) ==> {
            &&& c@ == aes256gcm_cifra(chave@, nonce@, msg@, aad@)
            &&& c@.len() == msg@.len() + 16
            &&& aes256gcm_decifra(chave@, nonce@, c@, aad@) == Some(msg@)
        },
{
    let cifra = Aes256Gcm::new(Key::<Aes256Gcm>::from_slice(chave));
    match cifra.encrypt(Nonce::from_slice(nonce), Payload { msg, aad }) {
        Ok(c) => Some(c),
        Err(_) => None,
    }
}

/// `Aes256Gcm::decrypt` (aes-gcm): autentica e decifra; o plaintext tem 16
/// bytes a menos que o ciphertext.
#[verifier::external_body]
pub(crate) fn aes256gcm_decifrar(chave: &[u8], nonce: &[u8], cifrado: &[u8], aad: &[u8]) -> (r: Option<Vec<u8>>)
    requires
        chave@.len() == 32,
        nonce@.len() == 12,
    ensures
        match r {
            Some(p) => aes256gcm_decifra(chave@, nonce@, cifrado@, aad@) == Some(p@),
            None => aes256gcm_decifra(chave@, nonce@, cifrado@, aad@) is None,
        },
        r matches Some(p) ==> p@.len() + 16 == cifrado@.len(),
{
    let cifra = Aes256Gcm::new(Key::<Aes256Gcm>::from_slice(chave));
    match cifra.decrypt(Nonce::from_slice(nonce), Payload { msg: cifrado, aad }) {
        Ok(p) => Some(p),
        Err(_) => None,
    }
}

/// `OsRng::try_fill_bytes` (rand_core): `n` bytes do gerador do sistema
/// operacional, ou `None` quando o gerador falha. Nada se diz dos valores.
#[verifier::external_body]
pub(crate) fn bytes_aleatorios(n: usize) -> (r: Option<Vec<u8>>)
    ensures
        r matches Some(v) ==> v@.len() == n,
{
    let mut v = vec![0u8; n];
    match OsRng.try_fill_bytes(&mut v) {
        Ok(()) => Some(v),
        Err(_) => None,
    }
}

/// `Sha256::digest` (sha2): resumo de 32 bytes.
#[verifier::external_body]
pub(crate) fn sha256(dados: &[u8]) -> (r: Vec<u8>)
    ensures
        r@ == sha256_spec(dados@),
        r@.len() == 32,
{
    Sha256::digest(dados).to_vec()
}

/// `STANDARD.encode` (base64). Decodificar o resultado devolve os bytes.
#[verifier::external_body]
pub(crate) fn base64_codificar(dados: &[u8]) -> (r: String)
    requires
        dados@.len() / 3 * 4 + 4 <= usize::MAX,
    ensures
        r@ == base64_codifica(dados@),
        base64_decodifica(r@) == Some(dados@),
{
    STANDARD.encode(dados)
}

/// `STANDARD.decode` (base64) sobre os bytes UTF-8 do texto.
#[verifier::external_body]
pub(crate) fn base64_decodificar(texto: &str) -> (r: Option<Vec<u8>>)
    ensures
        match r {
            Some(v) => base64_decodifica(texto@) == Some(v@),
            None => base64_decodifica(texto@) is None,
        },
{
    match STANDARD.decode(texto.as_bytes()) {
        Ok(v) => Some(v),
        Err(_) => None,
    }
}

/// `serde_json::to_string` sobre um `str`: o literal entre aspas, com o
/// escape que `format_escaped_str` aplica (aspas, barra invertida e
/// controles abaixo de 0x20; o resto sem mudança). Serializar um texto só
/// escreve num `Vec<u8>` em memória, o que não falha, e o resultado é
/// sempre `Ok`.
#[verifier::external_body]
pub(crate) fn texto_json(s: &str) -> (r: Result<String, serde_json::Error>)
    ensures
        r is Ok,
        r matches Ok(t) ==> t@ == json_texto(s@),
{
    serde_json::to_string(s)
}

/// `uuid::Builder::from_random_bytes` seguido de `to_string`: grava a
/// versão 4 e a variante RFC 4122 nos bytes e escreve o UUID hifenizado em
/// hexadecimal minúsculo.
#[verifier::external_body]
pub(crate) fn texto_uuid_v4(bytes: &[u8]) -> (r: String)
    requires
        bytes@.len() == 16,
    ensures
        r@ == uuid_v4_texto(bytes@),
{
    let mut b = [0u8; 16];
    b.copy_from_slice(bytes);
    uuid::Builder::from_random_bytes(b).into_uuid().to_string()
}

/// `SystemTime::now` (std): o instante do relógio do sistema. Nada se diz
/// do valor, que depende do relógio.
#[verifier::external_body]
pub(crate) fn instante_atual() -> (r: SystemTime) {
    SystemTime::now()
}

/// `SystemTime::duration_since(UNIX_EPOCH)` (std), lida como segundos e
/// nanossegundos. `None` quando o instante é anterior à época Unix; os
/// nanossegundos de uma `Duration` ficam sempre abaixo de um bilhão.
#[verifier::external_body]
pub(crate) fn duracao_desde_epoca(t: &SystemTime) -> (r: Option<(u64, u32)>)
    ensures
        r matches Some(d) ==> d.1 < 1_000_000_000,
{
    match t.duration_since(UNIX_EPOCH) {
        Ok(d) => Some((d.as_secs(), d.subsec_nanos())),
        Err(_) => None,
    }
}

/// `Zeroizing::new` (zeroize): guarda o vetor num invólucro que zera os
/// bytes ao ser descartado. O conteúdo é o vetor recebido.
#[verifier::external_body]
pub(crate) fn proteger_bytes(v: Vec<u8>) -> (r: BytesProtegidos)
    ensures
        bytes_protegidos(r) == v@,
{
    BytesProtegidos { conteudo: Zeroizing::new(v) }
}

impl BytesProtegidos {
    /// `Deref` de `Zeroizing<Vec<u8>>` (zeroize): os bytes guardados.
    #[verifier::external_body]
    pub fn como_bytes(&self) -> (r: &[u8])
        ensures
            r@ == bytes_protegidos(*self),
    {
        self.conteudo.as_slice()
    }
}

} // verus!

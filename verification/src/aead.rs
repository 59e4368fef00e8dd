//! Cifragem AES-256-GCM com uma chave de 32 bytes, comum aos cofres.
use vstd::prelude::*;

use crate::cofre::vista_protegida;
use crate::erro::{ErroJabuti, Resultado, VistaErro};
use crate::primitivas::{aes256gcm_cifra, aes256gcm_cifrar, aes256gcm_decifra, aes256gcm_decifrar, bytes_aleatorios, limite_aes_gcm, proteger_bytes, BytesProtegidos};
use crate::tipos::PacoteCifrado;

verus! {

pub open spec fn msg_nonce_invalido() -> Seq<char> {
    "nonce AES-GCM deve possuir 12 bytes"@
}

/// Resposta de uma decifragem AES-256-GCM de um pacote.
pub open spec fn resultado_decifrar_gcm(chave: Seq<u8>, nonce: Seq<u8>, cifrado: Seq<u8>, aad: Seq<u8>) -> Result<Seq<u8>, VistaErro> {
    if nonce.len() != 12 {
        Err(VistaErro::RegistroInvalido(msg_nonce_invalido()))
    } else {
        match aes256gcm_decifra(chave, nonce, cifrado, aad) {
            Some(p) => Ok(p),
            None => Err(VistaErro::FalhaDecifragem),
        }
    }
}

/// Recusa um pacote cujo nonce não tem os 12 bytes do AES-GCM.
pub fn exigir_nonce_gcm(pacote: &PacoteCifrado) -> (r: Resultado<()>)
    ensures
        r is Ok <==> pacote.nonce@.len() == 12,
        r matches Err(e) ==> e@ == VistaErro::RegistroInvalido(msg_nonce_invalido()),
{
    if pacote.nonce.len() != 12 {
        Err(ErroJabuti::RegistroInvalido(String::from_str("nonce AES-GCM deve possuir 12 bytes")))
    } else {
        Ok(())
    }
}

/// Cifra sob o nonce dado. Falha (`FalhaCifragem`) quando não há nonce
/// (o gerador falhou), quando ele não tem os 12 bytes do AES-GCM, ou quando
/// o plaintext ou o AAD excedem o limite do AES-GCM.
pub fn cifrar_com_nonce(chave: &[u8], nonce: Option<Vec<u8>>, plaintext: &[u8], aad: &[u8]) -> (r: Resultado<PacoteCifrado>)
    requires
        chave@.len() == 32,
    ensures
        r is Ok <==> (nonce matches Some(n) && n@.len() == 12 && plaintext@.len() <= limite_aes_gcm()
            && aad@.len() <= limite_aes_gcm()),
        r matches Ok(p) ==> {
            &&& p.nonce@ == nonce.unwrap()@
            &&& p.conteudo_cifrado@ == aes256gcm_cifra(chave@, p.nonce@, plaintext@, aad@)
            &&& p.conteudo_cifrado@.len() == plaintext@.len() + 16
            &&& aes256gcm_decifra(chave@, p.nonce@, p.conteudo_cifrado@, aad@) == Some(plaintext@)
        },
        r matches Err(e) ==> e@ == VistaErro::FalhaCifragem,
{
    let nonce = match nonce {
        Some(n) => n,
        None => return Err(ErroJabuti::FalhaCifragem),
    };
    if nonce.len() != 12 {
        return Err(ErroJabuti::FalhaCifragem);
    }
    match aes256gcm_cifrar(chave, nonce.as_slice(), plaintext, aad) {
        Some(conteudo_cifrado) => Ok(PacoteCifrado { nonce, conteudo_cifrado }),
        None => Err(ErroJabuti::FalhaCifragem),
    }
}

/// Cifra com nonce aleatório de 96 bits. Falha (`FalhaCifragem`) quando o
/// gerador do sistema falha ou o plaintext/AAD excede o limite do AES-GCM.
pub fn cifrar_aes256gcm(chave: &[u8], plaintext: &[u8], aad: &[u8]) -> (r: Resultado<PacoteCifrado>)
    requires
        chave@.len() == 32,
    ensures
        r matches Ok(p) ==> {
            &&& p.nonce@.len() == 12
            &&& p.conteudo_cifrado@ == aes256gcm_cifra(chave@, p.nonce@, plaintext@, aad@)
            &&& p.conteudo_cifrado@.len() == plaintext@.len() + 16
            &&& aes256gcm_decifra(chave@, p.nonce@, p.conteudo_cifrado@, aad@) == Some(plaintext@)
        },
        r matches Err(e) ==> e@ == VistaErro::FalhaCifragem,
        plaintext@.len() > limite_aes_gcm() || aad@.len() > limite_aes_gcm() ==> r is Err,
{
    cifrar_com_nonce(chave, bytes_aleatorios(12), plaintext, aad)
}

/// Autentica e decifra um pacote; o plaintext volta num `Zeroizing`.
pub fn decifrar_aes256gcm(chave: &[u8], pacote: &PacoteCifrado, aad: &[u8]) -> (r: Resultado<BytesProtegidos>)
    requires
        chave@.len() == 32,
    ensures
        vista_protegida(r) == resultado_decifrar_gcm(chave@, pacote.nonce@, pacote.conteudo_cifrado@, aad@),
{
    exigir_nonce_gcm(pacote)?;
    match aes256gcm_decifrar(chave, pacote.nonce.as_slice(), pacote.conteudo_cifrado.as_slice(), aad) {
        Some(p) => Ok(proteger_bytes(p)),
        None => Err(ErroJabuti::FalhaDecifragem),
    }
}

} // verus!

//! Regras do cofre persistente no armazenamento seguro nativo do sistema
//! operacional: nomes de entrada, codificação da chave guardada e as decisões
//! tomadas a partir das respostas do keyring. O acesso ao keyring em si é
//! E/S e fica com a aplicação.
use vstd::prelude::*;

use vstd::utf8::encode_utf8;
use crate::cofre::vista_protegida;
use crate::erro::{ErroJabuti, Resultado, VistaErro};
use crate::memoria::msg_gerador_indisponivel;
use crate::primitivas::{base64_codifica, base64_codificar, base64_decodifica, base64_decodificar, bytes_aleatorios, bytes_protegidos, proteger_bytes, sha256, sha256_spec, BytesProtegidos};
use crate::texto::{anexar_bytes, hex_minusculo, lema_hex_comprimento, so_espacos, texto_hex, vazio_apos_aparar};
use crate::tipos::IdChave;

verus! {

/// Tamanho da chave AES-256 guardada no keyring, em bytes.
pub const TAMANHO_CHAVE: usize = 32;

/// Resposta de erro do keyring nativo, reduzida ao que as regras distinguem:
/// a entrada não existe, ou outra falha com o seu texto.
#[derive(Debug, Clone, PartialEq, Eq)]
pub enum FalhaKeyring {
    SemEntrada,
    Outra(String),
}

/// Erro de um nome de serviço ou namespace, se algum.
pub open spec fn espec_erro_nome(campo: Seq<char>, valor: Seq<char>) -> Option<VistaErro> {
    if so_espacos(valor) {
        Some(VistaErro::CofreIndisponivel(campo + " não pode ser vazio"@))
    } else if encode_utf8(valor).len() > 200 {
        Some(VistaErro::CofreIndisponivel(campo + " excede 200 bytes"@))
    } else {
        None
    }
}

/// Recusa nome vazio (depois de aparar) ou com mais de 200 bytes.
pub fn validar_nome(campo: &str, valor: &str) -> (r: Resultado<()>)
    ensures
        r is Ok <==> (!so_espacos(valor@) && encode_utf8(valor@).len() <= 200),
        match espec_erro_nome(campo@, valor@) {
            Some(e) => r matches Err(x) && x@ == e,
            None => r is Ok,
        },
{
    if vazio_apos_aparar(valor) {
        let mut m = String::from_str(campo);
        m.append(" não pode ser vazio");
        return Err(ErroJabuti::CofreIndisponivel(m));
    }
    if valor.as_bytes().len() > 200 {
        let mut m = String::from_str(campo);
        m.append(" excede 200 bytes");
        return Err(ErroJabuti::CofreIndisponivel(m));
    }
    Ok(())
}

/// Bytes resumidos no nome da entrada: domínio, namespace e id separados por NUL.
pub open spec fn bytes_nome_entrada(namespace: Seq<char>, id: Seq<char>) -> Seq<u8> {
    encode_utf8("JABUTI-KEY-ID-V1\0"@) + encode_utf8(namespace) + encode_utf8("\0"@) + encode_utf8(id)
}

/// Nome da credencial no keyring: `v1-` e o SHA-256 hexadecimal, que não
/// expõe o identificador lógico.
pub open spec fn nome_entrada_spec(namespace: Seq<char>, id: Seq<char>) -> Seq<char> {
    "v1-"@ + hex_minusculo(sha256_spec(bytes_nome_entrada(namespace, id)))
}

/// Bytes resumidos no nome da entrada.
pub fn bytes_do_nome(namespace: &str, id: &IdChave) -> (r: Vec<u8>)
    ensures
        r@ == bytes_nome_entrada(namespace@, id@),
{
    let mut dados: Vec<u8> = Vec::new();
    anexar_bytes(&mut dados, "JABUTI-KEY-ID-V1\0".as_bytes());
    anexar_bytes(&mut dados, namespace.as_bytes());
    anexar_bytes(&mut dados, "\0".as_bytes());
    anexar_bytes(&mut dados, id.como_str().as_bytes());
    dados
}

/// Nome da entrada a partir do resumo: `v1-` e o resumo em hexadecimal.
pub fn nome_de_resumo(resumo: &[u8]) -> (r: String)
    ensures
        r@ == "v1-"@ + hex_minusculo(resumo@),
        r@.len() == 3 + 2 * resumo@.len(),
        r@.subrange(0, 3) == "v1-"@,
{
    let hex = texto_hex(resumo);
    let mut r = String::from_str("v1-");
    r.append(hex.as_str());
    proof {
        reveal_strlit("v1-");
        lema_hex_comprimento(resumo@);
        assert(r@.subrange(0, 3) =~= "v1-"@);
    }
    r
}

/// Nome da credencial de uma chave no keyring.
pub fn nome_entrada(namespace: &str, id: &IdChave) -> (r: String)
    ensures
        r@ == nome_entrada_spec(namespace@, id@),
        r@.len() == 67,
        r@.subrange(0, 3) == "v1-"@,
{
    let dados = bytes_do_nome(namespace, id);
    let resumo = sha256(dados.as_slice());
    nome_de_resumo(resumo.as_slice())
}

pub open spec fn mapear_erro_spec(e: FalhaKeyring) -> VistaErro {
    match e {
        FalhaKeyring::SemEntrada => VistaErro::ChaveNaoEncontrada("entrada nativa"@),
        FalhaKeyring::Outra(m) => VistaErro::CofreIndisponivel(m@),
    }
}

pub open spec fn mapear_erro_com_id_spec(e: FalhaKeyring, id: Seq<char>) -> VistaErro {
    match e {
        FalhaKeyring::SemEntrada => VistaErro::ChaveNaoEncontrada(id),
        FalhaKeyring::Outra(m) => VistaErro::CofreIndisponivel(m@),
    }
}

pub fn mapear_erro_keyring(erro: FalhaKeyring) -> (r: ErroJabuti)
    ensures
        r@ == mapear_erro_spec(erro),
{
    match erro {
        FalhaKeyring::SemEntrada => ErroJabuti::ChaveNaoEncontrada(String::from_str("entrada nativa")),
        FalhaKeyring::Outra(m) => ErroJabuti::CofreIndisponivel(m),
    }
}

pub fn mapear_erro_keyring_com_id(erro: FalhaKeyring, id: &IdChave) -> (r: ErroJabuti)
    ensures
        r@ == mapear_erro_com_id_spec(erro, id@),
{
    match erro {
        FalhaKeyring::SemEntrada => ErroJabuti::ChaveNaoEncontrada(id.como_str().to_owned()),
        FalhaKeyring::Outra(m) => ErroJabuti::CofreIndisponivel(m),
    }
}

/// Material de chave guardado como texto: Base64 de exatamente 32 bytes.
pub open spec fn espec_decodificar_chave(codificada: Seq<char>) -> Result<Seq<u8>, VistaErro> {
    match base64_decodifica(codificada) {
        Some(b) => if b.len() == TAMANHO_CHAVE {
            Ok(b)
        } else {
            Err(VistaErro::ChaveCorrompida)
        },
        None => Err(VistaErro::ChaveCorrompida),
    }
}

/// Material decodificado de uma entrada: exige exatamente 32 bytes. Os bytes
/// ficam num `Zeroizing` desde já, e os de tamanho errado são zerados.
pub fn validar_material(decodificado: Option<Vec<u8>>) -> (r: Resultado<BytesProtegidos>)
    ensures
        match decodificado {
            Some(b) => if b@.len() == TAMANHO_CHAVE {
                r matches Ok(v) && bytes_protegidos(v) == b@
            } else {
                r matches Err(e) && e@ == VistaErro::ChaveCorrompida
            },
            None => r matches Err(e) && e@ == VistaErro::ChaveCorrompida,
        },
{
    match decodificado {
        Some(b) => {
            let n = b.len();
            let protegido = proteger_bytes(b);
            if n == TAMANHO_CHAVE {
                Ok(protegido)
            } else {
                Err(ErroJabuti::ChaveCorrompida)
            }
        },
        None => Err(ErroJabuti::ChaveCorrompida),
    }
}

pub fn decodificar_chave(codificada: &str) -> (r: Resultado<BytesProtegidos>)
    ensures
        vista_protegida(r) == espec_decodificar_chave(codificada@),
{
    validar_material(base64_decodificar(codificada))
}

/// Texto guardado no keyring para uma chave: o seu Base64, que decodifica de volta.
pub fn codificar_chave(chave: &[u8]) -> (r: String)
    requires
        chave@.len() == TAMANHO_CHAVE,
    ensures
        r@ == base64_codifica(chave@),
        espec_decodificar_chave(r@) == Ok::<Seq<u8>, VistaErro>(chave@),
{
    base64_codificar(chave)
}

/// Material aleatório para uma chave nova, num `Zeroizing`.
pub fn gerar_material_chave() -> (r: Resultado<BytesProtegidos>)
    ensures
        r matches Ok(v) ==> bytes_protegidos(v).len() == TAMANHO_CHAVE,
        r matches Err(e) ==> e@ == VistaErro::CofreIndisponivel(msg_gerador_indisponivel()),
{
    match bytes_aleatorios(TAMANHO_CHAVE) {
        Some(v) => Ok(proteger_bytes(v)),
        None => Err(ErroJabuti::CofreIndisponivel(String::from_str("gerador aleatório do sistema indisponível"))),
    }
}

/// Antes de criar: a leitura da entrada deve dizer que ela não existe.
pub fn decidir_criacao(leitura: Result<&str, FalhaKeyring>, id: &IdChave) -> (r: Resultado<()>)
    ensures
        match leitura {
            Ok(_) => r matches Err(e) && e@ == VistaErro::ChaveJaExiste(id@),
            Err(FalhaKeyring::SemEntrada) => r is Ok,
            Err(f) => r matches Err(e) && e@ == mapear_erro_com_id_spec(f, id@),
        },
{
    match leitura {
        Ok(_) => Err(ErroJabuti::ChaveJaExiste(id.como_str().to_owned())),
        Err(FalhaKeyring::SemEntrada) => Ok(()),
        Err(f) => Err(mapear_erro_keyring_com_id(f, id)),
    }
}

/// Material da chave a partir da leitura da entrada.
pub fn interpretar_chave_lida(leitura: Result<&str, FalhaKeyring>, id: &IdChave) -> (r: Resultado<BytesProtegidos>)
    ensures
        match leitura {
            Ok(s) => vista_protegida(r) == espec_decodificar_chave(s@),
            Err(f) => r matches Err(e) && e@ == mapear_erro_com_id_spec(f, id@),
        },
{
    match leitura {
        Ok(s) => decodificar_chave(s),
        Err(f) => Err(mapear_erro_keyring_com_id(f, id)),
    }
}

/// Existência da chave a partir da leitura da entrada: uma entrada que não
/// decodifica para 32 bytes é chave corrompida.
pub fn decidir_existencia(leitura: Result<&str, FalhaKeyring>, id: &IdChave) -> (r: Resultado<bool>)
    ensures
        match leitura {
            Ok(s) => match espec_decodificar_chave(s@) {
                Ok(_) => r == Ok::<bool, ErroJabuti>(true),
                Err(e) => r matches Err(x) && x@ == e,
            },
            Err(FalhaKeyring::SemEntrada) => r == Ok::<bool, ErroJabuti>(false),
            Err(f) => r matches Err(e) && e@ == mapear_erro_com_id_spec(f, id@),
        },
{
    match leitura {
        Ok(s) => match decodificar_chave(s) {
            Ok(_) => Ok(true),
            Err(e) => Err(e),
        },
        Err(FalhaKeyring::SemEntrada) => Ok(false),
        Err(f) => Err(mapear_erro_keyring_com_id(f, id)),
    }
}

/// Resultado da remoção: apagar uma entrada já ausente não é erro.
pub fn decidir_destruicao(remocao: Result<(), FalhaKeyring>, id: &IdChave) -> (r: Resultado<()>)
    ensures
        match remocao {
            Ok(()) => r is Ok,
            Err(FalhaKeyring::SemEntrada) => r is Ok,
            Err(f) => r matches Err(e) && e@ == mapear_erro_com_id_spec(f, id@),
        },
{
    match remocao {
        Ok(()) => Ok(()),
        Err(FalhaKeyring::SemEntrada) => Ok(()),
        Err(f) => Err(mapear_erro_keyring_com_id(f, id)),
    }
}

} // verus!

use jabuti::aad::{compor_categoria, compor_documento_aad};
use jabuti::servico::compor_id_chave;
use jabuti::sistema::{bytes_do_nome, nome_de_resumo, validar_material};
use jabuti::{CategoriaRegistro, ErroJabuti, IdChave};

#[test]
fn documento_aad_a_partir_dos_literais() {
    let doc = compor_documento_aad(1, "\"r\"", "\"k\"", "{\"tipo\":\"cache\"}", "\"\"");
    assert_eq!(
        doc,
        "{\"dominio\":\"JABUTI-REGISTRO-AEAD-V1\",\"versao\":1,\"algoritmo\":\"AES-256-GCM\",\
         \"id_registro\":\"r\",\"id_chave\":\"k\",\"categoria\":{\"tipo\":\"cache\"},\
         \"contexto_extra_base64\":\"\"}"
    );
    let doc = compor_documento_aad(65535, "a", "b", "c", "d");
    assert!(doc.contains("\"versao\":65535,"));
}

#[test]
fn objeto_json_da_categoria() {
    assert_eq!(compor_categoria(&CategoriaRegistro::Mensagem, ""), "{\"tipo\":\"mensagem\"}");
    assert_eq!(compor_categoria(&CategoriaRegistro::Anexo, "x"), "{\"tipo\":\"anexo\"}");
    assert_eq!(
        compor_categoria(&CategoriaRegistro::Outro("v".into()), "\"v\""),
        "{\"tipo\":\"outro\",\"valor\":\"v\"}"
    );
}

#[test]
fn identificador_de_chave_composto() {
    let id = compor_id_chave(&CategoriaRegistro::Anexo, "doc-7", "0000");
    assert_eq!(id.como_str(), "jabuti:anexo:doc-7:0000");
    let id = compor_id_chave(&CategoriaRegistro::Outro("".into()), "x", "u");
    assert_eq!(id.como_str(), "jabuti:outro:x:u");
}

#[test]
fn nome_e_bytes_da_entrada() {
    assert_eq!(bytes_do_nome("ns", &IdChave::novo("id")), b"JABUTI-KEY-ID-V1\0ns\0id".to_vec());
    assert_eq!(nome_de_resumo(&[0x01, 0xfe]), "v1-01fe");
    assert_eq!(nome_de_resumo(&[0u8; 32]).len(), 67);
}

#[test]
fn material_de_chave_exige_32_bytes() {
    assert_eq!(validar_material(Some(vec![9u8; 32])).unwrap().como_bytes(), &[9u8; 32]);
    assert_eq!(validar_material(Some(vec![9u8; 31])).err(), Some(ErroJabuti::ChaveCorrompida));
    assert_eq!(validar_material(None).err(), Some(ErroJabuti::ChaveCorrompida));
}

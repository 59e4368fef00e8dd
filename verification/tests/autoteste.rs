use jabuti::aead::cifrar_com_nonce;
use jabuti::autoteste::{autoteste_cofre, autoteste_nucleo, FalhaAutoteste};
use jabuti::servico::{comprovante_destruicao, momento_de_duracao};
use jabuti::{
    BytesProtegidos, CategoriaRegistro, CofreDeChaves, CofreMemoria, ErroJabuti, EstadoIntegridade,
    IdChave, Jabuti, MomentoUtc, NivelProtecao, PacoteCifrado, Resultado,
};

#[test]
fn autoteste_do_nucleo_em_memoria_aprova() {
    let mut j = Jabuti::novo(CofreMemoria::novo());
    assert_eq!(autoteste_nucleo(&mut j, "autoteste-1", b"autoteste-jabuti", b"cli-autoteste"), Ok(()));
    assert_eq!(autoteste_cofre(&mut j, "autoteste-2", b"outro", b""), Ok(()));
}

#[test]
fn autoteste_com_entrada_invalida_reprova_pelo_nucleo() {
    let mut j = Jabuti::novo(CofreMemoria::novo());
    assert_eq!(
        autoteste_nucleo(&mut j, "   ", b"x", b""),
        Err(FalhaAutoteste::Nucleo(ErroJabuti::RegistroInvalido(
            "id_registro não pode ser vazio".into()
        )))
    );
}

struct CofreSemCifra;

impl CofreDeChaves for CofreSemCifra {
    fn criar_chave(&mut self, _id: &IdChave) -> Resultado<()> {
        Ok(())
    }
    fn cifrar(&self, _id: &IdChave, _p: &[u8], _a: &[u8]) -> Resultado<PacoteCifrado> {
        Err(ErroJabuti::FalhaCifragem)
    }
    fn decifrar(&self, _id: &IdChave, _p: &PacoteCifrado, _a: &[u8]) -> Resultado<BytesProtegidos> {
        Err(ErroJabuti::FalhaDecifragem)
    }
    fn destruir_chave(&mut self, _id: &IdChave) -> Resultado<()> {
        Ok(())
    }
    fn existe_chave(&self, _id: &IdChave) -> Resultado<bool> {
        Ok(false)
    }
    fn nivel_protecao(&self) -> NivelProtecao {
        NivelProtecao::SoftwareTemporario
    }
}

#[test]
fn autoteste_reprova_com_o_erro_do_cofre() {
    let mut j = Jabuti::novo(CofreSemCifra);
    assert_eq!(
        autoteste_cofre(&mut j, "r", b"x", b""),
        Err(FalhaAutoteste::Nucleo(ErroJabuti::FalhaCifragem))
    );
}

#[test]
fn momento_a_partir_da_leitura_do_relogio() {
    assert_eq!(
        momento_de_duracao(Some((1_700_000_000, 5))),
        Some(MomentoUtc { segundos: 1_700_000_000, nanossegundos: 5 })
    );
    assert_eq!(momento_de_duracao(Some((u64::MAX, 0))), None);
    assert_eq!(momento_de_duracao(None), None);
}

#[test]
fn proteger_com_leituras_dadas_e_deterministico_no_id_e_no_instante() {
    let mut j = Jabuti::novo(CofreMemoria::novo());
    let m = MomentoUtc { segundos: 42, nanossegundos: 7 };
    let r = j
        .proteger_com("reg", CategoriaRegistro::Mensagem, b"dados", b"", Some(m), Some(vec![0u8; 16]))
        .expect("proteger_com");
    assert_eq!(r.id_chave.como_str(), "jabuti:mensagem:reg:00000000-0000-4000-8000-000000000000");
    assert_eq!(r.criado_em_utc, m);
    assert_eq!(r.conteudo_cifrado.len(), 5 + 16);
    assert_eq!(j.abrir(&r).expect("abrir").como_bytes(), b"dados");

    let mut bytes = vec![0xffu8; 16];
    bytes[0] = 0x12;
    let r2 = j
        .proteger_com("reg", CategoriaRegistro::Mensagem, b"x", b"", Some(m), Some(bytes))
        .expect("segundo");
    assert_eq!(r2.id_chave.como_str(), "jabuti:mensagem:reg:12ffffff-ffff-4fff-bfff-ffffffffffff");

    assert_eq!(
        j.proteger_com("reg", CategoriaRegistro::Mensagem, b"x", b"", None, Some(vec![1u8; 16])).err(),
        Some(ErroJabuti::Sincronizacao)
    );
    assert_eq!(
        j.proteger_com("reg", CategoriaRegistro::Mensagem, b"x", b"", Some(m), None).err(),
        Some(ErroJabuti::FalhaCifragem)
    );
    assert_eq!(
        j.proteger_com("reg", CategoriaRegistro::Mensagem, b"x", b"", Some(m), Some(vec![1u8; 15])).err(),
        Some(ErroJabuti::FalhaCifragem)
    );
    // Mesmos bytes, mesma chave: o cofre recusa e o seu erro volta como veio.
    assert_eq!(
        j.proteger_com("reg", CategoriaRegistro::Mensagem, b"y", b"", Some(m), Some(vec![0u8; 16])).err(),
        Some(ErroJabuti::ChaveJaExiste(
            "jabuti:mensagem:reg:00000000-0000-4000-8000-000000000000".into()
        ))
    );
}

#[test]
fn destruir_em_data_o_comprovante_e_tratar_a_chave_vem_antes_do_relogio() {
    let mut j = Jabuti::novo(CofreMemoria::novo());
    let r = j.proteger("d", CategoriaRegistro::Cache, b"x", b"").expect("proteger");
    let m = MomentoUtc { segundos: 9, nanossegundos: 1 };
    assert_eq!(j.destruir_em(&r, None).err(), Some(ErroJabuti::Sincronizacao));
    assert!(!j.cofre().existe_chave(&r.id_chave).unwrap());
    let c = j.destruir_em(&r, Some(m)).expect("de novo");
    assert!(c.chave_ja_ausente);
    assert_eq!(c.destruido_em_utc, m);
    assert_eq!(j.verificar_integridade(&r).unwrap(), EstadoIntegridade::ChaveAusente);

    let mut falso = r.clone();
    falso.versao = 2;
    assert!(matches!(j.destruir_em(&falso, None), Err(ErroJabuti::RegistroInvalido(_))));

    let c = comprovante_destruicao(&r, false, Some(m)).unwrap();
    assert_eq!((c.versao, c.chave_ja_ausente, c.destruido_em_utc), (1, false, m));
    assert_eq!(comprovante_destruicao(&r, false, None).err(), Some(ErroJabuti::Sincronizacao));
}

#[test]
fn cifrar_com_nonce_dado() {
    let chave = [3u8; 32];
    let p = cifrar_com_nonce(&chave, Some(vec![5u8; 12]), b"abc", b"aad").expect("cifrar");
    assert_eq!(p.nonce, vec![5u8; 12]);
    assert_eq!(p.conteudo_cifrado.len(), 3 + 16);
    let q = cifrar_com_nonce(&chave, Some(vec![5u8; 12]), b"abc", b"aad").expect("cifrar");
    assert_eq!(p.conteudo_cifrado, q.conteudo_cifrado);
    assert_eq!(cifrar_com_nonce(&chave, None, b"abc", b"").err(), Some(ErroJabuti::FalhaCifragem));
    assert_eq!(cifrar_com_nonce(&chave, Some(vec![5u8; 8]), b"abc", b"").err(), Some(ErroJabuti::FalhaCifragem));
}

#[test]
fn cofre_memoria_com_material_e_nonce_dados() {
    let mut c = CofreMemoria::novo();
    let id = IdChave::novo("k");
    assert_eq!(c.inserir_chave(&id, None).err(), Some(ErroJabuti::CofreIndisponivel(
        "gerador aleatório do sistema indisponível".into()
    )));
    assert_eq!(c.inserir_chave(&id, Some(vec![1u8; 31])).err(), Some(ErroJabuti::ChaveCorrompida));
    assert!(!c.existe_chave(&id).unwrap());
    assert_eq!(c.inserir_chave(&id, Some(vec![1u8; 32])), Ok(()));
    assert_eq!(c.inserir_chave(&id, Some(vec![2u8; 32])).err(), Some(ErroJabuti::ChaveJaExiste("k".into())));

    let p = c.cifrar_com_nonce(&id, Some(vec![0u8; 12]), b"m", b"").expect("cifrar");
    let esperado = cifrar_com_nonce(&[1u8; 32], Some(vec![0u8; 12]), b"m", b"").unwrap();
    assert_eq!(p.conteudo_cifrado, esperado.conteudo_cifrado);
    assert_eq!(c.decifrar(&id, &p, b"").unwrap().como_bytes(), b"m");
    assert_eq!(
        c.cifrar_com_nonce(&IdChave::novo("outra"), Some(vec![0u8; 12]), b"m", b"").err(),
        Some(ErroJabuti::ChaveNaoEncontrada("outra".into()))
    );
    assert_eq!(c.cifrar_com_nonce(&id, None, b"m", b"").err(), Some(ErroJabuti::FalhaCifragem));
}

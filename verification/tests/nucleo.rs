use jabuti::servico::Jabuti;
use jabuti::{
    CategoriaRegistro, CofreDeChaves, CofreMemoria, ConfiguracaoJabuti, ErroJabuti,
    EstadoIntegridade, IdChave, NivelProtecao, PacoteCifrado, RegistroCifrado,
};

fn jabuti_memoria() -> Jabuti<CofreMemoria> {
    Jabuti::novo(CofreMemoria::novo())
}

fn protegido(j: &mut Jabuti<CofreMemoria>) -> RegistroCifrado {
    j.proteger("reg-1", CategoriaRegistro::Mensagem, b"conteudo", b"ctx")
        .expect("proteger")
}

#[test]
fn configuracao_padrao() {
    let c = ConfiguracaoJabuti::default();
    assert_eq!(c.tamanho_maximo_plaintext, 32 * 1024 * 1024);
    assert_eq!(c.tamanho_maximo_contexto, 16 * 1024);
    assert_eq!(c.tamanho_maximo_id, 512);
    let j = jabuti_memoria();
    assert_eq!(j.configuracao(), &c);
    assert_eq!(j.cofre().nivel_protecao(), NivelProtecao::SoftwareTemporario);
}

#[test]
fn registro_protegido_e_integro_e_bem_formado() {
    let mut j = jabuti_memoria();
    let r = j
        .proteger("r", CategoriaRegistro::Outro("Fotos & Vídeos".to_string()), b"abc", b"meta")
        .expect("proteger");
    assert_eq!(r.versao, 1);
    assert_eq!(r.algoritmo, "AES-256-GCM");
    assert_eq!(r.nonce.len(), 12);
    assert_eq!(r.conteudo_cifrado.len(), 3 + 16);
    assert_eq!(r.sha256_cifrado.len(), 64);
    assert_eq!(r.contexto_extra, b"meta");
    assert_eq!(
        j.verificar_integridade(&r).expect("estado"),
        EstadoIntegridade::Integro
    );
    assert_eq!(j.abrir(&r).expect("abrir").como_bytes(), b"abc");
}

#[test]
fn id_de_chave_tem_rotulo_registro_e_uuid_v4() {
    let mut j = jabuti_memoria();
    let r = j
        .proteger("msg-9", CategoriaRegistro::Outro("a/b c".to_string()), b"x", b"")
        .expect("proteger");
    let id = r.id_chave.como_str();
    assert!(id.starts_with("jabuti:outro-abc:msg-9:"));
    let uuid = &id["jabuti:outro-abc:msg-9:".len()..];
    assert_eq!(uuid.len(), 36);
    assert_eq!(&uuid[14..15], "4");
    assert!(uuid.chars().all(|c| c == '-' || c.is_ascii_hexdigit()));
    assert!(matches!(&uuid[19..20], "8" | "9" | "a" | "b"));
    for i in [8, 13, 18, 23] {
        assert_eq!(&uuid[i..i + 1], "-");
    }
    assert_eq!(uuid, uuid.to_lowercase());
}

#[test]
fn instantes_vem_do_relogio_do_sistema() {
    let mut j = jabuti_memoria();
    let antes = std::time::SystemTime::now()
        .duration_since(std::time::UNIX_EPOCH)
        .unwrap()
        .as_secs() as i64;
    let r = j.proteger("relogio", CategoriaRegistro::Cache, b"x", b"").expect("proteger");
    let c = j.destruir(&r).expect("destruir");
    assert!(r.criado_em_utc.segundos >= antes);
    assert!(r.criado_em_utc.nanossegundos < 1_000_000_000);
    assert!(c.destruido_em_utc.segundos >= r.criado_em_utc.segundos);
    assert!(c.destruido_em_utc.nanossegundos < 1_000_000_000);
}

#[test]
fn sequencia_nao_reutiliza_chaves() {
    let mut j = jabuti_memoria();
    let mut ids = Vec::new();
    for i in 0..32_u32 {
        let r = j
            .proteger(
                &format!("msg-{i}"),
                CategoriaRegistro::Mensagem,
                format!("conteudo-{i}").as_bytes(),
                b"sequencia",
            )
            .expect("proteger");
        ids.push(r.id_chave.como_str().to_owned());
    }
    ids.sort();
    ids.dedup();
    assert_eq!(ids.len(), 32);
}

#[test]
fn apos_destruir_abrir_diz_chave_ausente() {
    let mut j = jabuti_memoria();
    let r = protegido(&mut j);
    let c = j.destruir(&r).expect("destruir");
    assert_eq!(c.versao, 1);
    assert_eq!(c.id_registro, "reg-1");
    assert_eq!(c.id_chave, r.id_chave);
    assert_eq!(c.sha256_cifrado, r.sha256_cifrado);
    match j.abrir(&r) {
        Err(ErroJabuti::ChaveNaoEncontrada(id)) => assert_eq!(id, r.id_chave.como_str()),
        _ => panic!("esperava chave ausente"),
    }
    assert!(!j.cofre().existe_chave(&r.id_chave).expect("existe"));
}

#[test]
fn apos_destruir_hash_adulterado_continua_detectado() {
    let mut j = jabuti_memoria();
    let mut r = protegido(&mut j);
    j.destruir(&r).expect("destruir");
    r.conteudo_cifrado[3] ^= 0x80;
    assert!(matches!(j.abrir(&r), Err(ErroJabuti::IntegridadeInvalida)));
    assert_eq!(
        j.verificar_integridade(&r).expect("estado"),
        EstadoIntegridade::HashDivergente
    );
}

#[test]
fn registro_adulterado_preserva_chave_do_proprio_registro() {
    let mut j = jabuti_memoria();
    let a = j.proteger("A", CategoriaRegistro::Mensagem, b"alpha", b"").expect("A");
    let b = j.proteger("B", CategoriaRegistro::Mensagem, b"beta", b"").expect("B");
    let mut falso = a.clone();
    falso.id_chave = b.id_chave.clone();
    assert!(matches!(j.destruir(&falso), Err(ErroJabuti::FalhaDecifragem)));
    assert_eq!(j.abrir(&a).expect("A").como_bytes(), b"alpha");
    assert_eq!(j.abrir(&b).expect("B").como_bytes(), b"beta");
}

#[test]
fn entrada_invalida_nao_cria_chave() {
    let mut j = jabuti_memoria();
    match j.proteger(" \t\u{3000}", CategoriaRegistro::Mensagem, b"x", b"") {
        Err(ErroJabuti::RegistroInvalido(m)) => assert_eq!(m, "id_registro não pode ser vazio"),
        _ => panic!("esperava registro inválido"),
    }
    let r = j.proteger("ok", CategoriaRegistro::Mensagem, b"x", b"").expect("ok");
    j.destruir(&r).expect("destruir");
    assert!(!j.cofre().existe_chave(&r.id_chave).expect("existe"));
}

#[test]
fn limites_de_entrada_em_bytes() {
    let config = ConfiguracaoJabuti {
        tamanho_maximo_plaintext: 4,
        tamanho_maximo_contexto: 2,
        tamanho_maximo_id: 3,
    };
    let mut j = Jabuti::com_configuracao(CofreMemoria::novo(), config);
    match j.proteger("éé", CategoriaRegistro::Mensagem, b"x", b"") {
        Err(ErroJabuti::LimiteExcedido(m)) => assert_eq!(m, "id_registro excede 3 bytes"),
        _ => panic!("esperava limite de id"),
    }
    match j.proteger("abc", CategoriaRegistro::Mensagem, b"12345", b"") {
        Err(ErroJabuti::LimiteExcedido(m)) => assert_eq!(m, "plaintext excede 4 bytes"),
        _ => panic!("esperava limite de plaintext"),
    }
    match j.proteger("abc", CategoriaRegistro::Mensagem, b"1234", b"xyz") {
        Err(ErroJabuti::LimiteExcedido(m)) => assert_eq!(m, "contexto_extra excede 2 bytes"),
        _ => panic!("esperava limite de contexto"),
    }
    let r = j.proteger("abc", CategoriaRegistro::Mensagem, b"1234", b"xy").expect("no limite");
    assert_eq!(j.abrir(&r).expect("abrir").como_bytes(), b"1234");
}

fn erro_formato(j: &Jabuti<CofreMemoria>, r: &RegistroCifrado) -> ErroJabuti {
    match j.abrir(r) {
        Err(e) => e,
        Ok(_) => panic!("esperava erro de formato"),
    }
}

#[test]
fn formato_do_registro_e_validado() {
    let mut j = jabuti_memoria();
    let base = protegido(&mut j);

    let mut r = base.clone();
    r.versao = 2;
    assert_eq!(erro_formato(&j, &r), ErroJabuti::RegistroInvalido("versão 2 não suportada".into()));

    let mut r = base.clone();
    r.algoritmo = "ChaCha20".into();
    assert_eq!(
        erro_formato(&j, &r),
        ErroJabuti::RegistroInvalido("algoritmo não suportado: ChaCha20".into())
    );

    let mut r = base.clone();
    r.id_registro = "  ".into();
    assert_eq!(erro_formato(&j, &r), ErroJabuti::RegistroInvalido("id_registro vazio".into()));

    let mut r = base.clone();
    r.id_registro = "x".repeat(513);
    assert_eq!(
        erro_formato(&j, &r),
        ErroJabuti::LimiteExcedido("id_registro persistido excede o limite".into())
    );

    let mut r = base.clone();
    r.id_chave = IdChave::novo("\n");
    assert_eq!(erro_formato(&j, &r), ErroJabuti::RegistroInvalido("id_chave vazio".into()));

    let mut r = base.clone();
    r.nonce.pop();
    assert_eq!(
        erro_formato(&j, &r),
        ErroJabuti::RegistroInvalido("nonce AES-GCM deve possuir 12 bytes".into())
    );

    let mut r = base.clone();
    r.conteudo_cifrado.truncate(15);
    assert_eq!(
        erro_formato(&j, &r),
        ErroJabuti::RegistroInvalido("ciphertext menor que a tag GCM".into())
    );

    let mut r = base.clone();
    r.contexto_extra = vec![0; 16 * 1024 + 1];
    assert_eq!(
        erro_formato(&j, &r),
        ErroJabuti::LimiteExcedido("contexto_extra persistido excede o limite".into())
    );

    let mut r = base.clone();
    r.sha256_cifrado.pop();
    assert_eq!(
        erro_formato(&j, &r),
        ErroJabuti::RegistroInvalido("sha256_cifrado deve ser hexadecimal SHA-256".into())
    );

    let mut r = base.clone();
    r.sha256_cifrado = r.sha256_cifrado.to_uppercase();
    assert_eq!(erro_formato(&j, &r), ErroJabuti::IntegridadeInvalida);
}

#[test]
fn ciphertext_acima_do_limite_e_recusado() {
    let config = ConfiguracaoJabuti {
        tamanho_maximo_plaintext: 4,
        ..ConfiguracaoJabuti::default()
    };
    let mut j = Jabuti::com_configuracao(CofreMemoria::novo(), config);
    let mut r = j.proteger("a", CategoriaRegistro::Cache, b"1234", b"").expect("proteger");
    r.conteudo_cifrado.push(0);
    assert_eq!(
        j.abrir(&r).err(),
        Some(ErroJabuti::LimiteExcedido("ciphertext persistido excede o limite".into()))
    );
}

#[test]
fn cofre_memoria_operacoes() {
    let mut c = CofreMemoria::novo();
    let id = IdChave::novo("k1");
    assert!(!c.existe_chave(&id).unwrap());
    assert!(matches!(c.cifrar(&id, b"x", b""), Err(ErroJabuti::ChaveNaoEncontrada(ref m)) if m == "k1"));
    c.criar_chave(&id).expect("criar");
    assert!(c.existe_chave(&id).unwrap());
    assert!(matches!(c.criar_chave(&id), Err(ErroJabuti::ChaveJaExiste(ref m)) if m == "k1"));

    let p = c.cifrar(&id, b"dados", b"aad").expect("cifrar");
    assert_eq!(p.nonce.len(), 12);
    assert_eq!(p.conteudo_cifrado.len(), 5 + 16);
    assert_ne!(&p.conteudo_cifrado[..5], b"dados");
    assert_eq!(c.decifrar(&id, &p, b"aad").expect("decifrar").como_bytes(), b"dados");
    assert!(matches!(c.decifrar(&id, &p, b"outro"), Err(ErroJabuti::FalhaDecifragem)));
    let curto = PacoteCifrado { nonce: vec![0; 11], conteudo_cifrado: p.conteudo_cifrado.clone() };
    assert!(matches!(c.decifrar(&id, &curto, b"aad"), Err(ErroJabuti::RegistroInvalido(_))));

    c.destruir_chave(&id).expect("destruir");
    assert!(!c.existe_chave(&id).unwrap());
    c.destruir_chave(&id).expect("destruir de novo");
    assert!(matches!(c.decifrar(&id, &p, b"aad"), Err(ErroJabuti::ChaveNaoEncontrada(_))));
}

#[test]
fn cofre_memoria_chaves_independentes() {
    let mut c = CofreMemoria::default();
    let a = IdChave::novo("a");
    let b = IdChave::novo("b");
    c.criar_chave(&a).unwrap();
    c.criar_chave(&b).unwrap();
    let pa = c.cifrar(&a, b"m", b"").unwrap();
    assert!(matches!(c.decifrar(&b, &pa, b""), Err(ErroJabuti::FalhaDecifragem)));
    c.destruir_chave(&b).unwrap();
    assert!(c.existe_chave(&a).unwrap());
    assert_eq!(c.decifrar(&a, &pa, b"").unwrap().como_bytes(), b"m");
}

use jabuti::{
    BytesProtegidos, CategoriaRegistro, CofreDeChaves, CofreMemoria, ConfiguracaoJabuti, ErroJabuti,
    EstadoIntegridade, IdChave, Jabuti, MomentoUtc, NivelProtecao, PacoteCifrado,
    RegistroCifrado, Resultado,
};
use serde_json::Value;
use std::sync::atomic::AtomicBool;
use zeroize::Zeroizing;

fn bytes_json(b: &[u8]) -> Value {
    Value::Array(b.iter().map(|x| Value::from(*x)).collect())
}

fn categoria_json(c: &CategoriaRegistro) -> Value {
    let mut m = serde_json::Map::new();
    match c {
        CategoriaRegistro::Mensagem => {
            m.insert("tipo".to_string(), Value::from("mensagem"));
        }
        CategoriaRegistro::Anexo => {
            m.insert("tipo".to_string(), Value::from("anexo"));
        }
        CategoriaRegistro::Cache => {
            m.insert("tipo".to_string(), Value::from("cache"));
        }
        CategoriaRegistro::Outro(v) => {
            m.insert("tipo".to_string(), Value::from("outro"));
            m.insert("valor".to_string(), Value::from(v.as_str()));
        }
    }
    Value::Object(m)
}

/// Documento JSON persistido de um registro, campo a campo.
fn registro_json(r: &RegistroCifrado) -> Value {
    let mut m = serde_json::Map::new();
    m.insert("versao".to_string(), Value::from(r.versao));
    m.insert("id_registro".to_string(), Value::from(r.id_registro.as_str()));
    m.insert("id_chave".to_string(), Value::from(r.id_chave.como_str()));
    m.insert("categoria".to_string(), categoria_json(&r.categoria));
    m.insert("algoritmo".to_string(), Value::from(r.algoritmo.as_str()));
    m.insert("nonce".to_string(), bytes_json(&r.nonce));
    m.insert("conteudo_cifrado".to_string(), bytes_json(&r.conteudo_cifrado));
    m.insert("sha256_cifrado".to_string(), Value::from(r.sha256_cifrado.as_str()));
    m.insert("contexto_extra".to_string(), bytes_json(&r.contexto_extra));
    m.insert("criado_em_utc_segundos".to_string(), Value::from(r.criado_em_utc.segundos));
    m.insert("criado_em_utc_nanos".to_string(), Value::from(r.criado_em_utc.nanossegundos));
    Value::Object(m)
}

fn json_bytes(v: &Value) -> Vec<u8> {
    v.as_array().unwrap().iter().map(|x| x.as_u64().unwrap() as u8).collect()
}

fn registro_de_json(v: &Value) -> RegistroCifrado {
    let cat = &v["categoria"];
    let categoria = match cat["tipo"].as_str().unwrap() {
        "mensagem" => CategoriaRegistro::Mensagem,
        "anexo" => CategoriaRegistro::Anexo,
        "cache" => CategoriaRegistro::Cache,
        _ => CategoriaRegistro::Outro(cat["valor"].as_str().unwrap().to_string()),
    };
    RegistroCifrado {
        versao: v["versao"].as_u64().unwrap() as u16,
        id_registro: v["id_registro"].as_str().unwrap().to_string(),
        id_chave: IdChave::novo(v["id_chave"].as_str().unwrap()),
        categoria,
        algoritmo: v["algoritmo"].as_str().unwrap().to_string(),
        nonce: json_bytes(&v["nonce"]),
        conteudo_cifrado: json_bytes(&v["conteudo_cifrado"]),
        sha256_cifrado: v["sha256_cifrado"].as_str().unwrap().to_string(),
        contexto_extra: json_bytes(&v["contexto_extra"]),
        criado_em_utc: MomentoUtc {
            segundos: v["criado_em_utc_segundos"].as_i64().unwrap(),
            nanossegundos: v["criado_em_utc_nanos"].as_u64().unwrap() as u32,
        },
    }
}

#[test]
fn cifra_decifra_e_nao_serializa_plaintext() {
    let mut jabuti = Jabuti::novo(CofreMemoria::novo());
    let segredo = Zeroizing::new(b"JABUTI_SEGREDO_UNICO_7f6f3c".to_vec());

    let registro = jabuti
        .proteger("msg-1", CategoriaRegistro::Mensagem, &segredo, b"conversa:42")
        .expect("proteger");

    assert_ne!(registro.conteudo_cifrado.as_slice(), segredo.as_slice());
    let json = serde_json::to_string(&registro_json(&registro)).expect("serializar");
    assert!(!json.contains("JABUTI_SEGREDO_UNICO_7f6f3c"));

    let aberto = jabuti.abrir(&registro).expect("abrir");
    assert_eq!(aberto.como_bytes(), &*segredo);
}

#[test]
fn destruir_e_idempotente() {
    let mut jabuti = Jabuti::novo(CofreMemoria::novo());
    let registro = jabuti
        .proteger("msg-2", CategoriaRegistro::Mensagem, b"secreto", b"")
        .expect("proteger");

    let primeiro = jabuti.destruir(&registro).expect("destruir");
    assert!(!primeiro.chave_ja_ausente);
    assert_eq!(
        jabuti.verificar_integridade(&registro).expect("estado"),
        EstadoIntegridade::ChaveAusente
    );

    let segundo = jabuti.destruir(&registro).expect("destruir de novo");
    assert!(segundo.chave_ja_ausente);
    assert!(matches!(
        jabuti.abrir(&registro),
        Err(ErroJabuti::ChaveNaoEncontrada(_))
    ));
}

#[test]
fn adulterar_ciphertext_e_detectado() {
    let mut jabuti = Jabuti::novo(CofreMemoria::novo());
    let mut registro = jabuti
        .proteger("msg-3", CategoriaRegistro::Mensagem, b"conteudo", b"")
        .expect("proteger");

    registro.conteudo_cifrado[0] ^= 0x01;

    assert_eq!(
        jabuti.verificar_integridade(&registro).expect("estado"),
        EstadoIntegridade::HashDivergente
    );
    assert!(matches!(
        jabuti.abrir(&registro),
        Err(ErroJabuti::IntegridadeInvalida)
    ));
}

#[test]
fn adulterar_aad_e_detectado() {
    let mut jabuti = Jabuti::novo(CofreMemoria::novo());
    let mut registro = jabuti
        .proteger("msg-4", CategoriaRegistro::Mensagem, b"conteudo", b"usuario:A")
        .expect("proteger");

    registro.contexto_extra = b"usuario:B".to_vec();

    assert_eq!(
        jabuti.verificar_integridade(&registro).expect("estado"),
        EstadoIntegridade::AutenticacaoInvalida
    );
}

#[test]
fn registro_adulterado_nao_pode_apagar_chave_de_outro_registro() {
    let mut jabuti = Jabuti::novo(CofreMemoria::novo());
    let a = jabuti
        .proteger("A", CategoriaRegistro::Mensagem, b"alpha", b"")
        .expect("A");
    let b = jabuti
        .proteger("B", CategoriaRegistro::Mensagem, b"beta", b"")
        .expect("B");

    let mut falso = a.clone();
    falso.id_chave = b.id_chave.clone();

    assert!(matches!(
        jabuti.destruir(&falso),
        Err(ErroJabuti::FalhaDecifragem)
    ));

    let aberto_b = jabuti.abrir(&b).expect("B continua acessível");
    assert_eq!(aberto_b.como_bytes(), b"beta");
}

#[test]
fn cada_registro_tem_chave_e_nonce_independentes() {
    let mut jabuti = Jabuti::novo(CofreMemoria::novo());
    let a = jabuti
        .proteger("mesmo", CategoriaRegistro::Mensagem, b"x", b"")
        .expect("A");
    let b = jabuti
        .proteger("mesmo", CategoriaRegistro::Mensagem, b"x", b"")
        .expect("B");

    assert_ne!(a.id_chave, b.id_chave);
    assert_ne!(a.nonce, b.nonce);
    assert_ne!(a.conteudo_cifrado, b.conteudo_cifrado);
}

#[test]
fn suporta_anexo_de_12_mib() {
    let mut jabuti = Jabuti::novo(CofreMemoria::novo());
    let dados = Zeroizing::new(vec![0x5A; 12 * 1024 * 1024]);

    let registro = jabuti
        .proteger("anexo-12m", CategoriaRegistro::Anexo, &dados, b"arquivo:teste.bin")
        .expect("proteger 12 MiB");

    assert_eq!(registro.conteudo_cifrado.len(), dados.len() + 16);
    let aberto = jabuti.abrir(&registro).expect("abrir 12 MiB");
    assert_eq!(aberto.como_bytes(), &*dados);
}

#[test]
fn rejeita_plaintext_acima_do_limite() {
    let config = ConfiguracaoJabuti {
        tamanho_maximo_plaintext: 8,
        ..ConfiguracaoJabuti::default()
    };
    let mut jabuti = Jabuti::com_configuracao(CofreMemoria::novo(), config);

    assert!(matches!(
        jabuti.proteger("grande", CategoriaRegistro::Mensagem, b"123456789", b""),
        Err(ErroJabuti::LimiteExcedido(_))
    ));
}

#[test]
fn serializa_e_reabre_registro() {
    let mut jabuti = Jabuti::novo(CofreMemoria::novo());
    let registro = jabuti
        .proteger("serial", CategoriaRegistro::Mensagem, b"persistente", b"ctx")
        .expect("proteger");

    let json = serde_json::to_vec(&registro_json(&registro)).expect("json");
    let valor: Value = serde_json::from_slice(&json).expect("desserializar");
    let recarregado = registro_de_json(&valor);
    let aberto = jabuti.abrir(&recarregado).expect("abrir");
    assert_eq!(aberto.como_bytes(), b"persistente");
}

struct CofreFalho {
    chave_existe: bool,
}

impl CofreFalho {
    fn novo() -> Self {
        Self {
            chave_existe: false,
        }
    }
}

impl CofreDeChaves for CofreFalho {
    fn criar_chave(&mut self, _id: &IdChave) -> Resultado<()> {
        self.chave_existe = true;
        Ok(())
    }

    fn cifrar(&self, _id: &IdChave, _plaintext: &[u8], _aad: &[u8]) -> Resultado<PacoteCifrado> {
        Err(ErroJabuti::FalhaCifragem)
    }

    fn decifrar(&self, _id: &IdChave, _pacote: &PacoteCifrado, _aad: &[u8]) -> Resultado<BytesProtegidos> {
        Err(ErroJabuti::FalhaDecifragem)
    }

    fn destruir_chave(&mut self, _id: &IdChave) -> Resultado<()> {
        self.chave_existe = false;
        Ok(())
    }

    fn existe_chave(&self, _id: &IdChave) -> Resultado<bool> {
        Ok(self.chave_existe)
    }

    fn nivel_protecao(&self) -> NivelProtecao {
        NivelProtecao::SoftwareTemporario
    }
}

#[test]
fn falha_de_cifragem_faz_rollback_da_chave() {
    let mut jabuti = Jabuti::novo(CofreFalho::novo());

    assert!(matches!(
        jabuti.proteger("falha", CategoriaRegistro::Mensagem, b"x", b""),
        Err(ErroJabuti::FalhaCifragem)
    ));

    let cofre = jabuti.cofre();
    assert!(!cofre.chave_existe);
}

struct CofreRecusaCriar {
    cifrar_chamado: AtomicBool,
}

impl CofreDeChaves for CofreRecusaCriar {
    fn criar_chave(&mut self, _id: &IdChave) -> Resultado<()> {
        Err(ErroJabuti::CofreIndisponivel("cota esgotada".into()))
    }

    fn cifrar(&self, _id: &IdChave, _plaintext: &[u8], _aad: &[u8]) -> Resultado<PacoteCifrado> {
        self.cifrar_chamado.store(true, std::sync::atomic::Ordering::SeqCst);
        Err(ErroJabuti::FalhaCifragem)
    }

    fn decifrar(&self, _id: &IdChave, _pacote: &PacoteCifrado, _aad: &[u8]) -> Resultado<BytesProtegidos> {
        Err(ErroJabuti::FalhaDecifragem)
    }

    fn destruir_chave(&mut self, _id: &IdChave) -> Resultado<()> {
        Ok(())
    }

    fn existe_chave(&self, _id: &IdChave) -> Resultado<bool> {
        Ok(false)
    }

    fn nivel_protecao(&self) -> NivelProtecao {
        NivelProtecao::SoftwareTemporario
    }
}

#[test]
fn recusa_do_cofre_ao_criar_chave_e_devolvida() {
    let mut jabuti = Jabuti::novo(CofreRecusaCriar { cifrar_chamado: AtomicBool::new(false) });

    assert_eq!(
        jabuti
            .proteger("recusa", CategoriaRegistro::Mensagem, b"x", b"")
            .err(),
        Some(ErroJabuti::CofreIndisponivel("cota esgotada".into()))
    );
    assert!(!jabuti.cofre().cifrar_chamado.load(std::sync::atomic::Ordering::SeqCst));
}

#[test]
fn cofre_memoria_abre_apos_falha_de_criacao_repetida() {
    let mut cofre = CofreMemoria::novo();
    let id = IdChave::novo("dup");
    cofre.criar_chave(&id).expect("criar");
    let pacote = cofre.cifrar(&id, b"antes", b"").expect("cifrar");
    assert!(matches!(cofre.criar_chave(&id), Err(ErroJabuti::ChaveJaExiste(ref m)) if m == "dup"));
    assert_eq!(cofre.decifrar(&id, &pacote, b"").expect("decifrar").como_bytes(), b"antes");
}

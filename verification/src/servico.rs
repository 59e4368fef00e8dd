//! O serviço Jabuti: proteger, abrir, verificar e destruir registros.
use vstd::prelude::*;

use vstd::utf8::encode_utf8;
use crate::aad::{aad_spec, montar_aad};
use crate::aead::msg_nonce_invalido;
use crate::cofre::{mesmas_respostas_fora, resposta_existe, vista_protegida, CofreDeChaves};
use crate::configuracao::ConfiguracaoJabuti;
use crate::erro::{ErroJabuti, Resultado, VistaErro};
use crate::primitivas::{bytes_aleatorios, duracao_desde_epoca, instante_atual, sha256, sha256_spec, texto_uuid_v4, uuid_v4_texto, BytesProtegidos};
use crate::texto::{decimal, eh_digito_hex_ascii, hex_minusculo, lema_hex_comprimento, so_espacos, texto_decimal, texto_hex, vazio_apos_aparar};
use crate::tipos::{
    rotulo_spec, CategoriaRegistro, ComprovanteDestruicao, EstadoIntegridade, IdChave, PacoteCifrado,
    MomentoUtc, RegistroCifrado, VistaCategoria,
};

verus! {

pub const VERSAO_REGISTRO: u16 = 1;

pub const VERSAO_TOMBSTONE: u16 = 1;

pub const TAG_GCM_BYTES: usize = 16;

/// Nome do algoritmo gravado nos registros.
pub open spec fn algoritmo_spec() -> Seq<char> {
    "AES-256-GCM"@
}

/// Identificador de chave: `jabuti:<rótulo>:<id do registro>:<uuid>`.
pub open spec fn id_chave_spec(categoria: VistaCategoria, id_registro: Seq<char>, uuid: Seq<char>) -> Seq<char> {
    "jabuti:"@ + rotulo_spec(categoria) + ":"@ + id_registro + ":"@ + uuid
}

/// `prefixo` seguido de `n` em decimal e de ` bytes`.
pub open spec fn msg_excede(prefixo: Seq<char>, n: nat) -> Seq<char> {
    prefixo + decimal(n) + " bytes"@
}

/// Erro que a validação de entrada de `proteger` dá, se algum.
pub open spec fn espec_erro_entrada(cfg: ConfiguracaoJabuti, id_registro: Seq<char>, n_plaintext: nat, n_contexto: nat) -> Option<VistaErro> {
    if so_espacos(id_registro) {
        Some(VistaErro::RegistroInvalido("id_registro não pode ser vazio"@))
    } else if encode_utf8(id_registro).len() > cfg.tamanho_maximo_id {
        Some(VistaErro::LimiteExcedido(msg_excede("id_registro excede "@, cfg.tamanho_maximo_id as nat)))
    } else if n_plaintext > cfg.tamanho_maximo_plaintext {
        Some(VistaErro::LimiteExcedido(msg_excede("plaintext excede "@, cfg.tamanho_maximo_plaintext as nat)))
    } else if n_contexto > cfg.tamanho_maximo_contexto {
        Some(VistaErro::LimiteExcedido(msg_excede("contexto_extra excede "@, cfg.tamanho_maximo_contexto as nat)))
    } else {
        None
    }
}

/// O texto tem 64 bytes UTF-8, todos dígitos hexadecimais ASCII.
pub open spec fn sha_hex_valido(s: Seq<char>) -> bool {
    let b = encode_utf8(s);
    &&& b.len() == 64
    &&& forall|i: int| 0 <= i < 64 ==> #[trigger] eh_digito_hex_ascii(b[i])
}

/// Maior ciphertext aceito: o plaintext máximo mais a tag, saturando em `usize::MAX`.
pub open spec fn limite_cifrado(cfg: ConfiguracaoJabuti) -> int {
    if cfg.tamanho_maximo_plaintext + TAG_GCM_BYTES > usize::MAX {
        usize::MAX as int
    } else {
        cfg.tamanho_maximo_plaintext + TAG_GCM_BYTES
    }
}

/// Erro que a validação de formato de um registro persistido dá, se algum.
pub open spec fn espec_erro_formato(cfg: ConfiguracaoJabuti, reg: RegistroCifrado) -> Option<VistaErro> {
    if reg.versao != VERSAO_REGISTRO {
        Some(VistaErro::RegistroInvalido("versão "@ + decimal(reg.versao as nat) + " não suportada"@))
    } else if reg.algoritmo@ != algoritmo_spec() {
        Some(VistaErro::RegistroInvalido("algoritmo não suportado: "@ + reg.algoritmo@))
    } else if so_espacos(reg.id_registro@) {
        Some(VistaErro::RegistroInvalido("id_registro vazio"@))
    } else if encode_utf8(reg.id_registro@).len() > cfg.tamanho_maximo_id {
        Some(VistaErro::LimiteExcedido("id_registro persistido excede o limite"@))
    } else if so_espacos(reg.id_chave@) {
        Some(VistaErro::RegistroInvalido("id_chave vazio"@))
    } else if reg.nonce@.len() != 12 {
        Some(VistaErro::RegistroInvalido(msg_nonce_invalido()))
    } else if reg.conteudo_cifrado@.len() < TAG_GCM_BYTES {
        Some(VistaErro::RegistroInvalido("ciphertext menor que a tag GCM"@))
    } else if reg.conteudo_cifrado@.len() > limite_cifrado(cfg) {
        Some(VistaErro::LimiteExcedido("ciphertext persistido excede o limite"@))
    } else if reg.contexto_extra@.len() > cfg.tamanho_maximo_contexto {
        Some(VistaErro::LimiteExcedido("contexto_extra persistido excede o limite"@))
    } else if !sha_hex_valido(reg.sha256_cifrado@) {
        Some(VistaErro::RegistroInvalido("sha256_cifrado deve ser hexadecimal SHA-256"@))
    } else {
        None
    }
}

/// SHA-256 do ciphertext em hexadecimal minúsculo.
pub open spec fn sha_hex_spec(conteudo: Seq<u8>) -> Seq<char> {
    hex_minusculo(sha256_spec(conteudo))
}

/// AAD que autentica um registro.
pub open spec fn aad_registro(reg: RegistroCifrado) -> Seq<u8> {
    aad_spec(reg.versao, reg.id_registro@, reg.id_chave@, reg.categoria@, reg.contexto_extra@)
}

/// Resposta de `abrir` para um cofre neste estado.
pub open spec fn espec_abrir<C: CofreDeChaves>(cofre: C, cfg: ConfiguracaoJabuti, reg: RegistroCifrado) -> Result<Seq<u8>, VistaErro> {
    match espec_erro_formato(cfg, reg) {
        Some(e) => Err(e),
        None => if sha_hex_spec(reg.conteudo_cifrado@) != reg.sha256_cifrado@ {
            Err(VistaErro::IntegridadeInvalida)
        } else {
            match resposta_existe(cofre, reg.id_chave@) {
                Err(e) => Err(e),
                Ok(false) => Err(VistaErro::ChaveNaoEncontrada(reg.id_chave@)),
                Ok(true) => cofre.resposta_decifrar(reg.id_chave@, reg.nonce@, reg.conteudo_cifrado@, aad_registro(reg)),
            }
        },
    }
}

/// Resposta de `verificar_integridade` para um cofre neste estado.
pub open spec fn espec_verificar<C: CofreDeChaves>(cofre: C, cfg: ConfiguracaoJabuti, reg: RegistroCifrado) -> Result<EstadoIntegridade, VistaErro> {
    match espec_erro_formato(cfg, reg) {
        Some(e) => Err(e),
        None => if sha_hex_spec(reg.conteudo_cifrado@) != reg.sha256_cifrado@ {
            Ok(EstadoIntegridade::HashDivergente)
        } else {
            match resposta_existe(cofre, reg.id_chave@) {
                Err(e) => Err(e),
                Ok(false) => Ok(EstadoIntegridade::ChaveAusente),
                Ok(true) => match espec_abrir(cofre, cfg, reg) {
                    Ok(_) => Ok(EstadoIntegridade::Integro),
                    Err(VistaErro::FalhaDecifragem) => Ok(EstadoIntegridade::AutenticacaoInvalida),
                    Err(e) => Err(e),
                },
            }
        },
    }
}

pub open spec fn msg_chave_persiste() -> Seq<char> {
    "o cofre informou sucesso, mas a chave ainda existe"@
}

/// `destruir` remove a chave: o registro é bem formado, a chave existe, o
/// registro abre sob ela e o cofre aceita a remoção.
pub open spec fn destruir_remove<C: CofreDeChaves>(antes: C, cfg: ConfiguracaoJabuti, reg: RegistroCifrado) -> bool {
    &&& espec_erro_formato(cfg, reg) is None
    &&& resposta_existe(antes, reg.id_chave@) == Ok::<bool, VistaErro>(true)
    &&& espec_abrir(antes, cfg, reg) is Ok
    &&& antes.falha_destruir(reg.id_chave@) is None
}

/// Estado do cofre depois de `destruir`.
pub open spec fn estado_apos_destruir<C: CofreDeChaves>(antes: C, depois: C, cfg: ConfiguracaoJabuti, reg: RegistroCifrado) -> bool {
    if destruir_remove(antes, cfg, reg) {
        &&& depois.chaves() == antes.chaves().remove(reg.id_chave@)
        &&& mesmas_respostas_fora(antes, depois, reg.id_chave@)
    } else {
        depois == antes
    }
}

/// Resposta de `destruir`: em caso de sucesso, se a chave já estava ausente.
pub open spec fn espec_destruir<C: CofreDeChaves>(antes: C, depois: C, cfg: ConfiguracaoJabuti, reg: RegistroCifrado) -> Result<bool, VistaErro> {
    match espec_erro_formato(cfg, reg) {
        Some(e) => Err(e),
        None => match resposta_existe(antes, reg.id_chave@) {
            Err(e) => Err(e),
            Ok(false) => Ok(true),
            Ok(true) => match espec_abrir(antes, cfg, reg) {
                Err(e) => Err(e),
                Ok(_) => match antes.falha_destruir(reg.id_chave@) {
                    Some(e) => Err(e),
                    None => match resposta_existe(depois, reg.id_chave@) {
                        Err(e) => Err(e),
                        Ok(true) => Err(VistaErro::CofreIndisponivel(msg_chave_persiste())),
                        Ok(false) => Ok(false),
                    },
                },
            },
        },
    }
}

/// O relógio do sistema não pôde ser lido: o resultado é `Sincronizacao`.
pub open spec fn relogio_falhou<T>(r: Resultado<T>) -> bool {
    r matches Err(e) && e@ == VistaErro::Sincronizacao
}

pub open spec fn mesmo_resultado<T>(r: Resultado<T>, s: Result<T, VistaErro>) -> bool {
    match r {
        Ok(x) => s == Ok::<T, VistaErro>(x),
        Err(e) => s == Err::<T, VistaErro>(e@),
    }
}


/// Campos do comprovante copiados do registro destruído.
pub open spec fn comprovante_de(c: ComprovanteDestruicao, reg: RegistroCifrado) -> bool {
    &&& c.versao == VERSAO_TOMBSTONE
    &&& c.id_registro@ == reg.id_registro@
    &&& c.id_chave@ == reg.id_chave@
    &&& c.sha256_cifrado@ == reg.sha256_cifrado@
}

/// `reg` é o que `proteger` devolve para estas entradas, levando o cofre de
/// `antes` a `depois`: uma chave nova só deste registro, que decifra o
/// ciphertext de volta ao plaintext.
pub open spec fn protegido<C: CofreDeChaves>(
    antes: C,
    depois: C,
    cfg: ConfiguracaoJabuti,
    reg: RegistroCifrado,
    id_registro: Seq<char>,
    categoria: VistaCategoria,
    plaintext: Seq<u8>,
    contexto: Seq<u8>,
) -> bool {
    &&& espec_erro_entrada(cfg, id_registro, plaintext.len(), contexto.len()) is None
    &&& reg.versao == VERSAO_REGISTRO
    &&& reg.id_registro@ == id_registro
    &&& exists|b: Seq<u8>| b.len() == 16 && reg.id_chave@ == id_chave_spec(categoria, id_registro, #[trigger] uuid_v4_texto(b))
    &&& reg.categoria@ == categoria
    &&& reg.algoritmo@ == algoritmo_spec()
    &&& reg.nonce@.len() == 12
    &&& reg.conteudo_cifrado@.len() == plaintext.len() + TAG_GCM_BYTES
    &&& reg.conteudo_cifrado@.len() <= usize::MAX
    &&& reg.sha256_cifrado@ == sha_hex_spec(reg.conteudo_cifrado@)
    &&& reg.sha256_cifrado@.len() == 64
    &&& reg.contexto_extra@ == contexto
    &&& !antes.chaves().contains(reg.id_chave@)
    &&& depois.chaves() == antes.chaves().insert(reg.id_chave@)
    &&& mesmas_respostas_fora(antes, depois, reg.id_chave@)
    &&& depois.resposta_decifrar(reg.id_chave@, reg.nonce@, reg.conteudo_cifrado@, aad_registro(reg)) == Ok::<Seq<u8>, VistaErro>(plaintext)
}

/// O cofre recusou criar a chave `k` com o erro `e` e ficou como estava.
pub open spec fn criar_recusado<C: CofreDeChaves>(antes: C, depois: C, k: Seq<char>, e: VistaErro) -> bool {
    &&& depois == antes
    &&& antes.admite_falha_criar(k, e)
}

/// O cofre criou a chave nova `k` (estado `criado`), recusou cifrar com ela
/// dando o erro `e`, e a chave foi apagada de volta; ou ficou, porque o
/// cofre recusou apagá-la.
pub open spec fn cifrar_recusado<C: CofreDeChaves>(antes: C, criado: C, depois: C, k: Seq<char>, e: VistaErro) -> bool {
    &&& !antes.chaves().contains(k)
    &&& criado.chaves() == antes.chaves().insert(k)
    &&& mesmas_respostas_fora(antes, criado, k)
    &&& criado.admite_falha_cifrar(k, e)
    &&& match criado.falha_destruir(k) {
        Some(_) => depois == criado,
        None => {
            &&& depois.chaves() == criado.chaves().remove(k)
            &&& mesmas_respostas_fora(criado, depois, k)
        },
    }
}

/// Desfecho de `proteger` com o relógio lido (`momento`) e a chave do
/// registro fixada (`k`): o registro protegido, com essa chave e esse
/// instante; ou a recusa do cofre, ao criar ou ao usar a chave, com o erro
/// que o cofre deu.
pub open spec fn desfecho_protecao<C: CofreDeChaves>(
    antes: C,
    depois: C,
    cfg: ConfiguracaoJabuti,
    r: Resultado<RegistroCifrado>,
    id_registro: Seq<char>,
    categoria: VistaCategoria,
    plaintext: Seq<u8>,
    contexto: Seq<u8>,
    k: Seq<char>,
    momento: MomentoUtc,
) -> bool {
    match r {
        Ok(reg) => {
            &&& protegido(antes, depois, cfg, reg, id_registro, categoria, plaintext, contexto)
            &&& reg.id_chave@ == k
            &&& reg.criado_em_utc == momento
        },
        Err(e) => {
            ||| criar_recusado(antes, depois, k, e@)
            ||| exists|criado: C| #[trigger] cifrar_recusado(antes, criado, depois, k, e@)
        },
    }
}

/// Um `proteger` de entrada válida falhou com `e`, levando o cofre de `antes`
/// a `depois`: o relógio (`Sincronizacao`) ou o gerador aleatório
/// (`FalhaCifragem`) falharam antes de tocar no cofre; ou o próprio cofre
/// deu `e` ao criar ou ao usar a chave nova do registro.
pub open spec fn falha_proteger<C: CofreDeChaves>(
    antes: C,
    depois: C,
    categoria: VistaCategoria,
    id_registro: Seq<char>,
    e: VistaErro,
) -> bool {
    ||| ((e == VistaErro::Sincronizacao || e == VistaErro::FalhaCifragem) && depois == antes)
    ||| exists|b: Seq<u8>|
        b.len() == 16 && criar_recusado(antes, depois, id_chave_spec(categoria, id_registro, #[trigger] uuid_v4_texto(b)), e)
    ||| exists|b: Seq<u8>, criado: C|
        b.len() == 16 && #[trigger] cifrar_recusado(antes, criado, depois, id_chave_spec(categoria, id_registro, uuid_v4_texto(b)), e)
}

/// Identificador de chave de um registro, dado o texto do UUID.
pub fn compor_id_chave(categoria: &CategoriaRegistro, id_registro: &str, uuid: &str) -> (r: IdChave)
    ensures
        r@ == id_chave_spec(categoria@, id_registro@, uuid@),
{
    let rotulo = categoria.rotulo_chave();
    let mut texto_id = String::from_str("jabuti:");
    texto_id.append(rotulo.as_str());
    texto_id.append(":");
    texto_id.append(id_registro);
    texto_id.append(":");
    texto_id.append(uuid);
    IdChave::novo(texto_id.as_str())
}

fn msg_excede_exec(prefixo: &str, n: usize) -> (r: String)
    ensures
        r@ == msg_excede(prefixo@, n as nat),
{
    let mut r = String::from_str(prefixo);
    let d = texto_decimal(n as u64);
    r.append(d.as_str());
    r.append(" bytes");
    r
}

/// SHA-256 hexadecimal minúsculo.
fn sha256_hex(bytes: &[u8]) -> (r: String)
    ensures
        r@ == sha_hex_spec(bytes@),
        r@ == hex_minusculo(sha256_spec(bytes@)),
        r@.len() == 64,
{
    let d = sha256(bytes);
    proof {
        lema_hex_comprimento(d@);
    }
    texto_hex(d.as_slice())
}

fn sha_hex_ok(s: &str) -> (r: bool)
    ensures
        r == sha_hex_valido(s@),
{
    let b = s.as_bytes();
    if b.len() != 64 {
        return false;
    }
    let mut i: usize = 0;
    while i < 64
        invariant
            b@ == encode_utf8(s@),
            b@.len() == 64,
            i <= 64,
            forall|j: int| 0 <= j < i ==> #[trigger] eh_digito_hex_ascii(b@[j]),
        decreases 64 - i,
    {
        let x = b[i];
        if !((0x30 <= x && x <= 0x39) || (0x41 <= x && x <= 0x46) || (0x61 <= x && x <= 0x66)) {
            assert(!eh_digito_hex_ascii(b@[i as int]));
            return false;
        }
        i = i + 1;
    }
    true
}

/// Instante em tempo Unix a partir da leitura do relógio (segundos e
/// nanossegundos desde 1970); `None` quando não houve leitura ou os segundos
/// passam do que `i64` conta.
pub fn momento_de_duracao(d: Option<(u64, u32)>) -> (r: Option<MomentoUtc>)
    ensures
        r == (match d {
            Some((s, n)) => if s <= i64::MAX {
                Some(MomentoUtc { segundos: s as i64, nanossegundos: n })
            } else {
                None
            },
            None => None,
        }),
{
    match d {
        Some((segundos, nanossegundos)) => {
            if segundos <= i64::MAX as u64 {
                Some(MomentoUtc { segundos: segundos as i64, nanossegundos })
            } else {
                None
            }
        },
        None => None,
    }
}

/// Instante atual do relógio do sistema, em tempo Unix; `None` quando o
/// relógio marca um instante anterior a 1970 ou além do que `i64` conta.
fn momento_atual() -> (r: Option<MomentoUtc>)
    ensures
        r matches Some(m) ==> m.segundos >= 0 && m.nanossegundos < 1_000_000_000,
{
    let agora = instante_atual();
    momento_de_duracao(duracao_desde_epoca(&agora))
}

/// Comprovante da destruição de `registro`, datado do instante `momento`;
/// sem instante (o relógio não pôde ser lido), `Sincronizacao`.
pub fn comprovante_destruicao(
    registro: &RegistroCifrado,
    chave_ja_ausente: bool,
    momento: Option<MomentoUtc>,
) -> (r: Resultado<ComprovanteDestruicao>)
    ensures
        match momento {
            None => relogio_falhou(r),
            Some(m) => r matches Ok(c) && comprovante_de(c, *registro) && c.chave_ja_ausente == chave_ja_ausente
                && c.destruido_em_utc == m,
        },
{
    match momento {
        None => Err(ErroJabuti::Sincronizacao),
        Some(destruido_em_utc) => Ok(ComprovanteDestruicao {
            versao: VERSAO_TOMBSTONE,
            id_registro: registro.id_registro.clone(),
            id_chave: registro.id_chave.duplicar(),
            sha256_cifrado: registro.sha256_cifrado.clone(),
            destruido_em_utc,
            chave_ja_ausente,
        }),
    }
}

/// Núcleo Jabuti sobre um cofre de chaves.
pub struct Jabuti<C: CofreDeChaves> {
    cofre: C,
    configuracao: ConfiguracaoJabuti,
}

impl<C: CofreDeChaves> Jabuti<C> {
    /// O cofre neste estado.
    pub closed spec fn cofre_atual(&self) -> C {
        self.cofre
    }

    /// Os limites configurados.
    pub closed spec fn config_atual(&self) -> ConfiguracaoJabuti {
        self.configuracao
    }

    pub fn novo(cofre: C) -> (r: Self)
        ensures
            r.cofre_atual() == cofre,
            r.config_atual().tamanho_maximo_plaintext == 32 * 1024 * 1024,
            r.config_atual().tamanho_maximo_contexto == 16 * 1024,
            r.config_atual().tamanho_maximo_id == 512,
    {
        Self::com_configuracao(cofre, ConfiguracaoJabuti::default())
    }

    pub fn com_configuracao(cofre: C, configuracao: ConfiguracaoJabuti) -> (r: Self)
        ensures
            r.cofre_atual() == cofre,
            r.config_atual() == configuracao,
    {
        Jabuti { cofre, configuracao }
    }

    pub fn cofre(&self) -> (r: &C)
        ensures
            *r == self.cofre_atual(),
    {
        &self.cofre
    }

    pub fn configuracao(&self) -> (r: &ConfiguracaoJabuti)
        ensures
            *r == self.config_atual(),
    {
        &self.configuracao
    }

    /// Cifra o conteúdo antes da persistência, com uma chave nova só deste registro.
    ///
    /// Se o cofre recusar criar a chave ou cifrar, o seu erro é devolvido tal
    /// como veio; se a cifragem falhar depois de criada a chave, a chave é
    /// destruída. O instante de criação vem do relógio do sistema, lido antes
    /// de tocar no cofre.
    pub fn proteger(
        &mut self,
        id_registro: &str,
        categoria: CategoriaRegistro,
        plaintext: &[u8],
        contexto_extra: &[u8],
    ) -> (r: Resultado<RegistroCifrado>)
        requires
            contexto_extra@.len() <= isize::MAX,
        ensures
            final(self).config_atual() == old(self).config_atual(),
            espec_erro_entrada(old(self).config_atual(), id_registro@, plaintext@.len(), contexto_extra@.len()) matches Some(e)
                ==> (r matches Err(x) && x@ == e && final(self).cofre_atual() == old(self).cofre_atual()),
            r matches Ok(reg) ==> reg.criado_em_utc.segundos >= 0 && reg.criado_em_utc.nanossegundos < 1_000_000_000,
            r matches Ok(reg) ==> reg.sha256_cifrado@ == hex_minusculo(sha256_spec(reg.conteudo_cifrado@)),
            r matches Ok(reg) ==> protegido(
                old(self).cofre_atual(),
                final(self).cofre_atual(),
                old(self).config_atual(),
                reg,
                id_registro@,
                categoria@,
                plaintext@,
                contexto_extra@,
            ),
            espec_erro_entrada(old(self).config_atual(), id_registro@, plaintext@.len(), contexto_extra@.len()) is None
                ==> (r matches Err(x) ==> falha_proteger(
                old(self).cofre_atual(),
                final(self).cofre_atual(),
                categoria@,
                id_registro@,
                x@,
            )),
    {
        let momento = momento_atual();
        let aleatorio = bytes_aleatorios(16);
        let r = self.proteger_com(id_registro, categoria, plaintext, contexto_extra, momento, aleatorio);
        proof {
            if aleatorio is Some {
                let b = aleatorio.unwrap()@;
                assert(uuid_v4_texto(b) == uuid_v4_texto(b));
            }
        }
        r
    }

    /// `proteger` com a leitura do relógio e os 16 bytes aleatórios do UUID
    /// dados. Sem leitura do relógio, `Sincronizacao`; sem os 16 bytes,
    /// `FalhaCifragem`; em ambos os casos o cofre não é tocado. Com os dois,
    /// a chave do registro é a do UUID desses bytes, o instante de criação é
    /// a leitura, e uma falha é a recusa do próprio cofre, devolvida tal como
    /// veio.
    pub fn proteger_com(
        &mut self,
        id_registro: &str,
        categoria: CategoriaRegistro,
        plaintext: &[u8],
        contexto_extra: &[u8],
        momento: Option<MomentoUtc>,
        aleatorio: Option<Vec<u8>>,
    ) -> (r: Resultado<RegistroCifrado>)
        requires
            contexto_extra@.len() <= isize::MAX,
        ensures
            final(self).config_atual() == old(self).config_atual(),
            r matches Ok(reg) ==> reg.sha256_cifrado@ == hex_minusculo(sha256_spec(reg.conteudo_cifrado@)),
            match espec_erro_entrada(old(self).config_atual(), id_registro@, plaintext@.len(), contexto_extra@.len()) {
                Some(e) => r matches Err(x) && x@ == e && final(self).cofre_atual() == old(self).cofre_atual(),
                None => if momento is None {
                    relogio_falhou(r) && final(self).cofre_atual() == old(self).cofre_atual()
                } else if !(aleatorio matches Some(b) && b@.len() == 16) {
                    r matches Err(x) && x@ == VistaErro::FalhaCifragem
                        && final(self).cofre_atual() == old(self).cofre_atual()
                } else {
                    desfecho_protecao(
                        old(self).cofre_atual(),
                        final(self).cofre_atual(),
                        old(self).config_atual(),
                        r,
                        id_registro@,
                        categoria@,
                        plaintext@,
                        contexto_extra@,
                        id_chave_spec(categoria@, id_registro@, uuid_v4_texto(aleatorio.unwrap()@)),
                        momento.unwrap(),
                    )
                },
            },
    {
        self.validar_entrada(id_registro, plaintext, contexto_extra)?;
        let criado_em_utc = match momento {
            Some(m) => m,
            None => return Err(ErroJabuti::Sincronizacao),
        };
        let aleatorio = match aleatorio {
            Some(b) => b,
            None => return Err(ErroJabuti::FalhaCifragem),
        };
        if aleatorio.len() != 16 {
            return Err(ErroJabuti::FalhaCifragem);
        }
        let uuid = texto_uuid_v4(aleatorio.as_slice());
        let id_chave = compor_id_chave(&categoria, id_registro, uuid.as_str());
        let aad = montar_aad(VERSAO_REGISTRO, id_registro, &id_chave, &categoria, contexto_extra);
        let ghost c0 = self.cofre;
        let ghost k = id_chave_spec(categoria@, id_registro@, uuid_v4_texto(aleatorio@));
        if let Err(erro) = self.cofre.criar_chave(&id_chave) {
            proof {
                assert(criar_recusado(c0, self.cofre, k, erro@));
            }
            return Err(erro);
        }
        let ghost c1 = self.cofre;
        let pacote = match self.cofre.cifrar(&id_chave, plaintext, aad.as_slice()) {
            Ok(p) => p,
            Err(erro) => {
                let _ = self.cofre.destruir_chave(&id_chave);
                proof {
                    assert(c1.chaves().remove(k) =~= c0.chaves());
                    assert(cifrar_recusado(c0, c1, self.cofre, k, erro@));
                }
                return Err(erro);
            },
        };
        // Um cofre que cumpre o contrato de `cifrar` nunca chega aqui; a
        // verificação protege contra implementações que não o cumprem.
        if pacote.nonce.len() != 12 || pacote.conteudo_cifrado.len() < TAG_GCM_BYTES {
            let _ = self.cofre.destruir_chave(&id_chave);
            return Err(ErroJabuti::RegistroInvalido(String::from_str("cofre retornou pacote AEAD inválido")));
        }
        let sha256_cifrado = sha256_hex(pacote.conteudo_cifrado.as_slice());
        let reg = RegistroCifrado {
            versao: VERSAO_REGISTRO,
            id_registro: id_registro.to_owned(),
            id_chave,
            categoria,
            algoritmo: String::from_str("AES-256-GCM"),
            nonce: pacote.nonce,
            sha256_cifrado,
            conteudo_cifrado: pacote.conteudo_cifrado,
            contexto_extra: vstd::slice::slice_to_vec(contexto_extra),
            criado_em_utc,
        };
        proof {
            assert(reg.id_chave@ == id_chave_spec(categoria@, id_registro@, uuid_v4_texto(aleatorio@)));
        }
        Ok(reg)
    }

    /// Abre um registro autenticado e devolve o plaintext num `Zeroizing`,
    /// que o zera ao ser descartado.
    pub fn abrir(&self, registro: &RegistroCifrado) -> (r: Resultado<BytesProtegidos>)
        requires
            registro.contexto_extra@.len() <= isize::MAX,
        ensures
            vista_protegida(r) == espec_abrir(self.cofre_atual(), self.config_atual(), *registro),
    {
        self.validar_formato(registro)?;
        let h = sha256_hex(registro.conteudo_cifrado.as_slice());
        if !(h == registro.sha256_cifrado) {
            return Err(ErroJabuti::IntegridadeInvalida);
        }
        if !self.cofre.existe_chave(&registro.id_chave)? {
            return Err(ErroJabuti::ChaveNaoEncontrada(registro.id_chave.como_str().to_owned()));
        }
        let aad = montar_aad(
            registro.versao,
            registro.id_registro.as_str(),
            &registro.id_chave,
            &registro.categoria,
            registro.contexto_extra.as_slice(),
        );
        let pacote = PacoteCifrado {
            nonce: vstd::slice::slice_to_vec(registro.nonce.as_slice()),
            conteudo_cifrado: vstd::slice::slice_to_vec(registro.conteudo_cifrado.as_slice()),
        };
        self.cofre.decifrar(&registro.id_chave, &pacote, aad.as_slice())
    }

    /// Verifica formato, hash, existência da chave e autenticação AEAD/AAD.
    pub fn verificar_integridade(&self, registro: &RegistroCifrado) -> (r: Resultado<EstadoIntegridade>)
        requires
            registro.contexto_extra@.len() <= isize::MAX,
        ensures
            mesmo_resultado(r, espec_verificar(self.cofre_atual(), self.config_atual(), *registro)),
    {
        self.validar_formato(registro)?;
        let h = sha256_hex(registro.conteudo_cifrado.as_slice());
        if !(h == registro.sha256_cifrado) {
            return Ok(EstadoIntegridade::HashDivergente);
        }
        if !self.cofre.existe_chave(&registro.id_chave)? {
            return Ok(EstadoIntegridade::ChaveAusente);
        }
        match self.abrir(registro) {
            Ok(_plaintext) => Ok(EstadoIntegridade::Integro),
            Err(ErroJabuti::FalhaDecifragem) => Ok(EstadoIntegridade::AutenticacaoInvalida),
            Err(erro) => Err(erro),
        }
    }

    /// Destrói a chave do registro.
    ///
    /// Quando a chave ainda existe, o registro é autenticado antes da
    /// destruição: um registro adulterado que aponte para a chave de outro
    /// registro não a apaga. A operação é idempotente: se a chave já estiver
    /// ausente, devolve um novo comprovante com `chave_ja_ausente = true`.
    /// O instante do comprovante é lido do relógio depois do trabalho no
    /// cofre; se o relógio não puder ser lido, a chave já foi tratada e o
    /// resultado é `Sincronizacao`.
    pub fn destruir(&mut self, registro: &RegistroCifrado) -> (r: Resultado<ComprovanteDestruicao>)
        requires
            registro.contexto_extra@.len() <= isize::MAX,
        ensures
            final(self).config_atual() == old(self).config_atual(),
            estado_apos_destruir(old(self).cofre_atual(), final(self).cofre_atual(), old(self).config_atual(), *registro),
            match espec_destruir(old(self).cofre_atual(), final(self).cofre_atual(), old(self).config_atual(), *registro) {
                Err(e) => r matches Err(x) && x@ == e,
                Ok(ja_ausente) => relogio_falhou(r) || (r matches Ok(c) && c.chave_ja_ausente == ja_ausente
                    && comprovante_de(c, *registro) && c.destruido_em_utc.segundos >= 0
                    && c.destruido_em_utc.nanossegundos < 1_000_000_000),
            },
    {
        let ja_ausente = self.apagar_chave_do_registro(registro)?;
        comprovante_destruicao(registro, ja_ausente, momento_atual())
    }

    /// `destruir` com o instante do comprovante dado.
    pub fn destruir_em(&mut self, registro: &RegistroCifrado, momento: Option<MomentoUtc>) -> (r: Resultado<ComprovanteDestruicao>)
        requires
            registro.contexto_extra@.len() <= isize::MAX,
        ensures
            final(self).config_atual() == old(self).config_atual(),
            estado_apos_destruir(old(self).cofre_atual(), final(self).cofre_atual(), old(self).config_atual(), *registro),
            match espec_destruir(old(self).cofre_atual(), final(self).cofre_atual(), old(self).config_atual(), *registro) {
                Err(e) => r matches Err(x) && x@ == e,
                Ok(ja_ausente) => match momento {
                    None => relogio_falhou(r),
                    Some(m) => r matches Ok(c) && c.chave_ja_ausente == ja_ausente && comprovante_de(c, *registro)
                        && c.destruido_em_utc == m,
                },
            },
    {
        let ja_ausente = self.apagar_chave_do_registro(registro)?;
        comprovante_destruicao(registro, ja_ausente, momento)
    }

    /// O trabalho de `destruir` no cofre; devolve se a chave já estava ausente.
    fn apagar_chave_do_registro(&mut self, registro: &RegistroCifrado) -> (r: Resultado<bool>)
        requires
            registro.contexto_extra@.len() <= isize::MAX,
        ensures
            final(self).config_atual() == old(self).config_atual(),
            estado_apos_destruir(old(self).cofre_atual(), final(self).cofre_atual(), old(self).config_atual(), *registro),
            mesmo_resultado(r, espec_destruir(old(self).cofre_atual(), final(self).cofre_atual(), old(self).config_atual(), *registro)),
    {
        self.validar_formato(registro)?;
        let ja_ausente = !self.cofre.existe_chave(&registro.id_chave)?;
        if !ja_ausente {
            let _plaintext = self.abrir(registro)?;
            self.cofre.destruir_chave(&registro.id_chave)?;
            if self.cofre.existe_chave(&registro.id_chave)? {
                return Err(ErroJabuti::CofreIndisponivel(String::from_str("o cofre informou sucesso, mas a chave ainda existe")));
            }
        }
        Ok(ja_ausente)
    }

    fn validar_entrada(&self, id_registro: &str, plaintext: &[u8], contexto: &[u8]) -> (r: Resultado<()>)
        ensures
            match espec_erro_entrada(self.config_atual(), id_registro@, plaintext@.len(), contexto@.len()) {
                Some(e) => r matches Err(x) && x@ == e,
                None => r is Ok,
            },
    {
        if vazio_apos_aparar(id_registro) {
            return Err(ErroJabuti::RegistroInvalido(String::from_str("id_registro não pode ser vazio")));
        }
        if id_registro.as_bytes().len() > self.configuracao.tamanho_maximo_id {
            return Err(ErroJabuti::LimiteExcedido(msg_excede_exec("id_registro excede ", self.configuracao.tamanho_maximo_id)));
        }
        if plaintext.len() > self.configuracao.tamanho_maximo_plaintext {
            return Err(ErroJabuti::LimiteExcedido(msg_excede_exec("plaintext excede ", self.configuracao.tamanho_maximo_plaintext)));
        }
        if contexto.len() > self.configuracao.tamanho_maximo_contexto {
            return Err(ErroJabuti::LimiteExcedido(msg_excede_exec("contexto_extra excede ", self.configuracao.tamanho_maximo_contexto)));
        }
        Ok(())
    }

    fn validar_formato(&self, registro: &RegistroCifrado) -> (r: Resultado<()>)
        ensures
            match espec_erro_formato(self.config_atual(), *registro) {
                Some(e) => r matches Err(x) && x@ == e,
                None => r is Ok,
            },
    {
        if registro.versao != VERSAO_REGISTRO {
            let mut m = String::from_str("versão ");
            let d = texto_decimal(registro.versao as u64);
            m.append(d.as_str());
            m.append(" não suportada");
            return Err(ErroJabuti::RegistroInvalido(m));
        }
        let algoritmo = String::from_str("AES-256-GCM");
        if registro.algoritmo != algoritmo {
            let mut m = String::from_str("algoritmo não suportado: ");
            m.append(registro.algoritmo.as_str());
            return Err(ErroJabuti::RegistroInvalido(m));
        }
        if vazio_apos_aparar(registro.id_registro.as_str()) {
            return Err(ErroJabuti::RegistroInvalido(String::from_str("id_registro vazio")));
        }
        if registro.id_registro.as_str().as_bytes().len() > self.configuracao.tamanho_maximo_id {
            return Err(ErroJabuti::LimiteExcedido(String::from_str("id_registro persistido excede o limite")));
        }
        if registro.id_chave.esta_vazio() {
            return Err(ErroJabuti::RegistroInvalido(String::from_str("id_chave vazio")));
        }
        if registro.nonce.len() != 12 {
            return Err(ErroJabuti::RegistroInvalido(String::from_str("nonce AES-GCM deve possuir 12 bytes")));
        }
        if registro.conteudo_cifrado.len() < TAG_GCM_BYTES {
            return Err(ErroJabuti::RegistroInvalido(String::from_str("ciphertext menor que a tag GCM")));
        }
        if registro.conteudo_cifrado.len() > self.configuracao.tamanho_maximo_plaintext.saturating_add(TAG_GCM_BYTES) {
            return Err(ErroJabuti::LimiteExcedido(String::from_str("ciphertext persistido excede o limite")));
        }
        if registro.contexto_extra.len() > self.configuracao.tamanho_maximo_contexto {
            return Err(ErroJabuti::LimiteExcedido(String::from_str("contexto_extra persistido excede o limite")));
        }
        if !sha_hex_ok(registro.sha256_cifrado.as_str()) {
            return Err(ErroJabuti::RegistroInvalido(String::from_str("sha256_cifrado deve ser hexadecimal SHA-256")));
        }
        Ok(())
    }
}

} // verus!

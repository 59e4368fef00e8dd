//! Tipos de dados do Jabuti.
use vstd::prelude::*;

use crate::texto::{eh_alfanumerico_ascii, so_espacos, vazio_apos_aparar};

verus! {

/// Identificador de uma chave no cofre.
#[derive(Debug, Clone, PartialEq, Eq, Hash)]
pub struct IdChave(String);

impl View for IdChave {
    type V = Seq<char>;

    closed spec fn view(&self) -> Seq<char> {
        self.0@
    }
}

impl IdChave {
    pub fn novo(valor: &str) -> (r: IdChave)
        ensures
            r@ == valor@,
    {
        IdChave(valor.to_owned())
    }

    pub fn como_str(&self) -> (r: &str)
        ensures
            r@ == self@,
    {
        self.0.as_str()
    }

    /// Cópia do identificador.
    pub fn duplicar(&self) -> (r: IdChave)
        ensures
            r@ == self@,
    {
        IdChave(self.0.clone())
    }

    /// Compara dois identificadores pelo texto.
    pub fn mesmo_id(&self, outro: &IdChave) -> (r: bool)
        ensures
            r == (self@ == outro@),
    {
        self.0 == outro.0
    }

    /// Verdadeiro quando o identificador fica vazio depois de aparar espaços.
    pub fn esta_vazio(&self) -> (r: bool)
        ensures
            r == so_espacos(self@),
    {
        vazio_apos_aparar(self.0.as_str())
    }
}

#[derive(Debug, Clone, PartialEq, Eq)]
pub enum CategoriaRegistro {
    Mensagem,
    Anexo,
    Cache,
    Outro(String),
}

pub enum VistaCategoria {
    Mensagem,
    Anexo,
    Cache,
    Outro(Seq<char>),
}

impl View for CategoriaRegistro {
    type V = VistaCategoria;

    open spec fn view(&self) -> VistaCategoria {
        match self {
            CategoriaRegistro::Mensagem => VistaCategoria::Mensagem,
            CategoriaRegistro::Anexo => VistaCategoria::Anexo,
            CategoriaRegistro::Cache => VistaCategoria::Cache,
            CategoriaRegistro::Outro(v) => VistaCategoria::Outro(v@),
        }
    }
}

/// Caracteres que um rótulo de categoria livre conserva.
pub open spec fn permitido_no_rotulo(c: char) -> bool {
    eh_alfanumerico_ascii(c) || c == '-' || c == '_' || c == '.'
}

/// Os caracteres permitidos de `s`, na ordem em que aparecem.
pub open spec fn filtrar_rotulo(s: Seq<char>) -> Seq<char>
    decreases s.len(),
{
    if s.len() == 0 {
        seq![]
    } else if permitido_no_rotulo(s.last()) {
        filtrar_rotulo(s.drop_last()).push(s.last())
    } else {
        filtrar_rotulo(s.drop_last())
    }
}

/// Os primeiros `n` elementos de `s` (todos, se houver menos).
pub open spec fn limitar<T>(s: Seq<T>, n: nat) -> Seq<T> {
    if s.len() <= n {
        s
    } else {
        s.take(n as int)
    }
}

/// Rótulo de categoria usado no identificador de chave.
pub open spec fn rotulo_spec(c: VistaCategoria) -> Seq<char> {
    match c {
        VistaCategoria::Mensagem => "mensagem"@,
        VistaCategoria::Anexo => "anexo"@,
        VistaCategoria::Cache => "cache"@,
        VistaCategoria::Outro(v) => {
            let limpo = limitar(filtrar_rotulo(v), 64);
            if limpo.len() == 0 {
                "outro"@
            } else {
                "outro-"@ + limpo
            }
        },
    }
}

pub proof fn lema_filtrar_rotulo_permitidos(s: Seq<char>)
    ensures
        forall|i: int| 0 <= i < filtrar_rotulo(s).len() ==> permitido_no_rotulo(#[trigger] filtrar_rotulo(s)[i]),
        filtrar_rotulo(s).len() <= s.len(),
    decreases s.len(),
{
    if s.len() > 0 {
        lema_filtrar_rotulo_permitidos(s.drop_last());
    }
}

fn permitido(c: char) -> (r: bool)
    ensures
        r == permitido_no_rotulo(c),
{
    ('0' <= c && c <= '9') || ('A' <= c && c <= 'Z') || ('a' <= c && c <= 'z') || c == '-' || c
        == '_' || c == '.'
}

impl CategoriaRegistro {
    /// Rótulo seguro da categoria: `Outro` conserva só ASCII alfanumérico,
    /// `-`, `_` e `.`, até 64 caracteres.
    pub fn rotulo_chave(&self) -> (r: String)
        ensures
            r@ == rotulo_spec(self@),
    {
        match self {
            CategoriaRegistro::Mensagem => String::from_str("mensagem"),
            CategoriaRegistro::Anexo => String::from_str("anexo"),
            CategoriaRegistro::Cache => String::from_str("cache"),
            CategoriaRegistro::Outro(valor) => {
                let mut limpo = String::new();
                let mut n: usize = 0;
                let ghost v = valor@;
                for c in it: valor.as_str().chars()
                    invariant
                        it.seq() == v,
                        n as int == limpo@.len(),
                        limpo@ == limitar(filtrar_rotulo(v.take(it.index() as int)), 64),
                {
                    let ghost k = it.index();
                    proof {
                        assert(v.take(k + 1).drop_last() =~= v.take(k as int));
                        assert(v.take(k + 1).last() == c);
                        let f = filtrar_rotulo(v.take(k as int));
                        if f.len() >= 64 {
                            assert(f.push(c).take(64) =~= f.take(64));
                        }
                    }
                    if n < 64 && permitido(c) {
                        limpo.push(c);
                        n = n + 1;
                    }
                }
                proof {
                    assert(v.take(v.len() as int) =~= v);
                }
                if n == 0 {
                    String::from_str("outro")
                } else {
                    let mut r = String::from_str("outro-");
                    r.append(limpo.as_str());
                    r
                }
            },
        }
    }
}

#[derive(Debug, Clone, Copy, PartialEq, Eq, Structural)]
pub enum NivelProtecao {
    /// Chave não exportável ou diretamente protegida por hardware seguro.
    Hardware,
    /// Chave guardada pelo mecanismo seguro nativo do sistema operacional.
    CofreDoSistema,
    /// Somente RAM. Adequado para testes, não para persistência de produção.
    SoftwareTemporario,
}

/// Resultado de uma cifragem AEAD: nonce e ciphertext com a tag ao final.
#[derive(Clone, PartialEq, Eq)]
pub struct PacoteCifrado {
    pub nonce: Vec<u8>,
    pub conteudo_cifrado: Vec<u8>,
}

/// Instante UTC: segundos desde a época Unix e a fração em nanossegundos.
#[derive(Debug, Clone, Copy, PartialEq, Eq, Structural)]
pub struct MomentoUtc {
    pub segundos: i64,
    pub nanossegundos: u32,
}

/// Registro persistível de um conteúdo cifrado.
#[derive(Clone)]
pub struct RegistroCifrado {
    pub versao: u16,
    pub id_registro: String,
    pub id_chave: IdChave,
    pub categoria: CategoriaRegistro,
    pub algoritmo: String,
    pub nonce: Vec<u8>,
    pub conteudo_cifrado: Vec<u8>,
    pub sha256_cifrado: String,
    /// Metadado autenticado e persistido em claro. Não coloque segredos aqui.
    pub contexto_extra: Vec<u8>,
    pub criado_em_utc: MomentoUtc,
}

#[derive(Debug, Clone, PartialEq, Eq, Structural)]
pub enum EstadoIntegridade {
    Integro,
    ChaveAusente,
    HashDivergente,
    AutenticacaoInvalida,
}

/// Comprovante (tombstone) da destruição de uma chave.
#[derive(Debug, Clone)]
pub struct ComprovanteDestruicao {
    pub versao: u16,
    pub id_registro: String,
    pub id_chave: IdChave,
    pub sha256_cifrado: String,
    pub destruido_em_utc: MomentoUtc,
    /// `true` quando a chamada foi repetida e a chave já não existia.
    pub chave_ja_ausente: bool,
}

} // verus!

use vstd::prelude::*;

verus! {

/// Erros do núcleo Jabuti.
#[derive(Debug, Clone, PartialEq, Eq)]
pub enum ErroJabuti {
    ChaveJaExiste(String),
    ChaveNaoEncontrada(String),
    ChaveCorrompida,
    RegistroInvalido(String),
    LimiteExcedido(String),
    IntegridadeInvalida,
    FalhaCifragem,
    FalhaDecifragem,
    FalhaSerializacao(String),
    CofreIndisponivel(String),
    /// O relógio do sistema marca um instante que não se registra (anterior
    /// a 1970), ou um cofre perdeu a sincronização do seu estado interno.
    Sincronizacao,
}

pub type Resultado<T> = Result<T, ErroJabuti>;

/// Valor matemático de um [`ErroJabuti`]: as mensagens vistas como sequências de caracteres.
pub enum VistaErro {
    ChaveJaExiste(Seq<char>),
    ChaveNaoEncontrada(Seq<char>),
    ChaveCorrompida,
    RegistroInvalido(Seq<char>),
    LimiteExcedido(Seq<char>),
    IntegridadeInvalida,
    FalhaCifragem,
    FalhaDecifragem,
    FalhaSerializacao(Seq<char>),
    CofreIndisponivel(Seq<char>),
    Sincronizacao,
}

impl View for ErroJabuti {
    type V = VistaErro;

    open spec fn view(&self) -> VistaErro {
        match self {
            ErroJabuti::ChaveJaExiste(m) => VistaErro::ChaveJaExiste(m@),
            ErroJabuti::ChaveNaoEncontrada(m) => VistaErro::ChaveNaoEncontrada(m@),
            ErroJabuti::ChaveCorrompida => VistaErro::ChaveCorrompida,
            ErroJabuti::RegistroInvalido(m) => VistaErro::RegistroInvalido(m@),
            ErroJabuti::LimiteExcedido(m) => VistaErro::LimiteExcedido(m@),
            ErroJabuti::IntegridadeInvalida => VistaErro::IntegridadeInvalida,
            ErroJabuti::FalhaCifragem => VistaErro::FalhaCifragem,
            ErroJabuti::FalhaDecifragem => VistaErro::FalhaDecifragem,
            ErroJabuti::FalhaSerializacao(m) => VistaErro::FalhaSerializacao(m@),
            ErroJabuti::CofreIndisponivel(m) => VistaErro::CofreIndisponivel(m@),
            ErroJabuti::Sincronizacao => VistaErro::Sincronizacao,
        }
    }
}

/// Vista de um resultado: o valor de sucesso pela sua vista, o erro pela vista do erro.
pub open spec fn vista_resultado<T: View>(r: Resultado<T>) -> Result<T::V, VistaErro> {
    match r {
        Ok(v) => Ok(v@),
        Err(e) => Err(e@),
    }
}

/// Texto legível do erro, como a aplicação o mostra ao usuário.
pub open spec fn descricao_spec(e: VistaErro) -> Seq<char> {
    match e {
        VistaErro::ChaveJaExiste(m) => "chave já existe: "@ + m,
        VistaErro::ChaveNaoEncontrada(m) => "chave não encontrada: "@ + m,
        VistaErro::ChaveCorrompida => "material de chave inválido ou corrompido"@,
        VistaErro::RegistroInvalido(m) => "registro inválido: "@ + m,
        VistaErro::LimiteExcedido(m) => "limite excedido: "@ + m,
        VistaErro::IntegridadeInvalida => "falha de integridade do ciphertext"@,
        VistaErro::FalhaCifragem => "falha ao cifrar conteúdo"@,
        VistaErro::FalhaDecifragem => "falha ao decifrar conteúdo ou autenticar AAD"@,
        VistaErro::FalhaSerializacao(m) => "falha ao serializar contexto autenticado: "@ + m,
        VistaErro::CofreIndisponivel(m) => "cofre de chaves indisponível: "@ + m,
        VistaErro::Sincronizacao => "erro interno de sincronização"@,
    }
}

impl ErroJabuti {
    /// Mensagem legível do erro.
    pub fn descricao(&self) -> (r: String)
        ensures
            r@ == descricao_spec(self@),
    {
        match self {
            ErroJabuti::ChaveJaExiste(m) => prefixar("chave já existe: ", m),
            ErroJabuti::ChaveNaoEncontrada(m) => prefixar("chave não encontrada: ", m),
            ErroJabuti::ChaveCorrompida => String::from_str("material de chave inválido ou corrompido"),
            ErroJabuti::RegistroInvalido(m) => prefixar("registro inválido: ", m),
            ErroJabuti::LimiteExcedido(m) => prefixar("limite excedido: ", m),
            ErroJabuti::IntegridadeInvalida => String::from_str("falha de integridade do ciphertext"),
            ErroJabuti::FalhaCifragem => String::from_str("falha ao cifrar conteúdo"),
            ErroJabuti::FalhaDecifragem => String::from_str("falha ao decifrar conteúdo ou autenticar AAD"),
            ErroJabuti::FalhaSerializacao(m) => prefixar("falha ao serializar contexto autenticado: ", m),
            ErroJabuti::CofreIndisponivel(m) => prefixar("cofre de chaves indisponível: ", m),
            ErroJabuti::Sincronizacao => String::from_str("erro interno de sincronização"),
        }
    }
}

fn prefixar(prefixo: &str, m: &String) -> (r: String)
    ensures
        r@ == prefixo@ + m@,
{
    let mut r = String::from_str(prefixo);
    r.append(m.as_str());
    r
}

} // verus!

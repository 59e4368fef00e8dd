//! Autoteste do núcleo: protege um conteúdo, confere que ele não aparece no
//! ciphertext, abre e compara, verifica a integridade, destrói a chave e
//! confere que ela deixou de existir. Nenhum plaintext é devolvido.
use vstd::prelude::*;

use crate::cofre::CofreDeChaves;
use crate::configuracao::ConfiguracaoJabuti;
use crate::erro::{ErroJabuti, VistaErro};
use crate::inspecao::{contem_trecho, mesmos_bytes, ocorre_em};
use crate::servico::{
    espec_abrir, espec_destruir, espec_erro_entrada, espec_verificar, estado_apos_destruir, falha_proteger,
    protegido, Jabuti,
};
use crate::tipos::{CategoriaRegistro, EstadoIntegridade, RegistroCifrado, VistaCategoria};

verus! {

/// Por que o autoteste reprovou.
#[derive(Debug, Clone, PartialEq, Eq)]
pub enum FalhaAutoteste {
    /// Uma operação do núcleo falhou.
    Nucleo(ErroJabuti),
    /// O plaintext apareceu, contíguo, no ciphertext.
    PlaintextNoCiphertext,
    /// Abrir o registro não devolveu o plaintext protegido.
    RoundTripDivergente,
    /// O registro recém-protegido não se verificou íntegro.
    IntegridadeInesperada,
    /// Depois da destruição, a verificação não disse que a chave falta.
    ChavePermaneceu,
}

/// O plaintext (não vazio) aparece contíguo no ciphertext do registro.
pub open spec fn plaintext_a_vista(reg: RegistroCifrado, plaintext: Seq<u8>) -> bool {
    plaintext.len() > 0 && exists|i: int| #[trigger] ocorre_em(reg.conteudo_cifrado@, plaintext, i)
}

/// `proteger` levou o cofre de `c0` a `c1` e devolveu `reg`, e a inspeção do
/// ciphertext (feita só no autoteste completo) passou.
pub open spec fn protegeu<C: CofreDeChaves>(
    c0: C,
    c1: C,
    cfg: ConfiguracaoJabuti,
    reg: RegistroCifrado,
    id_registro: Seq<char>,
    plaintext: Seq<u8>,
    contexto: Seq<u8>,
    completo: bool,
) -> bool {
    &&& protegido(c0, c1, cfg, reg, id_registro, VistaCategoria::Mensagem, plaintext, contexto)
    &&& !(completo && plaintext_a_vista(reg, plaintext))
}

/// O registro abriu no estado `c` com o plaintext protegido, e (no autoteste
/// completo) se verificou íntegro.
pub open spec fn abriu_integro<C: CofreDeChaves>(c: C, cfg: ConfiguracaoJabuti, reg: RegistroCifrado, plaintext: Seq<u8>, completo: bool) -> bool {
    &&& espec_abrir(c, cfg, reg) == Ok::<Seq<u8>, VistaErro>(plaintext)
    &&& completo ==> espec_verificar(c, cfg, reg) == Ok::<EstadoIntegridade, VistaErro>(EstadoIntegridade::Integro)
}

/// `destruir` levou o cofre de `c1` a `c2` com sucesso.
pub open spec fn destruiu<C: CofreDeChaves>(c1: C, c2: C, cfg: ConfiguracaoJabuti, reg: RegistroCifrado) -> bool {
    &&& estado_apos_destruir(c1, c2, cfg, reg)
    &&& espec_destruir(c1, c2, cfg, reg) is Ok
}

/// Todos os passos do autoteste, de `c0` a `c2` passando por `c1`, deram o
/// resultado esperado.
pub open spec fn autoteste_aprovado<C: CofreDeChaves>(
    c0: C,
    c1: C,
    c2: C,
    cfg: ConfiguracaoJabuti,
    reg: RegistroCifrado,
    id_registro: Seq<char>,
    plaintext: Seq<u8>,
    contexto: Seq<u8>,
    completo: bool,
) -> bool {
    &&& protegeu(c0, c1, cfg, reg, id_registro, plaintext, contexto, completo)
    &&& abriu_integro(c1, cfg, reg, plaintext, completo)
    &&& destruiu(c1, c2, cfg, reg)
    &&& espec_verificar(c2, cfg, reg) == Ok::<EstadoIntegridade, VistaErro>(EstadoIntegridade::ChaveAusente)
}

/// `proteger` falhou com `e`, levando o cofre de `c0` a `c2`.
pub open spec fn proteger_falhou<C: CofreDeChaves>(
    c0: C,
    c2: C,
    cfg: ConfiguracaoJabuti,
    id_registro: Seq<char>,
    plaintext: Seq<u8>,
    contexto: Seq<u8>,
    e: VistaErro,
) -> bool {
    match espec_erro_entrada(cfg, id_registro, plaintext.len(), contexto.len()) {
        Some(x) => e == x && c2 == c0,
        None => falha_proteger(c0, c2, VistaCategoria::Mensagem, id_registro, e),
    }
}

/// O autoteste reprovou com `f` depois de `proteger` ter dado `reg`: o passo
/// em que parou deu o que `f` diz, e os anteriores deram o esperado.
pub open spec fn reprovado_apos_proteger<C: CofreDeChaves>(
    c0: C,
    c1: C,
    c2: C,
    cfg: ConfiguracaoJabuti,
    reg: RegistroCifrado,
    id_registro: Seq<char>,
    plaintext: Seq<u8>,
    contexto: Seq<u8>,
    completo: bool,
    f: FalhaAutoteste,
) -> bool {
    match f {
        FalhaAutoteste::PlaintextNoCiphertext => {
            &&& completo
            &&& protegido(c0, c2, cfg, reg, id_registro, VistaCategoria::Mensagem, plaintext, contexto)
            &&& plaintext_a_vista(reg, plaintext)
        },
        FalhaAutoteste::RoundTripDivergente => {
            &&& protegeu(c0, c2, cfg, reg, id_registro, plaintext, contexto, completo)
            &&& espec_abrir(c2, cfg, reg) matches Ok(p) && p != plaintext
        },
        FalhaAutoteste::IntegridadeInesperada => {
            &&& completo
            &&& protegeu(c0, c2, cfg, reg, id_registro, plaintext, contexto, completo)
            &&& espec_abrir(c2, cfg, reg) == Ok::<Seq<u8>, VistaErro>(plaintext)
            &&& espec_verificar(c2, cfg, reg) matches Ok(s) && s != EstadoIntegridade::Integro
        },
        FalhaAutoteste::ChavePermaneceu => {
            &&& protegeu(c0, c1, cfg, reg, id_registro, plaintext, contexto, completo)
            &&& abriu_integro(c1, cfg, reg, plaintext, completo)
            &&& destruiu(c1, c2, cfg, reg)
            &&& espec_verificar(c2, cfg, reg) matches Ok(s) && s != EstadoIntegridade::ChaveAusente
        },
        FalhaAutoteste::Nucleo(x) => {
            let e = x@;
            ||| (protegeu(c0, c2, cfg, reg, id_registro, plaintext, contexto, completo)
                && espec_abrir(c2, cfg, reg) == Err::<Seq<u8>, VistaErro>(e))
            ||| (completo && protegeu(c0, c2, cfg, reg, id_registro, plaintext, contexto, completo)
                && espec_abrir(c2, cfg, reg) == Ok::<Seq<u8>, VistaErro>(plaintext)
                && espec_verificar(c2, cfg, reg) == Err::<EstadoIntegridade, VistaErro>(e))
            ||| (protegeu(c0, c1, cfg, reg, id_registro, plaintext, contexto, completo)
                && abriu_integro(c1, cfg, reg, plaintext, completo)
                && estado_apos_destruir(c1, c2, cfg, reg)
                && (espec_destruir(c1, c2, cfg, reg) == Err::<bool, VistaErro>(e)
                    || (espec_destruir(c1, c2, cfg, reg) is Ok && e == VistaErro::Sincronizacao)))
            ||| (protegeu(c0, c1, cfg, reg, id_registro, plaintext, contexto, completo)
                && abriu_integro(c1, cfg, reg, plaintext, completo)
                && destruiu(c1, c2, cfg, reg)
                && espec_verificar(c2, cfg, reg) == Err::<EstadoIntegridade, VistaErro>(e))
        },
    }
}

/// Roda o autoteste sobre o serviço dado, com a categoria `Mensagem`. No
/// autoteste completo também se confere que o plaintext não aparece no
/// ciphertext e que o registro se verifica íntegro antes da destruição.
fn executar_autoteste<C: CofreDeChaves>(
    jabuti: &mut Jabuti<C>,
    id_registro: &str,
    plaintext: &[u8],
    contexto: &[u8],
    completo: bool,
) -> (r: Result<(), FalhaAutoteste>)
    requires
        contexto@.len() <= isize::MAX,
    ensures
        final(jabuti).config_atual() == old(jabuti).config_atual(),
        r is Ok ==> exists|c1: C, reg: RegistroCifrado| #[trigger] autoteste_aprovado(
            old(jabuti).cofre_atual(), c1, final(jabuti).cofre_atual(), old(jabuti).config_atual(), reg,
            id_registro@, plaintext@, contexto@, completo),
        r matches Err(f) ==> {
            ||| (f matches FalhaAutoteste::Nucleo(e) && proteger_falhou(old(jabuti).cofre_atual(),
                final(jabuti).cofre_atual(), old(jabuti).config_atual(), id_registro@, plaintext@, contexto@, e@))
            ||| exists|c1: C, reg: RegistroCifrado| #[trigger] reprovado_apos_proteger(
                old(jabuti).cofre_atual(), c1, final(jabuti).cofre_atual(), old(jabuti).config_atual(), reg,
                id_registro@, plaintext@, contexto@, completo, f)
        },
{
    let ghost c0 = jabuti.cofre_atual();
    let ghost cfg = jabuti.config_atual();
    let registro = match jabuti.proteger(id_registro, CategoriaRegistro::Mensagem, plaintext, contexto) {
        Ok(r) => r,
        Err(e) => {
            proof {
                assert(proteger_falhou(c0, jabuti.cofre_atual(), cfg, id_registro@, plaintext@, contexto@, e@));
            }
            return Err(FalhaAutoteste::Nucleo(e));
        },
    };
    let ghost c1 = jabuti.cofre_atual();
    if completo && plaintext.len() > 0 && contem_trecho(registro.conteudo_cifrado.as_slice(), plaintext) {
        proof {
            assert(reprovado_apos_proteger(c0, c1, c1, cfg, registro, id_registro@, plaintext@, contexto@, completo,
                FalhaAutoteste::PlaintextNoCiphertext));
        }
        return Err(FalhaAutoteste::PlaintextNoCiphertext);
    }
    assert(protegeu(c0, c1, cfg, registro, id_registro@, plaintext@, contexto@, completo));
    let aberto = match jabuti.abrir(&registro) {
        Ok(a) => a,
        Err(e) => {
            proof {
                assert(reprovado_apos_proteger(c0, c1, c1, cfg, registro, id_registro@, plaintext@, contexto@, completo,
                    FalhaAutoteste::Nucleo(e)));
            }
            return Err(FalhaAutoteste::Nucleo(e));
        },
    };
    if !mesmos_bytes(aberto.como_bytes(), plaintext) {
        proof {
            assert(reprovado_apos_proteger(c0, c1, c1, cfg, registro, id_registro@, plaintext@, contexto@, completo,
                FalhaAutoteste::RoundTripDivergente));
        }
        return Err(FalhaAutoteste::RoundTripDivergente);
    }
    if completo {
        match jabuti.verificar_integridade(&registro) {
            Ok(EstadoIntegridade::Integro) => {},
            Ok(_) => {
                proof {
                    assert(reprovado_apos_proteger(c0, c1, c1, cfg, registro, id_registro@, plaintext@, contexto@, completo,
                        FalhaAutoteste::IntegridadeInesperada));
                }
                return Err(FalhaAutoteste::IntegridadeInesperada);
            },
            Err(e) => {
                proof {
                    assert(reprovado_apos_proteger(c0, c1, c1, cfg, registro, id_registro@, plaintext@, contexto@, completo,
                        FalhaAutoteste::Nucleo(e)));
                }
                return Err(FalhaAutoteste::Nucleo(e));
            },
        }
    }
    assert(abriu_integro(c1, cfg, registro, plaintext@, completo));
    if let Err(e) = jabuti.destruir(&registro) {
        proof {
            assert(reprovado_apos_proteger(c0, c1, jabuti.cofre_atual(), cfg, registro, id_registro@, plaintext@, contexto@,
                completo, FalhaAutoteste::Nucleo(e)));
        }
        return Err(FalhaAutoteste::Nucleo(e));
    }
    let ghost c2 = jabuti.cofre_atual();
    assert(destruiu(c1, c2, cfg, registro));
    match jabuti.verificar_integridade(&registro) {
        Ok(EstadoIntegridade::ChaveAusente) => {
            proof {
                assert(autoteste_aprovado(c0, c1, c2, cfg, registro, id_registro@, plaintext@, contexto@, completo));
            }
            Ok(())
        },
        Ok(_) => {
            proof {
                assert(reprovado_apos_proteger(c0, c1, c2, cfg, registro, id_registro@, plaintext@, contexto@, completo,
                    FalhaAutoteste::ChavePermaneceu));
            }
            Err(FalhaAutoteste::ChavePermaneceu)
        },
        Err(e) => {
            proof {
                assert(reprovado_apos_proteger(c0, c1, c2, cfg, registro, id_registro@, plaintext@, contexto@, completo,
                    FalhaAutoteste::Nucleo(e)));
            }
            Err(FalhaAutoteste::Nucleo(e))
        },
    }
}

/// Autoteste completo do núcleo: proteger, conferir que o plaintext não
/// aparece no ciphertext, abrir e comparar, verificar a integridade,
/// destruir e conferir que a chave deixou de existir.
pub fn autoteste_nucleo<C: CofreDeChaves>(
    jabuti: &mut Jabuti<C>,
    id_registro: &str,
    plaintext: &[u8],
    contexto: &[u8],
) -> (r: Result<(), FalhaAutoteste>)
    requires
        contexto@.len() <= isize::MAX,
    ensures
        final(jabuti).config_atual() == old(jabuti).config_atual(),
        r is Ok ==> exists|c1: C, reg: RegistroCifrado| #[trigger] autoteste_aprovado(
            old(jabuti).cofre_atual(), c1, final(jabuti).cofre_atual(), old(jabuti).config_atual(), reg,
            id_registro@, plaintext@, contexto@, true),
        r matches Err(f) ==> {
            ||| (f matches FalhaAutoteste::Nucleo(e) && proteger_falhou(old(jabuti).cofre_atual(),
                final(jabuti).cofre_atual(), old(jabuti).config_atual(), id_registro@, plaintext@, contexto@, e@))
            ||| exists|c1: C, reg: RegistroCifrado| #[trigger] reprovado_apos_proteger(
                old(jabuti).cofre_atual(), c1, final(jabuti).cofre_atual(), old(jabuti).config_atual(), reg,
                id_registro@, plaintext@, contexto@, true, f)
        },
{
    executar_autoteste(jabuti, id_registro, plaintext, contexto, true)
}

/// Autoteste de um cofre: proteger, abrir e comparar, destruir e conferir
/// que a chave deixou de existir.
pub fn autoteste_cofre<C: CofreDeChaves>(
    jabuti: &mut Jabuti<C>,
    id_registro: &str,
    plaintext: &[u8],
    contexto: &[u8],
) -> (r: Result<(), FalhaAutoteste>)
    requires
        contexto@.len() <= isize::MAX,
    ensures
        final(jabuti).config_atual() == old(jabuti).config_atual(),
        r is Ok ==> exists|c1: C, reg: RegistroCifrado| #[trigger] autoteste_aprovado(
            old(jabuti).cofre_atual(), c1, final(jabuti).cofre_atual(), old(jabuti).config_atual(), reg,
            id_registro@, plaintext@, contexto@, false),
        r matches Err(f) ==> {
            ||| (f matches FalhaAutoteste::Nucleo(e) && proteger_falhou(old(jabuti).cofre_atual(),
                final(jabuti).cofre_atual(), old(jabuti).config_atual(), id_registro@, plaintext@, contexto@, e@))
            ||| exists|c1: C, reg: RegistroCifrado| #[trigger] reprovado_apos_proteger(
                old(jabuti).cofre_atual(), c1, final(jabuti).cofre_atual(), old(jabuti).config_atual(), reg,
                id_registro@, plaintext@, contexto@, false, f)
        },
{
    executar_autoteste(jabuti, id_registro, plaintext, contexto, false)
}

} // verus!

//! Propriedades do Jabuti que relacionam várias operações.
use vstd::prelude::*;

use vstd::utf8::{encode_utf8, is_ascii_chars, is_ascii_chars_encode_utf8};
use crate::cofre::CofreDeChaves;
use crate::configuracao::ConfiguracaoJabuti;
use crate::erro::VistaErro;
use crate::aad::lei_aad_injetivo;
use crate::autoteste::{reprovado_apos_proteger, FalhaAutoteste};
use crate::sistema::espec_erro_nome;
use crate::memoria::{msg_gerador_indisponivel, CofreMemoria};
use crate::servico::{
    aad_registro,
    destruir_remove, espec_abrir, espec_destruir, espec_erro_formato, espec_verificar, estado_apos_destruir,
    cifrar_recusado, criar_recusado, falha_proteger, id_chave_spec, protegido, sha_hex_spec, sha_hex_valido,
};
use crate::texto::{digito, eh_digito_hex_ascii, eh_espaco_branco, hex_minusculo, lema_hex_comprimento, so_espacos};
use crate::tipos::{lema_filtrar_rotulo_permitidos, permitido_no_rotulo, rotulo_spec, filtrar_rotulo, limitar, EstadoIntegridade, RegistroCifrado, VistaCategoria};
use crate::primitivas::{base64_codifica, base64_decodifica, bytes_uuid_v4, sha256_spec, uuid_v4_texto};

verus! {

proof fn lema_hex_digitos(b: Seq<u8>)
    ensures
        forall|i: int| 0 <= i < hex_minusculo(b).len() ==> exists|d: nat| d < 16 && #[trigger] hex_minusculo(b)[i] == digito(d),
    decreases b.len(),
{
    if b.len() > 0 {
        lema_hex_digitos(b.drop_last());
        let h = hex_minusculo(b);
        let a = hex_minusculo(b.drop_last());
        let d1 = (b.last() / 16) as nat;
        let d2 = (b.last() % 16) as nat;
        assert forall|i: int| 0 <= i < h.len() implies exists|d: nat| d < 16 && #[trigger] h[i] == digito(d) by {
            if i < a.len() {
                assert(h[i] == a[i]);
            } else if i == a.len() {
                assert(h[i] == digito(d1));
            } else {
                assert(h[i] == digito(d2));
            }
        }
    }
}

/// Os dois dígitos do byte `i` ocupam as posições `2i` e `2i + 1`.
proof fn lema_hex_posicao(b: Seq<u8>, i: int)
    requires
        0 <= i < b.len(),
    ensures
        hex_minusculo(b).len() == 2 * b.len(),
        hex_minusculo(b)[2 * i] == digito((b[i] / 16) as nat),
        hex_minusculo(b)[2 * i + 1] == digito((b[i] % 16) as nat),
    decreases b.len(),
{
    lema_hex_comprimento(b);
    lema_hex_comprimento(b.drop_last());
    if i < b.len() - 1 {
        lema_hex_posicao(b.drop_last(), i);
        assert(b.drop_last()[i] == b[i]);
    }
}

/// O texto de um UUID montado pelo serviço tem a forma de um UUID versão 4:
/// 36 caracteres, hífens nas posições 8, 13, 18 e 23, a versão `4` na
/// posição 14 e a variante RFC 4122 (`8`, `9`, `a` ou `b`) na posição 19.
pub proof fn lei_uuid_v4_forma(b: Seq<u8>)
    requires
        b.len() == 16,
    ensures
        uuid_v4_texto(b).len() == 36,
        uuid_v4_texto(b)[8] == '-',
        uuid_v4_texto(b)[13] == '-',
        uuid_v4_texto(b)[18] == '-',
        uuid_v4_texto(b)[23] == '-',
        uuid_v4_texto(b)[14] == '4',
        ({
            let v = uuid_v4_texto(b)[19];
            v == '8' || v == '9' || v == 'a' || v == 'b'
        }),
{
    let u = bytes_uuid_v4(b);
    let h = hex_minusculo(u);
    lema_hex_posicao(u, 6);
    lema_hex_posicao(u, 8);
    assert(u[6] / 16 == 4);
    assert(8 <= u[8] / 16 < 12);
    let t = uuid_v4_texto(b);
    assert(t[14] == h[12]);
    assert(t[19] == h[16]);
}

proof fn lema_sha_hex_valido(c: Seq<u8>)
    requires
        sha_hex_spec(c).len() == 64,
    ensures
        sha_hex_valido(sha_hex_spec(c)),
{
    let s = sha256_spec(c);
    let h = hex_minusculo(s);
    lema_hex_comprimento(s);
    lema_hex_digitos(s);
    assert(is_ascii_chars(h)) by {
        assert forall|i: int| 0 <= i < h.len() implies '\0' <= #[trigger] h[i] <= '\u{7f}' by {
            let d = choose|d: nat| d < 16 && h[i] == digito(d);
        }
    }
    is_ascii_chars_encode_utf8(h);
    let b = encode_utf8(h);
    assert forall|i: int| 0 <= i < 64 implies #[trigger] eh_digito_hex_ascii(b[i]) by {
        let d = choose|d: nat| d < 16 && h[i] == digito(d);
        assert(b[i] == h[i] as u8);
    }
}

proof fn lema_id_chave_nao_vazio(categoria: VistaCategoria, id_registro: Seq<char>, uuid: Seq<char>)
    ensures
        !so_espacos(id_chave_spec(categoria, id_registro, uuid)),
{
    reveal_strlit("jabuti:");
    let t = id_chave_spec(categoria, id_registro, uuid);
    assert(t[0] == 'j');
    assert(!eh_espaco_branco(t[0]));
}

/// Cada registro que `proteger` devolve passa na validação de formato e tem o
/// hash do próprio ciphertext.
pub proof fn lei_registro_protegido_valido<C: CofreDeChaves>(
    antes: C,
    depois: C,
    cfg: ConfiguracaoJabuti,
    reg: RegistroCifrado,
    id_registro: Seq<char>,
    categoria: VistaCategoria,
    plaintext: Seq<u8>,
    contexto: Seq<u8>,
)
    requires
        protegido(antes, depois, cfg, reg, id_registro, categoria, plaintext, contexto),
    ensures
        espec_erro_formato(cfg, reg) is None,
        sha_hex_spec(reg.conteudo_cifrado@) == reg.sha256_cifrado@,
{
    let b = choose|b: Seq<u8>| b.len() == 16 && reg.id_chave@ == id_chave_spec(categoria, id_registro, #[trigger] uuid_v4_texto(b));
    lema_id_chave_nao_vazio(categoria, id_registro, uuid_v4_texto(b));
    lema_sha_hex_valido(reg.conteudo_cifrado@);
}

/// Abrir um registro recém-protegido devolve o plaintext protegido, sempre
/// que o cofre responde à consulta de existência.
pub proof fn lei_abrir_devolve_protegido<C: CofreDeChaves>(
    antes: C,
    depois: C,
    cfg: ConfiguracaoJabuti,
    reg: RegistroCifrado,
    id_registro: Seq<char>,
    categoria: VistaCategoria,
    plaintext: Seq<u8>,
    contexto: Seq<u8>,
)
    requires
        protegido(antes, depois, cfg, reg, id_registro, categoria, plaintext, contexto),
        depois.falha_existe(reg.id_chave@) is None,
    ensures
        espec_abrir(depois, cfg, reg) == Ok::<Seq<u8>, VistaErro>(plaintext),
        espec_verificar(depois, cfg, reg) == Ok::<EstadoIntegridade, VistaErro>(EstadoIntegridade::Integro),
{
    lei_registro_protegido_valido(antes, depois, cfg, reg, id_registro, categoria, plaintext, contexto);
}

/// No cofre em memória, abrir um registro recém-protegido devolve sempre o plaintext.
pub proof fn lei_memoria_abrir_devolve_protegido(
    antes: CofreMemoria,
    depois: CofreMemoria,
    cfg: ConfiguracaoJabuti,
    reg: RegistroCifrado,
    id_registro: Seq<char>,
    categoria: VistaCategoria,
    plaintext: Seq<u8>,
    contexto: Seq<u8>,
)
    requires
        protegido(antes, depois, cfg, reg, id_registro, categoria, plaintext, contexto),
    ensures
        espec_abrir(depois, cfg, reg) == Ok::<Seq<u8>, VistaErro>(plaintext),
        espec_verificar(depois, cfg, reg) == Ok::<EstadoIntegridade, VistaErro>(EstadoIntegridade::Integro),
{
    lei_abrir_devolve_protegido(antes, depois, cfg, reg, id_registro, categoria, plaintext, contexto);
}

/// Dois registros protegidos um após o outro têm chaves distintas.
pub proof fn lei_chaves_distintas<C: CofreDeChaves>(
    c0: C,
    c1: C,
    c2: C,
    cfg: ConfiguracaoJabuti,
    a: RegistroCifrado,
    b: RegistroCifrado,
    id_a: Seq<char>,
    cat_a: VistaCategoria,
    p_a: Seq<u8>,
    ctx_a: Seq<u8>,
    id_b: Seq<char>,
    cat_b: VistaCategoria,
    p_b: Seq<u8>,
    ctx_b: Seq<u8>,
)
    requires
        protegido(c0, c1, cfg, a, id_a, cat_a, p_a, ctx_a),
        protegido(c1, c2, cfg, b, id_b, cat_b, p_b, ctx_b),
    ensures
        a.id_chave@ != b.id_chave@,
{
    assert(c1.chaves().contains(a.id_chave@));
}

/// Destruir de novo um registro já destruído devolve sucesso com a chave já
/// ausente e não muda o cofre.
pub proof fn lei_destruir_idempotente<C: CofreDeChaves>(
    antes: C,
    depois: C,
    depois2: C,
    cfg: ConfiguracaoJabuti,
    reg: RegistroCifrado,
)
    requires
        estado_apos_destruir(antes, depois, cfg, reg),
        espec_destruir(antes, depois, cfg, reg) is Ok,
        estado_apos_destruir(depois, depois2, cfg, reg),
    ensures
        depois2 == depois,
        espec_destruir(depois, depois2, cfg, reg) == Ok::<bool, VistaErro>(true),
{
}

/// Depois de uma destruição bem-sucedida a chave não está no cofre: abrir o
/// registro falha por chave ausente (ou por hash divergente) e a verificação
/// de integridade diz `ChaveAusente` (ou `HashDivergente`).
pub proof fn lei_apos_destruir<C: CofreDeChaves>(antes: C, depois: C, cfg: ConfiguracaoJabuti, reg: RegistroCifrado)
    requires
        estado_apos_destruir(antes, depois, cfg, reg),
        espec_destruir(antes, depois, cfg, reg) is Ok,
    ensures
        !depois.chaves().contains(reg.id_chave@),
        sha_hex_spec(reg.conteudo_cifrado@) == reg.sha256_cifrado@ ==> {
            &&& espec_abrir(depois, cfg, reg) == Err::<Seq<u8>, VistaErro>(VistaErro::ChaveNaoEncontrada(reg.id_chave@))
            &&& espec_verificar(depois, cfg, reg) == Ok::<EstadoIntegridade, VistaErro>(EstadoIntegridade::ChaveAusente)
        },
        sha_hex_spec(reg.conteudo_cifrado@) != reg.sha256_cifrado@ ==> {
            &&& espec_abrir(depois, cfg, reg) == Err::<Seq<u8>, VistaErro>(VistaErro::IntegridadeInvalida)
            &&& espec_verificar(depois, cfg, reg) == Ok::<EstadoIntegridade, VistaErro>(EstadoIntegridade::HashDivergente)
        },
{
}

/// `destruir` só apaga a chave do próprio registro, e só quando o registro
/// se autentica sob essa chave: um registro adulterado que aponte para a
/// chave de outro não a apaga.
pub proof fn lei_destruir_exige_autenticacao<C: CofreDeChaves>(antes: C, depois: C, cfg: ConfiguracaoJabuti, reg: RegistroCifrado)
    requires
        estado_apos_destruir(antes, depois, cfg, reg),
    ensures
        forall|k: Seq<char>| k != reg.id_chave@ ==> (#[trigger] depois.chaves().contains(k) == antes.chaves().contains(k)),
        depois.chaves().subset_of(antes.chaves()),
        antes.chaves().contains(reg.id_chave@) && !depois.chaves().contains(reg.id_chave@) ==> espec_abrir(antes, cfg, reg) is Ok,
{
}

/// No cofre em memória, um `proteger` de entrada válida que falha deixa o
/// conjunto de chaves como estava, e a falha é do relógio, do gerador
/// aleatório, ou a de uma chave que já existia com o identificador sorteado.
pub proof fn lei_memoria_falha_preserva_chaves(
    antes: CofreMemoria,
    depois: CofreMemoria,
    categoria: VistaCategoria,
    id_registro: Seq<char>,
    e: VistaErro,
)
    requires
        falha_proteger(antes, depois, categoria, id_registro, e),
    ensures
        depois.chaves() == antes.chaves(),
        ({
            ||| e == VistaErro::Sincronizacao
            ||| e == VistaErro::FalhaCifragem
            ||| e == VistaErro::CofreIndisponivel(msg_gerador_indisponivel())
            ||| (e matches VistaErro::ChaveJaExiste(k) && antes.chaves().contains(k))
        }),
{
    if exists|b: Seq<u8>, criado: CofreMemoria|
        b.len() == 16 && #[trigger] cifrar_recusado(antes, criado, depois, id_chave_spec(categoria, id_registro, uuid_v4_texto(b)), e)
    {
        let (b, criado) = choose|b: Seq<u8>, criado: CofreMemoria|
            b.len() == 16 && #[trigger] cifrar_recusado(antes, criado, depois, id_chave_spec(categoria, id_registro, uuid_v4_texto(b)), e);
        let k = id_chave_spec(categoria, id_registro, uuid_v4_texto(b));
        assert(criado.chaves().remove(k) =~= antes.chaves());
        assert(criado.chaves().contains(k));
        assert(criado.material(k) is Some);
    } else if exists|b: Seq<u8>|
        b.len() == 16 && criar_recusado(antes, depois, id_chave_spec(categoria, id_registro, #[trigger] uuid_v4_texto(b)), e)
    {
        let b = choose|b: Seq<u8>|
            b.len() == 16 && criar_recusado(antes, depois, id_chave_spec(categoria, id_registro, #[trigger] uuid_v4_texto(b)), e);
        let k = id_chave_spec(categoria, id_registro, uuid_v4_texto(b));
        assert(antes.admite_falha_criar(k, e));
        if e == VistaErro::ChaveJaExiste(k) {
            assert(antes.chaves().contains(k));
        }
    } else {
        assert(e == VistaErro::Sincronizacao || e == VistaErro::FalhaCifragem);
    }
}

/// O rótulo de categoria que entra no identificador de chave só tem ASCII
/// alfanumérico, `-`, `_` e `.`, e no máximo 70 caracteres.
pub proof fn lei_rotulo_seguro(c: VistaCategoria)
    ensures
        forall|i: int| 0 <= i < rotulo_spec(c).len() ==> permitido_no_rotulo(#[trigger] rotulo_spec(c)[i]),
        rotulo_spec(c).len() <= 70,
{
    reveal_strlit("mensagem");
    reveal_strlit("anexo");
    reveal_strlit("cache");
    reveal_strlit("outro");
    reveal_strlit("outro-");
    match c {
        VistaCategoria::Outro(v) => {
            lema_filtrar_rotulo_permitidos(v);
            let f = filtrar_rotulo(v);
            let l = limitar(f, 64);
            assert forall|i: int| 0 <= i < l.len() implies permitido_no_rotulo(#[trigger] l[i]) by {
                assert(l[i] == f[i]);
            }
            if l.len() > 0 {
                let r = "outro-"@ + l;
                assert forall|i: int| 0 <= i < r.len() implies permitido_no_rotulo(#[trigger] r[i]) by {
                    if i >= 6 {
                        assert(r[i] == l[i - 6]);
                    }
                }
            }
        },
        _ => {},
    }
}

/// No cofre em memória, destruir um registro recém-protegido autentica o
/// registro, apaga a sua chave e devolve um comprovante com a chave presente
/// até então.
pub proof fn lei_memoria_destruir_protegido(
    antes: CofreMemoria,
    depois: CofreMemoria,
    depois2: CofreMemoria,
    cfg: ConfiguracaoJabuti,
    reg: RegistroCifrado,
    id_registro: Seq<char>,
    categoria: VistaCategoria,
    plaintext: Seq<u8>,
    contexto: Seq<u8>,
)
    requires
        protegido(antes, depois, cfg, reg, id_registro, categoria, plaintext, contexto),
        estado_apos_destruir(depois, depois2, cfg, reg),
    ensures
        destruir_remove(depois, cfg, reg),
        depois2.chaves() == antes.chaves(),
        espec_destruir(depois, depois2, cfg, reg) == Ok::<bool, VistaErro>(false),
{
    lei_abrir_devolve_protegido(antes, depois, cfg, reg, id_registro, categoria, plaintext, contexto);
    lei_registro_protegido_valido(antes, depois, cfg, reg, id_registro, categoria, plaintext, contexto);
    assert(depois2.chaves() =~= antes.chaves());
}


/// No cofre em memória, o autoteste só reprova por erro de uma operação do
/// núcleo ou por plaintext à vista no ciphertext: abrir o registro
/// recém-protegido devolve o plaintext, ele se verifica íntegro, e depois de
/// uma destruição bem-sucedida a verificação diz que a chave falta.
pub proof fn lei_memoria_autoteste(
    c0: CofreMemoria,
    c1: CofreMemoria,
    c2: CofreMemoria,
    cfg: ConfiguracaoJabuti,
    reg: RegistroCifrado,
    id_registro: Seq<char>,
    plaintext: Seq<u8>,
    contexto: Seq<u8>,
    completo: bool,
)
    ensures
        !reprovado_apos_proteger(c0, c1, c2, cfg, reg, id_registro, plaintext, contexto, completo,
            FalhaAutoteste::RoundTripDivergente),
        !reprovado_apos_proteger(c0, c1, c2, cfg, reg, id_registro, plaintext, contexto, completo,
            FalhaAutoteste::IntegridadeInesperada),
        !reprovado_apos_proteger(c0, c1, c2, cfg, reg, id_registro, plaintext, contexto, completo,
            FalhaAutoteste::ChavePermaneceu),
{
    let m = VistaCategoria::Mensagem;
    if protegido(c0, c2, cfg, reg, id_registro, m, plaintext, contexto) {
        lei_memoria_abrir_devolve_protegido(c0, c2, cfg, reg, id_registro, m, plaintext, contexto);
    }
    if protegido(c0, c1, cfg, reg, id_registro, m, plaintext, contexto) {
        lei_registro_protegido_valido(c0, c1, cfg, reg, id_registro, m, plaintext, contexto);
        if estado_apos_destruir(c1, c2, cfg, reg) && espec_destruir(c1, c2, cfg, reg) is Ok {
            lei_apos_destruir(c1, c2, cfg, reg);
        }
    }
}


/// O hash gravado num registro protegido é o SHA-256, em hexadecimal
/// minúsculo, do ciphertext inteiro (com a tag GCM).
pub proof fn lei_hash_do_registro_protegido<C: CofreDeChaves>(
    antes: C,
    depois: C,
    cfg: ConfiguracaoJabuti,
    reg: RegistroCifrado,
    id_registro: Seq<char>,
    categoria: VistaCategoria,
    plaintext: Seq<u8>,
    contexto: Seq<u8>,
)
    requires
        protegido(antes, depois, cfg, reg, id_registro, categoria, plaintext, contexto),
    ensures
        reg.sha256_cifrado@ == hex_minusculo(sha256_spec(reg.conteudo_cifrado@)),
        reg.sha256_cifrado@.len() == 64,
{
}

/// Num registro bem formado, o hash decide a integridade do ciphertext: se
/// o hash gravado não é o SHA-256 hexadecimal do ciphertext inteiro, abrir
/// dá `IntegridadeInvalida` e a verificação `HashDivergente`; se é, a
/// verificação nunca diz `HashDivergente`.
pub proof fn lei_hash_decide_integridade<C: CofreDeChaves>(cofre: C, cfg: ConfiguracaoJabuti, reg: RegistroCifrado)
    requires
        espec_erro_formato(cfg, reg) is None,
    ensures
        reg.sha256_cifrado@ != hex_minusculo(sha256_spec(reg.conteudo_cifrado@)) ==> {
            &&& espec_abrir(cofre, cfg, reg) == Err::<Seq<u8>, VistaErro>(VistaErro::IntegridadeInvalida)
            &&& espec_verificar(cofre, cfg, reg) == Ok::<EstadoIntegridade, VistaErro>(EstadoIntegridade::HashDivergente)
        },
        reg.sha256_cifrado@ == hex_minusculo(sha256_spec(reg.conteudo_cifrado@))
            ==> espec_verificar(cofre, cfg, reg) != Ok::<EstadoIntegridade, VistaErro>(EstadoIntegridade::HashDivergente),
{
}

/// No cofre em memória, um registro bem formado cujo hash é o do ciphertext
/// inteiro nunca é recusado por integridade ao ser aberto.
pub proof fn lei_memoria_hash_integro(cofre: CofreMemoria, cfg: ConfiguracaoJabuti, reg: RegistroCifrado)
    requires
        espec_erro_formato(cfg, reg) is None,
        reg.sha256_cifrado@ == hex_minusculo(sha256_spec(reg.conteudo_cifrado@)),
    ensures
        espec_abrir(cofre, cfg, reg) != Err::<Seq<u8>, VistaErro>(VistaErro::IntegridadeInvalida),
        espec_verificar(cofre, cfg, reg) != Ok::<EstadoIntegridade, VistaErro>(EstadoIntegridade::HashDivergente),
{
}

/// O AAD de um registro amarra os seus metadados: dois registros com o mesmo
/// AAD têm a mesma versão, o mesmo id de registro, a mesma chave, a mesma
/// categoria e o mesmo Base64 do contexto (e o mesmo contexto, quando esse
/// Base64 decodifica de volta). Mover um ciphertext para outro registro ou
/// trocar a sua categoria muda o AAD sob o qual ele é autenticado.
pub proof fn lei_aad_registro_vincula_metadados(r1: RegistroCifrado, r2: RegistroCifrado)
    requires
        aad_registro(r1) == aad_registro(r2),
    ensures
        r1.versao == r2.versao,
        r1.id_registro@ == r2.id_registro@,
        r1.id_chave@ == r2.id_chave@,
        r1.categoria@ == r2.categoria@,
        base64_codifica(r1.contexto_extra@) == base64_codifica(r2.contexto_extra@),
        base64_decodifica(base64_codifica(r1.contexto_extra@)) == Some(r1.contexto_extra@)
            && base64_decodifica(base64_codifica(r2.contexto_extra@)) == Some(r2.contexto_extra@)
            ==> r1.contexto_extra@ == r2.contexto_extra@,
{
    lei_aad_injetivo(
        r1.versao, r1.id_registro@, r1.id_chave@, r1.categoria@, r1.contexto_extra@,
        r2.versao, r2.id_registro@, r2.id_chave@, r2.categoria@, r2.contexto_extra@,
    );
}

/// Um nome de serviço ou namespace só é recusado quando é vazio (depois de
/// aparar) ou passa de 200 bytes UTF-8; todo outro nome é aceito.
pub proof fn lei_nome_aceito(campo: Seq<char>, valor: Seq<char>)
    ensures
        espec_erro_nome(campo, valor) is None <==> (!so_espacos(valor) && encode_utf8(valor).len() <= 200),
{
}

} // verus!

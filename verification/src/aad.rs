//! Dados associados (AAD) de um registro: um documento JSON com separação de
//! domínio que amarra o ciphertext aos metadados do registro.
use vstd::prelude::*;

use vstd::utf8::{encode_utf8, encode_utf8_decode_utf8};
use crate::json::{json_texto, lema_digito_injetivo, lema_json_texto_delimitado};
use crate::primitivas::{base64_codifica, base64_codificar, base64_decodifica, texto_json};
use crate::texto::{decimal, digito, texto_decimal};
use crate::tipos::{CategoriaRegistro, IdChave, VistaCategoria};

verus! {

/// Objeto JSON da categoria, etiquetado por `tipo`; em `outro`, `valor_json`
/// é o literal JSON do texto livre.
pub open spec fn objeto_categoria(c: VistaCategoria, valor_json: Seq<char>) -> Seq<char> {
    match c {
        VistaCategoria::Mensagem => "{\"tipo\":\"mensagem\"}"@,
        VistaCategoria::Anexo => "{\"tipo\":\"anexo\"}"@,
        VistaCategoria::Cache => "{\"tipo\":\"cache\"}"@,
        VistaCategoria::Outro(_) => "{\"tipo\":\"outro\",\"valor\":"@ + valor_json + "}"@,
    }
}

/// Objeto JSON do contexto autenticado, dados já os literais JSON de cada
/// campo de texto, na ordem fixa do formato.
pub open spec fn documento_aad(
    versao: u16,
    id_registro_json: Seq<char>,
    id_chave_json: Seq<char>,
    categoria_json: Seq<char>,
    contexto_json: Seq<char>,
) -> Seq<char> {
    "{\"dominio\":\"JABUTI-REGISTRO-AEAD-V1\",\"versao\":"@ + decimal(versao as nat)
        + ",\"algoritmo\":\"AES-256-GCM\",\"id_registro\":"@ + id_registro_json
        + ",\"id_chave\":"@ + id_chave_json + ",\"categoria\":"@ + categoria_json
        + ",\"contexto_extra_base64\":"@ + contexto_json + "}"@
}

/// Literal JSON do valor livre de uma categoria `outro` (vazio nas demais).
pub open spec fn valor_categoria_json(c: VistaCategoria) -> Seq<char> {
    match c {
        VistaCategoria::Outro(v) => json_texto(v),
        _ => Seq::empty(),
    }
}

/// Texto JSON do contexto autenticado.
pub open spec fn texto_aad(
    versao: u16,
    id_registro: Seq<char>,
    id_chave: Seq<char>,
    categoria: VistaCategoria,
    contexto: Seq<u8>,
) -> Seq<char> {
    documento_aad(
        versao,
        json_texto(id_registro),
        json_texto(id_chave),
        objeto_categoria(categoria, valor_categoria_json(categoria)),
        json_texto(base64_codifica(contexto)),
    )
}

/// Bytes UTF-8 do AAD.
pub open spec fn aad_spec(
    versao: u16,
    id_registro: Seq<char>,
    id_chave: Seq<char>,
    categoria: VistaCategoria,
    contexto: Seq<u8>,
) -> Seq<u8> {
    encode_utf8(texto_aad(versao, id_registro, id_chave, categoria, contexto))
}

proof fn lema_remove_prefixo(p: Seq<char>, a: Seq<char>, b: Seq<char>)
    requires
        p + a == p + b,
    ensures
        a == b,
{
    assert(a =~= (p + a).subrange(p.len() as int, (p + a).len() as int));
    assert(b =~= (p + b).subrange(p.len() as int, (p + b).len() as int));
}

/// A escrita decimal só tem dígitos.
proof fn lema_decimal_sem_virgula(n: nat)
    ensures
        decimal(n).len() >= 1,
        forall|i: int| 0 <= i < decimal(n).len() ==> #[trigger] decimal(n)[i] != ',',
    decreases n,
{
    if n >= 10 {
        lema_decimal_sem_virgula(n / 10);
        assert forall|i: int| 0 <= i < decimal(n).len() implies #[trigger] decimal(n)[i] != ',' by {
            if i < decimal(n / 10).len() {
                assert(decimal(n)[i] == decimal(n / 10)[i]);
            }
        }
    }
}

proof fn lema_decimal_injetivo(a: nat, b: nat)
    requires
        decimal(a) == decimal(b),
    ensures
        a == b,
    decreases a + b,
{
    lema_decimal_sem_virgula(a / 10);
    lema_decimal_sem_virgula(b / 10);
    if a >= 10 && b >= 10 {
        assert(decimal(a / 10) =~= decimal(a).drop_last());
        assert(decimal(b / 10) =~= decimal(b).drop_last());
        assert(digito(a % 10) == decimal(a).last());
        assert(digito(b % 10) == decimal(b).last());
        lema_digito_injetivo(a % 10, b % 10);
        lema_decimal_injetivo(a / 10, b / 10);
        assert(a == 10 * (a / 10) + a % 10);
        assert(b == 10 * (b / 10) + b % 10);
    } else if a < 10 && b < 10 {
        assert(decimal(a)[0] == digito(a));
        assert(decimal(b)[0] == digito(b));
        lema_digito_injetivo(a, b);
    } else if a < 10 {
        assert(decimal(b).len() >= 2);
    } else {
        assert(decimal(a).len() >= 2);
    }
}

/// Um número em decimal seguido de uma vírgula se delimita sozinho.
proof fn lema_decimal_delimitado(a: nat, b: nat, x: Seq<char>, y: Seq<char>)
    requires
        decimal(a) + x == decimal(b) + y,
        x.len() >= 1,
        y.len() >= 1,
        x[0] == ',',
        y[0] == ',',
    ensures
        a == b,
        x == y,
{
    lema_decimal_sem_virgula(a);
    lema_decimal_sem_virgula(b);
    let la = decimal(a).len() as int;
    let lb = decimal(b).len() as int;
    if la < lb {
        assert((decimal(a) + x)[la] == x[0]);
        assert((decimal(b) + y)[la] == decimal(b)[la]);
    } else if lb < la {
        assert((decimal(a) + x)[lb] == decimal(a)[lb]);
        assert((decimal(b) + y)[lb] == y[0]);
    }
    assert(decimal(a) =~= (decimal(a) + x).subrange(0, la));
    assert(decimal(b) =~= (decimal(b) + y).subrange(0, la));
    lema_decimal_injetivo(a, b);
    lema_remove_prefixo(decimal(a), x, y);
}

/// O objeto de categoria se delimita sozinho e determina a categoria.
proof fn lema_categoria_delimitada(c1: VistaCategoria, c2: VistaCategoria, x: Seq<char>, y: Seq<char>)
    requires
        objeto_categoria(c1, valor_categoria_json(c1)) + x == objeto_categoria(c2, valor_categoria_json(c2)) + y,
    ensures
        c1 == c2,
        x == y,
{
    reveal_strlit("{\"tipo\":\"mensagem\"}");
    reveal_strlit("{\"tipo\":\"anexo\"}");
    reveal_strlit("{\"tipo\":\"cache\"}");
    reveal_strlit("{\"tipo\":\"outro\",\"valor\":");
    reveal_strlit("}");
    let o1 = objeto_categoria(c1, valor_categoria_json(c1));
    let o2 = objeto_categoria(c2, valor_categoria_json(c2));
    assert(o1.len() > 9 && o2.len() > 9);
    assert((o1 + x)[9] == o1[9]);
    assert((o2 + y)[9] == o2[9]);
    if c1 is Outro && c2 is Outro {
        let v1 = c1->Outro_0;
        let v2 = c2->Outro_0;
        let p = "{\"tipo\":\"outro\",\"valor\":"@;
        assert(o1 + x =~= p + (json_texto(v1) + ("}"@ + x)));
        assert(o2 + y =~= p + (json_texto(v2) + ("}"@ + y)));
        lema_remove_prefixo(p, json_texto(v1) + ("}"@ + x), json_texto(v2) + ("}"@ + y));
        lema_json_texto_delimitado(v1, v2, "}"@ + x, "}"@ + y);
        lema_remove_prefixo("}"@, x, y);
    } else {
        assert(c1 == c2);
        lema_remove_prefixo(o1, x, y);
    }
}

/// O AAD identifica o registro: dois AAD iguais vêm da mesma versão, do
/// mesmo id de registro, da mesma chave, da mesma categoria e do mesmo Base64
/// do contexto; sendo esse Base64 decodificável de volta, como `montar_aad`
/// garante, vêm também do mesmo contexto.
pub proof fn lei_aad_injetivo(
    versao1: u16,
    id_registro1: Seq<char>,
    id_chave1: Seq<char>,
    categoria1: VistaCategoria,
    contexto1: Seq<u8>,
    versao2: u16,
    id_registro2: Seq<char>,
    id_chave2: Seq<char>,
    categoria2: VistaCategoria,
    contexto2: Seq<u8>,
)
    requires
        aad_spec(versao1, id_registro1, id_chave1, categoria1, contexto1)
            == aad_spec(versao2, id_registro2, id_chave2, categoria2, contexto2),
    ensures
        versao1 == versao2,
        id_registro1 == id_registro2,
        id_chave1 == id_chave2,
        categoria1 == categoria2,
        base64_codifica(contexto1) == base64_codifica(contexto2),
        base64_decodifica(base64_codifica(contexto1)) == Some(contexto1)
            && base64_decodifica(base64_codifica(contexto2)) == Some(contexto2) ==> contexto1 == contexto2,
{
    let t1 = texto_aad(versao1, id_registro1, id_chave1, categoria1, contexto1);
    let t2 = texto_aad(versao2, id_registro2, id_chave2, categoria2, contexto2);
    encode_utf8_decode_utf8(t1);
    encode_utf8_decode_utf8(t2);
    lema_texto_aad_aninhado(versao1, id_registro1, id_chave1, categoria1, contexto1);
    lema_texto_aad_aninhado(versao2, id_registro2, id_chave2, categoria2, contexto2);
    let p1 = "{\"dominio\":\"JABUTI-REGISTRO-AEAD-V1\",\"versao\":"@;
    let p2 = ",\"algoritmo\":\"AES-256-GCM\",\"id_registro\":"@;
    let p3 = ",\"id_chave\":"@;
    let p4 = ",\"categoria\":"@;
    let p5 = ",\"contexto_extra_base64\":"@;
    let p6 = "}"@;
    let cat1 = objeto_categoria(categoria1, valor_categoria_json(categoria1));
    let cat2 = objeto_categoria(categoria2, valor_categoria_json(categoria2));
    let b1 = json_texto(base64_codifica(contexto1));
    let b2 = json_texto(base64_codifica(contexto2));
    let e1 = p5 + (b1 + p6);
    let e2 = p5 + (b2 + p6);
    let d1 = p4 + (cat1 + e1);
    let d2 = p4 + (cat2 + e2);
    let c1 = p3 + (json_texto(id_chave1) + d1);
    let c2 = p3 + (json_texto(id_chave2) + d2);
    let r1 = p2 + (json_texto(id_registro1) + c1);
    let r2 = p2 + (json_texto(id_registro2) + c2);
    lema_remove_prefixo(p1, decimal(versao1 as nat) + r1, decimal(versao2 as nat) + r2);
    assert(r1[0] == ',' && r2[0] == ',') by {
        reveal_strlit(",\"algoritmo\":\"AES-256-GCM\",\"id_registro\":");
    }
    lema_decimal_delimitado(versao1 as nat, versao2 as nat, r1, r2);
    lema_remove_prefixo(p2, json_texto(id_registro1) + c1, json_texto(id_registro2) + c2);
    lema_json_texto_delimitado(id_registro1, id_registro2, c1, c2);
    lema_remove_prefixo(p3, json_texto(id_chave1) + d1, json_texto(id_chave2) + d2);
    lema_json_texto_delimitado(id_chave1, id_chave2, d1, d2);
    lema_remove_prefixo(p4, cat1 + e1, cat2 + e2);
    lema_categoria_delimitada(categoria1, categoria2, e1, e2);
    lema_remove_prefixo(p5, b1 + p6, b2 + p6);
    lema_json_texto_delimitado(base64_codifica(contexto1), base64_codifica(contexto2), p6, p6);
}

/// O texto do AAD, escrito como uma cadeia de concatenações à direita.
proof fn lema_texto_aad_aninhado(
    versao: u16,
    id_registro: Seq<char>,
    id_chave: Seq<char>,
    categoria: VistaCategoria,
    contexto: Seq<u8>,
)
    ensures
        texto_aad(versao, id_registro, id_chave, categoria, contexto)
            == "{\"dominio\":\"JABUTI-REGISTRO-AEAD-V1\",\"versao\":"@ + (decimal(versao as nat)
            + (",\"algoritmo\":\"AES-256-GCM\",\"id_registro\":"@ + (json_texto(id_registro)
            + (",\"id_chave\":"@ + (json_texto(id_chave)
            + (",\"categoria\":"@ + (objeto_categoria(categoria, valor_categoria_json(categoria))
            + (",\"contexto_extra_base64\":"@ + (json_texto(base64_codifica(contexto)) + "}"@))))))))),
{
    let p1 = "{\"dominio\":\"JABUTI-REGISTRO-AEAD-V1\",\"versao\":"@;
    let p2 = ",\"algoritmo\":\"AES-256-GCM\",\"id_registro\":"@;
    let p3 = ",\"id_chave\":"@;
    let p4 = ",\"categoria\":"@;
    let p5 = ",\"contexto_extra_base64\":"@;
    let p6 = "}"@;
    let a = decimal(versao as nat);
    let b = json_texto(id_registro);
    let c = json_texto(id_chave);
    let d = objeto_categoria(categoria, valor_categoria_json(categoria));
    let e = json_texto(base64_codifica(contexto));
    assert(p1 + a + p2 + b + p3 + c + p4 + d + p5 + e + p6
        =~= p1 + (a + (p2 + (b + (p3 + (c + (p4 + (d + (p5 + (e + p6))))))))));
}

/// Literal JSON de um texto, como o serde_json o escreve.
fn literal_json(s: &str) -> (r: String)
    ensures
        r@ == json_texto(s@),
{
    match texto_json(s) {
        Ok(t) => t,
        Err(_) => {
            proof {
                assert(false);
            }
            String::new()
        },
    }
}

/// Objeto JSON da categoria.
pub fn compor_categoria(c: &CategoriaRegistro, valor_json: &str) -> (r: String)
    ensures
        r@ == objeto_categoria(c@, valor_json@),
{
    match c {
        CategoriaRegistro::Mensagem => String::from_str("{\"tipo\":\"mensagem\"}"),
        CategoriaRegistro::Anexo => String::from_str("{\"tipo\":\"anexo\"}"),
        CategoriaRegistro::Cache => String::from_str("{\"tipo\":\"cache\"}"),
        CategoriaRegistro::Outro(_) => {
            let mut r = String::from_str("{\"tipo\":\"outro\",\"valor\":");
            r.append(valor_json);
            r.append("}");
            r
        },
    }
}

/// Monta o documento do AAD a partir dos literais JSON dos campos.
pub fn compor_documento_aad(
    versao: u16,
    id_registro_json: &str,
    id_chave_json: &str,
    categoria_json: &str,
    contexto_json: &str,
) -> (r: String)
    ensures
        r@ == documento_aad(versao, id_registro_json@, id_chave_json@, categoria_json@, contexto_json@),
{
    let mut t = String::from_str("{\"dominio\":\"JABUTI-REGISTRO-AEAD-V1\",\"versao\":");
    let v = texto_decimal(versao as u64);
    t.append(v.as_str());
    t.append(",\"algoritmo\":\"AES-256-GCM\",\"id_registro\":");
    t.append(id_registro_json);
    t.append(",\"id_chave\":");
    t.append(id_chave_json);
    t.append(",\"categoria\":");
    t.append(categoria_json);
    t.append(",\"contexto_extra_base64\":");
    t.append(contexto_json);
    t.append("}");
    proof {
        assert(t@ =~= documento_aad(versao, id_registro_json@, id_chave_json@, categoria_json@, contexto_json@));
    }
    t
}

/// Monta o AAD de um registro.
pub fn montar_aad(
    versao: u16,
    id_registro: &str,
    id_chave: &IdChave,
    categoria: &CategoriaRegistro,
    contexto_extra: &[u8],
) -> (r: Vec<u8>)
    requires
        contexto_extra@.len() <= isize::MAX,
    ensures
        r@ == aad_spec(versao, id_registro@, id_chave@, categoria@, contexto_extra@),
        base64_decodifica(base64_codifica(contexto_extra@)) == Some(contexto_extra@),
{
    let id_registro_json = literal_json(id_registro);
    let id_chave_json = literal_json(id_chave.como_str());
    let valor_json = match categoria {
        CategoriaRegistro::Outro(v) => literal_json(v.as_str()),
        _ => String::new(),
    };
    let categoria_json = compor_categoria(categoria, valor_json.as_str());
    let b64 = base64_codificar(contexto_extra);
    let contexto_json = literal_json(b64.as_str());
    let t = compor_documento_aad(
        versao,
        id_registro_json.as_str(),
        id_chave_json.as_str(),
        categoria_json.as_str(),
        contexto_json.as_str(),
    );
    vstd::slice::slice_to_vec(t.as_str().as_bytes())
}

} // verus!

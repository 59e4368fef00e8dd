//! Literais de string JSON, como o serde_json os escreve, e o fato de que um
//! literal se delimita sozinho: lido o literal, sabe-se onde ele acaba.
use vstd::prelude::*;

use crate::texto::digito;

verus! {

/// Escape JSON de um caractere: aspas e barra invertida precedidas de `\`,
/// os controles com forma curta (`\b`, `\t`, `\n`, `\f`, `\r`), os demais
/// controles abaixo de 0x20 como `\u00XX` em hexadecimal minúsculo, e todo
/// outro caractere como ele mesmo.
pub open spec fn escape_json(c: char) -> Seq<char> {
    let u = c as u32;
    if c == '"' {
        seq!['\\', '"']
    } else if c == '\\' {
        seq!['\\', '\\']
    } else if u == 0x08 {
        seq!['\\', 'b']
    } else if u == 0x09 {
        seq!['\\', 't']
    } else if u == 0x0a {
        seq!['\\', 'n']
    } else if u == 0x0c {
        seq!['\\', 'f']
    } else if u == 0x0d {
        seq!['\\', 'r']
    } else if u < 0x20 {
        seq!['\\', 'u', '0', '0', digito((u / 16) as nat), digito((u % 16) as nat)]
    } else {
        seq![c]
    }
}

/// Conteúdo escapado de um texto, caractere a caractere.
pub open spec fn escapar_json(s: Seq<char>) -> Seq<char>
    decreases s.len(),
{
    if s.len() == 0 {
        seq![]
    } else {
        escape_json(s[0]) + escapar_json(s.drop_first())
    }
}

/// Literal de string JSON de um texto: entre aspas, com o conteúdo escapado.
pub open spec fn json_texto(s: Seq<char>) -> Seq<char> {
    seq!['"'] + escapar_json(s) + seq!['"']
}

/// Dígitos hexadecimais distintos são caracteres distintos.
pub proof fn lema_digito_injetivo(a: nat, b: nat)
    requires
        a < 16,
        b < 16,
        digito(a) == digito(b),
    ensures
        a == b,
{
}

/// O escape de um caractere não começa por aspas e não é vazio.
proof fn lema_escape_inicio(c: char)
    ensures
        escape_json(c).len() >= 1,
        escape_json(c)[0] != '"',
        escape_json(c)[0] != '\\' ==> escape_json(c) == seq![c],
{
}

/// Escapes de caracteres distintos não são prefixo um do outro.
proof fn lema_escape_prefixo(a: char, b: char, x: Seq<char>, y: Seq<char>)
    requires
        escape_json(a) + x == escape_json(b) + y,
    ensures
        a == b,
{
    let ea = escape_json(a);
    let eb = escape_json(b);
    lema_escape_inicio(a);
    lema_escape_inicio(b);
    assert((ea + x)[0] == ea[0]);
    assert((eb + y)[0] == eb[0]);
    if ea[0] == '\\' {
        assert((ea + x)[1] == ea[1]);
        assert((eb + y)[1] == eb[1]);
        if ea[1] == 'u' {
            let ua = a as u32;
            let ub = b as u32;
            assert((ea + x)[4] == ea[4] && (ea + x)[5] == ea[5]);
            assert((eb + y)[4] == eb[4] && (eb + y)[5] == eb[5]);
            lema_digito_injetivo((ua / 16) as nat, (ub / 16) as nat);
            lema_digito_injetivo((ua % 16) as nat, (ub % 16) as nat);
            assert(ua == ub);
        }
    }
}

/// Um conteúdo escapado seguido de aspas se delimita sozinho: as aspas que
/// fecham o literal são as primeiras não escapadas.
proof fn lema_escapado_delimitado(a: Seq<char>, b: Seq<char>, x: Seq<char>, y: Seq<char>)
    requires
        escapar_json(a) + seq!['"'] + x == escapar_json(b) + seq!['"'] + y,
    ensures
        a == b,
        x == y,
    decreases a.len() + b.len(),
{
    let la = escapar_json(a) + seq!['"'] + x;
    let lb = escapar_json(b) + seq!['"'] + y;
    if a.len() == 0 {
        assert(la =~= seq!['"'] + x);
        if b.len() > 0 {
            lema_escape_inicio(b[0]);
            assert(lb =~= escape_json(b[0]) + (escapar_json(b.drop_first()) + seq!['"'] + y));
            assert(lb[0] == escape_json(b[0])[0]);
        }
        assert(b.len() == 0);
        assert(lb =~= seq!['"'] + y);
        assert(x =~= la.drop_first());
        assert(y =~= lb.drop_first());
    } else if b.len() == 0 {
        lema_escape_inicio(a[0]);
        assert(la =~= escape_json(a[0]) + (escapar_json(a.drop_first()) + seq!['"'] + x));
        assert(lb =~= seq!['"'] + y);
        assert(la[0] == escape_json(a[0])[0]);
    } else {
        let ra = escapar_json(a.drop_first()) + seq!['"'] + x;
        let rb = escapar_json(b.drop_first()) + seq!['"'] + y;
        assert(la =~= escape_json(a[0]) + ra);
        assert(lb =~= escape_json(b[0]) + rb);
        lema_escape_prefixo(a[0], b[0], ra, rb);
        let n = escape_json(a[0]).len() as int;
        assert(ra =~= la.subrange(n, la.len() as int));
        assert(rb =~= lb.subrange(n, lb.len() as int));
        lema_escapado_delimitado(a.drop_first(), b.drop_first(), x, y);
        assert(a =~= seq![a[0]] + a.drop_first());
        assert(b =~= seq![b[0]] + b.drop_first());
    }
}

/// Um literal JSON seguido de qualquer texto determina o texto literal e o
/// que vem depois dele.
pub proof fn lema_json_texto_delimitado(a: Seq<char>, b: Seq<char>, x: Seq<char>, y: Seq<char>)
    requires
        json_texto(a) + x == json_texto(b) + y,
    ensures
        a == b,
        x == y,
{
    let la = json_texto(a) + x;
    let lb = json_texto(b) + y;
    assert(la.drop_first() =~= escapar_json(a) + seq!['"'] + x);
    assert(lb.drop_first() =~= escapar_json(b) + seq!['"'] + y);
    lema_escapado_delimitado(a, b, x, y);
}

} // verus!

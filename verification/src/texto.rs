//! Especificações e operações de texto usadas pelos formatos do Jabuti:
//! espaço em branco Unicode, dígitos decimais e hexadecimais, bytes UTF-8.
use vstd::prelude::*;

verus! {

pub assume_specification[ String::push ](s: &mut String, ch: char)
    ensures
        final(s)@ == old(s)@.push(ch),
;

/// Propriedade Unicode `White_Space`, a que `char::is_whitespace` e `str::trim` usam.
pub open spec fn eh_espaco_branco(c: char) -> bool {
    ||| ('\u{9}' <= c && c <= '\u{d}')
    ||| c == ' '
    ||| c == '\u{85}'
    ||| c == '\u{a0}'
    ||| c == '\u{1680}'
    ||| ('\u{2000}' <= c && c <= '\u{200a}')
    ||| c == '\u{2028}'
    ||| c == '\u{2029}'
    ||| c == '\u{202f}'
    ||| c == '\u{205f}'
    ||| c == '\u{3000}'
}

/// O texto fica vazio depois de `trim()`: todos os seus caracteres são espaço em branco.
pub open spec fn so_espacos(s: Seq<char>) -> bool {
    forall|i: int| 0 <= i < s.len() ==> #[trigger] eh_espaco_branco(s[i])
}

pub fn espaco_branco(c: char) -> (r: bool)
    ensures
        r == eh_espaco_branco(c),
{
    ('\u{9}' <= c && c <= '\u{d}') || c == ' ' || c == '\u{85}' || c == '\u{a0}' || c == '\u{1680}'
        || ('\u{2000}' <= c && c <= '\u{200a}') || c == '\u{2028}' || c == '\u{2029}' || c
        == '\u{202f}' || c == '\u{205f}' || c == '\u{3000}'
}

/// Equivale a `s.trim().is_empty()`.
pub fn vazio_apos_aparar(s: &str) -> (r: bool)
    ensures
        r == so_espacos(s@),
{
    broadcast use vstd::string::group_string_axioms;
    for c in it: s.chars()
        invariant
            it.seq() == s@,
            forall|j: int| 0 <= j < it.index() ==> #[trigger] eh_espaco_branco(s@[j]),
    {
        if !espaco_branco(c) {
            return false;
        }
    }
    true
}

pub open spec fn eh_alfanumerico_ascii(c: char) -> bool {
    ||| ('0' <= c && c <= '9')
    ||| ('A' <= c && c <= 'Z')
    ||| ('a' <= c && c <= 'z')
}

pub open spec fn digito(d: nat) -> char {
    if d == 0 { '0' }
    else if d == 1 { '1' }
    else if d == 2 { '2' }
    else if d == 3 { '3' }
    else if d == 4 { '4' }
    else if d == 5 { '5' }
    else if d == 6 { '6' }
    else if d == 7 { '7' }
    else if d == 8 { '8' }
    else if d == 9 { '9' }
    else if d == 10 { 'a' }
    else if d == 11 { 'b' }
    else if d == 12 { 'c' }
    else if d == 13 { 'd' }
    else if d == 14 { 'e' }
    else { 'f' }
}

/// Representação decimal de um natural, sem zeros à esquerda.
pub open spec fn decimal(n: nat) -> Seq<char>
    decreases n,
{
    if n < 10 {
        seq![digito(n)]
    } else {
        decimal(n / 10).push(digito(n % 10))
    }
}

/// Hexadecimal minúsculo, dois dígitos por byte.
pub open spec fn hex_minusculo(b: Seq<u8>) -> Seq<char>
    decreases b.len(),
{
    if b.len() == 0 {
        seq![]
    } else {
        hex_minusculo(b.drop_last()) + seq![digito((b.last() / 16) as nat), digito((b.last() % 16) as nat)]
    }
}

pub open spec fn eh_digito_hex_ascii(b: u8) -> bool {
    ||| (0x30 <= b && b <= 0x39)
    ||| (0x41 <= b && b <= 0x46)
    ||| (0x61 <= b && b <= 0x66)
}

fn caractere_digito(d: u8) -> (c: char)
    requires
        d < 16,
    ensures
        c == digito(d as nat),
{
    if d == 0 { '0' }
    else if d == 1 { '1' }
    else if d == 2 { '2' }
    else if d == 3 { '3' }
    else if d == 4 { '4' }
    else if d == 5 { '5' }
    else if d == 6 { '6' }
    else if d == 7 { '7' }
    else if d == 8 { '8' }
    else if d == 9 { '9' }
    else if d == 10 { 'a' }
    else if d == 11 { 'b' }
    else if d == 12 { 'c' }
    else if d == 13 { 'd' }
    else if d == 14 { 'e' }
    else { 'f' }
}

/// Escreve `n` em decimal.
pub fn texto_decimal(n: u64) -> (r: String)
    ensures
        r@ == decimal(n as nat),
    decreases n,
{
    if n < 10 {
        let mut r = String::new();
        r.push(caractere_digito(n as u8));
        r
    } else {
        let mut r = texto_decimal(n / 10);
        r.push(caractere_digito((n % 10) as u8));
        r
    }
}

pub proof fn lema_hex_comprimento(b: Seq<u8>)
    ensures
        hex_minusculo(b).len() == 2 * b.len(),
    decreases b.len(),
{
    if b.len() > 0 {
        lema_hex_comprimento(b.drop_last());
    }
}

/// Codifica bytes em hexadecimal minúsculo.
pub fn texto_hex(b: &[u8]) -> (r: String)
    ensures
        r@ == hex_minusculo(b@),
{
    let mut r = String::new();
    let n = b.len();
    let mut i: usize = 0;
    while i < n
        invariant
            n == b@.len(),
            i <= n,
            r@ == hex_minusculo(b@.take(i as int)),
        decreases n - i,
    {
        let x = b[i];
        r.push(caractere_digito(x / 16));
        r.push(caractere_digito(x % 16));
        proof {
            assert(b@.take(i + 1).drop_last() =~= b@.take(i as int));
            assert(b@.take(i + 1).last() == x);
        }
        i = i + 1;
    }
    proof {
        assert(b@.take(n as int) =~= b@);
    }
    r
}

/// Anexa bytes ao fim de um vetor.
pub fn anexar_bytes(v: &mut Vec<u8>, s: &[u8])
    ensures
        final(v)@ == old(v)@ + s@,
{
    let n = s.len();
    let mut i: usize = 0;
    while i < n
        invariant
            n == s@.len(),
            i <= n,
            v@ == old(v)@ + s@.take(i as int),
        decreases n - i,
    {
        v.push(s[i]);
        proof {
            assert(s@.take(i + 1) =~= s@.take(i as int).push(s@[i as int]));
        }
        i = i + 1;
    }
    proof {
        assert(s@.take(n as int) =~= s@);
    }
}

} // verus!

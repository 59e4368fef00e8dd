//! Inspeção de bytes usada pelo autoteste: o plaintext não pode aparecer no ciphertext.
use vstd::prelude::*;

verus! {

/// `trecho` aparece, contíguo, em `dados` a partir da posição `i`.
pub open spec fn ocorre_em(dados: Seq<u8>, trecho: Seq<u8>, i: int) -> bool {
    0 <= i && i + trecho.len() <= dados.len() && dados.subrange(i, i + trecho.len()) == trecho
}

fn ocorre_exec(dados: &[u8], trecho: &[u8], i: usize) -> (r: bool)
    requires
        i + trecho@.len() <= dados@.len(),
    ensures
        r == ocorre_em(dados@, trecho@, i as int),
{
    let n = trecho.len();
    let m = dados.len();
    let mut j: usize = 0;
    while j < n
        invariant
            n == trecho@.len(),
            m == dados@.len(),
            i + n <= dados@.len(),
            j <= n,
            forall|k: int| 0 <= k < j ==> dados@[i + k] == trecho@[k],
        decreases n - j,
    {
        if dados[i + j] != trecho[j] {
            assert(dados@.subrange(i as int, i + n)[j as int] != trecho@[j as int]);
            return false;
        }
        j = j + 1;
    }
    assert(dados@.subrange(i as int, i + n) =~= trecho@);
    true
}

/// Os dois trechos têm os mesmos bytes.
pub fn mesmos_bytes(a: &[u8], b: &[u8]) -> (r: bool)
    ensures
        r == (a@ == b@),
{
    if a.len() != b.len() {
        return false;
    }
    let n = a.len();
    let mut i: usize = 0;
    while i < n
        invariant
            n == a@.len(),
            n == b@.len(),
            i <= n,
            forall|j: int| 0 <= j < i ==> a@[j] == b@[j],
        decreases n - i,
    {
        if a[i] != b[i] {
            return false;
        }
        i = i + 1;
    }
    assert(a@ =~= b@);
    true
}

/// Verdadeiro quando `trecho` (não vazio) aparece contíguo em `dados`.
pub fn contem_trecho(dados: &[u8], trecho: &[u8]) -> (r: bool)
    requires
        trecho@.len() > 0,
    ensures
        r == exists|i: int| #[trigger] ocorre_em(dados@, trecho@, i),
{
    if trecho.len() > dados.len() {
        return false;
    }
    let ultimo = dados.len() - trecho.len();
    let mut i: usize = 0;
    while i <= ultimo
        invariant
            ultimo + trecho@.len() == dados@.len(),
            dados@.len() <= usize::MAX,
            trecho@.len() > 0,
            i <= ultimo + 1,
            forall|k: int| 0 <= k < i ==> !#[trigger] ocorre_em(dados@, trecho@, k),
        decreases ultimo + 1 - i,
    {
        if ocorre_exec(dados, trecho, i) {
            return true;
        }
        i = i + 1;
    }
    assert forall|k: int| !#[trigger] ocorre_em(dados@, trecho@, k) by {
        if 0 <= k && k < i {
        }
    }
    false
}

} // verus!

//! Cofre em RAM, para testes e desenvolvimento.
use vstd::prelude::*;

use crate::aead::{decifrar_aes256gcm, msg_nonce_invalido, resultado_decifrar_gcm};
use crate::cofre::CofreDeChaves;
use crate::erro::{ErroJabuti, Resultado, VistaErro};
use crate::primitivas::{aes256gcm_cifra, aes256gcm_decifra, bytes_aleatorios, limite_aes_gcm, bytes_protegidos, proteger_bytes, BytesProtegidos};
use crate::tipos::{IdChave, NivelProtecao, PacoteCifrado};

verus! {

/// Uma chave do cofre; o material é zerado quando a entrada é descartada.
struct ChaveMemoria {
    id: IdChave,
    material: BytesProtegidos,
}

/// Material da última entrada com o identificador `id`.
spec fn buscar(s: Seq<ChaveMemoria>, id: Seq<char>) -> Option<Seq<u8>>
    decreases s.len(),
{
    if s.len() == 0 {
        None
    } else if s.last().id@ == id {
        Some(bytes_protegidos(s.last().material))
    } else {
        buscar(s.drop_last(), id)
    }
}

spec fn ids_unicos(s: Seq<ChaveMemoria>) -> bool {
    forall|i: int, j: int| 0 <= i < j < s.len() ==> #[trigger] s[i].id@ != #[trigger] s[j].id@
}

proof fn lema_buscar_push(s: Seq<ChaveMemoria>, e: ChaveMemoria)
    ensures
        forall|k: Seq<char>| #[trigger] buscar(s.push(e), k) == if e.id@ == k { Some(bytes_protegidos(e.material)) } else { buscar(s, k) },
{
    assert(s.push(e).drop_last() =~= s);
}

proof fn lema_buscar_ausente(s: Seq<ChaveMemoria>, k: Seq<char>)
    requires
        forall|j: int| 0 <= j < s.len() ==> #[trigger] s[j].id@ != k,
    ensures
        buscar(s, k) is None,
    decreases s.len(),
{
    if s.len() > 0 {
        assert(s.last() == s[s.len() - 1]);
        lema_buscar_ausente(s.drop_last(), k);
    }
}

proof fn lema_buscar_presente(s: Seq<ChaveMemoria>, j: int)
    requires
        ids_unicos(s),
        0 <= j < s.len(),
    ensures
        buscar(s, s[j].id@) == Some(bytes_protegidos(s[j].material)),
    decreases s.len(),
{
    if j < s.len() - 1 {
        assert(s.last() == s[s.len() - 1]);
        assert(s.drop_last()[j] == s[j]);
        lema_buscar_presente(s.drop_last(), j);
    }
}

proof fn lema_buscar_remove(s: Seq<ChaveMemoria>, i: int, k: Seq<char>)
    requires
        0 <= i < s.len(),
        s[i].id@ != k,
    ensures
        buscar(s.remove(i), k) == buscar(s, k),
    decreases s.len(),
{
    if i == s.len() - 1 {
        assert(s.remove(i) =~= s.drop_last());
    } else {
        let r = s.remove(i);
        assert(r.last() == s.last());
        assert(r.drop_last() =~= s.drop_last().remove(i));
        lema_buscar_remove(s.drop_last(), i, k);
    }
}

/// Cofre exclusivamente para testes e desenvolvimento.
///
/// As chaves vivem em RAM e desaparecem no encerramento do processo. Não use
/// este cofre para histórico persistente de produção.
pub struct CofreMemoria {
    chaves: Vec<ChaveMemoria>,
}

pub open spec fn msg_gerador_indisponivel() -> Seq<char> {
    "gerador aleatório do sistema indisponível"@
}

impl CofreMemoria {
    #[verifier::type_invariant]
    spec fn bem_formado(self) -> bool {
        &&& ids_unicos(self.chaves@)
        &&& forall|j: int| 0 <= j < self.chaves@.len() ==> bytes_protegidos((#[trigger] self.chaves@[j]).material).len() == 32
    }

    /// Material de 32 bytes da chave `id`, quando ela existe.
    pub closed spec fn material(&self, id: Seq<char>) -> Option<Seq<u8>> {
        buscar(self.chaves@, id)
    }

    pub fn novo() -> (r: CofreMemoria)
        ensures
            forall|id: Seq<char>| #[trigger] r.material(id) is None,
    {
        CofreMemoria { chaves: Vec::new() }
    }

    fn localizar(&self, id: &IdChave) -> (r: Option<usize>)
        ensures
            match r {
                Some(i) => i < self.chaves@.len() && self.chaves@[i as int].id@ == id@ && self.material(id@)
                    == Some(bytes_protegidos(self.chaves@[i as int].material)),
                None => self.material(id@) is None,
            },
    {
        proof {
            use_type_invariant(self);
        }
        let n = self.chaves.len();
        let mut i: usize = 0;
        while i < n
            invariant
                n == self.chaves@.len(),
                i <= n,
                ids_unicos(self.chaves@),
                forall|j: int| 0 <= j < i ==> #[trigger] self.chaves@[j].id@ != id@,
            decreases n - i,
        {
            if self.chaves[i].id.mesmo_id(id) {
                proof {
                    lema_buscar_presente(self.chaves@, i as int);
                }
                return Some(i);
            }
            i = i + 1;
        }
        proof {
            lema_buscar_ausente(self.chaves@, id@);
        }
        None
    }

    /// Guarda `material` como a chave nova `id`. Recusa um identificador que
    /// já tem chave (`ChaveJaExiste`), a falta de material (o gerador falhou:
    /// `CofreIndisponivel`) e um material que não tem 32 bytes
    /// (`ChaveCorrompida`); nesses casos o cofre fica como estava.
    pub fn inserir_chave(&mut self, id: &IdChave, material: Option<Vec<u8>>) -> (r: Resultado<()>)
        ensures
            match old(self).material(id@) {
                Some(_) => r matches Err(e) && e@ == VistaErro::ChaveJaExiste(id@) && *final(self) == *old(self),
                None => match material {
                    None => r matches Err(e) && e@ == VistaErro::CofreIndisponivel(msg_gerador_indisponivel())
                        && *final(self) == *old(self),
                    Some(m) => if m@.len() == 32 {
                        &&& r is Ok
                        &&& final(self).material(id@) == Some(m@)
                        &&& forall|k: Seq<char>| k != id@ ==> #[trigger] final(self).material(k) == old(self).material(k)
                    } else {
                        r matches Err(e) && e@ == VistaErro::ChaveCorrompida && *final(self) == *old(self)
                    },
                },
            },
    {
        proof {
            use_type_invariant(&*self);
        }
        if let Some(_) = self.localizar(id) {
            return Err(ErroJabuti::ChaveJaExiste(id.como_str().to_owned()));
        }
        let material = match material {
            Some(m) => m,
            None => return Err(ErroJabuti::CofreIndisponivel(String::from_str("gerador aleatório do sistema indisponível"))),
        };
        if material.len() != 32 {
            return Err(ErroJabuti::ChaveCorrompida);
        }
        let mut v: Vec<ChaveMemoria> = Vec::new();
        std::mem::swap(&mut v, &mut self.chaves);
        let ghost antes = v@;
        let e = ChaveMemoria { id: id.duplicar(), material: proteger_bytes(material) };
        v.push(e);
        proof {
            lema_buscar_push(antes, e);
            assert forall|i: int, j: int| 0 <= i < j < v@.len() implies #[trigger] v@[i].id@ != #[trigger] v@[j].id@ by {
                if j == v@.len() - 1 {
                    assert(antes[i] == v@[i]);
                    if antes[i].id@ == id@ {
                        lema_buscar_presente(antes, i);
                    }
                } else {
                    assert(antes[i] == v@[i] && antes[j] == v@[j]);
                }
            }
            assert forall|j: int| 0 <= j < v@.len() implies bytes_protegidos((#[trigger] v@[j]).material).len() == 32 by {
                if j < antes.len() {
                    assert(antes[j] == v@[j]);
                }
            }
        }
        self.chaves = v;
        Ok(())
    }


    /// Cifra com a chave `id` sob o nonce dado: `ChaveNaoEncontrada` quando a
    /// chave não existe; do contrário, a cifragem AES-256-GCM com esse nonce.
    pub fn cifrar_com_nonce(&self, id: &IdChave, nonce: Option<Vec<u8>>, plaintext: &[u8], aad: &[u8]) -> (r: Resultado<PacoteCifrado>)
        ensures
            match self.material(id@) {
                None => r matches Err(e) && e@ == VistaErro::ChaveNaoEncontrada(id@),
                Some(k) => {
                    &&& (r is Ok <==> (nonce matches Some(n) && n@.len() == 12 && plaintext@.len() <= limite_aes_gcm()
                        && aad@.len() <= limite_aes_gcm()))
                    &&& (r matches Ok(p) ==> {
                        &&& p.nonce@ == nonce.unwrap()@
                        &&& p.conteudo_cifrado@ == aes256gcm_cifra(k, p.nonce@, plaintext@, aad@)
                        &&& p.conteudo_cifrado@.len() == plaintext@.len() + 16
                        &&& aes256gcm_decifra(k, p.nonce@, p.conteudo_cifrado@, aad@) == Some(plaintext@)
                    })
                    &&& (r matches Err(e) ==> e@ == VistaErro::FalhaCifragem)
                },
            },
    {
        proof {
            use_type_invariant(self);
        }
        match self.localizar(id) {
            None => Err(ErroJabuti::ChaveNaoEncontrada(id.como_str().to_owned())),
            Some(i) => {
                proof {
                    assert(bytes_protegidos(self.chaves@[i as int].material).len() == 32);
                }
                crate::aead::cifrar_com_nonce(self.chaves[i].material.como_bytes(), nonce, plaintext, aad)
            },
        }
    }
}

impl Default for CofreMemoria {
    fn default() -> (r: CofreMemoria)
        ensures
            forall|id: Seq<char>| #[trigger] r.material(id) is None,
    {
        CofreMemoria::novo()
    }
}

impl CofreDeChaves for CofreMemoria {
    open spec fn chaves(&self) -> Set<Seq<char>> {
        Set::new(|k: Seq<char>| self.material(k) is Some)
    }

    open spec fn resposta_decifrar(&self, id: Seq<char>, nonce: Seq<u8>, cifrado: Seq<u8>, aad: Seq<u8>) -> Result<Seq<u8>, VistaErro> {
        if nonce.len() != 12 {
            Err(VistaErro::RegistroInvalido(msg_nonce_invalido()))
        } else {
            match self.material(id) {
                None => Err(VistaErro::ChaveNaoEncontrada(id)),
                Some(k) => resultado_decifrar_gcm(k, nonce, cifrado, aad),
            }
        }
    }

    open spec fn admite_falha_criar(&self, id: Seq<char>, e: VistaErro) -> bool {
        ||| (e == VistaErro::ChaveJaExiste(id) && self.material(id) is Some)
        ||| (e == VistaErro::CofreIndisponivel(msg_gerador_indisponivel()) && self.material(id) is None)
    }

    open spec fn admite_falha_cifrar(&self, id: Seq<char>, e: VistaErro) -> bool {
        ||| (e == VistaErro::ChaveNaoEncontrada(id) && self.material(id) is None)
        ||| (e == VistaErro::FalhaCifragem && self.material(id) is Some)
    }

    fn criar_chave(&mut self, id: &IdChave) -> (r: Resultado<()>)
        ensures
            old(self).material(id@) is Some ==> (r matches Err(e) && e@ == VistaErro::ChaveJaExiste(id@)),
            r matches Err(e) ==> (e@ == VistaErro::ChaveJaExiste(id@) && old(self).material(id@) is Some)
                || (e@ == VistaErro::CofreIndisponivel(msg_gerador_indisponivel()) && old(self).material(id@) is None),
            r is Ok ==> (final(self).material(id@) matches Some(m) && m.len() == 32),
    {
        let r = self.inserir_chave(id, bytes_aleatorios(32));
        proof {
            if r is Ok {
                assert(self.chaves() =~= old(self).chaves().insert(id@));
            }
        }
        r
    }

    fn cifrar(&self, id: &IdChave, plaintext: &[u8], aad: &[u8]) -> (r: Resultado<PacoteCifrado>)
        ensures
            self.material(id@) is None ==> (r matches Err(e) && e@ == VistaErro::ChaveNaoEncontrada(id@)),
            r matches Ok(p) ==> (self.material(id@) matches Some(k) && p.conteudo_cifrado@ == aes256gcm_cifra(k, p.nonce@, plaintext@, aad@)),
            r matches Err(e) ==> (e@ == VistaErro::ChaveNaoEncontrada(id@) && self.material(id@) is None)
                || (e@ == VistaErro::FalhaCifragem && self.material(id@) is Some),
    {
        self.cifrar_com_nonce(id, bytes_aleatorios(12), plaintext, aad)
    }

    fn decifrar(&self, id: &IdChave, pacote: &PacoteCifrado, aad: &[u8]) -> (r: Resultado<BytesProtegidos>) {
        proof {
            use_type_invariant(self);
        }
        if pacote.nonce.len() != 12 {
            return Err(ErroJabuti::RegistroInvalido(String::from_str("nonce AES-GCM deve possuir 12 bytes")));
        }
        match self.localizar(id) {
            None => Err(ErroJabuti::ChaveNaoEncontrada(id.como_str().to_owned())),
            Some(i) => {
                proof {
                    assert(bytes_protegidos(self.chaves@[i as int].material).len() == 32);
                }
                decifrar_aes256gcm(self.chaves[i].material.como_bytes(), pacote, aad)
            },
        }
    }

    fn destruir_chave(&mut self, id: &IdChave) -> (r: Resultado<()>)
        ensures
            r is Ok,
            final(self).material(id@) is None,
    {
        proof {
            use_type_invariant(&*self);
        }
        match self.localizar(id) {
            None => {
                proof {
                    assert(self.chaves() =~= old(self).chaves().remove(id@));
                }
                Ok(())
            },
            Some(i) => {
                let mut v: Vec<ChaveMemoria> = Vec::new();
                std::mem::swap(&mut v, &mut self.chaves);
                let ghost antes = v@;
                let _removida = v.remove(i);
                proof {
                    assert forall|a: int, b: int| 0 <= a < b < v@.len() implies #[trigger] v@[a].id@ != #[trigger] v@[b].id@ by {
                        let a0 = if a < i { a } else { a + 1 };
                        let b0 = if b < i { b } else { b + 1 };
                        assert(v@[a] == antes[a0] && v@[b] == antes[b0]);
                    }
                    assert forall|j: int| 0 <= j < v@.len() implies bytes_protegidos((#[trigger] v@[j]).material).len() == 32 by {
                        let j0 = if j < i { j } else { j + 1 };
                        assert(v@[j] == antes[j0]);
                    }
                    assert forall|j: int| 0 <= j < v@.len() implies #[trigger] v@[j].id@ != id@ by {
                        let j0 = if j < i { j } else { j + 1 };
                        assert(v@[j] == antes[j0]);
                    }
                    lema_buscar_ausente(v@, id@);
                    assert forall|k: Seq<char>| k != id@ implies #[trigger] buscar(v@, k) == buscar(antes, k) by {
                        lema_buscar_remove(antes, i as int, k);
                    }
                }
                self.chaves = v;
                proof {
                    assert(self.chaves() =~= old(self).chaves().remove(id@));
                }
                Ok(())
            },
        }
    }

    fn existe_chave(&self, id: &IdChave) -> (r: Resultado<bool>) {
        match self.localizar(id) {
            None => Ok(false),
            Some(_) => Ok(true),
        }
    }

    fn nivel_protecao(&self) -> (r: NivelProtecao)
        ensures
            r == NivelProtecao::SoftwareTemporario,
    {
        NivelProtecao::SoftwareTemporario
    }
}

} // verus!

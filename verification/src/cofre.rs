//! Contrato de um cofre de chaves.
use vstd::prelude::*;

use crate::erro::{Resultado, VistaErro};
use crate::primitivas::{bytes_protegidos, BytesProtegidos};
use crate::tipos::{IdChave, NivelProtecao, PacoteCifrado};

verus! {

/// Contrato para um cofre de chaves.
///
/// A API deliberadamente não possui `obter_chave()`: aplicações usam o cofre
/// para executar cifragem/decifragem e destruição sem receber a chave.
/// Implementações podem usar internamente uma chave exportável ou uma chave
/// não exportável/hardware-backed.
///
/// O estado do cofre é descrito por funções de especificação: o conjunto de
/// identificadores com chave (`chaves`) e a resposta que cada consulta dá
/// nesse estado. Cifrar produz um pacote AES-256-GCM (nonce de 12 bytes,
/// ciphertext com tag de 16 bytes) que o próprio cofre decifra de volta.
pub trait CofreDeChaves: Send + Sync {
    /// Identificadores cujas chaves existem no cofre.
    ///
    /// Um cofre verificado descreve o seu estado redefinindo estas funções de
    /// especificação, e o Verus prova que os seus métodos cumprem os
    /// contratos abaixo sobre essa descrição. As definições padrão descrevem
    /// um cofre vazio que nunca cria chaves; uma implementação escrita fora
    /// do Verus herda-as sem que nada confira os seus métodos, e o que se
    /// prova através destes contratos (as leis do serviço) não vale para ela.
    open spec fn chaves(&self) -> Set<Seq<char>> {
        Set::empty()
    }

    /// Falha com que `existe_chave(id)` responde neste estado, se alguma.
    open spec fn falha_existe(&self, id: Seq<char>) -> Option<VistaErro> {
        None
    }

    /// Resposta de `decifrar` neste estado.
    open spec fn resposta_decifrar(&self, id: Seq<char>, nonce: Seq<u8>, cifrado: Seq<u8>, aad: Seq<u8>) -> Result<Seq<u8>, VistaErro> {
        Err(VistaErro::FalhaDecifragem)
    }

    /// Falha com que `destruir_chave(id)` responde neste estado, se alguma.
    open spec fn falha_destruir(&self, id: Seq<char>) -> Option<VistaErro> {
        None
    }

    /// `e` é uma falha que `criar_chave(id)` pode dar neste estado.
    open spec fn admite_falha_criar(&self, id: Seq<char>, e: VistaErro) -> bool {
        true
    }

    /// `e` é uma falha que `cifrar(id, ..)` pode dar neste estado.
    open spec fn admite_falha_cifrar(&self, id: Seq<char>, e: VistaErro) -> bool {
        true
    }

    fn criar_chave(&mut self, id: &IdChave) -> (r: Resultado<()>)
        ensures
            r is Ok ==> {
                &&& !old(self).chaves().contains(id@)
                &&& final(self).chaves() == old(self).chaves().insert(id@)
                &&& forall|k: Seq<char>|
                    #![trigger old(self).falha_existe(k)]
                    #![trigger final(self).falha_existe(k)]
                    k != id@ ==> final(self).falha_existe(k) == old(self).falha_existe(k)
                &&& forall|k: Seq<char>, n: Seq<u8>, c: Seq<u8>, d: Seq<u8>|
                    #![trigger old(self).resposta_decifrar(k, n, c, d)]
                    #![trigger final(self).resposta_decifrar(k, n, c, d)]
                    k != id@ ==> final(self).resposta_decifrar(k, n, c, d) == old(self).resposta_decifrar(k, n, c, d)
                &&& forall|k: Seq<char>|
                    #![trigger old(self).falha_destruir(k)]
                    #![trigger final(self).falha_destruir(k)]
                    k != id@ ==> final(self).falha_destruir(k) == old(self).falha_destruir(k)
            },
            r matches Err(e) ==> old(self).admite_falha_criar(id@, e@) && &*final(self) == &*old(self),
    ;

    fn cifrar(&self, id: &IdChave, plaintext: &[u8], aad: &[u8]) -> (r: Resultado<PacoteCifrado>)
        ensures
            r matches Ok(p) ==> {
                &&& self.chaves().contains(id@)
                &&& p.nonce@.len() == 12
                &&& p.conteudo_cifrado@.len() == plaintext@.len() + 16
                &&& self.resposta_decifrar(id@, p.nonce@, p.conteudo_cifrado@, aad@) == Ok::<Seq<u8>, VistaErro>(plaintext@)
            },
            r matches Err(e) ==> self.admite_falha_cifrar(id@, e@),
    ;

    /// O plaintext volta num `Zeroizing`, que o zera ao ser descartado.
    fn decifrar(&self, id: &IdChave, pacote: &PacoteCifrado, aad: &[u8]) -> (r: Resultado<BytesProtegidos>)
        ensures
            vista_protegida(r) == self.resposta_decifrar(id@, pacote.nonce@, pacote.conteudo_cifrado@, aad@),
    ;

    /// Deve ser idempotente: destruir uma chave já ausente não é erro.
    fn destruir_chave(&mut self, id: &IdChave) -> (r: Resultado<()>)
        ensures
            match old(self).falha_destruir(id@) {
                Some(e) => (r matches Err(x) && x@ == e) && &*final(self) == &*old(self),
                None => {
                    &&& r is Ok
                    &&& final(self).chaves() == old(self).chaves().remove(id@)
                    &&& forall|k: Seq<char>|
                    #![trigger old(self).falha_existe(k)]
                    #![trigger final(self).falha_existe(k)]
                    k != id@ ==> final(self).falha_existe(k) == old(self).falha_existe(k)
                &&& forall|k: Seq<char>, n: Seq<u8>, c: Seq<u8>, d: Seq<u8>|
                    #![trigger old(self).resposta_decifrar(k, n, c, d)]
                    #![trigger final(self).resposta_decifrar(k, n, c, d)]
                    k != id@ ==> final(self).resposta_decifrar(k, n, c, d) == old(self).resposta_decifrar(k, n, c, d)
                &&& forall|k: Seq<char>|
                    #![trigger old(self).falha_destruir(k)]
                    #![trigger final(self).falha_destruir(k)]
                    k != id@ ==> final(self).falha_destruir(k) == old(self).falha_destruir(k)
                },
            },
    ;

    fn existe_chave(&self, id: &IdChave) -> (r: Resultado<bool>)
        ensures
            match self.falha_existe(id@) {
                Some(e) => r matches Err(x) && x@ == e,
                None => r matches Ok(b) && b == self.chaves().contains(id@),
            },
    ;

    fn nivel_protecao(&self) -> NivelProtecao;
}

/// Vista de um plaintext devolvido num `Zeroizing`: os bytes guardados, ou o erro.
pub open spec fn vista_protegida(r: Resultado<BytesProtegidos>) -> Result<Seq<u8>, VistaErro> {
    match r {
        Ok(z) => Ok(bytes_protegidos(z)),
        Err(e) => Err(e@),
    }
}

/// Resposta de `existe_chave(id)` neste estado.
pub open spec fn resposta_existe<C: CofreDeChaves>(c: C, id: Seq<char>) -> Result<bool, VistaErro> {
    match c.falha_existe(id) {
        Some(e) => Err(e),
        None => Ok(c.chaves().contains(id)),
    }
}

/// Os dois estados respondem igual a toda consulta sobre chaves que não `id`.
pub open spec fn mesmas_respostas_fora<C: CofreDeChaves>(a: C, b: C, id: Seq<char>) -> bool {
    &&& forall|k: Seq<char>| k != id ==> (#[trigger] a.chaves().contains(k) <==> b.chaves().contains(k))
    &&& forall|k: Seq<char>|
        #![trigger a.falha_existe(k)]
        #![trigger b.falha_existe(k)]
        k != id ==> a.falha_existe(k) == b.falha_existe(k)
    &&& forall|k: Seq<char>, n: Seq<u8>, c: Seq<u8>, d: Seq<u8>|
        #![trigger a.resposta_decifrar(k, n, c, d)]
        #![trigger b.resposta_decifrar(k, n, c, d)]
        k != id ==> a.resposta_decifrar(k, n, c, d) == b.resposta_decifrar(k, n, c, d)
    &&& forall|k: Seq<char>|
        #![trigger a.falha_destruir(k)]
        #![trigger b.falha_destruir(k)]
        k != id ==> a.falha_destruir(k) == b.falha_destruir(k)
}

} // verus!

use jabuti::sistema::nome_entrada;
use jabuti::IdChave;

#[test]
fn nome_da_entrada_nao_expoe_id_original() {
    let id = IdChave::novo("jabuti:mensagem:segredo-interno:123");
    let nome = nome_entrada("perfil-A", &id);
    assert!(nome.starts_with("v1-"));
    assert_eq!(nome.len(), 67);
    assert!(!nome.contains("segredo-interno"));
}

#[test]
fn namespaces_geram_entradas_distintas() {
    let id = IdChave::novo("mesma-chave");
    assert_ne!(nome_entrada("perfil-A", &id), nome_entrada("perfil-B", &id));
}

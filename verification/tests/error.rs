use siri::error::{validation_error, AuthError, AuthResult};

#[test]
fn each_kind_of_error_has_its_heading() {
    assert_eq!(
        AuthError::Database("disk full".to_string()).message(),
        "Erro de banco de dados: disk full"
    );
    assert_eq!(
        AuthError::PasswordHashing("salt".to_string()).message(),
        "Erro ao processar senha: salt"
    );
    assert_eq!(
        AuthError::Validation("Senha atual incorreta".to_string()).message(),
        "Erro de validação: Senha atual incorreta"
    );
    assert_eq!(AuthError::Input("eof".to_string()).message(), "Erro de entrada: eof");
    assert_eq!(AuthError::NotFound("bob".to_string()).message(), "Não encontrado: bob");
    assert_eq!(
        AuthError::PermissionDenied("admin".to_string()).message(),
        "Permissão negada: admin"
    );
}

#[test]
fn an_empty_message_leaves_the_heading() {
    assert_eq!(AuthError::Validation(String::new()).message(), "Erro de validação: ");
}

#[test]
fn validation_error_carries_its_message() {
    let result: AuthResult<u8> = validation_error("nome inválido");
    assert_eq!(result, Err(AuthError::Validation("nome inválido".to_string())));
}

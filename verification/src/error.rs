//! The errors that the operations of this crate report.

use vstd::prelude::*;
use vstd::string::StringExecFns;

verus! {

/// What went wrong in an operation.
///
/// `Validation` is for the caller to correct: empty input, a password the
/// policy turns down, a username that is taken, a wrong current password.
/// `PasswordHashing` and `Database` are not: the hashing engine could not
/// produce or read a hash, or the store reported a fault. Each carries a
/// message for people to read.
#[derive(Debug, Clone, PartialEq, Eq)]
pub enum AuthError {
    Database(String),
    PasswordHashing(String),
    Validation(String),
    Input(String),
    NotFound(String),
    PermissionDenied(String),
}

/// An `AuthError` with its message as a sequence of characters.
pub enum AuthErrorView {
    Database(Seq<char>),
    PasswordHashing(Seq<char>),
    Validation(Seq<char>),
    Input(Seq<char>),
    NotFound(Seq<char>),
    PermissionDenied(Seq<char>),
}

impl View for AuthError {
    type V = AuthErrorView;

    open spec fn view(&self) -> AuthErrorView {
        match self {
            AuthError::Database(message) => AuthErrorView::Database(message@),
            AuthError::PasswordHashing(message) => AuthErrorView::PasswordHashing(message@),
            AuthError::Validation(message) => AuthErrorView::Validation(message@),
            AuthError::Input(message) => AuthErrorView::Input(message@),
            AuthError::NotFound(message) => AuthErrorView::NotFound(message@),
            AuthError::PermissionDenied(message) => AuthErrorView::PermissionDenied(message@),
        }
    }
}

/// The result of an operation of this crate.
pub type AuthResult<T> = Result<T, AuthError>;

/// A result with its error, if any, taken by its view.
pub open spec fn result_view<T>(result: AuthResult<T>) -> Result<T, AuthErrorView> {
    match result {
        Ok(value) => Ok(value),
        Err(error) => Err(error@),
    }
}

/// The text that introduces an error of each kind when it is shown.
pub open spec fn error_heading(error: AuthErrorView) -> Seq<char> {
    match error {
        AuthErrorView::Database(_) => "Erro de banco de dados: "@,
        AuthErrorView::PasswordHashing(_) => "Erro ao processar senha: "@,
        AuthErrorView::Validation(_) => "Erro de validação: "@,
        AuthErrorView::Input(_) => "Erro de entrada: "@,
        AuthErrorView::NotFound(_) => "Não encontrado: "@,
        AuthErrorView::PermissionDenied(_) => "Permissão negada: "@,
    }
}

/// The message an error carries.
pub open spec fn error_detail(error: AuthErrorView) -> Seq<char> {
    match error {
        AuthErrorView::Database(message) => message,
        AuthErrorView::PasswordHashing(message) => message,
        AuthErrorView::Validation(message) => message,
        AuthErrorView::Input(message) => message,
        AuthErrorView::NotFound(message) => message,
        AuthErrorView::PermissionDenied(message) => message,
    }
}

impl AuthError {
    /// The error as shown to a person: the heading of its kind, then the
    /// message it carries.
    pub fn message(&self) -> (text: String)
        ensures
            text@ == error_heading(self@) + error_detail(self@),
    {
        match self {
            AuthError::Database(message) => String::from_str("Erro de banco de dados: ").concat(
                message.as_str(),
            ),
            AuthError::PasswordHashing(message) => String::from_str(
                "Erro ao processar senha: ",
            ).concat(message.as_str()),
            AuthError::Validation(message) => String::from_str("Erro de validação: ").concat(
                message.as_str(),
            ),
            AuthError::Input(message) => String::from_str("Erro de entrada: ").concat(
                message.as_str(),
            ),
            AuthError::NotFound(message) => String::from_str("Não encontrado: ").concat(
                message.as_str(),
            ),
            AuthError::PermissionDenied(message) => String::from_str("Permissão negada: ").concat(
                message.as_str(),
            ),
        }
    }
}

/// A validation error that carries `message`.
pub fn validation_error<T>(message: &str) -> (result: AuthResult<T>)
    ensures
        result matches Err(error) && error@ == AuthErrorView::Validation(message@),
{
    Err(AuthError::Validation(String::from_str(message)))
}

} // verus!

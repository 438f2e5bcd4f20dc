//! Password policy: the structural and strength rules that credentials must
//! meet before any hashing or storage takes place.

use crate::error::{AuthError, AuthErrorView};
use crate::text::{decimal_string, decimal_text};
use vstd::prelude::*;
use vstd::string::StringExecFns;
use vstd::utf8::encode_utf8;

verus! {

/// The strength rules a password is held to.
#[derive(Clone, Copy, Debug)]
pub struct PasswordConfig {
    /// Smallest accepted length, in bytes of the UTF-8 encoding.
    pub min_length: usize,
    pub require_digit: bool,
    pub require_uppercase: bool,
    pub require_lowercase: bool,
    pub require_special: bool,
}

/// The policy applied when none is given: eight bytes and one digit.
pub open spec fn default_config() -> PasswordConfig {
    PasswordConfig {
        min_length: 8,
        require_digit: true,
        require_uppercase: false,
        require_lowercase: false,
        require_special: false,
    }
}

impl Default for PasswordConfig {
    fn default() -> (config: PasswordConfig)
        ensures
            config == default_config(),
    {
        PasswordConfig {
            min_length: 8,
            require_digit: true,
            require_uppercase: false,
            require_lowercase: false,
            require_special: false,
        }
    }
}

/// The kinds of character a policy can ask for.
#[derive(Clone, Copy, Debug, PartialEq, Eq, Structural)]
pub enum CharClass {
    Digit,
    Uppercase,
    Lowercase,
    Special,
}

/// The symbols that count as special characters.
pub open spec fn special_symbols() -> Seq<char> {
    seq![
        '!', '@', '#', '$', '%', '^', '&', '*', '(', ')', '_', '+', '-', '=', '[', ']', '{', '}',
        '|', ';', ':', ',', '.', '<', '>', '?',
    ]
}

/// Whether `c` belongs to `class`. Digits and letters are the ASCII ones only.
pub open spec fn in_class(c: char, class: CharClass) -> bool {
    match class {
        CharClass::Digit => '0' <= c && c <= '9',
        CharClass::Uppercase => 'A' <= c && c <= 'Z',
        CharClass::Lowercase => 'a' <= c && c <= 'z',
        CharClass::Special => special_symbols().contains(c),
    }
}

/// Whether some character of `s` belongs to `class`.
pub open spec fn has_class(s: Seq<char>, class: CharClass) -> bool {
    exists|i: int| 0 <= i < s.len() && in_class(#[trigger] s[i], class)
}

/// Length of `s` in bytes of its UTF-8 encoding.
pub open spec fn byte_length(s: Seq<char>) -> nat {
    encode_utf8(s).len()
}

/// Decides whether the character `c` belongs to `class`.
pub fn char_in_class(c: char, class: CharClass) -> (member: bool)
    ensures
        member == in_class(c, class),
{
    match class {
        CharClass::Digit => '0' <= c && c <= '9',
        CharClass::Uppercase => 'A' <= c && c <= 'Z',
        CharClass::Lowercase => 'a' <= c && c <= 'z',
        CharClass::Special => {
            let member = c == '!' || c == '@' || c == '#' || c == '$' || c == '%' || c == '^'
                || c == '&' || c == '*' || c == '(' || c == ')' || c == '_' || c == '+' || c == '-'
                || c == '=' || c == '[' || c == ']' || c == '{' || c == '}' || c == '|' || c == ';'
                || c == ':' || c == ',' || c == '.' || c == '<' || c == '>' || c == '?';
            member
        },
    }
}

/// Decides whether some character of `s` belongs to `class`.
pub fn contains_class(s: &str, class: CharClass) -> (found: bool)
    ensures
        found == has_class(s@, class),
{
    let mut found = false;
    for c in it: s.chars()
        invariant
            found == (exists|i: int| 0 <= i < it.index() && in_class(#[trigger] it.seq()[i], class)),
            it.seq() == s@,
    {
        if char_in_class(c, class) {
            found = true;
        }
    }
    found
}

/// Why a pair of credentials, or a password, was turned down.
#[derive(Clone, Copy, Debug, PartialEq, Eq, Structural)]
pub enum ValidationFailure {
    EmptyUsername,
    EmptyPassword,
    TooShort { min_length: usize },
    MissingDigit,
    MissingUppercase,
    MissingLowercase,
    MissingSpecial,
}

/// The structural rule: neither the username nor the password may be empty.
/// An empty username is reported before an empty password.
pub open spec fn credentials_check(username: Seq<char>, password: Seq<char>) -> Result<
    (),
    ValidationFailure,
> {
    if username.len() == 0 {
        Err(ValidationFailure::EmptyUsername)
    } else if password.len() == 0 {
        Err(ValidationFailure::EmptyPassword)
    } else {
        Ok(())
    }
}

/// The strength rules, in the order in which they are examined.
#[derive(Clone, Copy, Debug, PartialEq, Eq, Structural)]
pub enum StrengthRule {
    Length,
    Digit,
    Uppercase,
    Lowercase,
    Special,
}

/// Position of a rule in the order of examination.
pub open spec fn rule_rank(rule: StrengthRule) -> nat {
    match rule {
        StrengthRule::Length => 0,
        StrengthRule::Digit => 1,
        StrengthRule::Uppercase => 2,
        StrengthRule::Lowercase => 3,
        StrengthRule::Special => 4,
    }
}

/// Whether `password` breaks `rule` under `config`. A rule that the policy
/// does not ask for is never broken.
pub open spec fn violates(password: Seq<char>, config: PasswordConfig, rule: StrengthRule) -> bool {
    match rule {
        StrengthRule::Length => byte_length(password) < config.min_length,
        StrengthRule::Digit => config.require_digit && !has_class(password, CharClass::Digit),
        StrengthRule::Uppercase => config.require_uppercase && !has_class(
            password,
            CharClass::Uppercase,
        ),
        StrengthRule::Lowercase => config.require_lowercase && !has_class(
            password,
            CharClass::Lowercase,
        ),
        StrengthRule::Special => config.require_special && !has_class(password, CharClass::Special),
    }
}

/// The failure that reports a broken `rule`.
pub open spec fn rule_failure(config: PasswordConfig, rule: StrengthRule) -> ValidationFailure {
    match rule {
        StrengthRule::Length => ValidationFailure::TooShort { min_length: config.min_length },
        StrengthRule::Digit => ValidationFailure::MissingDigit,
        StrengthRule::Uppercase => ValidationFailure::MissingUppercase,
        StrengthRule::Lowercase => ValidationFailure::MissingLowercase,
        StrengthRule::Special => ValidationFailure::MissingSpecial,
    }
}

/// What the strength check gives. The rules are taken in order and the first one
/// that is broken is reported; nothing later is looked at.
pub open spec fn strength_check(password: Seq<char>, config: PasswordConfig) -> Result<
    (),
    ValidationFailure,
> {
    if violates(password, config, StrengthRule::Length) {
        Err(rule_failure(config, StrengthRule::Length))
    } else if violates(password, config, StrengthRule::Digit) {
        Err(rule_failure(config, StrengthRule::Digit))
    } else if violates(password, config, StrengthRule::Uppercase) {
        Err(rule_failure(config, StrengthRule::Uppercase))
    } else if violates(password, config, StrengthRule::Lowercase) {
        Err(rule_failure(config, StrengthRule::Lowercase))
    } else if violates(password, config, StrengthRule::Special) {
        Err(rule_failure(config, StrengthRule::Special))
    } else {
        Ok(())
    }
}

/// Checks that neither the username nor the password is empty. Both are taken
/// as given: trimming is the caller's business.
pub fn validate_credentials(username: &str, password: &str) -> (verdict: Result<
    (),
    ValidationFailure,
>)
    ensures
        verdict == credentials_check(username@, password@),
{
    if username.is_empty() {
        return Err(ValidationFailure::EmptyUsername);
    }
    if password.is_empty() {
        return Err(ValidationFailure::EmptyPassword);
    }
    Ok(())
}

/// Checks `password` against `config`, reporting the first rule it breaks.
pub fn validate_password_strength(password: &str, config: &PasswordConfig) -> (verdict: Result<
    (),
    ValidationFailure,
>)
    ensures
        verdict == strength_check(password@, *config),
{
    if password.as_bytes().len() < config.min_length {
        return Err(ValidationFailure::TooShort { min_length: config.min_length });
    }
    if config.require_digit && !contains_class(password, CharClass::Digit) {
        return Err(ValidationFailure::MissingDigit);
    }
    if config.require_uppercase && !contains_class(password, CharClass::Uppercase) {
        return Err(ValidationFailure::MissingUppercase);
    }
    if config.require_lowercase && !contains_class(password, CharClass::Lowercase) {
        return Err(ValidationFailure::MissingLowercase);
    }
    if config.require_special && !contains_class(password, CharClass::Special) {
        return Err(ValidationFailure::MissingSpecial);
    }
    Ok(())
}

/// A password is accepted exactly when it breaks no rule, and a rejection
/// names the broken rule of lowest rank: a password that is both too short
/// and without a digit is reported as too short, whatever else it lacks.
pub proof fn lemma_first_violation_reported(password: Seq<char>, config: PasswordConfig)
    ensures
        strength_check(password, config) is Ok <==> forall|rule: StrengthRule|
            !violates(password, config, rule),
        forall|rule: StrengthRule|
            violates(password, config, rule) && (forall|earlier: StrengthRule|
                rule_rank(earlier) < rule_rank(rule) ==> !violates(password, config, earlier))
                ==> strength_check(password, config) == Err::<(), ValidationFailure>(
                rule_failure(config, rule),
            ),
        violates(password, config, StrengthRule::Length) ==> strength_check(password, config)
            == Err::<(), ValidationFailure>(
            ValidationFailure::TooShort { min_length: config.min_length },
        ),
{
    assert forall|rule: StrengthRule|
        violates(password, config, rule) && (forall|earlier: StrengthRule|
            rule_rank(earlier) < rule_rank(rule) ==> !violates(
                password,
                config,
                earlier,
            )) implies strength_check(password, config) == Err::<(), ValidationFailure>(
        rule_failure(config, rule),
    ) by {
        if rule_rank(rule) > 0 {
            assert(rule_rank(StrengthRule::Length) < rule_rank(rule));
        }
        if rule_rank(rule) > 1 {
            assert(rule_rank(StrengthRule::Digit) < rule_rank(rule));
        }
        if rule_rank(rule) > 2 {
            assert(rule_rank(StrengthRule::Uppercase) < rule_rank(rule));
        }
        if rule_rank(rule) > 3 {
            assert(rule_rank(StrengthRule::Lowercase) < rule_rank(rule));
        }
    }
    if strength_check(password, config) is Ok {
        assert forall|rule: StrengthRule| !violates(password, config, rule) by {
            match rule {
                StrengthRule::Length => {},
                StrengthRule::Digit => {},
                StrengthRule::Uppercase => {},
                StrengthRule::Lowercase => {},
                StrengthRule::Special => {},
            }
        }
    }
}

/// Under a policy that asks for at least one byte, an accepted password is
/// not empty.
pub proof fn lemma_accepted_password_not_empty(password: Seq<char>, config: PasswordConfig)
    requires
        config.min_length > 0,
        strength_check(password, config) is Ok,
    ensures
        password.len() > 0,
{
    if password.len() == 0 {
        assert(encode_utf8(password) =~= Seq::<u8>::empty());
    }
}

/// The message that explains a failure to the person who typed the input.
pub open spec fn failure_text(failure: ValidationFailure) -> Seq<char> {
    match failure {
        ValidationFailure::EmptyUsername => "Nome de usuário não pode estar vazio"@,
        ValidationFailure::EmptyPassword => "Senha não pode estar vazia"@,
        ValidationFailure::TooShort { min_length } => "A senha deve ter pelo menos "@
            + decimal_text(min_length as nat) + " caracteres"@,
        ValidationFailure::MissingDigit => "A senha deve conter pelo menos um número"@,
        ValidationFailure::MissingUppercase => "A senha deve conter pelo menos uma letra maiúscula"@,
        ValidationFailure::MissingLowercase => "A senha deve conter pelo menos uma letra minúscula"@,
        ValidationFailure::MissingSpecial => "A senha deve conter pelo menos um caractere especial"@,
    }
}

impl ValidationFailure {
    /// The message that explains this failure.
    pub fn message(&self) -> (text: String)
        ensures
            text@ == failure_text(*self),
    {
        match self {
            ValidationFailure::EmptyUsername => String::from_str(
                "Nome de usuário não pode estar vazio",
            ),
            ValidationFailure::EmptyPassword => String::from_str("Senha não pode estar vazia"),
            ValidationFailure::TooShort { min_length } => {
                let number = decimal_string(*min_length);
                String::from_str("A senha deve ter pelo menos ").concat(number.as_str()).concat(
                    " caracteres",
                )
            },
            ValidationFailure::MissingDigit => String::from_str(
                "A senha deve conter pelo menos um número",
            ),
            ValidationFailure::MissingUppercase => String::from_str(
                "A senha deve conter pelo menos uma letra maiúscula",
            ),
            ValidationFailure::MissingLowercase => String::from_str(
                "A senha deve conter pelo menos uma letra minúscula",
            ),
            ValidationFailure::MissingSpecial => String::from_str(
                "A senha deve conter pelo menos um caractere especial",
            ),
        }
    }

    /// This failure as the validation error that the operations report.
    pub fn into_error(self) -> (error: AuthError)
        ensures
            error@ == AuthErrorView::Validation(failure_text(self)),
    {
        AuthError::Validation(self.message())
    }
}

} // verus!

//! Public machine-readable error codes (`AppCode`).
//!
//! A code is a stable SCREAMING_SNAKE_CASE identifier returned to clients.
//! Built-in codes mirror [`AppErrorKind`]; custom codes are validated with
//! [`AppCode::new`] (compile-time literals) or [`AppCode::try_new`]
//! (runtime strings).

use vstd::prelude::*;
use vstd::std_specs::cmp::PartialEqSpecImpl;
use vstd::std_specs::convert::FromSpecImpl;

use crate::kind::{kind_debug_name, AppErrorKind};
use crate::text::{owned, str_eq};

verus! {

/// Error returned when parsing an [`AppCode`] from a string fails.
#[derive(Debug, Clone, Copy, PartialEq, Eq, Structural)]
pub struct ParseAppCodeError;

/// Stable machine-readable error code exposed to clients.
///
/// Built-in codes and codes made from string literals are "static"; codes
/// made from runtime strings are "owned". Two codes are equal when both the
/// text and this origin agree.
#[derive(Debug)]
#[non_exhaustive]
pub enum AppCode {
    /// `NOT_FOUND`
    NotFound,
    /// `VALIDATION`
    Validation,
    /// `CONFLICT`
    Conflict,
    /// `USER_ALREADY_EXISTS`
    UserAlreadyExists,
    /// `UNAUTHORIZED`
    Unauthorized,
    /// `FORBIDDEN`
    Forbidden,
    /// `NOT_IMPLEMENTED`
    NotImplemented,
    /// `BAD_REQUEST`
    BadRequest,
    /// `RATE_LIMITED`
    RateLimited,
    /// `TELEGRAM_AUTH`
    TelegramAuth,
    /// `INVALID_JWT`
    InvalidJwt,
    /// `INTERNAL`
    Internal,
    /// `DATABASE`
    Database,
    /// `SERVICE`
    Service,
    /// `CONFIG`
    Config,
    /// `TURNKEY`
    Turnkey,
    /// `TIMEOUT`
    Timeout,
    /// `NETWORK`
    Network,
    /// `DEPENDENCY_UNAVAILABLE`
    DependencyUnavailable,
    /// `SERIALIZATION`
    Serialization,
    /// `DESERIALIZATION`
    Deserialization,
    /// `EXTERNAL_API`
    ExternalApi,
    /// `QUEUE`
    Queue,
    /// `CACHE`
    Cache,
    /// A custom code defined from a string literal.
    Static(&'static str),
    /// A custom code defined at runtime.
    Owned(String),
}

/// Text of a built-in code, or `None` for custom codes.
pub open spec fn builtin_text(code: AppCode) -> Option<Seq<char>> {
    match code {
        AppCode::NotFound => Some("NOT_FOUND"@),
        AppCode::Validation => Some("VALIDATION"@),
        AppCode::Conflict => Some("CONFLICT"@),
        AppCode::UserAlreadyExists => Some("USER_ALREADY_EXISTS"@),
        AppCode::Unauthorized => Some("UNAUTHORIZED"@),
        AppCode::Forbidden => Some("FORBIDDEN"@),
        AppCode::NotImplemented => Some("NOT_IMPLEMENTED"@),
        AppCode::BadRequest => Some("BAD_REQUEST"@),
        AppCode::RateLimited => Some("RATE_LIMITED"@),
        AppCode::TelegramAuth => Some("TELEGRAM_AUTH"@),
        AppCode::InvalidJwt => Some("INVALID_JWT"@),
        AppCode::Internal => Some("INTERNAL"@),
        AppCode::Database => Some("DATABASE"@),
        AppCode::Service => Some("SERVICE"@),
        AppCode::Config => Some("CONFIG"@),
        AppCode::Turnkey => Some("TURNKEY"@),
        AppCode::Timeout => Some("TIMEOUT"@),
        AppCode::Network => Some("NETWORK"@),
        AppCode::DependencyUnavailable => Some("DEPENDENCY_UNAVAILABLE"@),
        AppCode::Serialization => Some("SERIALIZATION"@),
        AppCode::Deserialization => Some("DESERIALIZATION"@),
        AppCode::ExternalApi => Some("EXTERNAL_API"@),
        AppCode::Queue => Some("QUEUE"@),
        AppCode::Cache => Some("CACHE"@),
        AppCode::Static(_) => None,
        AppCode::Owned(_) => None,
    }
}

impl View for AppCode {
    /// Whether the code is static (built-in or literal), and its text.
    type V = (bool, Seq<char>);

    open spec fn view(&self) -> (bool, Seq<char>) {
        match self {
            AppCode::Static(s) => (true, s@),
            AppCode::Owned(s) => (false, s@),
            _ => (true, builtin_text(*self).unwrap()),
        }
    }
}

/// The built-in code that the kind maps to.
pub open spec fn code_of_kind(kind: AppErrorKind) -> AppCode {
    match kind {
        AppErrorKind::NotFound => AppCode::NotFound,
        AppErrorKind::Validation => AppCode::Validation,
        AppErrorKind::Conflict => AppCode::Conflict,
        AppErrorKind::Unauthorized => AppCode::Unauthorized,
        AppErrorKind::Forbidden => AppCode::Forbidden,
        AppErrorKind::NotImplemented => AppCode::NotImplemented,
        AppErrorKind::BadRequest => AppCode::BadRequest,
        AppErrorKind::RateLimited => AppCode::RateLimited,
        AppErrorKind::TelegramAuth => AppCode::TelegramAuth,
        AppErrorKind::InvalidJwt => AppCode::InvalidJwt,
        AppErrorKind::Internal => AppCode::Internal,
        AppErrorKind::Database => AppCode::Database,
        AppErrorKind::Service => AppCode::Service,
        AppErrorKind::Config => AppCode::Config,
        AppErrorKind::Turnkey => AppCode::Turnkey,
        AppErrorKind::Timeout => AppCode::Timeout,
        AppErrorKind::Network => AppCode::Network,
        AppErrorKind::DependencyUnavailable => AppCode::DependencyUnavailable,
        AppErrorKind::Serialization => AppCode::Serialization,
        AppErrorKind::Deserialization => AppCode::Deserialization,
        AppErrorKind::ExternalApi => AppCode::ExternalApi,
        AppErrorKind::Queue => AppCode::Queue,
        AppErrorKind::Cache => AppCode::Cache,
    }
}

/// A byte allowed in a code: `A-Z`, `0-9` or `_`.
pub open spec fn is_code_byte(b: u8) -> bool {
    (65 <= b <= 90) || (48 <= b <= 57) || b == 95
}

/// SCREAMING_SNAKE_CASE: non-empty, only `A-Z0-9_`, no leading, trailing or
/// doubled underscore.
pub open spec fn valid_code_bytes(b: Seq<u8>) -> bool {
    &&& b.len() > 0
    &&& b[0] != 95u8
    &&& b[b.len() - 1] != 95u8
    &&& forall|i: int| 0 <= i < b.len() ==> is_code_byte(#[trigger] b[i])
    &&& forall|i: int| 0 <= i < b.len() - 1 ==> !(#[trigger] b[i] == 95u8 && b[i + 1] == 95u8)
}

/// Whether a string is an acceptable code.
pub open spec fn valid_code(s: Seq<char>) -> bool {
    valid_code_bytes(vstd::utf8::encode_utf8(s))
}

/// The built-in code whose text is `s`, if any.
pub open spec fn static_code_for(s: Seq<char>) -> Option<AppCode> {
    if s == "NOT_FOUND"@ { Some(AppCode::NotFound) }
    else if s == "VALIDATION"@ { Some(AppCode::Validation) }
    else if s == "CONFLICT"@ { Some(AppCode::Conflict) }
    else if s == "USER_ALREADY_EXISTS"@ { Some(AppCode::UserAlreadyExists) }
    else if s == "UNAUTHORIZED"@ { Some(AppCode::Unauthorized) }
    else if s == "FORBIDDEN"@ { Some(AppCode::Forbidden) }
    else if s == "NOT_IMPLEMENTED"@ { Some(AppCode::NotImplemented) }
    else if s == "BAD_REQUEST"@ { Some(AppCode::BadRequest) }
    else if s == "RATE_LIMITED"@ { Some(AppCode::RateLimited) }
    else if s == "TELEGRAM_AUTH"@ { Some(AppCode::TelegramAuth) }
    else if s == "INVALID_JWT"@ { Some(AppCode::InvalidJwt) }
    else if s == "INTERNAL"@ { Some(AppCode::Internal) }
    else if s == "DATABASE"@ { Some(AppCode::Database) }
    else if s == "SERVICE"@ { Some(AppCode::Service) }
    else if s == "CONFIG"@ { Some(AppCode::Config) }
    else if s == "TURNKEY"@ { Some(AppCode::Turnkey) }
    else if s == "TIMEOUT"@ { Some(AppCode::Timeout) }
    else if s == "NETWORK"@ { Some(AppCode::Network) }
    else if s == "DEPENDENCY_UNAVAILABLE"@ { Some(AppCode::DependencyUnavailable) }
    else if s == "SERIALIZATION"@ { Some(AppCode::Serialization) }
    else if s == "DESERIALIZATION"@ { Some(AppCode::Deserialization) }
    else if s == "EXTERNAL_API"@ { Some(AppCode::ExternalApi) }
    else if s == "QUEUE"@ { Some(AppCode::Queue) }
    else if s == "CACHE"@ { Some(AppCode::Cache) }
    else { None }
}

/// Checks that a string is SCREAMING_SNAKE_CASE.
pub fn is_valid_literal(value: &str) -> (r: bool)
    ensures
        r == valid_code(value@),
{
    let bytes = value.as_bytes();
    let len = bytes.len();
    proof {
        assert(bytes@ == vstd::utf8::encode_utf8(value@));
    }
    if len == 0 {
        return false;
    }
    if bytes[0] == 95u8 || bytes[len - 1] == 95u8 {
        return false;
    }
    let mut index: usize = 0;
    while index < len
        invariant
            len == bytes@.len(),
            bytes@ == vstd::utf8::encode_utf8(value@),
            index <= len,
            bytes@.len() > 0,
            forall|i: int| 0 <= i < index ==> is_code_byte(#[trigger] bytes@[i]),
            forall|i: int| 0 <= i < index && i < len - 1 ==> !(#[trigger] bytes@[i] == 95u8 && bytes@[i + 1] == 95u8),
        decreases len - index,
    {
        let byte = bytes[index];
        if !((65u8 <= byte && byte <= 90u8) || (48u8 <= byte && byte <= 57u8) || byte == 95u8) {
            assert(!is_code_byte(bytes@[index as int]));
            return false;
        }
        if byte == 95u8 && index + 1 < len && bytes[index + 1] == 95u8 {
            assert(bytes@[index as int] == 95u8 && bytes@[index + 1] == 95u8);
            return false;
        }
        index += 1;
    }
    true
}

/// Validates a runtime code string.
fn validate_code(value: &str) -> (r: Result<(), ParseAppCodeError>)
    ensures
        r is Ok <==> valid_code(value@),
{
    if !is_valid_literal(value) {
        return Err(ParseAppCodeError);
    }
    Ok(())
}

/// Finds the built-in code spelled exactly as `value`.
pub fn match_static(value: &str) -> (r: Option<AppCode>)
    ensures
        r == static_code_for(value@),
{
    if str_eq(value, "NOT_FOUND") { Some(AppCode::NotFound) }
    else if str_eq(value, "VALIDATION") { Some(AppCode::Validation) }
    else if str_eq(value, "CONFLICT") { Some(AppCode::Conflict) }
    else if str_eq(value, "USER_ALREADY_EXISTS") { Some(AppCode::UserAlreadyExists) }
    else if str_eq(value, "UNAUTHORIZED") { Some(AppCode::Unauthorized) }
    else if str_eq(value, "FORBIDDEN") { Some(AppCode::Forbidden) }
    else if str_eq(value, "NOT_IMPLEMENTED") { Some(AppCode::NotImplemented) }
    else if str_eq(value, "BAD_REQUEST") { Some(AppCode::BadRequest) }
    else if str_eq(value, "RATE_LIMITED") { Some(AppCode::RateLimited) }
    else if str_eq(value, "TELEGRAM_AUTH") { Some(AppCode::TelegramAuth) }
    else if str_eq(value, "INVALID_JWT") { Some(AppCode::InvalidJwt) }
    else if str_eq(value, "INTERNAL") { Some(AppCode::Internal) }
    else if str_eq(value, "DATABASE") { Some(AppCode::Database) }
    else if str_eq(value, "SERVICE") { Some(AppCode::Service) }
    else if str_eq(value, "CONFIG") { Some(AppCode::Config) }
    else if str_eq(value, "TURNKEY") { Some(AppCode::Turnkey) }
    else if str_eq(value, "TIMEOUT") { Some(AppCode::Timeout) }
    else if str_eq(value, "NETWORK") { Some(AppCode::Network) }
    else if str_eq(value, "DEPENDENCY_UNAVAILABLE") { Some(AppCode::DependencyUnavailable) }
    else if str_eq(value, "SERIALIZATION") { Some(AppCode::Serialization) }
    else if str_eq(value, "DESERIALIZATION") { Some(AppCode::Deserialization) }
    else if str_eq(value, "EXTERNAL_API") { Some(AppCode::ExternalApi) }
    else if str_eq(value, "QUEUE") { Some(AppCode::Queue) }
    else if str_eq(value, "CACHE") { Some(AppCode::Cache) }
    else { None }
}

impl AppCode {
    /// Construct a code from a string literal.
    ///
    /// The literal must be SCREAMING_SNAKE_CASE; use [`AppCode::try_new`] to
    /// validate runtime strings. A literal that spells a built-in code gives
    /// that code.
    pub fn new(code: &'static str) -> (r: AppCode)
        requires
            valid_code(code@),
        ensures
            r@ == (true, code@),
    {
        match match_static(code) {
            Some(builtin) => {
                proof { lemma_static_code_text(code@); }
                builtin
            }
            None => AppCode::Static(code),
        }
    }

    /// Construct a code from a runtime string.
    ///
    /// Fails with [`ParseAppCodeError`] exactly when the string is not
    /// SCREAMING_SNAKE_CASE.
    pub fn try_new(code: String) -> (r: Result<AppCode, ParseAppCodeError>)
        ensures
            r is Ok <==> valid_code(code@),
            r matches Ok(c) ==> c@ == (false, code@),
    {
        match validate_code(code.as_str()) {
            Ok(()) => Ok(AppCode::Owned(code)),
            Err(e) => Err(e),
        }
    }

    /// Canonical SCREAMING_SNAKE_CASE text of the code.
    pub fn as_str(&self) -> (r: &str)
        ensures
            r@ == self@.1,
    {
        match self {
            AppCode::NotFound => "NOT_FOUND",
            AppCode::Validation => "VALIDATION",
            AppCode::Conflict => "CONFLICT",
            AppCode::UserAlreadyExists => "USER_ALREADY_EXISTS",
            AppCode::Unauthorized => "UNAUTHORIZED",
            AppCode::Forbidden => "FORBIDDEN",
            AppCode::NotImplemented => "NOT_IMPLEMENTED",
            AppCode::BadRequest => "BAD_REQUEST",
            AppCode::RateLimited => "RATE_LIMITED",
            AppCode::TelegramAuth => "TELEGRAM_AUTH",
            AppCode::InvalidJwt => "INVALID_JWT",
            AppCode::Internal => "INTERNAL",
            AppCode::Database => "DATABASE",
            AppCode::Service => "SERVICE",
            AppCode::Config => "CONFIG",
            AppCode::Turnkey => "TURNKEY",
            AppCode::Timeout => "TIMEOUT",
            AppCode::Network => "NETWORK",
            AppCode::DependencyUnavailable => "DEPENDENCY_UNAVAILABLE",
            AppCode::Serialization => "SERIALIZATION",
            AppCode::Deserialization => "DESERIALIZATION",
            AppCode::ExternalApi => "EXTERNAL_API",
            AppCode::Queue => "QUEUE",
            AppCode::Cache => "CACHE",
            AppCode::Static(s) => s,
            AppCode::Owned(s) => s.as_str(),
        }
    }

    /// Whether the code is built-in or made from a literal.
    pub fn is_static(&self) -> (r: bool)
        ensures
            r == self@.0,
    {
        match self {
            AppCode::Owned(_) => false,
            _ => true,
        }
    }

    /// The code as an owned string (its display form).
    pub fn to_string(&self) -> (r: String)
        ensures
            r@ == self@.1,
    {
        owned(self.as_str())
    }

    /// Parse a code from its canonical text.
    ///
    /// Built-in spellings give the built-in code; other valid strings give an
    /// owned custom code; invalid strings fail.
    pub fn from_str(s: &str) -> (r: Result<AppCode, ParseAppCodeError>)
        ensures
            r is Ok <==> (static_code_for(s@) is Some || valid_code(s@)),
            r is Ok <==> valid_code(s@),
            static_code_for(s@) is Some ==> r == Ok::<AppCode, ParseAppCodeError>(static_code_for(s@).unwrap()),
            static_code_for(s@) is None ==> (r matches Ok(c) ==> c@ == (false, s@)),
    {
        if let Some(code) = match_static(s) {
            proof {
                lemma_static_code_text(s@);
                law_builtin_texts_are_valid(code);
            }
            return Ok(code);
        }
        Self::try_new(owned(s))
    }

    /// The built-in code of an error kind.
    pub fn from_kind(kind: AppErrorKind) -> (r: AppCode)
        ensures
            r == code_of_kind(kind),
    {
        match kind {
            AppErrorKind::NotFound => AppCode::NotFound,
            AppErrorKind::Validation => AppCode::Validation,
            AppErrorKind::Conflict => AppCode::Conflict,
            AppErrorKind::Unauthorized => AppCode::Unauthorized,
            AppErrorKind::Forbidden => AppCode::Forbidden,
            AppErrorKind::NotImplemented => AppCode::NotImplemented,
            AppErrorKind::BadRequest => AppCode::BadRequest,
            AppErrorKind::RateLimited => AppCode::RateLimited,
            AppErrorKind::TelegramAuth => AppCode::TelegramAuth,
            AppErrorKind::InvalidJwt => AppCode::InvalidJwt,
            AppErrorKind::Internal => AppCode::Internal,
            AppErrorKind::Database => AppCode::Database,
            AppErrorKind::Service => AppCode::Service,
            AppErrorKind::Config => AppCode::Config,
            AppErrorKind::Turnkey => AppCode::Turnkey,
            AppErrorKind::Timeout => AppCode::Timeout,
            AppErrorKind::Network => AppCode::Network,
            AppErrorKind::DependencyUnavailable => AppCode::DependencyUnavailable,
            AppErrorKind::Serialization => AppCode::Serialization,
            AppErrorKind::Deserialization => AppCode::Deserialization,
            AppErrorKind::ExternalApi => AppCode::ExternalApi,
            AppErrorKind::Queue => AppCode::Queue,
            AppErrorKind::Cache => AppCode::Cache,
        }
    }
}

/// The built-in code found for a text has that text.
pub proof fn lemma_static_code_text(s: Seq<char>)
    requires
        static_code_for(s) is Some,
    ensures
        static_code_for(s).unwrap()@ == (true, s),
{
}

impl PartialEq for AppCode {
    fn eq(&self, other: &Self) -> (r: bool) {
        self.is_static() == other.is_static() && str_eq(self.as_str(), other.as_str())
    }
}

impl PartialEqSpecImpl for AppCode {
    open spec fn obeys_eq_spec() -> bool {
        true
    }

    open spec fn eq_spec(&self, other: &Self) -> bool {
        self@ == other@
    }
}

impl Eq for AppCode {}

impl Clone for AppCode {
    fn clone(&self) -> (r: AppCode)
        ensures
            r == *self,
    {
        match self {
            AppCode::NotFound => AppCode::NotFound,
            AppCode::Validation => AppCode::Validation,
            AppCode::Conflict => AppCode::Conflict,
            AppCode::UserAlreadyExists => AppCode::UserAlreadyExists,
            AppCode::Unauthorized => AppCode::Unauthorized,
            AppCode::Forbidden => AppCode::Forbidden,
            AppCode::NotImplemented => AppCode::NotImplemented,
            AppCode::BadRequest => AppCode::BadRequest,
            AppCode::RateLimited => AppCode::RateLimited,
            AppCode::TelegramAuth => AppCode::TelegramAuth,
            AppCode::InvalidJwt => AppCode::InvalidJwt,
            AppCode::Internal => AppCode::Internal,
            AppCode::Database => AppCode::Database,
            AppCode::Service => AppCode::Service,
            AppCode::Config => AppCode::Config,
            AppCode::Turnkey => AppCode::Turnkey,
            AppCode::Timeout => AppCode::Timeout,
            AppCode::Network => AppCode::Network,
            AppCode::DependencyUnavailable => AppCode::DependencyUnavailable,
            AppCode::Serialization => AppCode::Serialization,
            AppCode::Deserialization => AppCode::Deserialization,
            AppCode::ExternalApi => AppCode::ExternalApi,
            AppCode::Queue => AppCode::Queue,
            AppCode::Cache => AppCode::Cache,
            AppCode::Static(s) => AppCode::Static(s),
            AppCode::Owned(s) => AppCode::Owned(s.clone()),
        }
    }
}

impl From<AppErrorKind> for AppCode {
    fn from(kind: AppErrorKind) -> (r: AppCode) {
        AppCode::from_kind(kind)
    }
}

impl FromSpecImpl<AppErrorKind> for AppCode {
    open spec fn obeys_from_spec() -> bool {
        true
    }

    open spec fn from_spec(kind: AppErrorKind) -> AppCode {
        code_of_kind(kind)
    }
}

/// Whether a character may appear in a code: `A-Z`, `0-9` or `_`.
pub open spec fn is_code_char(c: char) -> bool {
    ('A' <= c <= 'Z') || ('0' <= c <= '9') || c == '_'
}

/// The character form of [`valid_code_bytes`].
pub open spec fn valid_code_chars(s: Seq<char>) -> bool {
    &&& s.len() > 0
    &&& s[0] != '_'
    &&& s[s.len() - 1] != '_'
    &&& forall|i: int| 0 <= i < s.len() ==> is_code_char(#[trigger] s[i])
    &&& forall|i: int| 0 <= i < s.len() - 1 ==> !(#[trigger] s[i] == '_' && s[i + 1] == '_')
}

/// A text acceptable character by character is an acceptable code.
proof fn lemma_valid_code_chars(s: Seq<char>)
    requires
        valid_code_chars(s),
    ensures
        valid_code(s),
{
    assert(vstd::utf8::is_ascii_chars(s)) by {
        assert forall|i: int| 0 <= i < s.len() implies '\0' <= #[trigger] s[i] <= '\u{7f}' by {
            assert(is_code_char(s[i]));
        }
    }
    vstd::utf8::is_ascii_chars_encode_utf8(s);
    let b = vstd::utf8::encode_utf8(s);
    assert forall|i: int| 0 <= i < b.len() implies is_code_byte(#[trigger] b[i]) by {
        assert(is_code_char(s[i]));
        assert(s[i] as u8 == b[i]);
    }
    assert forall|i: int| 0 <= i < b.len() - 1 implies !(#[trigger] b[i] == 95u8 && b[i + 1] == 95u8) by {
        assert(s[i] as u8 == b[i]);
        assert(s[i + 1] as u8 == b[i + 1]);
        assert(is_code_char(s[i]));
        assert(is_code_char(s[i + 1]));
        assert(!(s[i] == '_' && s[i + 1] == '_'));
    }
    assert(s[0] as u8 == b[0]);
    assert(s[s.len() - 1] as u8 == b[s.len() - 1]);
}

/// Every built-in code's text is an acceptable code, so the texts that
/// parse are exactly the acceptable ones.
pub proof fn law_builtin_texts_are_valid(code: AppCode)
    requires
        builtin_text(code) is Some,
    ensures
        valid_code(builtin_text(code).unwrap()),
{
    match code {
        AppCode::NotFound => {
            reveal_strlit("NOT_FOUND");
            lemma_valid_code_chars("NOT_FOUND"@);
        }
        AppCode::Validation => {
            reveal_strlit("VALIDATION");
            lemma_valid_code_chars("VALIDATION"@);
        }
        AppCode::Conflict => {
            reveal_strlit("CONFLICT");
            lemma_valid_code_chars("CONFLICT"@);
        }
        AppCode::UserAlreadyExists => {
            reveal_strlit("USER_ALREADY_EXISTS");
            lemma_valid_code_chars("USER_ALREADY_EXISTS"@);
        }
        AppCode::Unauthorized => {
            reveal_strlit("UNAUTHORIZED");
            lemma_valid_code_chars("UNAUTHORIZED"@);
        }
        AppCode::Forbidden => {
            reveal_strlit("FORBIDDEN");
            lemma_valid_code_chars("FORBIDDEN"@);
        }
        AppCode::NotImplemented => {
            reveal_strlit("NOT_IMPLEMENTED");
            lemma_valid_code_chars("NOT_IMPLEMENTED"@);
        }
        AppCode::BadRequest => {
            reveal_strlit("BAD_REQUEST");
            lemma_valid_code_chars("BAD_REQUEST"@);
        }
        AppCode::RateLimited => {
            reveal_strlit("RATE_LIMITED");
            lemma_valid_code_chars("RATE_LIMITED"@);
        }
        AppCode::TelegramAuth => {
            reveal_strlit("TELEGRAM_AUTH");
            lemma_valid_code_chars("TELEGRAM_AUTH"@);
        }
        AppCode::InvalidJwt => {
            reveal_strlit("INVALID_JWT");
            lemma_valid_code_chars("INVALID_JWT"@);
        }
        AppCode::Internal => {
            reveal_strlit("INTERNAL");
            lemma_valid_code_chars("INTERNAL"@);
        }
        AppCode::Database => {
            reveal_strlit("DATABASE");
            lemma_valid_code_chars("DATABASE"@);
        }
        AppCode::Service => {
            reveal_strlit("SERVICE");
            lemma_valid_code_chars("SERVICE"@);
        }
        AppCode::Config => {
            reveal_strlit("CONFIG");
            lemma_valid_code_chars("CONFIG"@);
        }
        AppCode::Turnkey => {
            reveal_strlit("TURNKEY");
            lemma_valid_code_chars("TURNKEY"@);
        }
        AppCode::Timeout => {
            reveal_strlit("TIMEOUT");
            lemma_valid_code_chars("TIMEOUT"@);
        }
        AppCode::Network => {
            reveal_strlit("NETWORK");
            lemma_valid_code_chars("NETWORK"@);
        }
        AppCode::DependencyUnavailable => {
            reveal_strlit("DEPENDENCY_UNAVAILABLE");
            lemma_valid_code_chars("DEPENDENCY_UNAVAILABLE"@);
        }
        AppCode::Serialization => {
            reveal_strlit("SERIALIZATION");
            lemma_valid_code_chars("SERIALIZATION"@);
        }
        AppCode::Deserialization => {
            reveal_strlit("DESERIALIZATION");
            lemma_valid_code_chars("DESERIALIZATION"@);
        }
        AppCode::ExternalApi => {
            reveal_strlit("EXTERNAL_API");
            lemma_valid_code_chars("EXTERNAL_API"@);
        }
        AppCode::Queue => {
            reveal_strlit("QUEUE");
            lemma_valid_code_chars("QUEUE"@);
        }
        AppCode::Cache => {
            reveal_strlit("CACHE");
            lemma_valid_code_chars("CACHE"@);
        }
        _ => {}
    }
}

/// ASCII upper case of a character.
pub open spec fn ascii_upper(c: char) -> char {
    if 'a' <= c <= 'z' { ((c as u32) - 32) as char } else { c }
}

/// SCREAMING_SNAKE_CASE form of a CamelCase name: every letter upper-cased,
/// with an underscore before each upper-case letter but the first.
pub open spec fn screaming_snake(name: Seq<char>) -> Seq<char>
    decreases name.len(),
{
    if name.len() == 0 {
        Seq::empty()
    } else {
        let c = name.last();
        let prefix = screaming_snake(name.drop_last());
        (if 'A' <= c <= 'Z' && name.len() > 1 { prefix.push('_') } else { prefix }).push(ascii_upper(c))
    }
}

/// `NotFound` in SCREAMING_SNAKE_CASE is `NOT_FOUND`.
proof fn lemma_snake_not_found()
    ensures
        screaming_snake("NotFound"@) == "NOT_FOUND"@,
{
    reveal_strlit("NotFound");
    reveal_strlit("NOT_FOUND");
    assert(screaming_snake("NotFound"@) =~= "NOT_FOUND"@) by {
        reveal_with_fuel(screaming_snake, 9);
    }
}

/// `Validation` in SCREAMING_SNAKE_CASE is `VALIDATION`.
proof fn lemma_snake_validation()
    ensures
        screaming_snake("Validation"@) == "VALIDATION"@,
{
    reveal_strlit("Validation");
    reveal_strlit("VALIDATION");
    assert(screaming_snake("Validation"@) =~= "VALIDATION"@) by {
        reveal_with_fuel(screaming_snake, 11);
    }
}

/// `Conflict` in SCREAMING_SNAKE_CASE is `CONFLICT`.
proof fn lemma_snake_conflict()
    ensures
        screaming_snake("Conflict"@) == "CONFLICT"@,
{
    reveal_strlit("Conflict");
    reveal_strlit("CONFLICT");
    assert(screaming_snake("Conflict"@) =~= "CONFLICT"@) by {
        reveal_with_fuel(screaming_snake, 9);
    }
}

/// `Unauthorized` in SCREAMING_SNAKE_CASE is `UNAUTHORIZED`.
proof fn lemma_snake_unauthorized()
    ensures
        screaming_snake("Unauthorized"@) == "UNAUTHORIZED"@,
{
    reveal_strlit("Unauthorized");
    reveal_strlit("UNAUTHORIZED");
    assert(screaming_snake("Unauthorized"@) =~= "UNAUTHORIZED"@) by {
        reveal_with_fuel(screaming_snake, 13);
    }
}

/// `Forbidden` in SCREAMING_SNAKE_CASE is `FORBIDDEN`.
proof fn lemma_snake_forbidden()
    ensures
        screaming_snake("Forbidden"@) == "FORBIDDEN"@,
{
    reveal_strlit("Forbidden");
    reveal_strlit("FORBIDDEN");
    assert(screaming_snake("Forbidden"@) =~= "FORBIDDEN"@) by {
        reveal_with_fuel(screaming_snake, 10);
    }
}

/// `NotImplemented` in SCREAMING_SNAKE_CASE is `NOT_IMPLEMENTED`.
proof fn lemma_snake_not_implemented()
    ensures
        screaming_snake("NotImplemented"@) == "NOT_IMPLEMENTED"@,
{
    reveal_strlit("NotImplemented");
    reveal_strlit("NOT_IMPLEMENTED");
    assert(screaming_snake("NotImplemented"@) =~= "NOT_IMPLEMENTED"@) by {
        reveal_with_fuel(screaming_snake, 15);
    }
}

/// `Internal` in SCREAMING_SNAKE_CASE is `INTERNAL`.
proof fn lemma_snake_internal()
    ensures
        screaming_snake("Internal"@) == "INTERNAL"@,
{
    reveal_strlit("Internal");
    reveal_strlit("INTERNAL");
    assert(screaming_snake("Internal"@) =~= "INTERNAL"@) by {
        reveal_with_fuel(screaming_snake, 9);
    }
}

/// `BadRequest` in SCREAMING_SNAKE_CASE is `BAD_REQUEST`.
proof fn lemma_snake_bad_request()
    ensures
        screaming_snake("BadRequest"@) == "BAD_REQUEST"@,
{
    reveal_strlit("BadRequest");
    reveal_strlit("BAD_REQUEST");
    assert(screaming_snake("BadRequest"@) =~= "BAD_REQUEST"@) by {
        reveal_with_fuel(screaming_snake, 11);
    }
}

/// `TelegramAuth` in SCREAMING_SNAKE_CASE is `TELEGRAM_AUTH`.
proof fn lemma_snake_telegram_auth()
    ensures
        screaming_snake("TelegramAuth"@) == "TELEGRAM_AUTH"@,
{
    reveal_strlit("TelegramAuth");
    reveal_strlit("TELEGRAM_AUTH");
    assert(screaming_snake("TelegramAuth"@) =~= "TELEGRAM_AUTH"@) by {
        reveal_with_fuel(screaming_snake, 13);
    }
}

/// `InvalidJwt` in SCREAMING_SNAKE_CASE is `INVALID_JWT`.
proof fn lemma_snake_invalid_jwt()
    ensures
        screaming_snake("InvalidJwt"@) == "INVALID_JWT"@,
{
    reveal_strlit("InvalidJwt");
    reveal_strlit("INVALID_JWT");
    assert(screaming_snake("InvalidJwt"@) =~= "INVALID_JWT"@) by {
        reveal_with_fuel(screaming_snake, 11);
    }
}

/// `Database` in SCREAMING_SNAKE_CASE is `DATABASE`.
proof fn lemma_snake_database()
    ensures
        screaming_snake("Database"@) == "DATABASE"@,
{
    reveal_strlit("Database");
    reveal_strlit("DATABASE");
    assert(screaming_snake("Database"@) =~= "DATABASE"@) by {
        reveal_with_fuel(screaming_snake, 9);
    }
}

/// `Service` in SCREAMING_SNAKE_CASE is `SERVICE`.
proof fn lemma_snake_service()
    ensures
        screaming_snake("Service"@) == "SERVICE"@,
{
    reveal_strlit("Service");
    reveal_strlit("SERVICE");
    assert(screaming_snake("Service"@) =~= "SERVICE"@) by {
        reveal_with_fuel(screaming_snake, 8);
    }
}

/// `Config` in SCREAMING_SNAKE_CASE is `CONFIG`.
proof fn lemma_snake_config()
    ensures
        screaming_snake("Config"@) == "CONFIG"@,
{
    reveal_strlit("Config");
    reveal_strlit("CONFIG");
    assert(screaming_snake("Config"@) =~= "CONFIG"@) by {
        reveal_with_fuel(screaming_snake, 7);
    }
}

/// `Turnkey` in SCREAMING_SNAKE_CASE is `TURNKEY`.
proof fn lemma_snake_turnkey()
    ensures
        screaming_snake("Turnkey"@) == "TURNKEY"@,
{
    reveal_strlit("Turnkey");
    reveal_strlit("TURNKEY");
    assert(screaming_snake("Turnkey"@) =~= "TURNKEY"@) by {
        reveal_with_fuel(screaming_snake, 8);
    }
}

/// `Timeout` in SCREAMING_SNAKE_CASE is `TIMEOUT`.
proof fn lemma_snake_timeout()
    ensures
        screaming_snake("Timeout"@) == "TIMEOUT"@,
{
    reveal_strlit("Timeout");
    reveal_strlit("TIMEOUT");
    assert(screaming_snake("Timeout"@) =~= "TIMEOUT"@) by {
        reveal_with_fuel(screaming_snake, 8);
    }
}

/// `Network` in SCREAMING_SNAKE_CASE is `NETWORK`.
proof fn lemma_snake_network()
    ensures
        screaming_snake("Network"@) == "NETWORK"@,
{
    reveal_strlit("Network");
    reveal_strlit("NETWORK");
    assert(screaming_snake("Network"@) =~= "NETWORK"@) by {
        reveal_with_fuel(screaming_snake, 8);
    }
}

/// `RateLimited` in SCREAMING_SNAKE_CASE is `RATE_LIMITED`.
proof fn lemma_snake_rate_limited()
    ensures
        screaming_snake("RateLimited"@) == "RATE_LIMITED"@,
{
    reveal_strlit("RateLimited");
    reveal_strlit("RATE_LIMITED");
    assert(screaming_snake("RateLimited"@) =~= "RATE_LIMITED"@) by {
        reveal_with_fuel(screaming_snake, 12);
    }
}

/// `DependencyUnavailable` in SCREAMING_SNAKE_CASE is `DEPENDENCY_UNAVAILABLE`.
proof fn lemma_snake_dependency_unavailable()
    ensures
        screaming_snake("DependencyUnavailable"@) == "DEPENDENCY_UNAVAILABLE"@,
{
    reveal_strlit("DependencyUnavailable");
    reveal_strlit("DEPENDENCY_UNAVAILABLE");
    assert(screaming_snake("DependencyUnavailable"@) =~= "DEPENDENCY_UNAVAILABLE"@) by {
        reveal_with_fuel(screaming_snake, 22);
    }
}

/// `Serialization` in SCREAMING_SNAKE_CASE is `SERIALIZATION`.
proof fn lemma_snake_serialization()
    ensures
        screaming_snake("Serialization"@) == "SERIALIZATION"@,
{
    reveal_strlit("Serialization");
    reveal_strlit("SERIALIZATION");
    assert(screaming_snake("Serialization"@) =~= "SERIALIZATION"@) by {
        reveal_with_fuel(screaming_snake, 14);
    }
}

/// `Deserialization` in SCREAMING_SNAKE_CASE is `DESERIALIZATION`.
proof fn lemma_snake_deserialization()
    ensures
        screaming_snake("Deserialization"@) == "DESERIALIZATION"@,
{
    reveal_strlit("Deserialization");
    reveal_strlit("DESERIALIZATION");
    assert(screaming_snake("Deserialization"@) =~= "DESERIALIZATION"@) by {
        reveal_with_fuel(screaming_snake, 16);
    }
}

/// `ExternalApi` in SCREAMING_SNAKE_CASE is `EXTERNAL_API`.
proof fn lemma_snake_external_api()
    ensures
        screaming_snake("ExternalApi"@) == "EXTERNAL_API"@,
{
    reveal_strlit("ExternalApi");
    reveal_strlit("EXTERNAL_API");
    assert(screaming_snake("ExternalApi"@) =~= "EXTERNAL_API"@) by {
        reveal_with_fuel(screaming_snake, 12);
    }
}

/// `Queue` in SCREAMING_SNAKE_CASE is `QUEUE`.
proof fn lemma_snake_queue()
    ensures
        screaming_snake("Queue"@) == "QUEUE"@,
{
    reveal_strlit("Queue");
    reveal_strlit("QUEUE");
    assert(screaming_snake("Queue"@) =~= "QUEUE"@) by {
        reveal_with_fuel(screaming_snake, 6);
    }
}

/// `Cache` in SCREAMING_SNAKE_CASE is `CACHE`.
proof fn lemma_snake_cache()
    ensures
        screaming_snake("Cache"@) == "CACHE"@,
{
    reveal_strlit("Cache");
    reveal_strlit("CACHE");
    assert(screaming_snake("Cache"@) =~= "CACHE"@) by {
        reveal_with_fuel(screaming_snake, 6);
    }
}

/// The built-in code of each kind is the kind's name in
/// SCREAMING_SNAKE_CASE (`NotFound` gives `NOT_FOUND`, `InvalidJwt` gives
/// `INVALID_JWT`), and it is a static code.
pub proof fn law_kind_code_is_screaming_snake_name(kind: AppErrorKind)
    ensures
        code_of_kind(kind)@ == (true, screaming_snake(kind_debug_name(kind))),
{
    match kind {
        AppErrorKind::NotFound => lemma_snake_not_found(),
        AppErrorKind::Validation => lemma_snake_validation(),
        AppErrorKind::Conflict => lemma_snake_conflict(),
        AppErrorKind::Unauthorized => lemma_snake_unauthorized(),
        AppErrorKind::Forbidden => lemma_snake_forbidden(),
        AppErrorKind::NotImplemented => lemma_snake_not_implemented(),
        AppErrorKind::Internal => lemma_snake_internal(),
        AppErrorKind::BadRequest => lemma_snake_bad_request(),
        AppErrorKind::TelegramAuth => lemma_snake_telegram_auth(),
        AppErrorKind::InvalidJwt => lemma_snake_invalid_jwt(),
        AppErrorKind::Database => lemma_snake_database(),
        AppErrorKind::Service => lemma_snake_service(),
        AppErrorKind::Config => lemma_snake_config(),
        AppErrorKind::Turnkey => lemma_snake_turnkey(),
        AppErrorKind::Timeout => lemma_snake_timeout(),
        AppErrorKind::Network => lemma_snake_network(),
        AppErrorKind::RateLimited => lemma_snake_rate_limited(),
        AppErrorKind::DependencyUnavailable => lemma_snake_dependency_unavailable(),
        AppErrorKind::Serialization => lemma_snake_serialization(),
        AppErrorKind::Deserialization => lemma_snake_deserialization(),
        AppErrorKind::ExternalApi => lemma_snake_external_api(),
        AppErrorKind::Queue => lemma_snake_queue(),
        AppErrorKind::Cache => lemma_snake_cache(),
    }
}

/// Every built-in code parses back from its text to itself, so printing
/// and parsing a built-in code is lossless.
#[verifier::rlimit(60)]
pub proof fn law_builtin_code_text_roundtrip(code: AppCode)
    requires
        builtin_text(code) is Some,
    ensures
        static_code_for(code@.1) == Some(code),
{
    match code {
        AppCode::NotFound => {
            reveal_strlit("NOT_FOUND");
        }
        AppCode::Validation => {
            reveal_strlit("VALIDATION");
            reveal_strlit("NOT_FOUND");
            assert("VALIDATION"@.len() != "NOT_FOUND"@.len());
        }
        AppCode::Conflict => {
            reveal_strlit("CONFLICT");
            reveal_strlit("NOT_FOUND");
            assert("CONFLICT"@.len() != "NOT_FOUND"@.len());
            reveal_strlit("VALIDATION");
            assert("CONFLICT"@.len() != "VALIDATION"@.len());
        }
        AppCode::UserAlreadyExists => {
            reveal_strlit("USER_ALREADY_EXISTS");
            reveal_strlit("NOT_FOUND");
            assert("USER_ALREADY_EXISTS"@.len() != "NOT_FOUND"@.len());
            reveal_strlit("VALIDATION");
            assert("USER_ALREADY_EXISTS"@.len() != "VALIDATION"@.len());
            reveal_strlit("CONFLICT");
            assert("USER_ALREADY_EXISTS"@.len() != "CONFLICT"@.len());
        }
        AppCode::Unauthorized => {
            reveal_strlit("UNAUTHORIZED");
            reveal_strlit("NOT_FOUND");
            assert("UNAUTHORIZED"@.len() != "NOT_FOUND"@.len());
            reveal_strlit("VALIDATION");
            assert("UNAUTHORIZED"@.len() != "VALIDATION"@.len());
            reveal_strlit("CONFLICT");
            assert("UNAUTHORIZED"@.len() != "CONFLICT"@.len());
            reveal_strlit("USER_ALREADY_EXISTS");
            assert("UNAUTHORIZED"@.len() != "USER_ALREADY_EXISTS"@.len());
        }
        AppCode::Forbidden => {
            reveal_strlit("FORBIDDEN");
            reveal_strlit("NOT_FOUND");
            assert("FORBIDDEN"@[0] != "NOT_FOUND"@[0]);
            reveal_strlit("VALIDATION");
            assert("FORBIDDEN"@.len() != "VALIDATION"@.len());
            reveal_strlit("CONFLICT");
            assert("FORBIDDEN"@.len() != "CONFLICT"@.len());
            reveal_strlit("USER_ALREADY_EXISTS");
            assert("FORBIDDEN"@.len() != "USER_ALREADY_EXISTS"@.len());
            reveal_strlit("UNAUTHORIZED");
            assert("FORBIDDEN"@.len() != "UNAUTHORIZED"@.len());
        }
        AppCode::NotImplemented => {
            reveal_strlit("NOT_IMPLEMENTED");
            reveal_strlit("NOT_FOUND");
            assert("NOT_IMPLEMENTED"@.len() != "NOT_FOUND"@.len());
            reveal_strlit("VALIDATION");
            assert("NOT_IMPLEMENTED"@.len() != "VALIDATION"@.len());
            reveal_strlit("CONFLICT");
            assert("NOT_IMPLEMENTED"@.len() != "CONFLICT"@.len());
            reveal_strlit("USER_ALREADY_EXISTS");
            assert("NOT_IMPLEMENTED"@.len() != "USER_ALREADY_EXISTS"@.len());
            reveal_strlit("UNAUTHORIZED");
            assert("NOT_IMPLEMENTED"@.len() != "UNAUTHORIZED"@.len());
            reveal_strlit("FORBIDDEN");
            assert("NOT_IMPLEMENTED"@.len() != "FORBIDDEN"@.len());
        }
        AppCode::BadRequest => {
            reveal_strlit("BAD_REQUEST");
            reveal_strlit("NOT_FOUND");
            assert("BAD_REQUEST"@.len() != "NOT_FOUND"@.len());
            reveal_strlit("VALIDATION");
            assert("BAD_REQUEST"@.len() != "VALIDATION"@.len());
            reveal_strlit("CONFLICT");
            assert("BAD_REQUEST"@.len() != "CONFLICT"@.len());
            reveal_strlit("USER_ALREADY_EXISTS");
            assert("BAD_REQUEST"@.len() != "USER_ALREADY_EXISTS"@.len());
            reveal_strlit("UNAUTHORIZED");
            assert("BAD_REQUEST"@.len() != "UNAUTHORIZED"@.len());
            reveal_strlit("FORBIDDEN");
            assert("BAD_REQUEST"@.len() != "FORBIDDEN"@.len());
            reveal_strlit("NOT_IMPLEMENTED");
            assert("BAD_REQUEST"@.len() != "NOT_IMPLEMENTED"@.len());
        }
        AppCode::RateLimited => {
            reveal_strlit("RATE_LIMITED");
            reveal_strlit("NOT_FOUND");
            assert("RATE_LIMITED"@.len() != "NOT_FOUND"@.len());
            reveal_strlit("VALIDATION");
            assert("RATE_LIMITED"@.len() != "VALIDATION"@.len());
            reveal_strlit("CONFLICT");
            assert("RATE_LIMITED"@.len() != "CONFLICT"@.len());
            reveal_strlit("USER_ALREADY_EXISTS");
            assert("RATE_LIMITED"@.len() != "USER_ALREADY_EXISTS"@.len());
            reveal_strlit("UNAUTHORIZED");
            assert("RATE_LIMITED"@[0] != "UNAUTHORIZED"@[0]);
            reveal_strlit("FORBIDDEN");
            assert("RATE_LIMITED"@.len() != "FORBIDDEN"@.len());
            reveal_strlit("NOT_IMPLEMENTED");
            assert("RATE_LIMITED"@.len() != "NOT_IMPLEMENTED"@.len());
            reveal_strlit("BAD_REQUEST");
            assert("RATE_LIMITED"@.len() != "BAD_REQUEST"@.len());
        }
        AppCode::TelegramAuth => {
            reveal_strlit("TELEGRAM_AUTH");
            reveal_strlit("NOT_FOUND");
            assert("TELEGRAM_AUTH"@.len() != "NOT_FOUND"@.len());
            reveal_strlit("VALIDATION");
            assert("TELEGRAM_AUTH"@.len() != "VALIDATION"@.len());
            reveal_strlit("CONFLICT");
            assert("TELEGRAM_AUTH"@.len() != "CONFLICT"@.len());
            reveal_strlit("USER_ALREADY_EXISTS");
            assert("TELEGRAM_AUTH"@.len() != "USER_ALREADY_EXISTS"@.len());
            reveal_strlit("UNAUTHORIZED");
            assert("TELEGRAM_AUTH"@.len() != "UNAUTHORIZED"@.len());
            reveal_strlit("FORBIDDEN");
            assert("TELEGRAM_AUTH"@.len() != "FORBIDDEN"@.len());
            reveal_strlit("NOT_IMPLEMENTED");
            assert("TELEGRAM_AUTH"@.len() != "NOT_IMPLEMENTED"@.len());
            reveal_strlit("BAD_REQUEST");
            assert("TELEGRAM_AUTH"@.len() != "BAD_REQUEST"@.len());
            reveal_strlit("RATE_LIMITED");
            assert("TELEGRAM_AUTH"@.len() != "RATE_LIMITED"@.len());
        }
        AppCode::InvalidJwt => {
            reveal_strlit("INVALID_JWT");
            reveal_strlit("NOT_FOUND");
            assert("INVALID_JWT"@.len() != "NOT_FOUND"@.len());
            reveal_strlit("VALIDATION");
            assert("INVALID_JWT"@.len() != "VALIDATION"@.len());
            reveal_strlit("CONFLICT");
            assert("INVALID_JWT"@.len() != "CONFLICT"@.len());
            reveal_strlit("USER_ALREADY_EXISTS");
            assert("INVALID_JWT"@.len() != "USER_ALREADY_EXISTS"@.len());
            reveal_strlit("UNAUTHORIZED");
            assert("INVALID_JWT"@.len() != "UNAUTHORIZED"@.len());
            reveal_strlit("FORBIDDEN");
            assert("INVALID_JWT"@.len() != "FORBIDDEN"@.len());
            reveal_strlit("NOT_IMPLEMENTED");
            assert("INVALID_JWT"@.len() != "NOT_IMPLEMENTED"@.len());
            reveal_strlit("BAD_REQUEST");
            assert("INVALID_JWT"@[0] != "BAD_REQUEST"@[0]);
            reveal_strlit("RATE_LIMITED");
            assert("INVALID_JWT"@.len() != "RATE_LIMITED"@.len());
            reveal_strlit("TELEGRAM_AUTH");
            assert("INVALID_JWT"@.len() != "TELEGRAM_AUTH"@.len());
        }
        AppCode::Internal => {
            reveal_strlit("INTERNAL");
            reveal_strlit("NOT_FOUND");
            assert("INTERNAL"@.len() != "NOT_FOUND"@.len());
            reveal_strlit("VALIDATION");
            assert("INTERNAL"@.len() != "VALIDATION"@.len());
            reveal_strlit("CONFLICT");
            assert("INTERNAL"@[0] != "CONFLICT"@[0]);
            reveal_strlit("USER_ALREADY_EXISTS");
            assert("INTERNAL"@.len() != "USER_ALREADY_EXISTS"@.len());
            reveal_strlit("UNAUTHORIZED");
            assert("INTERNAL"@.len() != "UNAUTHORIZED"@.len());
            reveal_strlit("FORBIDDEN");
            assert("INTERNAL"@.len() != "FORBIDDEN"@.len());
            reveal_strlit("NOT_IMPLEMENTED");
            assert("INTERNAL"@.len() != "NOT_IMPLEMENTED"@.len());
            reveal_strlit("BAD_REQUEST");
            assert("INTERNAL"@.len() != "BAD_REQUEST"@.len());
            reveal_strlit("RATE_LIMITED");
            assert("INTERNAL"@.len() != "RATE_LIMITED"@.len());
            reveal_strlit("TELEGRAM_AUTH");
            assert("INTERNAL"@.len() != "TELEGRAM_AUTH"@.len());
            reveal_strlit("INVALID_JWT");
            assert("INTERNAL"@.len() != "INVALID_JWT"@.len());
        }
        AppCode::Database => {
            reveal_strlit("DATABASE");
            reveal_strlit("NOT_FOUND");
            assert("DATABASE"@.len() != "NOT_FOUND"@.len());
            reveal_strlit("VALIDATION");
            assert("DATABASE"@.len() != "VALIDATION"@.len());
            reveal_strlit("CONFLICT");
            assert("DATABASE"@[0] != "CONFLICT"@[0]);
            reveal_strlit("USER_ALREADY_EXISTS");
            assert("DATABASE"@.len() != "USER_ALREADY_EXISTS"@.len());
            reveal_strlit("UNAUTHORIZED");
            assert("DATABASE"@.len() != "UNAUTHORIZED"@.len());
            reveal_strlit("FORBIDDEN");
            assert("DATABASE"@.len() != "FORBIDDEN"@.len());
            reveal_strlit("NOT_IMPLEMENTED");
            assert("DATABASE"@.len() != "NOT_IMPLEMENTED"@.len());
            reveal_strlit("BAD_REQUEST");
            assert("DATABASE"@.len() != "BAD_REQUEST"@.len());
            reveal_strlit("RATE_LIMITED");
            assert("DATABASE"@.len() != "RATE_LIMITED"@.len());
            reveal_strlit("TELEGRAM_AUTH");
            assert("DATABASE"@.len() != "TELEGRAM_AUTH"@.len());
            reveal_strlit("INVALID_JWT");
            assert("DATABASE"@.len() != "INVALID_JWT"@.len());
            reveal_strlit("INTERNAL");
            assert("DATABASE"@[0] != "INTERNAL"@[0]);
        }
        AppCode::Service => {
            reveal_strlit("SERVICE");
            reveal_strlit("NOT_FOUND");
            assert("SERVICE"@.len() != "NOT_FOUND"@.len());
            reveal_strlit("VALIDATION");
            assert("SERVICE"@.len() != "VALIDATION"@.len());
            reveal_strlit("CONFLICT");
            assert("SERVICE"@.len() != "CONFLICT"@.len());
            reveal_strlit("USER_ALREADY_EXISTS");
            assert("SERVICE"@.len() != "USER_ALREADY_EXISTS"@.len());
            reveal_strlit("UNAUTHORIZED");
            assert("SERVICE"@.len() != "UNAUTHORIZED"@.len());
            reveal_strlit("FORBIDDEN");
            assert("SERVICE"@.len() != "FORBIDDEN"@.len());
            reveal_strlit("NOT_IMPLEMENTED");
            assert("SERVICE"@.len() != "NOT_IMPLEMENTED"@.len());
            reveal_strlit("BAD_REQUEST");
            assert("SERVICE"@.len() != "BAD_REQUEST"@.len());
            reveal_strlit("RATE_LIMITED");
            assert("SERVICE"@.len() != "RATE_LIMITED"@.len());
            reveal_strlit("TELEGRAM_AUTH");
            assert("SERVICE"@.len() != "TELEGRAM_AUTH"@.len());
            reveal_strlit("INVALID_JWT");
            assert("SERVICE"@.len() != "INVALID_JWT"@.len());
            reveal_strlit("INTERNAL");
            assert("SERVICE"@.len() != "INTERNAL"@.len());
            reveal_strlit("DATABASE");
            assert("SERVICE"@.len() != "DATABASE"@.len());
        }
        AppCode::Config => {
            reveal_strlit("CONFIG");
            reveal_strlit("NOT_FOUND");
            assert("CONFIG"@.len() != "NOT_FOUND"@.len());
            reveal_strlit("VALIDATION");
            assert("CONFIG"@.len() != "VALIDATION"@.len());
            reveal_strlit("CONFLICT");
            assert("CONFIG"@.len() != "CONFLICT"@.len());
            reveal_strlit("USER_ALREADY_EXISTS");
            assert("CONFIG"@.len() != "USER_ALREADY_EXISTS"@.len());
            reveal_strlit("UNAUTHORIZED");
            assert("CONFIG"@.len() != "UNAUTHORIZED"@.len());
            reveal_strlit("FORBIDDEN");
            assert("CONFIG"@.len() != "FORBIDDEN"@.len());
            reveal_strlit("NOT_IMPLEMENTED");
            assert("CONFIG"@.len() != "NOT_IMPLEMENTED"@.len());
            reveal_strlit("BAD_REQUEST");
            assert("CONFIG"@.len() != "BAD_REQUEST"@.len());
            reveal_strlit("RATE_LIMITED");
            assert("CONFIG"@.len() != "RATE_LIMITED"@.len());
            reveal_strlit("TELEGRAM_AUTH");
            assert("CONFIG"@.len() != "TELEGRAM_AUTH"@.len());
            reveal_strlit("INVALID_JWT");
            assert("CONFIG"@.len() != "INVALID_JWT"@.len());
            reveal_strlit("INTERNAL");
            assert("CONFIG"@.len() != "INTERNAL"@.len());
            reveal_strlit("DATABASE");
            assert("CONFIG"@.len() != "DATABASE"@.len());
            reveal_strlit("SERVICE");
            assert("CONFIG"@.len() != "SERVICE"@.len());
        }
        AppCode::Turnkey => {
            reveal_strlit("TURNKEY");
            reveal_strlit("NOT_FOUND");
            assert("TURNKEY"@.len() != "NOT_FOUND"@.len());
            reveal_strlit("VALIDATION");
            assert("TURNKEY"@.len() != "VALIDATION"@.len());
            reveal_strlit("CONFLICT");
            assert("TURNKEY"@.len() != "CONFLICT"@.len());
            reveal_strlit("USER_ALREADY_EXISTS");
            assert("TURNKEY"@.len() != "USER_ALREADY_EXISTS"@.len());
            reveal_strlit("UNAUTHORIZED");
            assert("TURNKEY"@.len() != "UNAUTHORIZED"@.len());
            reveal_strlit("FORBIDDEN");
            assert("TURNKEY"@.len() != "FORBIDDEN"@.len());
            reveal_strlit("NOT_IMPLEMENTED");
            assert("TURNKEY"@.len() != "NOT_IMPLEMENTED"@.len());
            reveal_strlit("BAD_REQUEST");
            assert("TURNKEY"@.len() != "BAD_REQUEST"@.len());
            reveal_strlit("RATE_LIMITED");
            assert("TURNKEY"@.len() != "RATE_LIMITED"@.len());
            reveal_strlit("TELEGRAM_AUTH");
            assert("TURNKEY"@.len() != "TELEGRAM_AUTH"@.len());
            reveal_strlit("INVALID_JWT");
            assert("TURNKEY"@.len() != "INVALID_JWT"@.len());
            reveal_strlit("INTERNAL");
            assert("TURNKEY"@.len() != "INTERNAL"@.len());
            reveal_strlit("DATABASE");
            assert("TURNKEY"@.len() != "DATABASE"@.len());
            reveal_strlit("SERVICE");
            assert("TURNKEY"@[0] != "SERVICE"@[0]);
            reveal_strlit("CONFIG");
            assert("TURNKEY"@.len() != "CONFIG"@.len());
        }
        AppCode::Timeout => {
            reveal_strlit("TIMEOUT");
            reveal_strlit("NOT_FOUND");
            assert("TIMEOUT"@.len() != "NOT_FOUND"@.len());
            reveal_strlit("VALIDATION");
            assert("TIMEOUT"@.len() != "VALIDATION"@.len());
            reveal_strlit("CONFLICT");
            assert("TIMEOUT"@.len() != "CONFLICT"@.len());
            reveal_strlit("USER_ALREADY_EXISTS");
            assert("TIMEOUT"@.len() != "USER_ALREADY_EXISTS"@.len());
            reveal_strlit("UNAUTHORIZED");
            assert("TIMEOUT"@.len() != "UNAUTHORIZED"@.len());
            reveal_strlit("FORBIDDEN");
            assert("TIMEOUT"@.len() != "FORBIDDEN"@.len());
            reveal_strlit("NOT_IMPLEMENTED");
            assert("TIMEOUT"@.len() != "NOT_IMPLEMENTED"@.len());
            reveal_strlit("BAD_REQUEST");
            assert("TIMEOUT"@.len() != "BAD_REQUEST"@.len());
            reveal_strlit("RATE_LIMITED");
            assert("TIMEOUT"@.len() != "RATE_LIMITED"@.len());
            reveal_strlit("TELEGRAM_AUTH");
            assert("TIMEOUT"@.len() != "TELEGRAM_AUTH"@.len());
            reveal_strlit("INVALID_JWT");
            assert("TIMEOUT"@.len() != "INVALID_JWT"@.len());
            reveal_strlit("INTERNAL");
            assert("TIMEOUT"@.len() != "INTERNAL"@.len());
            reveal_strlit("DATABASE");
            assert("TIMEOUT"@.len() != "DATABASE"@.len());
            reveal_strlit("SERVICE");
            assert("TIMEOUT"@[0] != "SERVICE"@[0]);
            reveal_strlit("CONFIG");
            assert("TIMEOUT"@.len() != "CONFIG"@.len());
            reveal_strlit("TURNKEY");
            assert("TIMEOUT"@[1] != "TURNKEY"@[1]);
        }
        AppCode::Network => {
            reveal_strlit("NETWORK");
            reveal_strlit("NOT_FOUND");
            assert("NETWORK"@.len() != "NOT_FOUND"@.len());
            reveal_strlit("VALIDATION");
            assert("NETWORK"@.len() != "VALIDATION"@.len());
            reveal_strlit("CONFLICT");
            assert("NETWORK"@.len() != "CONFLICT"@.len());
            reveal_strlit("USER_ALREADY_EXISTS");
            assert("NETWORK"@.len() != "USER_ALREADY_EXISTS"@.len());
            reveal_strlit("UNAUTHORIZED");
            assert("NETWORK"@.len() != "UNAUTHORIZED"@.len());
            reveal_strlit("FORBIDDEN");
            assert("NETWORK"@.len() != "FORBIDDEN"@.len());
            reveal_strlit("NOT_IMPLEMENTED");
            assert("NETWORK"@.len() != "NOT_IMPLEMENTED"@.len());
            reveal_strlit("BAD_REQUEST");
            assert("NETWORK"@.len() != "BAD_REQUEST"@.len());
            reveal_strlit("RATE_LIMITED");
            assert("NETWORK"@.len() != "RATE_LIMITED"@.len());
            reveal_strlit("TELEGRAM_AUTH");
            assert("NETWORK"@.len() != "TELEGRAM_AUTH"@.len());
            reveal_strlit("INVALID_JWT");
            assert("NETWORK"@.len() != "INVALID_JWT"@.len());
            reveal_strlit("INTERNAL");
            assert("NETWORK"@.len() != "INTERNAL"@.len());
            reveal_strlit("DATABASE");
            assert("NETWORK"@.len() != "DATABASE"@.len());
            reveal_strlit("SERVICE");
            assert("NETWORK"@[0] != "SERVICE"@[0]);
            reveal_strlit("CONFIG");
            assert("NETWORK"@.len() != "CONFIG"@.len());
            reveal_strlit("TURNKEY");
            assert("NETWORK"@[0] != "TURNKEY"@[0]);
            reveal_strlit("TIMEOUT");
            assert("NETWORK"@[0] != "TIMEOUT"@[0]);
        }
        AppCode::DependencyUnavailable => {
            reveal_strlit("DEPENDENCY_UNAVAILABLE");
            reveal_strlit("NOT_FOUND");
            assert("DEPENDENCY_UNAVAILABLE"@.len() != "NOT_FOUND"@.len());
            reveal_strlit("VALIDATION");
            assert("DEPENDENCY_UNAVAILABLE"@.len() != "VALIDATION"@.len());
            reveal_strlit("CONFLICT");
            assert("DEPENDENCY_UNAVAILABLE"@.len() != "CONFLICT"@.len());
            reveal_strlit("USER_ALREADY_EXISTS");
            assert("DEPENDENCY_UNAVAILABLE"@.len() != "USER_ALREADY_EXISTS"@.len());
            reveal_strlit("UNAUTHORIZED");
            assert("DEPENDENCY_UNAVAILABLE"@.len() != "UNAUTHORIZED"@.len());
            reveal_strlit("FORBIDDEN");
            assert("DEPENDENCY_UNAVAILABLE"@.len() != "FORBIDDEN"@.len());
            reveal_strlit("NOT_IMPLEMENTED");
            assert("DEPENDENCY_UNAVAILABLE"@.len() != "NOT_IMPLEMENTED"@.len());
            reveal_strlit("BAD_REQUEST");
            assert("DEPENDENCY_UNAVAILABLE"@.len() != "BAD_REQUEST"@.len());
            reveal_strlit("RATE_LIMITED");
            assert("DEPENDENCY_UNAVAILABLE"@.len() != "RATE_LIMITED"@.len());
            reveal_strlit("TELEGRAM_AUTH");
            assert("DEPENDENCY_UNAVAILABLE"@.len() != "TELEGRAM_AUTH"@.len());
            reveal_strlit("INVALID_JWT");
            assert("DEPENDENCY_UNAVAILABLE"@.len() != "INVALID_JWT"@.len());
            reveal_strlit("INTERNAL");
            assert("DEPENDENCY_UNAVAILABLE"@.len() != "INTERNAL"@.len());
            reveal_strlit("DATABASE");
            assert("DEPENDENCY_UNAVAILABLE"@.len() != "DATABASE"@.len());
            reveal_strlit("SERVICE");
            assert("DEPENDENCY_UNAVAILABLE"@.len() != "SERVICE"@.len());
            reveal_strlit("CONFIG");
            assert("DEPENDENCY_UNAVAILABLE"@.len() != "CONFIG"@.len());
            reveal_strlit("TURNKEY");
            assert("DEPENDENCY_UNAVAILABLE"@.len() != "TURNKEY"@.len());
            reveal_strlit("TIMEOUT");
            assert("DEPENDENCY_UNAVAILABLE"@.len() != "TIMEOUT"@.len());
            reveal_strlit("NETWORK");
            assert("DEPENDENCY_UNAVAILABLE"@.len() != "NETWORK"@.len());
        }
        AppCode::Serialization => {
            reveal_strlit("SERIALIZATION");
            reveal_strlit("NOT_FOUND");
            assert("SERIALIZATION"@.len() != "NOT_FOUND"@.len());
            reveal_strlit("VALIDATION");
            assert("SERIALIZATION"@.len() != "VALIDATION"@.len());
            reveal_strlit("CONFLICT");
            assert("SERIALIZATION"@.len() != "CONFLICT"@.len());
            reveal_strlit("USER_ALREADY_EXISTS");
            assert("SERIALIZATION"@.len() != "USER_ALREADY_EXISTS"@.len());
            reveal_strlit("UNAUTHORIZED");
            assert("SERIALIZATION"@.len() != "UNAUTHORIZED"@.len());
            reveal_strlit("FORBIDDEN");
            assert("SERIALIZATION"@.len() != "FORBIDDEN"@.len());
            reveal_strlit("NOT_IMPLEMENTED");
            assert("SERIALIZATION"@.len() != "NOT_IMPLEMENTED"@.len());
            reveal_strlit("BAD_REQUEST");
            assert("SERIALIZATION"@.len() != "BAD_REQUEST"@.len());
            reveal_strlit("RATE_LIMITED");
            assert("SERIALIZATION"@.len() != "RATE_LIMITED"@.len());
            reveal_strlit("TELEGRAM_AUTH");
            assert("SERIALIZATION"@[0] != "TELEGRAM_AUTH"@[0]);
            reveal_strlit("INVALID_JWT");
            assert("SERIALIZATION"@.len() != "INVALID_JWT"@.len());
            reveal_strlit("INTERNAL");
            assert("SERIALIZATION"@.len() != "INTERNAL"@.len());
            reveal_strlit("DATABASE");
            assert("SERIALIZATION"@.len() != "DATABASE"@.len());
            reveal_strlit("SERVICE");
            assert("SERIALIZATION"@.len() != "SERVICE"@.len());
            reveal_strlit("CONFIG");
            assert("SERIALIZATION"@.len() != "CONFIG"@.len());
            reveal_strlit("TURNKEY");
            assert("SERIALIZATION"@.len() != "TURNKEY"@.len());
            reveal_strlit("TIMEOUT");
            assert("SERIALIZATION"@.len() != "TIMEOUT"@.len());
            reveal_strlit("NETWORK");
            assert("SERIALIZATION"@.len() != "NETWORK"@.len());
            reveal_strlit("DEPENDENCY_UNAVAILABLE");
            assert("SERIALIZATION"@.len() != "DEPENDENCY_UNAVAILABLE"@.len());
        }
        AppCode::Deserialization => {
            reveal_strlit("DESERIALIZATION");
            reveal_strlit("NOT_FOUND");
            assert("DESERIALIZATION"@.len() != "NOT_FOUND"@.len());
            reveal_strlit("VALIDATION");
            assert("DESERIALIZATION"@.len() != "VALIDATION"@.len());
            reveal_strlit("CONFLICT");
            assert("DESERIALIZATION"@.len() != "CONFLICT"@.len());
            reveal_strlit("USER_ALREADY_EXISTS");
            assert("DESERIALIZATION"@.len() != "USER_ALREADY_EXISTS"@.len());
            reveal_strlit("UNAUTHORIZED");
            assert("DESERIALIZATION"@.len() != "UNAUTHORIZED"@.len());
            reveal_strlit("FORBIDDEN");
            assert("DESERIALIZATION"@.len() != "FORBIDDEN"@.len());
            reveal_strlit("NOT_IMPLEMENTED");
            assert("DESERIALIZATION"@[0] != "NOT_IMPLEMENTED"@[0]);
            reveal_strlit("BAD_REQUEST");
            assert("DESERIALIZATION"@.len() != "BAD_REQUEST"@.len());
            reveal_strlit("RATE_LIMITED");
            assert("DESERIALIZATION"@.len() != "RATE_LIMITED"@.len());
            reveal_strlit("TELEGRAM_AUTH");
            assert("DESERIALIZATION"@.len() != "TELEGRAM_AUTH"@.len());
            reveal_strlit("INVALID_JWT");
            assert("DESERIALIZATION"@.len() != "INVALID_JWT"@.len());
            reveal_strlit("INTERNAL");
            assert("DESERIALIZATION"@.len() != "INTERNAL"@.len());
            reveal_strlit("DATABASE");
            assert("DESERIALIZATION"@.len() != "DATABASE"@.len());
            reveal_strlit("SERVICE");
            assert("DESERIALIZATION"@.len() != "SERVICE"@.len());
            reveal_strlit("CONFIG");
            assert("DESERIALIZATION"@.len() != "CONFIG"@.len());
            reveal_strlit("TURNKEY");
            assert("DESERIALIZATION"@.len() != "TURNKEY"@.len());
            reveal_strlit("TIMEOUT");
            assert("DESERIALIZATION"@.len() != "TIMEOUT"@.len());
            reveal_strlit("NETWORK");
            assert("DESERIALIZATION"@.len() != "NETWORK"@.len());
            reveal_strlit("DEPENDENCY_UNAVAILABLE");
            assert("DESERIALIZATION"@.len() != "DEPENDENCY_UNAVAILABLE"@.len());
            reveal_strlit("SERIALIZATION");
            assert("DESERIALIZATION"@.len() != "SERIALIZATION"@.len());
        }
        AppCode::ExternalApi => {
            reveal_strlit("EXTERNAL_API");
            reveal_strlit("NOT_FOUND");
            assert("EXTERNAL_API"@.len() != "NOT_FOUND"@.len());
            reveal_strlit("VALIDATION");
            assert("EXTERNAL_API"@.len() != "VALIDATION"@.len());
            reveal_strlit("CONFLICT");
            assert("EXTERNAL_API"@.len() != "CONFLICT"@.len());
            reveal_strlit("USER_ALREADY_EXISTS");
            assert("EXTERNAL_API"@.len() != "USER_ALREADY_EXISTS"@.len());
            reveal_strlit("UNAUTHORIZED");
            assert("EXTERNAL_API"@[0] != "UNAUTHORIZED"@[0]);
            reveal_strlit("FORBIDDEN");
            assert("EXTERNAL_API"@.len() != "FORBIDDEN"@.len());
            reveal_strlit("NOT_IMPLEMENTED");
            assert("EXTERNAL_API"@.len() != "NOT_IMPLEMENTED"@.len());
            reveal_strlit("BAD_REQUEST");
            assert("EXTERNAL_API"@.len() != "BAD_REQUEST"@.len());
            reveal_strlit("RATE_LIMITED");
            assert("EXTERNAL_API"@[0] != "RATE_LIMITED"@[0]);
            reveal_strlit("TELEGRAM_AUTH");
            assert("EXTERNAL_API"@.len() != "TELEGRAM_AUTH"@.len());
            reveal_strlit("INVALID_JWT");
            assert("EXTERNAL_API"@.len() != "INVALID_JWT"@.len());
            reveal_strlit("INTERNAL");
            assert("EXTERNAL_API"@.len() != "INTERNAL"@.len());
            reveal_strlit("DATABASE");
            assert("EXTERNAL_API"@.len() != "DATABASE"@.len());
            reveal_strlit("SERVICE");
            assert("EXTERNAL_API"@.len() != "SERVICE"@.len());
            reveal_strlit("CONFIG");
            assert("EXTERNAL_API"@.len() != "CONFIG"@.len());
            reveal_strlit("TURNKEY");
            assert("EXTERNAL_API"@.len() != "TURNKEY"@.len());
            reveal_strlit("TIMEOUT");
            assert("EXTERNAL_API"@.len() != "TIMEOUT"@.len());
            reveal_strlit("NETWORK");
            assert("EXTERNAL_API"@.len() != "NETWORK"@.len());
            reveal_strlit("DEPENDENCY_UNAVAILABLE");
            assert("EXTERNAL_API"@.len() != "DEPENDENCY_UNAVAILABLE"@.len());
            reveal_strlit("SERIALIZATION");
            assert("EXTERNAL_API"@.len() != "SERIALIZATION"@.len());
            reveal_strlit("DESERIALIZATION");
            assert("EXTERNAL_API"@.len() != "DESERIALIZATION"@.len());
        }
        AppCode::Queue => {
            reveal_strlit("QUEUE");
            reveal_strlit("NOT_FOUND");
            assert("QUEUE"@.len() != "NOT_FOUND"@.len());
            reveal_strlit("VALIDATION");
            assert("QUEUE"@.len() != "VALIDATION"@.len());
            reveal_strlit("CONFLICT");
            assert("QUEUE"@.len() != "CONFLICT"@.len());
            reveal_strlit("USER_ALREADY_EXISTS");
            assert("QUEUE"@.len() != "USER_ALREADY_EXISTS"@.len());
            reveal_strlit("UNAUTHORIZED");
            assert("QUEUE"@.len() != "UNAUTHORIZED"@.len());
            reveal_strlit("FORBIDDEN");
            assert("QUEUE"@.len() != "FORBIDDEN"@.len());
            reveal_strlit("NOT_IMPLEMENTED");
            assert("QUEUE"@.len() != "NOT_IMPLEMENTED"@.len());
            reveal_strlit("BAD_REQUEST");
            assert("QUEUE"@.len() != "BAD_REQUEST"@.len());
            reveal_strlit("RATE_LIMITED");
            assert("QUEUE"@.len() != "RATE_LIMITED"@.len());
            reveal_strlit("TELEGRAM_AUTH");
            assert("QUEUE"@.len() != "TELEGRAM_AUTH"@.len());
            reveal_strlit("INVALID_JWT");
            assert("QUEUE"@.len() != "INVALID_JWT"@.len());
            reveal_strlit("INTERNAL");
            assert("QUEUE"@.len() != "INTERNAL"@.len());
            reveal_strlit("DATABASE");
            assert("QUEUE"@.len() != "DATABASE"@.len());
            reveal_strlit("SERVICE");
            assert("QUEUE"@.len() != "SERVICE"@.len());
            reveal_strlit("CONFIG");
            assert("QUEUE"@.len() != "CONFIG"@.len());
            reveal_strlit("TURNKEY");
            assert("QUEUE"@.len() != "TURNKEY"@.len());
            reveal_strlit("TIMEOUT");
            assert("QUEUE"@.len() != "TIMEOUT"@.len());
            reveal_strlit("NETWORK");
            assert("QUEUE"@.len() != "NETWORK"@.len());
            reveal_strlit("DEPENDENCY_UNAVAILABLE");
            assert("QUEUE"@.len() != "DEPENDENCY_UNAVAILABLE"@.len());
            reveal_strlit("SERIALIZATION");
            assert("QUEUE"@.len() != "SERIALIZATION"@.len());
            reveal_strlit("DESERIALIZATION");
            assert("QUEUE"@.len() != "DESERIALIZATION"@.len());
            reveal_strlit("EXTERNAL_API");
            assert("QUEUE"@.len() != "EXTERNAL_API"@.len());
        }
        AppCode::Cache => {
            reveal_strlit("CACHE");
            reveal_strlit("NOT_FOUND");
            assert("CACHE"@.len() != "NOT_FOUND"@.len());
            reveal_strlit("VALIDATION");
            assert("CACHE"@.len() != "VALIDATION"@.len());
            reveal_strlit("CONFLICT");
            assert("CACHE"@.len() != "CONFLICT"@.len());
            reveal_strlit("USER_ALREADY_EXISTS");
            assert("CACHE"@.len() != "USER_ALREADY_EXISTS"@.len());
            reveal_strlit("UNAUTHORIZED");
            assert("CACHE"@.len() != "UNAUTHORIZED"@.len());
            reveal_strlit("FORBIDDEN");
            assert("CACHE"@.len() != "FORBIDDEN"@.len());
            reveal_strlit("NOT_IMPLEMENTED");
            assert("CACHE"@.len() != "NOT_IMPLEMENTED"@.len());
            reveal_strlit("BAD_REQUEST");
            assert("CACHE"@.len() != "BAD_REQUEST"@.len());
            reveal_strlit("RATE_LIMITED");
            assert("CACHE"@.len() != "RATE_LIMITED"@.len());
            reveal_strlit("TELEGRAM_AUTH");
            assert("CACHE"@.len() != "TELEGRAM_AUTH"@.len());
            reveal_strlit("INVALID_JWT");
            assert("CACHE"@.len() != "INVALID_JWT"@.len());
            reveal_strlit("INTERNAL");
            assert("CACHE"@.len() != "INTERNAL"@.len());
            reveal_strlit("DATABASE");
            assert("CACHE"@.len() != "DATABASE"@.len());
            reveal_strlit("SERVICE");
            assert("CACHE"@.len() != "SERVICE"@.len());
            reveal_strlit("CONFIG");
            assert("CACHE"@.len() != "CONFIG"@.len());
            reveal_strlit("TURNKEY");
            assert("CACHE"@.len() != "TURNKEY"@.len());
            reveal_strlit("TIMEOUT");
            assert("CACHE"@.len() != "TIMEOUT"@.len());
            reveal_strlit("NETWORK");
            assert("CACHE"@.len() != "NETWORK"@.len());
            reveal_strlit("DEPENDENCY_UNAVAILABLE");
            assert("CACHE"@.len() != "DEPENDENCY_UNAVAILABLE"@.len());
            reveal_strlit("SERIALIZATION");
            assert("CACHE"@.len() != "SERIALIZATION"@.len());
            reveal_strlit("DESERIALIZATION");
            assert("CACHE"@.len() != "DESERIALIZATION"@.len());
            reveal_strlit("EXTERNAL_API");
            assert("CACHE"@.len() != "EXTERNAL_API"@.len());
            reveal_strlit("QUEUE");
            assert("CACHE"@[0] != "QUEUE"@[0]);
        }
        _ => {}
    }
}

} // verus!

//! The error that the library reports.

use vstd::prelude::*;

verus! {

/// The part of the repository that a failure concerns, as far as the library
/// tells them apart.
#[derive(Clone, Copy, Debug, PartialEq, Eq, Structural)]
pub enum ErrorClass {
    /// A reference.
    Reference,
    /// The configuration.
    Config,
    /// An argument that makes no sense.
    Invalid,
    /// Anything else.
    Other,
}

/// What went wrong, as far as the library tells failures apart.
#[derive(Clone, Copy, Debug, PartialEq, Eq, Structural)]
pub enum ErrorCode {
    /// What was asked for does not exist.
    NotFound,
    /// Anything else.
    Other,
}

/// Whether a failure of this class and code only says that nothing is
/// configured or nothing is there: a missing reference or a missing key.
pub open spec fn says_absent(class: ErrorClass, code: ErrorCode) -> bool {
    code == ErrorCode::NotFound && (class == ErrorClass::Reference || class == ErrorClass::Config)
}

/// Whether a failure of this class and code says that a configuration key is
/// missing.
pub open spec fn says_unconfigured(class: ErrorClass, code: ErrorCode) -> bool {
    code == ErrorCode::NotFound && class == ErrorClass::Config
}

/// A failure with a message for the user.
#[derive(Debug)]
pub struct GitError {
    msg: String,
    class: ErrorClass,
    code: ErrorCode,
    reported: bool,
}

impl GitError {
    /// The message that the error carries.
    pub closed spec fn message(&self) -> Seq<char> {
        self.msg@
    }

    /// The class of the failure.
    pub closed spec fn class(&self) -> ErrorClass {
        self.class
    }

    /// The code of the failure.
    pub closed spec fn code(&self) -> ErrorCode {
        self.code
    }

    /// Whether the error is one that the repository reported, and not one of
    /// the library's own.
    pub closed spec fn spec_is_reported(&self) -> bool {
        self.reported
    }

    /// Whether the error is the library's own error with the message
    /// `message`.
    pub open spec fn is_own(&self, message: Seq<char>) -> bool {
        &&& !self.is_reported()
        &&& self.message() == message
        &&& self.class() == ErrorClass::Other
        &&& self.code() == ErrorCode::Other
    }

    /// An error of the library's own that carries `msg`.
    pub fn new(msg: String) -> (e: Self)
        ensures
            e.is_own(msg@),
    {
        GitError { msg, class: ErrorClass::Other, code: ErrorCode::Other, reported: false }
    }

    /// An error that the repository reported, with its message, class and code.
    pub fn reported(msg: String, class: ErrorClass, code: ErrorCode) -> (e: Self)
        ensures
            e.is_reported(),
            e.message() == msg@,
            e.class() == class,
            e.code() == code,
    {
        GitError { msg, class, code, reported: true }
    }

    /// Whether the error is one that the repository reported, and not one of
    /// the library's own.
    #[verifier::when_used_as_spec(spec_is_reported)]
    pub fn is_reported(&self) -> (b: bool)
        ensures
            b == self.spec_is_reported(),
    {
        self.reported
    }

    /// The message, for printing.
    pub fn text(&self) -> (s: String)
        ensures
            s@ == self.message(),
    {
        self.msg.clone()
    }

    /// Whether the error only says that a reference or a configuration key is
    /// missing.
    pub fn is_absent(&self) -> (b: bool)
        ensures
            b == says_absent(self.class(), self.code()),
    {
        self.code == ErrorCode::NotFound && (self.class == ErrorClass::Reference || self.class
            == ErrorClass::Config)
    }

    /// Whether the error says that a configuration key is missing.
    pub fn is_unconfigured(&self) -> (b: bool)
        ensures
            b == says_unconfigured(self.class(), self.code()),
    {
        self.code == ErrorCode::NotFound && self.class == ErrorClass::Config
    }
}

} // verus!

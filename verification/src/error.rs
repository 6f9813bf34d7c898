use vstd::prelude::*;
use vstd::string::StringExecFns;

verus! {

/// The ways a start attempt can fail. Every failure is reported to the
/// caller as a value of this type; none of them aborts the process.
#[derive(Debug, Clone, PartialEq, Eq)]
pub enum ServerError {
    /// The socket URL names a scheme that no transport binder handles,
    /// or one whose binder is switched off in the active capability set.
    UnsupportedScheme,
    /// The socket URL is malformed, or its scheme-specific payload is:
    /// a missing host or port for `tcp`, a path that is not absolute for
    /// `file`, or a descriptor that is not a non-negative integer for `fd`.
    InvalidAddress,
    /// The operating system refused a bind, listen, or filesystem step;
    /// the payload carries the OS error detail.
    Io(String),
}

impl ServerError {
    /// What `message` returns for each variant.
    pub open spec fn message_spec(&self) -> Seq<char> {
        match self {
            ServerError::UnsupportedScheme => "unsupported scheme in socket URL"@,
            ServerError::InvalidAddress => "invalid address in socket URL"@,
            ServerError::Io(m) => "i/o error: "@ + m@,
        }
    }

    /// A human-readable description of the failure.
    pub fn message(&self) -> (r: String)
        ensures
            r@ == self.message_spec(),
    {
        match self {
            ServerError::UnsupportedScheme => "unsupported scheme in socket URL".to_owned(),
            ServerError::InvalidAddress => "invalid address in socket URL".to_owned(),
            ServerError::Io(m) => "i/o error: ".to_owned().concat(m.as_str()),
        }
    }
}

} // verus!

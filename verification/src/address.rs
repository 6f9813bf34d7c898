use vstd::prelude::*;
use vstd::string::StrSliceExecFns;
use crate::error::ServerError;

verus! {

/// Which transport binders are available in the running build. A binder
/// whose flag is off makes its scheme resolve to `UnsupportedScheme`,
/// exactly as if the scheme were unknown.
#[derive(Debug, Clone, Copy, PartialEq, Eq, Structural)]
pub struct Capabilities {
    /// The TCP binder is available.
    pub tcp: bool,
    /// The path-addressed Unix domain socket binder is available.
    pub unix_path: bool,
    /// The inherited-descriptor Unix domain socket binder is available.
    pub unix_fd: bool,
}

impl Capabilities {
    /// The capability set with every transport binder available.
    pub open spec fn all_enabled() -> Capabilities {
        Capabilities { tcp: true, unix_path: true, unix_fd: true }
    }
}

impl Default for Capabilities {
    /// Every transport binder is available unless the caller says otherwise.
    fn default() -> (r: Capabilities)
        ensures
            r == Capabilities::all_enabled(),
    {
        Capabilities { tcp: true, unix_path: true, unix_fd: true }
    }
}

/// The components of a socket URL, immutable once constructed: the scheme
/// selects a transport binder, and the other fields carry that binder's
/// payload (host and port for `tcp`, the path component for `file` and `fd`).
#[derive(Debug, Clone, PartialEq, Eq)]
pub struct SocketUrl {
    /// The URL scheme, lower-cased by the parser.
    pub scheme: String,
    /// The host component, absent when the URL has none.
    pub host: Option<String>,
    /// The port component, absent when the URL has none.
    pub port: Option<u16>,
    /// The path component.
    pub path: String,
}

/// What the host component looks like at the specification level.
pub open spec fn opt_str_view(h: Option<String>) -> Option<Seq<char>> {
    match h {
        Some(s) => Some(s@),
        None => None,
    }
}

impl SocketUrl {
    /// The four components as mathematical values.
    pub open spec fn parts(&self) -> (Seq<char>, Option<Seq<char>>, Option<u16>, Seq<char>) {
        (self.scheme@, opt_str_view(self.host), self.port, self.path@)
    }
}

/// The components that URL parsing extracts from a string, or `None` when
/// the string is not a well-formed URL: among others, when a port is
/// present but not a number between 0 and 65535. The components depend on
/// the string alone.
pub uninterp spec fn url_parts_spec(s: Seq<char>) -> Option<(Seq<char>, Option<Seq<char>>, Option<u16>, Seq<char>)>;

/// Relies on url::Url::parse for the split of a string into URL
/// components, and on the accessors Url::scheme, Url::host_str, Url::port
/// and Url::path, which only read slices of the parsed value. A port that
/// is not numeric or does not fit a u16 fails the parse itself
/// (url::ParseError::InvalidPort), so no such URL yields components.
#[verifier::external_body]
fn parse_url_components(s: &str) -> (r: Option<SocketUrl>)
    ensures
        r matches Some(u) ==> url_parts_spec(s@) == Some(u.parts()),
        r is None ==> url_parts_spec(s@) is None,
{
    match url::Url::parse(s) {
        Ok(u) => Some(SocketUrl {
            scheme: u.scheme().to_string(),
            host: u.host_str().map(|h| h.to_string()),
            port: u.port(),
            path: u.path().to_string(),
        }),
        Err(_) => None,
    }
}

impl SocketUrl {
    /// Splits a configuration string into its URL components. A string
    /// that is not a well-formed URL is rejected as `InvalidAddress`;
    /// scheme checks come later, at resolution.
    pub fn parse(s: &str) -> (r: Result<SocketUrl, ServerError>)
        ensures
            r matches Ok(u) ==> url_parts_spec(s@) == Some(u.parts()),
            r matches Err(e) ==> url_parts_spec(s@) is None && e == ServerError::InvalidAddress,
    {
        match parse_url_components(s) {
            Some(u) => Ok(u),
            None => Err(ServerError::InvalidAddress),
        }
    }
}

/// The parameters of exactly one transport binder, as resolution produces
/// them from a socket URL.
#[derive(Debug, Clone, PartialEq, Eq)]
pub enum Transport {
    /// Bind a listening TCP socket on `host:port`.
    Tcp { host: String, port: u16 },
    /// Bind a listening Unix domain socket at this filesystem path.
    UnixPath { path: String },
    /// Wrap this inherited file descriptor as a listening Unix domain
    /// socket. Resolution guarantees `fd >= 0`; that the descriptor is
    /// open, a listening socket, and owned by nobody else is the caller's
    /// contract, which no run-time check here can replace.
    UnixFd { fd: i32 },
}

/// Decimal digits, by code point.
pub open spec fn is_dec_digit(c: char) -> bool {
    48 <= c as int && c as int <= 57
}

/// The numeric value of a decimal digit.
pub open spec fn digit_val(c: char) -> int {
    c as int - 48
}

/// Every character of the sequence is a decimal digit.
pub open spec fn all_dec_digits(s: Seq<char>) -> bool {
    forall|i: int| 0 <= i < s.len() ==> is_dec_digit(#[trigger] s[i])
}

/// The value of a sequence of decimal digits, most significant first.
pub open spec fn dec_val(s: Seq<char>) -> int
    decreases s.len(),
{
    if s.len() == 0 {
        0
    } else {
        dec_val(s.drop_last()) * 10 + digit_val(s.last())
    }
}

/// A descriptor string: one or more decimal digits whose value fits an
/// i32. In particular a leading minus sign is not a digit, so no negative
/// number passes.
pub open spec fn fd_str_valid(s: Seq<char>) -> bool {
    &&& s.len() > 0
    &&& all_dec_digits(s)
    &&& dec_val(s) <= i32::MAX
}

proof fn lemma_subrange_extend(s: Seq<char>, j: int)
    requires
        0 <= j < s.len(),
    ensures
        dec_val(s.subrange(0, j + 1)) == dec_val(s.subrange(0, j)) * 10 + digit_val(s[j]),
{
    let t = s.subrange(0, j + 1);
    assert(t.drop_last() =~= s.subrange(0, j));
    assert(t.last() == s[j]);
}

proof fn lemma_dec_val_nonneg(s: Seq<char>)
    requires
        all_dec_digits(s),
    ensures
        dec_val(s) >= 0,
    decreases s.len(),
{
    if s.len() > 0 {
        assert forall|k: int| 0 <= k < s.drop_last().len() implies is_dec_digit(
            #[trigger] s.drop_last()[k],
        ) by {
            assert(s.drop_last()[k] == s[k]);
        }
        lemma_dec_val_nonneg(s.drop_last());
        assert(is_dec_digit(s.last()));
    }
}

proof fn lemma_dec_val_prefix_le(s: Seq<char>, j: int)
    requires
        all_dec_digits(s),
        0 <= j <= s.len(),
    ensures
        dec_val(s.subrange(0, j)) <= dec_val(s),
    decreases s.len() - j,
{
    if j == s.len() {
        assert(s.subrange(0, j) =~= s);
    } else {
        lemma_subrange_extend(s, j);
        assert forall|k: int| 0 <= k < s.subrange(0, j).len() implies is_dec_digit(
            #[trigger] s.subrange(0, j)[k],
        ) by {
            assert(s.subrange(0, j)[k] == s[k]);
        }
        lemma_dec_val_nonneg(s.subrange(0, j));
        assert(is_dec_digit(s[j]));
        lemma_dec_val_prefix_le(s, j + 1);
    }
}

/// Reads a descriptor string: `Some` exactly on one-or-more decimal
/// digits whose value fits an i32, and then the value itself.
fn parse_fd_str(s: &str) -> (r: Option<i32>)
    ensures
        fd_str_valid(s@) ==> (r matches Some(fd) && fd as int == dec_val(s@)),
        !fd_str_valid(s@) ==> r is None,
{
    let n = s.unicode_len();
    if n == 0 {
        return None;
    }
    let mut v: u64 = 0;
    let mut i: usize = 0;
    while i < n
        invariant
            0 < n == s@.len(),
            0 <= i <= n,
            forall|k: int| 0 <= k < i ==> is_dec_digit(#[trigger] s@[k]),
            v as int == dec_val(s@.subrange(0, i as int)),
            v <= i32::MAX as u64,
        decreases n - i,
    {
        let c = s.get_char(i);
        let d: u32 = c as u32;
        if d < 48 || d > 57 {
            proof {
                assert(!is_dec_digit(s@[i as int]));
            }
            return None;
        }
        let dv: u64 = (d - 48) as u64;
        proof {
            lemma_subrange_extend(s@, i as int);
        }
        let w: u64 = v * 10 + dv;
        if w > 2147483647u64 {
            proof {
                if fd_str_valid(s@) {
                    lemma_dec_val_prefix_le(s@, i as int + 1);
                }
            }
            return None;
        }
        v = w;
        i = i + 1;
    }
    proof {
        assert(s@.subrange(0, n as int) =~= s@);
    }
    Some(v as i32)
}

/// The directory part of a path: everything before the last slash, or the
/// root itself when the last slash is the first character. A path with no
/// slash names no directory.
pub open spec fn parent_spec(s: Seq<char>) -> Option<Seq<char>>
    decreases s.len(),
{
    if s.len() == 0 {
        None
    } else if s.last() == '/' {
        if s.len() == 1 {
            Some(s)
        } else {
            Some(s.drop_last())
        }
    } else {
        parent_spec(s.drop_last())
    }
}

/// The directory that must exist before a socket file can be bound at
/// `path`: the path up to its last slash. `None` when the path is
/// relative to the working directory with no directory part.
pub fn parent_of(path: &str) -> (r: Option<String>)
    ensures
        parent_spec(path@) matches Some(q) ==> r matches Some(p) && p@ == q,
        parent_spec(path@) is None ==> r is None,
{
    let n = path.unicode_len();
    proof {
        assert(path@.subrange(0, n as int) =~= path@);
    }
    let mut i: usize = n;
    while i > 0
        invariant
            i <= n == path@.len(),
            parent_spec(path@) == parent_spec(path@.subrange(0, i as int)),
        decreases i,
    {
        let c = path.get_char(i - 1);
        if c == '/' {
            if i == 1 {
                let p = path.substring_char(0, 1);
                return Some(p.to_owned());
            } else {
                proof {
                    assert(path@.subrange(0, i as int).drop_last() =~= path@.subrange(
                        0,
                        i - 1,
                    ));
                }
                let p = path.substring_char(0, i - 1);
                return Some(p.to_owned());
            }
        }
        proof {
            assert(path@.subrange(0, i as int).drop_last() =~= path@.subrange(0, i - 1));
        }
        i = i - 1;
    }
    None
}

/// The scheme names a transport binder and that binder is available.
pub open spec fn scheme_supported(u: SocketUrl, caps: Capabilities) -> bool {
    ||| u.scheme@ == "tcp"@ && caps.tcp
    ||| u.scheme@ == "file"@ && caps.unix_path
    ||| u.scheme@ == "fd"@ && caps.unix_fd
}

/// A tcp URL must carry a non-empty host and a port.
pub open spec fn tcp_payload_valid(u: SocketUrl) -> bool {
    &&& u.host matches Some(h) && h@.len() > 0
    &&& u.port is Some
}

/// A file URL must carry an absolute path and no host.
pub open spec fn file_payload_valid(u: SocketUrl) -> bool {
    &&& u.path@.len() > 0
    &&& u.path@[0] == '/'
    &&& (u.host matches Some(h) ==> h@.len() == 0)
}

/// The scheme-specific payload is well-formed.
pub open spec fn payload_valid(u: SocketUrl) -> bool {
    if u.scheme@ == "tcp"@ {
        tcp_payload_valid(u)
    } else if u.scheme@ == "file"@ {
        file_payload_valid(u)
    } else if u.scheme@ == "fd"@ {
        fd_str_valid(u.path@)
    } else {
        false
    }
}

/// The binder parameters a well-formed URL resolves to.
pub open spec fn resolved_transport(u: SocketUrl) -> Transport {
    if u.scheme@ == "tcp"@ {
        Transport::Tcp { host: u.host->Some_0, port: u.port->Some_0 }
    } else if u.scheme@ == "file"@ {
        Transport::UnixPath { path: u.path }
    } else {
        Transport::UnixFd { fd: dec_val(u.path@) as i32 }
    }
}

/// What resolution returns: `UnsupportedScheme` when no available binder
/// answers to the scheme, `InvalidAddress` when the binder's payload is
/// malformed, and otherwise exactly the binder parameters the URL names.
pub open spec fn resolve_spec(u: SocketUrl, caps: Capabilities) -> Result<Transport, ServerError> {
    if !scheme_supported(u, caps) {
        Err(ServerError::UnsupportedScheme)
    } else if !payload_valid(u) {
        Err(ServerError::InvalidAddress)
    } else {
        Ok(resolved_transport(u))
    }
}

proof fn lemma_schemes_distinct()
    ensures
        "tcp"@ != "file"@,
        "tcp"@ != "fd"@,
        "file"@ != "fd"@,
{
    reveal_strlit("tcp");
    reveal_strlit("file");
    reveal_strlit("fd");
    assert("tcp"@.len() == 3);
    assert("file"@.len() == 4);
    assert("fd"@.len() == 2);
}

/// True exactly when the string equals the literal, character for
/// character.
fn string_eq_lit(s: &String, lit: &str) -> (r: bool)
    ensures
        r == (s@ == lit@),
{
    let other: String = lit.to_owned();
    *s == other
}

impl SocketUrl {
    /// Translates the URL into the parameters of exactly one transport
    /// binder, or reports why no binder can take it. No socket is touched
    /// here: a caller that receives `Err` has nothing to bind.
    pub fn resolve(&self, caps: &Capabilities) -> (r: Result<Transport, ServerError>)
        ensures
            r == resolve_spec(*self, *caps),
    {
        proof {
            lemma_schemes_distinct();
        }
        if string_eq_lit(&self.scheme, "tcp") {
            if !caps.tcp {
                return Err(ServerError::UnsupportedScheme);
            }
            match (&self.host, &self.port) {
                (Some(h), Some(p)) => {
                    if h.as_str().is_empty() {
                        Err(ServerError::InvalidAddress)
                    } else {
                        Ok(Transport::Tcp { host: h.clone(), port: *p })
                    }
                },
                _ => Err(ServerError::InvalidAddress),
            }
        } else if string_eq_lit(&self.scheme, "file") {
            if !caps.unix_path {
                return Err(ServerError::UnsupportedScheme);
            }
            let path_str = self.path.as_str();
            let absolute = !path_str.is_empty() && path_str.get_char(0) == '/';
            let host_empty = match &self.host {
                None => true,
                Some(h) => h.as_str().is_empty(),
            };
            if absolute && host_empty {
                Ok(Transport::UnixPath { path: self.path.clone() })
            } else {
                Err(ServerError::InvalidAddress)
            }
        } else if string_eq_lit(&self.scheme, "fd") {
            if !caps.unix_fd {
                return Err(ServerError::UnsupportedScheme);
            }
            match parse_fd_str(self.path.as_str()) {
                Some(fd) => {
                    proof {
                        lemma_dec_val_nonneg(self.path@);
                    }
                    Ok(Transport::UnixFd { fd })
                },
                None => Err(ServerError::InvalidAddress),
            }
        } else {
            Err(ServerError::UnsupportedScheme)
        }
    }
}

/// Law: a supported tcp URL with a non-empty host and a port resolves to
/// exactly that host and that port — the values later used for the bind
/// address round-trip unchanged.
pub proof fn lemma_tcp_round_trip(u: SocketUrl, caps: Capabilities)
    requires
        u.scheme@ == "tcp"@,
        caps.tcp,
        u.host matches Some(h) && h@.len() > 0,
        u.port is Some,
    ensures
        resolve_spec(u, caps) == Result::<Transport, ServerError>::Ok(
            (Transport::Tcp { host: u.host->Some_0, port: u.port->Some_0 }),
        ),
{
}

/// Law: a supported tcp URL without a host, with an empty host, or
/// without a port resolves to `InvalidAddress`; no binder parameters are
/// produced, so no bind is attempted. A port that is not numeric or out
/// of range never reaches resolution at all: URL parsing already rejects
/// the string.
pub proof fn lemma_tcp_malformed_rejected(u: SocketUrl, caps: Capabilities)
    requires
        u.scheme@ == "tcp"@,
        caps.tcp,
        !tcp_payload_valid(u),
    ensures
        resolve_spec(u, caps) == Result::<Transport, ServerError>::Err(
            ServerError::InvalidAddress,
        ),
{
}

/// Law: a supported file URL with an absolute path and no host resolves
/// to exactly that path.
pub proof fn lemma_file_round_trip(u: SocketUrl, caps: Capabilities)
    requires
        u.scheme@ == "file"@,
        caps.unix_path,
        u.path@.len() > 0,
        u.path@[0] == '/',
        u.host matches Some(h) ==> h@.len() == 0,
    ensures
        resolve_spec(u, caps) == Result::<Transport, ServerError>::Ok(
            (Transport::UnixPath { path: u.path }),
        ),
{
    lemma_schemes_distinct();
}

/// Law: a supported fd URL whose payload is not a digit string with value
/// at most i32::MAX resolves to `InvalidAddress`; no descriptor value is
/// produced, so none is touched.
pub proof fn lemma_fd_malformed_rejected(u: SocketUrl, caps: Capabilities)
    requires
        u.scheme@ == "fd"@,
        caps.unix_fd,
        !fd_str_valid(u.path@),
    ensures
        resolve_spec(u, caps) == Result::<Transport, ServerError>::Err(
            ServerError::InvalidAddress,
        ),
{
    lemma_schemes_distinct();
}

/// Law: a descriptor string that starts with a minus sign — any negative
/// number — is rejected as `InvalidAddress`.
pub proof fn lemma_negative_fd_rejected(u: SocketUrl, caps: Capabilities)
    requires
        u.scheme@ == "fd"@,
        caps.unix_fd,
        u.path@.len() > 0,
        u.path@[0] == '-',
    ensures
        resolve_spec(u, caps) == Result::<Transport, ServerError>::Err(
            ServerError::InvalidAddress,
        ),
{
    lemma_schemes_distinct();
    assert(!is_dec_digit(u.path@[0]));
    assert(!all_dec_digits(u.path@));
}

/// Law: a scheme outside tcp, file and fd resolves to
/// `UnsupportedScheme`, never to binder parameters and never to an abort.
pub proof fn lemma_unknown_scheme_rejected(u: SocketUrl, caps: Capabilities)
    requires
        u.scheme@ != "tcp"@,
        u.scheme@ != "file"@,
        u.scheme@ != "fd"@,
    ensures
        resolve_spec(u, caps) == Result::<Transport, ServerError>::Err(
            ServerError::UnsupportedScheme,
        ),
{
}

/// Law: a known scheme whose binder is unavailable in the capability set
/// resolves to `UnsupportedScheme`, exactly as an unknown scheme does.
pub proof fn lemma_disabled_transport_rejected(u: SocketUrl, caps: Capabilities)
    requires
        (u.scheme@ == "tcp"@ && !caps.tcp) || (u.scheme@ == "file"@ && !caps.unix_path) || (
        u.scheme@ == "fd"@ && !caps.unix_fd),
    ensures
        resolve_spec(u, caps) == Result::<Transport, ServerError>::Err(
            ServerError::UnsupportedScheme,
        ),
{
    lemma_schemes_distinct();
}

} // verus!

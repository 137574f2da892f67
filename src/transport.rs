//! Choice of the security layer on TCP connections, and the stream
//! multiplexer's window settings.
use vstd::prelude::*;

verus! {

/// Receive window of each multiplexed stream, in bytes (16 MiB, as other
/// implementations of the protocol use).
pub const YAMUX_RECEIVE_WINDOW: u32 = 16777216;

/// Most bytes buffered for one multiplexed stream (16 MiB).
pub const YAMUX_MAX_BUFFER: usize = 16777216;

/// Which security upgrades a TCP connection may negotiate.
#[derive(Clone, Copy, Debug, PartialEq, Eq, Structural)]
pub enum TcpTransportSecurity {
    Noise,
    Plaintext,
    All,
}

/// The text that `parse` reports for a name it does not know.
pub open spec fn parse_error_text() -> Seq<char> {
    "Expected one of 'noise', 'plaintext' or 'all'."@
}

/// What `parse` makes of a name, if it knows it.
pub open spec fn security_named(s: Seq<char>) -> Option<TcpTransportSecurity> {
    if s == "noise"@ {
        Some(TcpTransportSecurity::Noise)
    } else if s == "plaintext"@ {
        Some(TcpTransportSecurity::Plaintext)
    } else if s == "all"@ {
        Some(TcpTransportSecurity::All)
    } else {
        None
    }
}

fn same_text(a: &str, b: &str) -> (r: bool)
    ensures
        r == (a@ == b@),
{
    let x = a.to_owned();
    let y = b.to_owned();
    x == y
}

impl TcpTransportSecurity {
    /// Reads a choice from its lower-case name.
    pub fn parse(s: &str) -> (r: Result<TcpTransportSecurity, String>)
        ensures
            security_named(s@) is Some ==> r == Ok::<TcpTransportSecurity, String>(
                security_named(s@)->0,
            ),
            security_named(s@) is None ==> r is Err && r->Err_0@ == parse_error_text(),
    {
        if same_text(s, "noise") {
            Ok(TcpTransportSecurity::Noise)
        } else if same_text(s, "plaintext") {
            Ok(TcpTransportSecurity::Plaintext)
        } else if same_text(s, "all") {
            Ok(TcpTransportSecurity::All)
        } else {
            Err("Expected one of 'noise', 'plaintext' or 'all'.".to_owned())
        }
    }

    /// The variant's name, as it is printed.
    pub fn name(&self) -> (r: &'static str)
        ensures
            *self is Noise ==> r@ == "Noise"@,
            *self is Plaintext ==> r@ == "Plaintext"@,
            *self is All ==> r@ == "All"@,
    {
        match self {
            TcpTransportSecurity::Noise => "Noise",
            TcpTransportSecurity::Plaintext => "Plaintext",
            TcpTransportSecurity::All => "All",
        }
    }

    /// Whether the Noise handshake is offered.
    pub fn uses_noise(&self) -> (r: bool)
        ensures
            r == !(*self is Plaintext),
    {
        match self {
            TcpTransportSecurity::Plaintext => false,
            _ => true,
        }
    }

    /// Whether the plaintext exchange of public keys is offered.
    pub fn uses_plaintext(&self) -> (r: bool)
        ensures
            r == !(*self is Noise),
    {
        match self {
            TcpTransportSecurity::Noise => false,
            _ => true,
        }
    }
}

impl std::str::FromStr for TcpTransportSecurity {
    type Err = String;

    fn from_str(s: &str) -> Result<TcpTransportSecurity, String> {
        TcpTransportSecurity::parse(s)
    }
}

} // verus!

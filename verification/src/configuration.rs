//! The application's settings and the saved database profiles.
use crate::utils::utf8_decode;
use vstd::prelude::*;
use vstd::string::StringSliceAdditionalSpecFns;
use vstd::utf8::{decode_utf8, encode_utf8, valid_utf8};

verus! {

/// The application's settings.
#[derive(Debug)]
pub struct Configuration {
    /// Frames drawn per second.
    pub fps: u8,
    /// How many keys one scan asks for.
    pub scan_size: u16,
    /// Whether values are pretty-printed when they parse.
    pub try_format: bool,
    /// The name of the theme file to load.
    pub theme: Option<String>,
}

/// The default frame rate.
pub fn fps() -> (r: u8)
    ensures
        r == 30,
{
    30
}

/// The default scan size.
pub fn scan_size() -> (r: u16)
    ensures
        r == 2000,
{
    2_000
}

/// Whether values are pretty-printed by default.
pub fn try_format() -> (r: bool)
    ensures
        !r,
{
    false
}

impl Default for Configuration {
    fn default() -> (r: Self)
        ensures
            r.fps == 30,
            r.scan_size == 2000,
            !r.try_format,
            r.theme is None,
    {
        Configuration { fps: fps(), scan_size: scan_size(), try_format: try_format(), theme: None }
    }
}

/// The time between two frames, in milliseconds, for a frame rate: the
/// rate is capped at sixty frames a second.
pub fn frame_delay_millis(fps: u8) -> (r: u64)
    requires
        fps > 0,
    ensures
        r == 1000int / (if fps < 60 { fps as int } else { 60int }),
{
    let f: u64 = if fps < 60 { fps as u64 } else { 60 };
    1000 / f
}

/// The protocol spoken with a server.
#[derive(Clone, Copy, PartialEq, Eq, Debug, Structural)]
#[allow(non_camel_case_types)]
pub enum Protocol {
    RESP2,
    RESP3,
}

impl Protocol {
    /// The protocol's name.
    pub fn name(&self) -> (r: String)
        ensures
            r@ == (match *self {
                Protocol::RESP2 => "RESP2"@,
                Protocol::RESP3 => "RESP3"@,
            }),
    {
        match self {
            Protocol::RESP2 => String::from_str("RESP2"),
            Protocol::RESP3 => String::from_str("RESP3"),
        }
    }
}

/// An SSH tunnel to reach a server through.
#[derive(Debug)]
pub struct SshTunnel {
    pub host: String,
    pub port: u16,
    pub username: String,
    pub password: String,
}

/// A saved server profile.
#[derive(Debug)]
pub struct Database {
    pub host: String,
    pub port: u16,
    pub username: Option<String>,
    pub password: Option<String>,
    pub use_tls: bool,
    pub use_ssh_tunnel: bool,
    pub db: u32,
    pub protocol: Protocol,
    pub ssh_tunnel: Option<SshTunnel>,
}

/// The view of an optional string.
pub open spec fn opt_str(o: Option<String>) -> Option<Seq<char>> {
    match o {
        Some(s) => Some(s@),
        None => None,
    }
}

/// A server profile as the contracts see it.
pub struct DatabaseView {
    pub host: Seq<char>,
    pub port: u16,
    pub username: Option<Seq<char>>,
    pub password: Option<Seq<char>>,
    pub use_tls: bool,
    pub use_ssh_tunnel: bool,
    pub db: u32,
    pub protocol: Protocol,
    pub ssh_tunnel: Option<(Seq<char>, u16, Seq<char>, Seq<char>)>,
}

impl View for Database {
    type V = DatabaseView;

    open spec fn view(&self) -> DatabaseView {
        DatabaseView {
            host: self.host@,
            port: self.port,
            username: opt_str(self.username),
            password: opt_str(self.password),
            use_tls: self.use_tls,
            use_ssh_tunnel: self.use_ssh_tunnel,
            db: self.db,
            protocol: self.protocol,
            ssh_tunnel: match self.ssh_tunnel {
                Some(t) => Some((t.host@, t.port, t.username@, t.password@)),
                None => None,
            },
        }
    }
}

fn clone_str(s: &String) -> (r: String)
    ensures
        r@ == s@,
{
    s.clone()
}

fn clone_opt(s: &Option<String>) -> (r: Option<String>)
    ensures
        opt_str(r) == opt_str(*s),
{
    match s {
        Some(x) => Some(clone_str(x)),
        None => None,
    }
}

impl Database {
    /// A copy of a profile.
    pub fn from(other: &Database) -> (r: Database)
        ensures
            r@ == other@,
    {
        Database {
            host: clone_str(&other.host),
            port: other.port,
            username: clone_opt(&other.username),
            password: clone_opt(&other.password),
            use_tls: other.use_tls,
            use_ssh_tunnel: other.use_ssh_tunnel,
            db: other.db,
            protocol: other.protocol,
            ssh_tunnel: match &other.ssh_tunnel {
                Some(t) => Some(SshTunnel {
                    host: clone_str(&t.host),
                    port: t.port,
                    username: clone_str(&t.username),
                    password: clone_str(&t.password),
                }),
                None => None,
            },
        }
    }

    /// The password as a profile's description shows it: one `*` per byte.
    pub fn masked_password(&self) -> (r: Option<String>)
        ensures
            match self.password {
                Some(p) => r matches Some(m) && m@ == Seq::new((encode_utf8(p@).len() as usize) as nat, |i: int| '*'),
                None => r is None,
            },
    {
        match &self.password {
            Some(p) => {
                let n = p.as_str().len();
                let mut v: Vec<char> = Vec::new();
                let mut i: usize = 0;
                while i < n
                    invariant
                        i <= n,
                        v@ == Seq::new(i as nat, |k: int| '*'),
                    decreases n - i,
                {
                    v.push('*');
                    i = i + 1;
                    proof {
                        assert(v@ =~= Seq::new(i as nat, |k: int| '*'));
                    }
                }
                Some(crate::text::from_chars(&v))
            },
            None => None,
        }
    }
}

/// The saved profiles and the one to connect to first.  Each profile is
/// kept under its name, and no two share a name (see
/// `servers::lemma_saved_names_unique` for the lists this library writes).
#[derive(Debug)]
pub struct Databases {
    pub default_database: Option<String>,
    pub databases: Vec<(String, Database)>,
}

impl Databases {
    /// No profiles.
    pub fn empty() -> (r: Databases)
        ensures
            r.default_database is None,
            r.databases@.len() == 0,
    {
        Databases { default_database: None, databases: Vec::new() }
    }
}

// ---------------------------------------------------------------------------
// Passwords are stored in base64
// ---------------------------------------------------------------------------
/// The standard base64 encoding of some bytes.
pub uninterp spec fn spec_base64_encode(bytes: Seq<u8>) -> Seq<char>;

/// The bytes a text decodes to in standard base64, `None` when it is not
/// valid base64.
pub uninterp spec fn spec_base64_decode(text: Seq<char>) -> Option<Seq<u8>>;

#[verifier::external_type_specification]
#[verifier::external_body]
pub struct ExBase64DecodeError(base64::DecodeError);

/// Encodes bytes in standard base64 with padding
/// (`base64::engine::general_purpose::STANDARD.encode`).  The result is
/// named, and decoding it gives the bytes back.
#[verifier::external_body]
fn base64_encode(bytes: &[u8]) -> (r: String)
    requires
        bytes@.len() <= usize::MAX / 2,
    ensures
        r@ == spec_base64_encode(bytes@),
        spec_base64_decode(r@) == Some(bytes@),
{
    base64::Engine::encode(&base64::engine::general_purpose::STANDARD, bytes)
}

/// Decodes standard base64 (`base64::engine::general_purpose::STANDARD.decode`);
/// the result is named.
#[verifier::external_body]
fn base64_decode(text: &str) -> (r: Result<Vec<u8>, base64::DecodeError>)
    ensures
        match r {
            Ok(b) => spec_base64_decode(text@) == Some(b@),
            Err(_) => spec_base64_decode(text@) is None,
        },
{
    base64::Engine::decode(&base64::engine::general_purpose::STANDARD, text)
}

/// Why a stored password could not be read.
#[derive(Clone, Copy, PartialEq, Eq, Debug, Structural)]
pub enum PasswordError {
    /// The text is not base64.
    Base64,
    /// The decoded bytes are not UTF-8.
    Utf8,
}

/// The password a stored text holds: its base64 decoding read as UTF-8.
pub open spec fn spec_decode_password(text: Seq<char>) -> Result<Seq<char>, PasswordError> {
    match spec_base64_decode(text) {
        None => Err(PasswordError::Base64),
        Some(b) => if valid_utf8(b) {
            Ok(decode_utf8(b))
        } else {
            Err(PasswordError::Utf8)
        },
    }
}

/// Reads a password stored in base64.
pub fn decode_password(text: &str) -> (r: Result<String, PasswordError>)
    ensures
        match r {
            Ok(p) => spec_decode_password(text@) == Ok::<Seq<char>, PasswordError>(p@),
            Err(e) => spec_decode_password(text@) == Err::<Seq<char>, PasswordError>(e),
        },
{
    match base64_decode(text) {
        Ok(bytes) => match utf8_decode(bytes) {
            Some(s) => Ok(s),
            None => Err(PasswordError::Utf8),
        },
        Err(_) => Err(PasswordError::Base64),
    }
}

/// Stores a password as the base64 encoding of its UTF-8 bytes.
pub fn encode_password(password: &str) -> (r: String)
    requires
        password.spec_bytes().len() <= usize::MAX / 2,
    ensures
        r@ == spec_base64_encode(password.spec_bytes()),
        spec_decode_password(r@) == Ok::<Seq<char>, PasswordError>(password@),
{
    let r = base64_encode(password.as_bytes());
    proof {
        vstd::utf8::encode_utf8_valid_utf8(password@);
        vstd::utf8::encode_utf8_decode_utf8(password@);
    }
    r
}

} // verus!

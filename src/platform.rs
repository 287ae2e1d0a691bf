use vstd::prelude::*;

use crate::records::DaemonError;
use crate::text::{same_text, trim_text, trimmed};

verus! {

/// The host operating systems the bridge knows a token location for.
#[derive(Debug, Clone, Copy, PartialEq, Eq, Structural)]
pub enum Platform {
    Windows,
    MacOs,
    Linux,
    Other,
}

/// The platform named by an operating-system identifier (`std::env::consts::OS`).
pub open spec fn platform_named(name: Seq<char>) -> Platform {
    if name == "windows"@ {
        Platform::Windows
    } else if name == "macos"@ {
        Platform::MacOs
    } else if name == "linux"@ {
        Platform::Linux
    } else {
        Platform::Other
    }
}

/// The daemon's address on a platform.
pub open spec fn endpoint_of(p: Platform) -> Seq<char> {
    if p == Platform::Windows {
        "http://127.0.0.1:34101"@
    } else {
        "http://[::1]:34101"@
    }
}

/// The directory the token file hangs from.
#[derive(Debug, Clone, Copy, PartialEq, Eq, Structural)]
pub enum TokenBase {
    /// The per-user local application data directory.
    LocalData,
    /// The user's home directory.
    Home,
}

pub open spec fn token_base_of(p: Platform) -> Option<TokenBase> {
    match p {
        Platform::Windows => Some(TokenBase::LocalData),
        Platform::MacOs => Some(TokenBase::Home),
        Platform::Linux => Some(TokenBase::Home),
        Platform::Other => None,
    }
}

pub open spec fn is_separator(p: Platform, c: char) -> bool {
    c == '/' || (p == Platform::Windows && c == '\\')
}

pub open spec fn separator_of(p: Platform) -> char {
    if p == Platform::Windows {
        '\\'
    } else {
        '/'
    }
}

/// `seg` appended to the path `base`, with one separator between them.
pub open spec fn path_join(p: Platform, base: Seq<char>, seg: Seq<char>) -> Seq<char> {
    if base.len() == 0 || is_separator(p, base.last()) {
        base + seg
    } else {
        base + seq![separator_of(p)] + seg
    }
}

/// Where the token file lies, below the directory `base` of `token_base_of(p)`.
pub open spec fn token_path_of(p: Platform, base: Seq<char>) -> Seq<char> {
    match p {
        Platform::Windows => path_join(p, path_join(p, base, "GoConnect"@), "ipc.token"@),
        Platform::MacOs => path_join(p, base, "Library/Application Support/GoConnect/ipc.token"@),
        _ => path_join(p, base, ".local/share/goconnect/ipc.token"@),
    }
}

/// Why no token path exists for a platform whose base directory is unknown.
pub open spec fn missing_base_text(p: Platform) -> Seq<char> {
    match p {
        Platform::Windows => "Cannot find LOCALAPPDATA"@,
        Platform::Other => "Unsupported platform"@,
        _ => "Cannot find home directory"@,
    }
}

pub open spec fn text_of(o: Option<String>) -> Option<Seq<char>> {
    match o {
        Some(s) => Some(s@),
        None => None,
    }
}

/// The token path of `p`, given what the directory lookup returned.
pub open spec fn token_path_result(p: Platform, base: Option<Seq<char>>) -> Result<
    Seq<char>,
    Seq<char>,
> {
    match (token_base_of(p), base) {
        (Some(_), Some(b)) => Ok(token_path_of(p, b)),
        _ => Err(missing_base_text(p)),
    }
}

impl Platform {
    /// Looks a platform up by its operating-system identifier.
    pub fn from_os_name(name: &str) -> (r: Platform)
        ensures
            r == platform_named(name@),
    {
        if same_text(name, "windows") {
            Platform::Windows
        } else if same_text(name, "macos") {
            Platform::MacOs
        } else if same_text(name, "linux") {
            Platform::Linux
        } else {
            Platform::Other
        }
    }

    /// Which directory the token file of this platform lies under.
    pub fn token_base(self) -> (r: Option<TokenBase>)
        ensures
            r == token_base_of(self),
    {
        match self {
            Platform::Windows => Some(TokenBase::LocalData),
            Platform::MacOs => Some(TokenBase::Home),
            Platform::Linux => Some(TokenBase::Home),
            Platform::Other => None,
        }
    }
}

/// The address the daemon listens on for a platform: fixed, never discovered.
pub fn get_daemon_endpoint(p: Platform) -> (r: &'static str)
    ensures
        r@ == endpoint_of(p),
{
    if p == Platform::Windows {
        "http://127.0.0.1:34101"
    } else {
        "http://[::1]:34101"
    }
}

fn join_path(p: Platform, base: &String, seg: &str) -> (r: String)
    ensures
        r@ == path_join(p, base@, seg@),
{
    let n = base.as_str().unicode_len();
    let needs_sep = if n == 0 {
        false
    } else {
        let c = base.as_str().get_char(n - 1);
        !(c == '/' || (p == Platform::Windows && c == '\\'))
    };
    if needs_sep {
        let sep = if p == Platform::Windows {
            "\\"
        } else {
            "/"
        };
        let with_sep = base.clone().concat(sep);
        proof {
            reveal_strlit("\\");
            reveal_strlit("/");
        }
        with_sep.concat(seg)
    } else {
        base.clone().concat(seg)
    }
}

/// The token path of a platform, from the base directory that the
/// directory lookup gave (`None` when it found none).
pub fn token_path_in(p: Platform, base: Option<String>) -> (r: Result<String, DaemonError>)
    ensures
        match (r, token_path_result(p, text_of(base))) {
            (Ok(s), Ok(t)) => s@ == t,
            (Err(DaemonError::TokenNotFound(m)), Err(t)) => m@ == t,
            _ => false,
        },
{
    let b = match base {
        Some(b) => b,
        None => {
            let why = match p {
                Platform::Windows => "Cannot find LOCALAPPDATA",
                Platform::Other => "Unsupported platform",
                _ => "Cannot find home directory",
            };
            return Err(DaemonError::TokenNotFound(String::from_str(why)));
        },
    };
    match p {
        Platform::Windows => {
            let dir = join_path(p, &b, "GoConnect");
            Ok(join_path(p, &dir, "ipc.token"))
        },
        Platform::MacOs => Ok(join_path(p, &b, "Library/Application Support/GoConnect/ipc.token")),
        Platform::Linux => Ok(join_path(p, &b, ".local/share/goconnect/ipc.token")),
        Platform::Other => Err(DaemonError::TokenNotFound(String::from_str("Unsupported platform"))),
    }
}

/// Relies on `dirs::home_dir`: the user's home directory, read from the
/// environment, as text (`None` also when it is not valid Unicode).
#[verifier::external_body]
fn home_dir() -> (r: Option<String>) {
    dirs::home_dir().and_then(|d| d.into_os_string().into_string().ok())
}

/// Relies on `dirs::data_local_dir`: the user's local data directory, read
/// from the environment, as text (`None` also when it is not valid Unicode).
#[verifier::external_body]
fn data_local_dir() -> (r: Option<String>) {
    dirs::data_local_dir().and_then(|d| d.into_os_string().into_string().ok())
}

/// Resolves the token path of a platform on this machine. Only the base
/// directory comes from the environment; the rest is fixed per platform.
pub fn get_token_path(p: Platform) -> (r: Result<String, DaemonError>)
    ensures
        token_base_of(p) is None ==> match r {
            Err(DaemonError::TokenNotFound(m)) => m@ == missing_base_text(p),
            _ => false,
        },
        r is Ok ==> exists|b: Seq<char>| r->Ok_0@ == #[trigger] token_path_of(p, b),
        r is Err ==> r->Err_0 is TokenNotFound,
{
    let base = match p.token_base() {
        Some(TokenBase::LocalData) => data_local_dir(),
        Some(TokenBase::Home) => home_dir(),
        None => None,
    };
    let ghost gb = base;
    let r = token_path_in(p, base);
    proof {
        if r is Ok {
            let b = gb->Some_0@;
            assert(r->Ok_0@ == token_path_of(p, b));
        }
    }
    r
}

/// The credential held by a token file: its text without surrounding
/// whitespace, or `TokenNotFound` naming the path when reading failed.
pub fn load_ipc_token(path: &String, read: Result<String, String>) -> (r: Result<
    String,
    DaemonError,
>)
    ensures
        match (read, r) {
            (Ok(text), Ok(token)) => token@ == trimmed(text@),
            (Err(e), Err(DaemonError::TokenNotFound(m))) => m@ == "Failed to read token from "@
                + path@ + ": "@ + e@,
            _ => false,
        },
{
    match read {
        Ok(text) => Ok(trim_text(text.as_str())),
        Err(e) => {
            let m = String::from_str("Failed to read token from ").concat(path.as_str()).concat(
                ": ",
            ).concat(e.as_str());
            Err(DaemonError::TokenNotFound(m))
        },
    }
}

/// What follows the base directory in the token path of a platform.
pub open spec fn token_suffix(p: Platform) -> Seq<char> {
    match p {
        Platform::Windows => "\\GoConnect\\ipc.token"@,
        Platform::MacOs => "/Library/Application Support/GoConnect/ipc.token"@,
        _ => "/.local/share/goconnect/ipc.token"@,
    }
}

/// Resolution depends on the platform alone, but for the base directory
/// that the environment gives: the token path is that directory followed by
/// a suffix fixed per platform, and the endpoint is fixed per platform.
pub proof fn lemma_resolution_by_platform(p: Platform, base: Seq<char>)
    requires
        p != Platform::Other,
        base.len() > 0,
        !is_separator(p, base.last()),
    ensures
        token_base_of(p) is Some,
        token_path_result(p, Some(base)) == Ok::<Seq<char>, Seq<char>>(base + token_suffix(p)),
        endpoint_of(p) == if p == Platform::Windows {
            "http://127.0.0.1:34101"@
        } else {
            "http://[::1]:34101"@
        },
{
    reveal_strlit("GoConnect");
    reveal_strlit("ipc.token");
    reveal_strlit("\\GoConnect\\ipc.token");
    reveal_strlit("Library/Application Support/GoConnect/ipc.token");
    reveal_strlit("/Library/Application Support/GoConnect/ipc.token");
    reveal_strlit(".local/share/goconnect/ipc.token");
    reveal_strlit("/.local/share/goconnect/ipc.token");
    match p {
        Platform::Windows => {
            let dir = path_join(p, base, "GoConnect"@);
            assert(dir == base + seq!['\\'] + "GoConnect"@);
            assert(dir.last() == 't');
            assert(path_join(p, dir, "ipc.token"@) =~= base + token_suffix(p));
        },
        Platform::MacOs => {
            assert(path_join(p, base, "Library/Application Support/GoConnect/ipc.token"@)
                =~= base + token_suffix(p));
        },
        _ => {
            assert(path_join(p, base, ".local/share/goconnect/ipc.token"@) =~= base
                + token_suffix(p));
        },
    }
}

} // verus!

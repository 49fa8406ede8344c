//! External navigation: the only URLs the tool opens are `https` links to an
//! allow-listed publishing domain.

use vstd::prelude::*;
use vstd::string::*;
use crate::text;
use crate::utf16;

verus! {

/// Hosts allowed for external navigation (publishing domains only).
pub const URL_ALLOWLIST: [&'static str; 1] = ["github.com"];

/// Why a URL was refused.
#[derive(Debug, Clone, Copy, PartialEq, Eq, Structural)]
pub enum UrlError {
    /// Scheme is not `https`.
    Scheme,
    /// Host is missing or not on the allowlist.
    Host,
    /// The URL has no usable content.
    Empty,
}

impl UrlError {
    pub open spec fn spec_message(self) -> Seq<char> {
        match self {
            UrlError::Scheme => "URL scheme must be https"@,
            UrlError::Host => "URL host is not allowlisted"@,
            UrlError::Empty => "URL is empty"@,
        }
    }

    /// The user-visible message.
    pub fn message(self) -> (r: &'static str)
        ensures
            r@ == self.spec_message(),
    {
        match self {
            UrlError::Scheme => "URL scheme must be https",
            UrlError::Host => "URL host is not allowlisted",
            UrlError::Empty => "URL is empty",
        }
    }
}

/// Validated external URL: `https` scheme plus allowlisted host.
#[derive(Debug, Clone, PartialEq, Eq)]
pub struct Url(String);

/// The characters that end a URL's host.
pub open spec fn ends_host(c: char) -> bool {
    c == '/' || c == '?' || c == '#'
}

/// The host of the text after `https://`: everything up to the first `/`,
/// `?` or `#`.
pub open spec fn host_part(rest: Seq<char>) -> Seq<char>
    decreases rest.len(),
{
    if rest.len() == 0 || ends_host(rest[0]) {
        Seq::empty()
    } else {
        seq![rest[0]] + host_part(rest.drop_first())
    }
}

/// The host as compared: one leading `www.` dropped, ASCII lower-cased.
pub open spec fn normalized_host(host: Seq<char>) -> Seq<char> {
    let h = if text::starts_with_seq(host, "www."@) { host.skip(4) } else { host };
    text::lower_seq(h)
}

/// The verdict on a URL: trimmed; empty is `Empty`; without `https://` it is
/// `Scheme`; a host not on the allowlist is `Host`; otherwise the trimmed text.
pub open spec fn url_verdict(raw: Seq<char>) -> Result<Seq<char>, UrlError> {
    let t = text::trim_seq(raw);
    if t.len() == 0 {
        Err(UrlError::Empty)
    } else if !text::starts_with_seq(t, "https://"@) {
        Err(UrlError::Scheme)
    } else if normalized_host(host_part(t.skip(8))) == "github.com"@ {
        Ok(t)
    } else {
        Err(UrlError::Host)
    }
}

/// The host of `rest` (see [`host_part`]).
fn host_exec(rest: &str) -> (r: &str)
    ensures
        r@ == host_part(rest@),
{
    let n = rest.unicode_len();
    let mut i: usize = 0;
    while i < n
        invariant
            n == rest@.len(),
            i <= n,
            forall|k: int| 0 <= k < i ==> !ends_host(#[trigger] rest@[k]),
        ensures
            i <= n,
            forall|k: int| 0 <= k < i ==> !ends_host(#[trigger] rest@[k]),
            i == n || ends_host(rest@[i as int]),
        decreases n - i,
    {
        let c = rest.get_char(i);
        if c == '/' || c == '?' || c == '#' {
            break;
        }
        i = i + 1;
    }
    proof {
        lemma_host_part(rest@, i as int);
    }
    rest.substring_char(0, i)
}

proof fn lemma_host_part(s: Seq<char>, i: int)
    requires
        0 <= i <= s.len(),
        forall|k: int| 0 <= k < i ==> !ends_host(#[trigger] s[k]),
        i == s.len() || ends_host(s[i]),
    ensures
        host_part(s) == s.subrange(0, i),
    decreases i,
{
    if i == 0 {
        assert(s.subrange(0, 0) =~= Seq::<char>::empty());
    } else {
        lemma_host_part(s.drop_first(), i - 1);
        assert(s.subrange(0, i) =~= seq![s[0]] + s.drop_first().subrange(0, i - 1));
    }
}

impl Url {
    /// Parse and validate: surrounding whitespace trimmed, `https://` required,
    /// host (less one leading `www.`, case-insensitive) on the allowlist.
    pub fn parse(raw: &str) -> (r: Result<Url, UrlError>)
        ensures
            match (r, url_verdict(raw@)) {
                (Ok(u), Ok(t)) => u@ == t,
                (Err(e), Err(f)) => e == f,
                _ => false,
            },
    {
        let t = text::trim(raw);
        if t.unicode_len() == 0 {
            return Err(UrlError::Empty);
        }
        if !text::starts_with(t, "https://") {
            return Err(UrlError::Scheme);
        }
        proof {
            reveal_strlit("https://");
            reveal_strlit("www.");
        }
        let rest = t.substring_char(8, t.unicode_len());
        assert(rest@ =~= t@.skip(8));
        let host = host_exec(rest);
        let h = if text::starts_with(host, "www.") {
            let s = host.substring_char(4, host.unicode_len());
            assert(s@ =~= host@.skip(4));
            s
        } else {
            host
        };
        let lower = text::to_ascii_lower(h);
        if text::str_eq(lower.as_str(), URL_ALLOWLIST[0]) {
            Ok(Url(text::to_owned(t)))
        } else {
            Err(UrlError::Host)
        }
    }

    /// The validated URL text.
    pub fn as_str(&self) -> (r: &str)
        ensures
            r@ == self@,
    {
        self.0.as_str()
    }
}

impl View for Url {
    type V = Seq<char>;

    /// The validated URL text.
    closed spec fn view(&self) -> Seq<char> {
        self.0@
    }
}

impl core::str::FromStr for Url {
    type Err = UrlError;

    fn from_str(raw: &str) -> (r: Result<Url, UrlError>)
        ensures
            match (r, url_verdict(raw@)) {
                (Ok(u), Ok(t)) => u@ == t,
                (Err(e), Err(f)) => e == f,
                _ => false,
            },
    {
        Url::parse(raw)
    }
}

/// Why a shell launch failed.
#[derive(Debug, Clone, PartialEq, Eq)]
pub enum ShellError {
    /// The target or a parameter holds a NUL and cannot cross the Win32
    /// string boundary.
    InteriorNul,
    /// `ShellExecuteW` reported failure (`code <= 32`).
    Execute { target: String, code: usize },
}

impl ShellError {
    /// The message the error is logged with.
    pub fn to_string(&self) -> (r: String)
        ensures
            r@ == (match self {
                ShellError::InteriorNul => "shell target contains interior NUL"@,
                ShellError::Execute { target, code } => "ShellExecuteW failed for "@ + target@
                    + " (code "@ + text::decimal(*code as nat) + ")"@,
            }),
    {
        match self {
            ShellError::InteriorNul => text::to_owned("shell target contains interior NUL"),
            ShellError::Execute { target, code } => {
                let mut s = text::concat("ShellExecuteW failed for ", target.as_str());
                s.append(" (code ");
                let c = text::u64_to_decimal(*code as u64);
                s.append(c.as_str());
                s.append(")");
                s
            },
        }
    }
}

/// Whether a `ShellExecuteW` return value reports failure (`<= 32`).
pub fn shell_execute_failed(code: usize) -> (r: bool)
    ensures
        r == (code <= 32),
{
    code <= 32
}

/// Whether a shell target can become a NUL-terminated wide string.
pub fn shell_target_valid(s: &str) -> (r: bool)
    ensures
        r == !s@.contains('\0'),
{
    !text::contains_char(s, '\0')
}

/// A shell target or parameter as a NUL-terminated wide string; one that
/// itself holds a NUL is refused.
pub fn wide_nul(s: &str) -> (r: Result<Vec<u16>, ShellError>)
    ensures
        match r {
            Ok(w) => !s@.contains('\0') && w@ == utf16::encode_utf16(s@).push(0),
            Err(e) => s@.contains('\0') && e == ShellError::InteriorNul,
        },
{
    if text::contains_char(s, '\0') {
        return Err(ShellError::InteriorNul);
    }
    Ok(utf16::wide_z(s))
}

/// `String::from_utf16_lossy`: the units decoded, each unpaired surrogate
/// replaced by U+FFFD (see [`utf16::decode_utf16_lossy`]).
#[verifier::external_body]
fn string_from_utf16_lossy(units: &[u16]) -> (r: String)
    ensures
        r@ == utf16::decode_utf16_lossy(units@),
{
    String::from_utf16_lossy(units)
}

/// The outcome of a `ShellExecuteW` call on a wide target: a return code of
/// 32 or less is an `Execute` error naming the target.
pub fn execute_outcome(target_w: &[u16], code: usize) -> (r: Result<(), ShellError>)
    ensures
        match r {
            Ok(()) => code > 32,
            Err(ShellError::Execute { target, code: c }) => code <= 32 && c == code && target@
                == utf16::decode_utf16_lossy(target_w@),
            Err(ShellError::InteriorNul) => false,
        },
{
    if code <= 32 {
        Err(ShellError::Execute { target: string_from_utf16_lossy(target_w), code })
    } else {
        Ok(())
    }
}

/// The working directory for launched programs: the executable's folder,
/// or the system drive's root when it is unknown.
pub fn working_dir(exe_dir: Option<&str>) -> (r: String)
    ensures
        r@ == (match exe_dir {
            Some(d) => d@,
            None => "C:\\"@,
        }),
{
    match exe_dir {
        Some(d) => text::to_owned(d),
        None => text::to_owned("C:\\"),
    }
}

/// The volume mixer's launch target.
pub const MIXER_TARGET: &'static str = "SndVol.exe";
/// The sound settings' launch target and its parameter.
pub const SOUND_TARGET: &'static str = "control";
/// The parameter of [`SOUND_TARGET`].
pub const SOUND_PARAMS: &'static str = "mmsys.cpl";

} // verus!

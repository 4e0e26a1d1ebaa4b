//! The URL of the app websocket: the admin URL with the port swapped.

use crate::text::{decimal, decimal_text, law_numerals_read_back};
use vstd::prelude::*;
use vstd::string::*;
use vstd::utf8::encode_utf8;

verus! {

/// The error that [`url::Url::parse`] returns; its value is only passed on.
#[verifier::external_type_specification]
#[verifier::external_body]
pub struct ExParseError(url::ParseError);

/// A URL in its normal form, cut where the port stands and where the URL keeps offsets after it.
#[verifier::ext_equal]
pub struct UrlPieces {
    pub scheme: Seq<char>,
    pub host: Option<Seq<char>>,
    /// Everything up to the end of the host.
    pub before_port: Seq<char>,
    pub path: Seq<char>,
    /// The query with its question mark, or nothing.
    pub query: Seq<char>,
    /// The fragment with its hash, or nothing.
    pub fragment: Seq<char>,
}

/// The port that a scheme stands for by itself, which a URL in normal form leaves out.
pub open spec fn default_port(scheme: Seq<char>) -> Option<u16> {
    if scheme == "http"@ || scheme == "ws"@ {
        Some(80)
    } else if scheme == "https"@ || scheme == "wss"@ {
        Some(443)
    } else if scheme == "ftp"@ {
        Some(21)
    } else {
        None
    }
}

impl UrlPieces {
    /// A port can be given to a URL with a host, unless it names a file.
    pub open spec fn takes_port(self) -> bool {
        self.host is Some && self.host->0.len() > 0 && self.scheme != "file"@
    }

    /// How the URL shows a port: after a colon, unless it is the default port of the scheme.
    pub open spec fn shown_port(self, port: u16) -> Seq<char> {
        if default_port(self.scheme) == Some(port) {
            Seq::empty()
        } else {
            seq![':'] + decimal_text(port as nat)
        }
    }

    /// The same URL, with `port` in place of the port that it had.
    pub open spec fn with_port(self, port: u16) -> Seq<char> {
        self.before_port + self.shown_port(port) + self.after_port()
    }

    /// Everything from the start of the path.
    pub open spec fn after_port(self) -> Seq<char> {
        self.path + self.query + self.fragment
    }

    /// How many bytes after the start of the path the last offset of the URL points: to the
    /// fragment, else to the query, else to the path itself.
    pub open spec fn last_offset(self) -> nat {
        if self.fragment.len() > 0 {
            encode_utf8(self.path).len() + encode_utf8(self.query).len()
        } else if self.query.len() > 0 {
            encode_utf8(self.path).len()
        } else {
            0
        }
    }

    /// The offsets of the URL still fit in 32 bits once it has been given a port. How long it is
    /// beyond its last offset does not matter.
    pub open spec fn leaves_room_for_port(self, port: u16) -> bool {
        self.takes_port() ==> encode_utf8(self.before_port).len() + self.shown_port(port).len()
            + self.last_offset() <= u32::MAX
    }
}

/// The pieces of the URL that `text` denotes, or why it denotes none: what [`url::Url::parse`] finds.
pub uninterp spec fn parsed_url(text: Seq<char>) -> Result<UrlPieces, url::ParseError>;

/// A parsed URL, as far as swapping its port depends on it.
pub struct ParsedUrl {
    pub scheme: String,
    pub host: Option<String>,
    pub before_port: String,
    pub path: String,
    pub query: String,
    pub fragment: String,
}

impl View for ParsedUrl {
    type V = UrlPieces;

    open spec fn view(&self) -> UrlPieces {
        UrlPieces {
            scheme: self.scheme@,
            host: match self.host {
                Some(host) => Some(host@),
                None => None,
            },
            before_port: self.before_port@,
            path: self.path@,
            query: self.query@,
            fragment: self.fragment@,
        }
    }
}

/// Calls [`url::Url::parse`] and reads the scheme, the host and the slices around the port off the
/// URL it returns. The contract names these pieces, or the error, which depend on the text alone. The
/// parser counts characters in 32 bits with a sign, and panics on a longer text where overflow is
/// checked, so that such texts are left out.
#[verifier::external_body]
pub(crate) fn parse_url(text: &str) -> (parsed: Result<ParsedUrl, url::ParseError>)
    requires
        text@.len() <= i32::MAX,
    ensures
        match parsed {
            Ok(url) => parsed_url(text@) == Ok::<UrlPieces, url::ParseError>(url@),
            Err(error) => parsed_url(text@) == Err::<UrlPieces, url::ParseError>(error),
        },
{
    match url::Url::parse(text) {
        Ok(url) => Ok(
            ParsedUrl {
                scheme: url.scheme().to_string(),
                host: url.host_str().map(str::to_string),
                before_port: url[..url::Position::AfterHost].to_string(),
                path: url[url::Position::BeforePath..url::Position::AfterPath].to_string(),
                query: url[url::Position::AfterPath..url::Position::AfterQuery].to_string(),
                fragment: url[url::Position::AfterQuery..].to_string(),
            },
        ),
        Err(error) => Err(error),
    }
}

/// Calls [`url::Url::set_port`] on the URL that `text` denotes and returns the resulting URL as
/// text. The contract claims that it refuses a URL without a host and a `file` URL, and otherwise
/// replaces the port and nothing else, leaving out the default port of the scheme. Moving the offset
/// of the path beyond 32 bits panics, and so does moving that of the query or the fragment where
/// overflow is checked; so does parsing too long a text. Such URLs are left out.
#[verifier::external_body]
pub(crate) fn set_url_port(text: &str, port: u16) -> (url: Option<String>)
    requires
        text@.len() <= i32::MAX,
        parsed_url(text@) is Ok,
        parsed_url(text@)->Ok_0.leaves_room_for_port(port),
    ensures
        url is Some <==> parsed_url(text@)->Ok_0.takes_port(),
        url is Some ==> url->0@ == parsed_url(text@)->Ok_0.with_port(port),
{
    let mut url = url::Url::parse(text).unwrap();
    match url.set_port(Some(port)) {
        Ok(()) => Some(url.to_string()),
        Err(()) => None,
    }
}

/// Why no app URL can be derived from the admin URL.
#[derive(Debug, PartialEq, Eq)]
pub enum AppUrlError {
    /// The admin URL is not a URL.
    Parse(url::ParseError),
    /// The admin URL cannot carry a port.
    PortRefused,
}

/// What comes of the admin URL: `ported` is the URL with the app port, where the admin URL is one
/// and takes a port.
pub fn app_url_outcome(ported: Result<Option<String>, url::ParseError>) -> (outcome: Result<
    String,
    AppUrlError,
>)
    ensures
        outcome == (match ported {
            Ok(Some(url)) => Ok::<String, AppUrlError>(url),
            Ok(None) => Err(AppUrlError::PortRefused),
            Err(error) => Err(AppUrlError::Parse(error)),
        }),
{
    match ported {
        Ok(Some(url)) => Ok(url),
        Ok(None) => Err(AppUrlError::PortRefused),
        Err(error) => Err(AppUrlError::Parse(error)),
    }
}

/// Whether `outcome` is what deriving the app URL from `admin_ws_url` must give: the admin URL in
/// normal form with the app port in place of its own, or the reason why there is none.
pub open spec fn is_app_url_outcome(
    admin_ws_url: Seq<char>,
    app_port: u16,
    outcome: Result<String, AppUrlError>,
) -> bool {
    match (parsed_url(admin_ws_url), outcome) {
        (Err(reason), Err(AppUrlError::Parse(error))) => error == reason,
        (Ok(pieces), Err(AppUrlError::PortRefused)) => !pieces.takes_port(),
        (Ok(pieces), Ok(url)) => pieces.takes_port() && url@ == pieces.with_port(app_port),
        _ => false,
    }
}

/// An admin URL is not too long to be parsed, and has room for an app port, or takes none, or is no
/// URL at all.
pub open spec fn has_room_for_port(admin_ws_url: Seq<char>, app_port: u16) -> bool {
    &&& admin_ws_url.len() <= i32::MAX
    &&& parsed_url(admin_ws_url) is Ok ==> parsed_url(admin_ws_url)->Ok_0.leaves_room_for_port(
        app_port,
    )
}

/// Derives the app websocket URL from the admin URL and the app port.
pub fn app_ws_url(admin_ws_url: &str, app_port: u16) -> (outcome: Result<String, AppUrlError>)
    requires
        has_room_for_port(admin_ws_url@, app_port),
    ensures
        is_app_url_outcome(admin_ws_url@, app_port, outcome),
{
    let ported = match parse_url(admin_ws_url) {
        Ok(_) => Ok(set_url_port(admin_ws_url, app_port)),
        Err(error) => Err(error),
    };
    app_url_outcome(ported)
}

impl ParsedUrl {
    /// Whether a port can be given to the URL.
    fn takes_port(&self) -> (takes: bool)
        ensures
            takes == self@.takes_port(),
    {
        match &self.host {
            Some(host) => host.as_str().unicode_len() > 0 && self.scheme != "file".to_owned(),
            None => false,
        }
    }

    /// The port that the scheme of the URL stands for by itself.
    fn scheme_port(&self) -> (port: Option<u16>)
        ensures
            port == default_port(self@.scheme),
    {
        if self.scheme == "http".to_owned() || self.scheme == "ws".to_owned() {
            Some(80)
        } else if self.scheme == "https".to_owned() || self.scheme == "wss".to_owned() {
            Some(443)
        } else if self.scheme == "ftp".to_owned() {
            Some(21)
        } else {
            None
        }
    }

    /// How many characters the URL needs to show a port.
    fn shown_port_len(&self, port: u16) -> (len: usize)
        ensures
            len == self@.shown_port(port).len(),
            len <= 6,
    {
        proof {
            reveal_with_fuel(decimal_text, 5);
        }
        match self.scheme_port() {
            Some(default) if default == port => 0,
            _ => 1 + decimal(port as u64).as_str().unicode_len(),
        }
    }

    /// Whether the offsets of the URL still fit in 32 bits once it has been given a port.
    pub fn leaves_room_for_port(&self, port: u16) -> (room: bool)
        ensures
            room == self@.leaves_room_for_port(port),
    {
        if !self.takes_port() {
            return true;
        }
        let before: usize = self.before_port.as_str().as_bytes().len();
        let shown: usize = self.shown_port_len(port);
        let path: usize = self.path.as_str().as_bytes().len();
        let query: usize = self.query.as_str().as_bytes().len();
        let last_offset: u128 = if self.fragment.as_str().unicode_len() > 0 {
            path as u128 + query as u128
        } else if self.query.as_str().unicode_len() > 0 {
            path as u128
        } else {
            0
        };
        before as u128 + shown as u128 + last_offset <= u32::MAX as u128
    }
}

/// Derives the app websocket URL as [`app_ws_url`] does, or returns `None` where the admin URL is
/// too long to be parsed or to be given a port.
pub fn checked_app_ws_url(admin_ws_url: &str, app_port: u16) -> (outcome: Option<
    Result<String, AppUrlError>,
>)
    ensures
        outcome is Some <==> has_room_for_port(admin_ws_url@, app_port),
        outcome is Some ==> is_app_url_outcome(admin_ws_url@, app_port, outcome->0),
{
    if admin_ws_url.unicode_len() > i32::MAX as usize {
        return None;
    }
    match parse_url(admin_ws_url) {
        Ok(url) => {
            if url.leaves_room_for_port(app_port) {
                Some(app_ws_url(admin_ws_url, app_port))
            } else {
                None
            }
        },
        Err(_) => Some(app_ws_url(admin_ws_url, app_port)),
    }
}

/// Whether an app URL can be derived is up to the admin URL, not the port; and the URLs for two ports
/// are the same only if the ports are.
pub proof fn law_only_the_port_differs(
    admin_ws_url: Seq<char>,
    a_port: u16,
    a: Result<String, AppUrlError>,
    b_port: u16,
    b: Result<String, AppUrlError>,
)
    requires
        is_app_url_outcome(admin_ws_url, a_port, a),
        is_app_url_outcome(admin_ws_url, b_port, b),
    ensures
        a is Ok <==> b is Ok,
        a is Err ==> a == b,
        a is Ok ==> (a->Ok_0@ == b->Ok_0@ <==> a_port == b_port),
{
    if a is Ok && a->Ok_0@ == b->Ok_0@ {
        let pieces = parsed_url(admin_ws_url)->Ok_0;
        let a_shown = pieces.shown_port(a_port);
        let b_shown = pieces.shown_port(b_port);
        let start = pieces.before_port.len() as int;
        assert(a->Ok_0@.len() == start + a_shown.len() + pieces.after_port().len());
        assert(b->Ok_0@.len() == start + b_shown.len() + pieces.after_port().len());
        assert(a_shown =~= a->Ok_0@.subrange(start, start + a_shown.len()));
        assert(b_shown =~= b->Ok_0@.subrange(start, start + b_shown.len()));
        if a_shown.len() > 0 {
            assert(decimal_text(a_port as nat) =~= a_shown.skip(1));
            assert(decimal_text(b_port as nat) =~= b_shown.skip(1));
            law_numerals_read_back(a_port as nat);
            law_numerals_read_back(b_port as nat);
        }
    }
}

} // verus!

//! Promises about the URL of the app websocket.

use crate::app_url::{
    app_url_outcome, app_ws_url, checked_app_ws_url, parsed_url, AppUrlError, ParsedUrl, UrlPieces,
};
use crate::promises::numerals::{denotes, lemma_decimal_text_denotes};
use crate::text::decimal_text;
use vstd::prelude::*;
use vstd::utf8::encode_utf8;

verus! {

/// A URL with a host that is not empty can carry a port, unless it names a file.
pub open spec fn can_carry_port(pieces: UrlPieces) -> bool {
    pieces.host is Some && pieces.host->0.len() != 0 && pieces.scheme != "file"@
}

/// A port is the one that its scheme stands for.
pub open spec fn goes_without_saying(scheme: Seq<char>, port: u16) -> bool {
    ||| port == 80 && (scheme == "http"@ || scheme == "ws"@)
    ||| port == 443 && (scheme == "https"@ || scheme == "wss"@)
    ||| port == 21 && scheme == "ftp"@
}

/// A text is the URL in pieces with a port between host and path: a colon and the numeral of the
/// port, or nothing where the port goes without saying.
pub open spec fn is_url_on_port(text: Seq<char>, pieces: UrlPieces, port: u16) -> bool {
    let rest = pieces.path + pieces.query + pieces.fragment;
    exists|shown: Seq<char>| #[trigger]
        shows_port(shown, pieces.scheme, port) && text == pieces.before_port + shown + rest
}

/// How a port shows in a URL.
pub open spec fn shows_port(shown: Seq<char>, scheme: Seq<char>, port: u16) -> bool {
    if goes_without_saying(scheme, port) {
        shown.len() == 0
    } else {
        shown.len() > 0 && shown[0] == ':' && denotes(shown.skip(1), port as int)
    }
}

/// How many bytes an offset of the URL on a port needs to reach: what stands before the port, the
/// port, and what stands before the query or the fragment, whichever is last.
pub open spec fn farthest_offset(pieces: UrlPieces, port: u16) -> int {
    let shown: int = if goes_without_saying(pieces.scheme, port) {
        0
    } else if port < 10 {
        2
    } else if port < 100 {
        3
    } else if port < 1000 {
        4
    } else if port < 10000 {
        5
    } else {
        6
    };
    let path: int = encode_utf8(pieces.path).len() as int;
    let query: int = encode_utf8(pieces.query).len() as int;
    encode_utf8(pieces.before_port).len() + shown + (if pieces.fragment.len() > 0 {
        path + query
    } else if pieces.query.len() > 0 {
        path
    } else {
        0
    })
}

/// What comes of an admin URL that is not too long.
pub open spec fn is_derived(
    admin_ws_url: Seq<char>,
    app_port: u16,
    outcome: Result<String, AppUrlError>,
) -> bool {
    match parsed_url(admin_ws_url) {
        Err(error) => outcome == Err::<String, AppUrlError>(AppUrlError::Parse(error)),
        Ok(pieces) => if can_carry_port(pieces) {
            outcome is Ok && is_url_on_port(outcome->Ok_0@, pieces, app_port)
        } else {
            outcome == Err::<String, AppUrlError>(AppUrlError::PortRefused)
        },
    }
}

/// An admin URL is too long to be parsed, or its offsets do not fit in 32 bits once it has a port.
pub open spec fn is_too_long(admin_ws_url: Seq<char>, app_port: u16) -> bool {
    ||| admin_ws_url.len() > i32::MAX
    ||| parsed_url(admin_ws_url) is Ok && can_carry_port(parsed_url(admin_ws_url)->Ok_0)
        && farthest_offset(parsed_url(admin_ws_url)->Ok_0, app_port) > u32::MAX
}

/// The text that shows a port shows it.
pub proof fn lemma_shown_port(pieces: UrlPieces, port: u16)
    ensures
        shows_port(pieces.shown_port(port), pieces.scheme, port),
        is_url_on_port(pieces.with_port(port), pieces, port),
{
    reveal_strlit("http");
    reveal_strlit("ws");
    reveal_strlit("https");
    reveal_strlit("wss");
    reveal_strlit("ftp");
    assert("ws"@.len() == 2 && "http"@.len() == 4 && "https"@.len() == 5 && "wss"@.len() == 3
        && "ftp"@.len() == 3);
    assert("wss"@[0] == 'w' && "ftp"@[0] == 'f');
    lemma_decimal_text_denotes(port as nat);
    let shown = pieces.shown_port(port);
    if !goes_without_saying(pieces.scheme, port) {
        assert(shown.skip(1) =~= decimal_text(port as nat));
    }
    assert(shows_port(shown, pieces.scheme, port));
    assert(pieces.with_port(port) =~= pieces.before_port + shown + (pieces.path + pieces.query
        + pieces.fragment));
}

/// A URL keeps to 32 bits with a port where its farthest offset does.
pub proof fn lemma_farthest_offset(pieces: UrlPieces, port: u16)
    ensures
        can_carry_port(pieces) == pieces.takes_port(),
        pieces.leaves_room_for_port(port) == !(can_carry_port(pieces) && farthest_offset(
            pieces,
            port,
        ) > u32::MAX),
{
    lemma_shown_port(pieces, port);
    reveal_with_fuel(decimal_text, 5);
}

/// Deriving an app URL swaps the port of the admin URL for the app port, or tells why it cannot.
pub proof fn law_app_url_is_derived(
    admin_ws_url: &str,
    app_port: u16,
    outcome: Result<String, AppUrlError>,
)
    requires
        call_ensures(app_ws_url, (admin_ws_url, app_port), outcome),
    ensures
        is_derived(admin_ws_url@, app_port, outcome),
{
    if let Ok(pieces) = parsed_url(admin_ws_url@) {
        lemma_shown_port(pieces, app_port);
    }
}

/// Deriving an app URL with care gives the same, and nothing only where the admin URL is too long.
pub proof fn law_app_url_is_derived_with_care(
    admin_ws_url: &str,
    app_port: u16,
    outcome: Option<Result<String, AppUrlError>>,
)
    requires
        call_ensures(checked_app_ws_url, (admin_ws_url, app_port), outcome),
    ensures
        outcome is None <==> is_too_long(admin_ws_url@, app_port),
        outcome is Some ==> is_derived(admin_ws_url@, app_port, outcome->0),
{
    if let Ok(pieces) = parsed_url(admin_ws_url@) {
        lemma_shown_port(pieces, app_port);
        lemma_farthest_offset(pieces, app_port);
    }
}

/// A URL leaves room for a port where its farthest offset fits in 32 bits, or where it cannot carry
/// one.
pub proof fn law_room_is_for_the_offsets(url: &ParsedUrl, pieces: UrlPieces, port: u16, room: bool)
    requires
        call_ensures(ParsedUrl::leaves_room_for_port, (url, port), room),
        pieces.scheme == url.scheme@,
        pieces.host is Some <==> url.host is Some,
        url.host is Some ==> pieces.host->0 == url.host->0@,
        pieces.before_port == url.before_port@,
        pieces.path == url.path@,
        pieces.query == url.query@,
        pieces.fragment == url.fragment@,
    ensures
        room <==> !can_carry_port(pieces) || farthest_offset(pieces, port) <= u32::MAX,
{
    assert(pieces =~= url@);
    lemma_farthest_offset(pieces, port);
}

/// A URL that has a port is the outcome, and so is the reason why there is none.
pub proof fn law_outcome_is_passed_on(
    ported: Result<Option<String>, url::ParseError>,
    outcome: Result<String, AppUrlError>,
)
    requires
        call_ensures(app_url_outcome, (ported,), outcome),
    ensures
        outcome is Ok <==> ported is Ok && ported->Ok_0 is Some,
        outcome is Ok ==> outcome->Ok_0 == ported->Ok_0->0,
        ported is Ok && ported->Ok_0 is None ==> outcome->Err_0 is PortRefused,
        ported is Err ==> outcome->Err_0 == AppUrlError::Parse(ported->Err_0),
{
}

} // verus!

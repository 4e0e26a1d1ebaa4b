use holochain_runner::app_url::{
    app_url_outcome, app_ws_url, checked_app_ws_url, AppUrlError, ParsedUrl,
};

fn swapped(admin_ws_url: &str, app_port: u16) -> String {
    app_ws_url(admin_ws_url, app_port).unwrap()
}

#[test]
fn swaps_the_admin_port_for_the_app_port() {
    assert_eq!(swapped("ws://localhost:8888", 30000), "ws://localhost:30000/");
    assert_eq!(swapped("ws://127.0.0.1:1", 65535), "ws://127.0.0.1:65535/");
    assert_eq!(swapped("ws://[::1]:8888", 9), "ws://[::1]:9/");
}

#[test]
fn adds_a_port_where_there_was_none() {
    assert_eq!(swapped("ws://localhost", 0), "ws://localhost:0/");
    assert_eq!(swapped("wss://example.com/", 8443), "wss://example.com:8443/");
}

#[test]
fn keeps_the_port_where_it_is_the_same() {
    assert_eq!(swapped("ws://localhost:8888", 8888), "ws://localhost:8888/");
    assert_eq!(swapped("ws://localhost:08888", 8888), "ws://localhost:8888/");
}

#[test]
fn leaves_out_the_default_port_of_the_scheme() {
    assert_eq!(swapped("ws://localhost:8888", 80), "ws://localhost/");
    assert_eq!(swapped("http://localhost:8888", 80), "http://localhost/");
    assert_eq!(swapped("wss://localhost:8888", 443), "wss://localhost/");
    assert_eq!(swapped("https://localhost:8888", 443), "https://localhost/");
    assert_eq!(swapped("ftp://localhost:8888", 21), "ftp://localhost/");
    assert_eq!(swapped("ws://localhost:8888", 443), "ws://localhost:443/");
    assert_eq!(swapped("gopher://localhost:8888", 80), "gopher://localhost:80");
}

#[test]
fn keeps_everything_but_the_port() {
    assert_eq!(
        swapped("WS://user:pw@Example.com:8888/a/b?c=d#e", 1234),
        "ws://user:pw@example.com:1234/a/b?c=d#e"
    );
}

#[test]
fn only_the_port_differs_between_two_app_urls() {
    let a = swapped("ws://localhost:8888/x", 1111);
    let b = swapped("ws://localhost:8888/x", 2222);
    assert_ne!(a, b);
    assert_eq!(a.replace("1111", "2222"), b);
}

#[test]
fn refuses_what_is_no_url() {
    assert_eq!(
        app_ws_url("localhost", 1),
        Err(AppUrlError::Parse(url::ParseError::RelativeUrlWithoutBase))
    );
    assert_eq!(app_ws_url("ws://", 1), Err(AppUrlError::Parse(url::ParseError::EmptyHost)));
    assert_eq!(
        app_ws_url("ws://localhost:99999", 1),
        Err(AppUrlError::Parse(url::ParseError::InvalidPort))
    );
}

#[test]
fn refuses_urls_that_take_no_port() {
    assert_eq!(app_ws_url("mailto:someone@example.com", 1), Err(AppUrlError::PortRefused));
    assert_eq!(app_ws_url("file:///tmp/conductor", 1), Err(AppUrlError::PortRefused));
    assert_eq!(app_ws_url("file://host/tmp", 1), Err(AppUrlError::PortRefused));
    assert_eq!(app_ws_url("unix:///run/conductor", 1), Err(AppUrlError::PortRefused));
}

#[test]
fn an_ordinary_admin_url_has_room_for_a_port() {
    assert_eq!(
        checked_app_ws_url("ws://localhost:8888", 7),
        Some(Ok("ws://localhost:7/".to_string()))
    );
    assert_eq!(
        checked_app_ws_url("localhost", 7),
        Some(Err(AppUrlError::Parse(url::ParseError::RelativeUrlWithoutBase)))
    );
}

#[test]
fn tells_the_outcomes_apart() {
    assert_eq!(app_url_outcome(Ok(Some("ws://a/".to_string()))), Ok("ws://a/".to_string()));
    assert_eq!(app_url_outcome(Ok(None)), Err(AppUrlError::PortRefused));
    assert_eq!(
        app_url_outcome(Err(url::ParseError::EmptyHost)),
        Err(AppUrlError::Parse(url::ParseError::EmptyHost))
    );
}

#[test]
fn what_follows_the_port_is_kept_whatever_is_there() {
    assert_eq!(swapped("ws://localhost:8888?q", 1), "ws://localhost:1/?q");
    assert_eq!(swapped("ws://localhost:8888/#f?g", 1), "ws://localhost:1/#f?g");
    assert_eq!(swapped("gopher://localhost?", 1), "gopher://localhost:1?");
    let path = "x".repeat(100_000);
    assert_eq!(
        checked_app_ws_url(&format!("ws://localhost/{path}?a#b"), 65535),
        Some(Ok(format!("ws://localhost:65535/{path}?a#b")))
    );
}

fn parsed(scheme: &str, host: Option<&str>, path: &str, query: &str, fragment: &str) -> ParsedUrl {
    ParsedUrl {
        scheme: scheme.to_string(),
        host: host.map(str::to_string),
        before_port: format!("{}://{}", scheme, host.unwrap_or("")),
        path: path.to_string(),
        query: query.to_string(),
        fragment: fragment.to_string(),
    }
}

#[test]
fn short_urls_leave_room_for_every_port() {
    for url in [
        parsed("ws", Some("localhost"), "/a", "?q", "#f"),
        parsed("ws", Some("localhost"), "/a", "", ""),
        parsed("file", Some("host"), "/a", "", ""),
        parsed("unix", None, "/a", "?q", ""),
    ] {
        for port in [0, 80, 443, 65535] {
            assert!(url.leaves_room_for_port(port));
        }
    }
}

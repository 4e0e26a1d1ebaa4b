use holochain_runner::app_info::RoleError;
use holochain_runner::app_url::AppUrlError;
use holochain_runner::configure::ConfigureError;
use holochain_runner::failure::{
    configure_failure, install_failure, installed_failure, peers_failure, role_error_text,
    zome_failure, Cause, Failure,
};
use holochain_runner::peers::{agent_keys, PeersError};
use holochain_runner::session::SetupError;
use holochain_runner::zome::ZomeError;

/// The messages of a failure, outermost first.
fn messages(failure: Failure<&str>) -> Vec<String> {
    let mut messages = failure.contexts;
    messages.push(match failure.cause {
        Cause::Request(error) => error.to_string(),
        Cause::LabelledRequest { label, error } => format!("{label}{error}"),
        Cause::LabelledUrl { label, error } => format!("{label}{error}"),
        Cause::AgentInfo(error) => error.to_string(),
        Cause::Message(message) => message,
    });
    messages
}

fn setup_errors() -> Vec<(SetupError<&'static str>, &'static str)> {
    vec![
        (SetupError::ConnectAdmin("e"), "e"),
        (SetupError::GenerateKey("e"), "e"),
        (SetupError::ReadBundle("e"), "e"),
        (SetupError::InstallApp("e"), "e"),
        (SetupError::EnableApp("e"), "e"),
        (SetupError::ListApps("e"), "e"),
        (SetupError::AppNotFound("alice-app".to_string()), "App not found: \"alice-app\""),
        (SetupError::AppNotRunning("a\"b".to_string()), "App is not running: \"a\\\"b\""),
        (SetupError::Role(RoleError::RoleNotFound), "Role not found"),
        (SetupError::Role(RoleError::CellNotFound), "Cell not found"),
        (SetupError::Role(RoleError::CellNotProvisioned), "Cell not provisioned"),
        (SetupError::AuthorizeSigning("e"), "e"),
        (SetupError::IssueToken("e"), "Could not issue auth token for app client: e"),
        (SetupError::ConnectApp("e"), "e"),
    ]
}

#[test]
fn words_that_a_role_has_no_cell() {
    assert_eq!(role_error_text(&RoleError::RoleNotFound), "Role not found");
    assert_eq!(role_error_text(&RoleError::CellNotFound), "Cell not found");
    assert_eq!(role_error_text(&RoleError::CellNotProvisioned), "Cell not provisioned");
}

#[test]
fn every_failure_to_install_says_so_first() {
    for (error, cause) in setup_errors() {
        assert_eq!(messages(install_failure(error)), vec!["Failed to install app", cause]);
    }
}

#[test]
fn a_failure_to_take_up_an_app_says_only_why() {
    for (error, cause) in setup_errors() {
        assert_eq!(messages(installed_failure(error)), vec![cause]);
    }
}

#[test]
fn failed_requests_say_that_no_port_was_set_up() {
    assert_eq!(
        messages(configure_failure(ConfigureError::ConnectAdmin("e"))),
        vec!["Failed to set up app port", "Unable to connect admin client", "e"]
    );
    for error in [ConfigureError::ListAppInterfaces("e"), ConfigureError::AttachAppInterface("e")] {
        assert_eq!(messages(configure_failure(error)), vec!["Failed to set up app port", "e"]);
    }
}

#[test]
fn unusable_admin_urls_say_why() {
    let parse = AppUrlError::Parse(url::ParseError::EmptyHost);
    assert_eq!(
        messages(configure_failure(ConfigureError::AppUrl(parse))),
        vec!["Failed to parse admin URL: empty host"]
    );
    assert_eq!(
        messages(configure_failure(ConfigureError::AppUrl(AppUrlError::PortRefused))),
        vec!["Failed to set app port on admin URL"]
    );
}

#[test]
fn words_that_a_call_failed() {
    assert_eq!(
        messages(zome_failure(ZomeError::EncodePayload("e"))),
        vec!["Encoding failure", "e"]
    );
    assert_eq!(messages(zome_failure(ZomeError::CallZome("e"))), vec!["e"]);
    assert_eq!(
        messages(zome_failure(ZomeError::DecodeResponse("e"))),
        vec!["Decoding failure: e"]
    );
}

#[test]
fn words_that_peers_could_not_be_listed() {
    assert_eq!(messages(peers_failure(PeersError::ConnectAdmin("e"))), vec!["e"]);
    assert_eq!(
        messages(peers_failure(PeersError::ListAgents("e"))),
        vec!["Failed to get agent info", "e"]
    );
    let invalid = agent_keys(&vec!["{}".to_string()]).unwrap_err();
    let worded = messages(peers_failure(PeersError::InvalidAgentInfo(invalid)));
    assert_eq!(worded.len(), 1);
    assert!(worded[0].contains("decoding agent_info"));
}

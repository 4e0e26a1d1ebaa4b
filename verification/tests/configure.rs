use holochain_runner::app_url::AppUrlError;
use holochain_runner::configure::{
    configure_app_ws_url, pick_app_port, AllowedOrigins, AppInterface, ConfigureError, ConfigureFlow,
    ConfigureReply, ConfigureRequest, ConfigureStep,
};
use holochain_runner::context::RunnerContext;
use holochain_runner::progress::Progress;

fn interface(port: u16, allowed_origins: AllowedOrigins, app: Option<&str>) -> AppInterface {
    AppInterface { port, allowed_origins, installed_app_id: app.map(str::to_string) }
}

fn some_origin() -> AllowedOrigins {
    AllowedOrigins::Origins(vec!["example.com".to_string()])
}

fn runner(connection_string: &str) -> RunnerContext {
    RunnerContext::new(connection_string.to_string(), "run".to_string())
}

fn listing(connection_string: &str) -> ConfigureFlow {
    let (flow, request) = ConfigureFlow::begin(&runner(connection_string));
    assert_eq!(
        request,
        ConfigureRequest::ConnectAdmin { admin_ws_url: connection_string.to_string() }
    );
    let (flow, progress) = configure_app_ws_url::<u8>(flow, ConfigureReply::AdminConnected(Ok(())));
    assert_eq!(progress, Some(Progress::Ask(ConfigureRequest::ListAppInterfaces)));
    flow
}

fn configured(connection_string: &str, interfaces: Vec<AppInterface>) -> Option<String> {
    let (flow, progress) = configure_app_ws_url::<u8>(
        listing(connection_string),
        ConfigureReply::InterfacesListed(Ok(interfaces)),
    );
    assert_eq!(flow.step, ConfigureStep::Finished);
    let outcome = match progress {
        Some(Progress::Finish(outcome)) => outcome,
        other => panic!("{:?}", other),
    };
    let mut runner = runner(connection_string);
    assert_eq!(runner.record(outcome), Ok(()));
    runner.app_ws_url
}

#[test]
fn picks_the_first_interface() {
    assert_eq!(pick_app_port(&vec![]), None);
    assert_eq!(
        pick_app_port(&vec![
            interface(1, some_origin(), None),
            interface(2, AllowedOrigins::Any, Some("app")),
            interface(3, AllowedOrigins::Any, None),
        ]),
        Some(1)
    );
    assert_eq!(pick_app_port(&vec![interface(2, AllowedOrigins::Origins(vec![]), Some("app"))]), Some(2));
}

#[test]
fn uses_the_first_interface() {
    assert_eq!(
        configured("ws://localhost:8888", vec![interface(4000, AllowedOrigins::Any, None)]),
        Some("ws://localhost:4000/".to_string())
    );
    assert_eq!(
        configured(
            "ws://localhost:8888",
            vec![
                interface(1000, AllowedOrigins::Any, Some("other")),
                interface(2000, AllowedOrigins::Any, None),
            ]
        ),
        Some("ws://localhost:1000/".to_string())
    );
}

#[test]
fn attaches_nothing_where_there_is_an_interface() {
    for interfaces in [
        vec![interface(1000, AllowedOrigins::Any, Some("other"))],
        vec![interface(1000, some_origin(), None), interface(2000, some_origin(), Some("other"))],
    ] {
        assert_eq!(
            configured("ws://localhost:8888", interfaces),
            Some("ws://localhost:1000/".to_string())
        );
    }
}

#[test]
fn attaches_an_interface_where_there_is_none() {
    let (flow, progress) = configure_app_ws_url::<u8>(
        listing("ws://localhost:8888"),
        ConfigureReply::InterfacesListed(Ok(vec![])),
    );
    assert_eq!(
        progress,
        Some(Progress::Ask(ConfigureRequest::AttachAppInterface(interface(
            0,
            AllowedOrigins::Any,
            None
        ))))
    );
    let (_, progress) = configure_app_ws_url::<u8>(flow, ConfigureReply::InterfaceAttached(Ok(5555)));
    assert_eq!(progress, Some(Progress::Finish(Ok("ws://localhost:5555/".to_string()))));
}

#[test]
fn configuring_fails_as_its_requests_do() {
    let (flow, _) = ConfigureFlow::begin(&runner("ws://localhost:8888"));
    let (flow, progress) = configure_app_ws_url(flow, ConfigureReply::AdminConnected(Err("a")));
    assert_eq!(progress, Some(Progress::Finish(Err(ConfigureError::ConnectAdmin("a")))));
    assert_eq!(flow.step, ConfigureStep::Finished);

    let (_, progress) = configure_app_ws_url(
        listing("ws://localhost:8888"),
        ConfigureReply::InterfacesListed(Err("b")),
    );
    assert_eq!(progress, Some(Progress::Finish(Err(ConfigureError::ListAppInterfaces("b")))));

    let (flow, _) = configure_app_ws_url::<&str>(
        listing("ws://localhost:8888"),
        ConfigureReply::InterfacesListed(Ok(vec![])),
    );
    let (_, progress) = configure_app_ws_url(flow, ConfigureReply::InterfaceAttached(Err("c")));
    assert_eq!(progress, Some(Progress::Finish(Err(ConfigureError::AttachAppInterface("c")))));
}

#[test]
fn configuring_fails_on_an_admin_url_that_takes_no_port() {
    let open = || vec![interface(1, AllowedOrigins::Any, None)];
    let (_, progress) = configure_app_ws_url::<u8>(
        listing("mailto:someone@example.com"),
        ConfigureReply::InterfacesListed(Ok(open())),
    );
    assert_eq!(
        progress,
        Some(Progress::Finish(Err(ConfigureError::AppUrl(AppUrlError::PortRefused))))
    );
    let (_, progress) = configure_app_ws_url::<u8>(
        listing("nonsense"),
        ConfigureReply::InterfacesListed(Ok(open())),
    );
    assert_eq!(
        progress,
        Some(Progress::Finish(Err(ConfigureError::AppUrl(AppUrlError::Parse(
            url::ParseError::RelativeUrlWithoutBase
        )))))
    );
}

#[test]
fn a_failure_to_configure_leaves_the_runner_as_it_was() {
    let mut runner = runner("ws://localhost:8888");
    runner.app_ws_url = Some("ws://localhost:1/".to_string());
    assert_eq!(runner.record(Err("failed")), Err("failed"));
    assert_eq!(runner.app_ws_url, Some("ws://localhost:1/".to_string()));
}

#[test]
fn replies_out_of_turn_are_ignored_while_configuring() {
    let (flow, progress) = configure_app_ws_url::<u8>(
        listing("ws://localhost:8888"),
        ConfigureReply::InterfaceAttached(Ok(1)),
    );
    assert_eq!(progress, None);
    assert_eq!(flow, listing("ws://localhost:8888"));
}

use holochain_runner::app_info::{AppInfo, AppInfoStatus, CellInfo, RoleCells, RoleError};
use holochain_runner::context::{AgentContext, RunnerContext, Session};
use holochain_runner::install::{
    install_app, InstallAppPayload, InstallFlow, InstallProgress, InstallReply, InstallRequest,
    InstallStep, RolesSettings,
};
use holochain_runner::installed::{
    find_running_cell, use_installed_app, InstalledFlow, InstalledProgress, InstalledReply,
    InstalledRequest, InstalledStep,
};
use holochain_runner::keys::{AgentPubKey, CellId, DnaHash};
use holochain_runner::progress::Progress;
use holochain_runner::session::{
    open_session, SessionFlow, SessionReply, SessionRequest, SessionStep, SetupError,
};

type Credentials = u8;
type Client = &'static str;
type Failure = &'static str;

const KEY: AgentPubKey = AgentPubKey { raw: [5; 39] };
const CELL: CellId = CellId { dna_hash: DnaHash { raw: [4; 39] }, agent_pubkey: KEY };

fn runner() -> RunnerContext {
    let mut runner = RunnerContext::new("ws://localhost:8888".to_string(), "run-1".to_string());
    runner.app_ws_url = Some("ws://localhost:4000/".to_string());
    runner
}

fn agent() -> AgentContext<Client> {
    AgentContext::new("alice".to_string())
}

fn app(installed_app_id: &str, cells: Vec<CellInfo>, status: AppInfoStatus) -> AppInfo {
    AppInfo {
        installed_app_id: installed_app_id.to_string(),
        cell_info: vec![RoleCells { role_name: "role".to_string(), cells }],
        status,
    }
}

fn alice_app() -> AppInfo {
    app("alice-app", vec![CellInfo::Provisioned(CELL)], AppInfoStatus::Running)
}

fn session(app_client: Client) -> Session<Client> {
    Session { installed_app_id: "alice-app".to_string(), cell_id: CELL, app_client }
}

fn session_requests() -> Vec<SessionRequest<Credentials>> {
    vec![
        SessionRequest::AuthorizeSigning { cell_id: CELL, functions: None },
        SessionRequest::IssueToken { installed_app_id: "alice-app".to_string() },
        SessionRequest::ConnectApp {
            app_ws_url: "ws://localhost:4000/".to_string(),
            token: vec![1, 2],
            cell_id: CELL,
            credentials: 77,
        },
    ]
}

fn session_replies() -> Vec<SessionReply<Credentials, Client, Failure>> {
    vec![
        SessionReply::Authorized(Ok(77)),
        SessionReply::TokenIssued(Ok(vec![1, 2])),
        SessionReply::Connected(Ok("client")),
    ]
}

fn session_failures() -> Vec<(SessionReply<Credentials, Client, Failure>, SetupError<Failure>)> {
    vec![
        (SessionReply::Authorized(Err("a")), SetupError::AuthorizeSigning("a")),
        (SessionReply::TokenIssued(Err("t")), SetupError::IssueToken("t")),
        (SessionReply::Connected(Err("c")), SetupError::ConnectApp("c")),
    ]
}

fn begin_session() -> SessionFlow<Credentials> {
    SessionFlow {
        app_ws_url: "ws://localhost:4000/".to_string(),
        installed_app_id: "alice-app".to_string(),
        cell_id: CELL,
        step: SessionStep::Authorizing,
    }
}

fn begin_install() -> InstallFlow<Credentials> {
    let (flow, request) = InstallFlow::begin(&runner(), &agent(), "app.happ".into(), "role".to_string());
    assert_eq!(
        request,
        InstallRequest::ConnectAdmin { admin_ws_url: "ws://localhost:8888".to_string() }
    );
    flow
}

fn begin_installed() -> InstalledFlow<Credentials> {
    let (flow, request) = InstalledFlow::begin(&runner(), &agent(), "role".to_string());
    assert_eq!(
        request,
        InstalledRequest::ConnectAdmin { admin_ws_url: "ws://localhost:8888".to_string() }
    );
    flow
}

fn install_replies() -> Vec<InstallReply<Credentials, Client, Failure>> {
    let mut replies = vec![
        InstallReply::AdminConnected(Ok(())),
        InstallReply::KeyGenerated(Ok(KEY)),
        InstallReply::BundleRead(Ok(vec![9, 8, 7])),
        InstallReply::AppInstalled(Ok(alice_app())),
        InstallReply::AppEnabled(Ok(())),
    ];
    replies.extend(session_replies().into_iter().map(InstallReply::Session));
    replies
}

fn installed_replies() -> Vec<InstalledReply<Credentials, Client, Failure>> {
    let apps = vec![app("bob-app", vec![], AppInfoStatus::Disabled), alice_app()];
    let mut replies =
        vec![InstalledReply::AdminConnected(Ok(())), InstalledReply::AppsListed(Ok(apps))];
    replies.extend(session_replies().into_iter().map(InstalledReply::Session));
    replies
}

/// Feeds the replies to an install flow, each of which must be answered.
fn feed_install(
    replies: Vec<InstallReply<Credentials, Client, Failure>>,
) -> (InstallFlow<Credentials>, Vec<InstallProgress<Credentials, Client, Failure>>) {
    let mut flow = begin_install();
    let mut answers = vec![];
    for reply in replies {
        let (next, progress) = install_app(flow, reply);
        flow = next;
        answers.push(progress.unwrap());
    }
    (flow, answers)
}

/// Feeds the replies to a flow that takes up an installed app, each of which must be answered.
fn feed_installed(
    replies: Vec<InstalledReply<Credentials, Client, Failure>>,
) -> (InstalledFlow<Credentials>, Vec<InstalledProgress<Credentials, Client, Failure>>) {
    let mut flow = begin_installed();
    let mut answers = vec![];
    for reply in replies {
        let (next, progress) = use_installed_app(flow, reply);
        flow = next;
        answers.push(progress.unwrap());
    }
    (flow, answers)
}

#[test]
fn opens_a_session_step_by_step() {
    let mut flow = begin_session();
    let mut requests = session_requests();
    requests.remove(0);
    for (i, reply) in session_replies().into_iter().enumerate() {
        let (next, progress) = open_session(flow, reply);
        flow = next;
        if i < 2 {
            assert_eq!(progress, Some(Progress::Ask(requests.remove(0))));
        } else {
            assert_eq!(progress, Some(Progress::Finish(Ok(session("client")))));
        }
    }
    assert_eq!(flow.step, SessionStep::Finished);
}

#[test]
fn a_session_fails_as_its_requests_do() {
    for (failing, (reply, error)) in session_failures().into_iter().enumerate() {
        let mut flow = begin_session();
        for reply in session_replies().into_iter().take(failing) {
            flow = open_session(flow, reply).0;
        }
        let (flow, progress) = open_session(flow, reply);
        assert_eq!(progress, Some(Progress::Finish(Err(error))));
        assert_eq!(flow.step, SessionStep::Finished);
    }
}

#[test]
fn replies_out_of_turn_are_ignored_while_opening_a_session() {
    let (flow, progress) =
        open_session::<Credentials, Client, Failure>(begin_session(), SessionReply::Connected(Ok("x")));
    assert_eq!(progress, None);
    assert_eq!(flow, begin_session());
}

#[test]
fn installs_an_app_and_opens_a_session() {
    let (flow, answers) = feed_install(install_replies());
    let payload = InstallAppPayload {
        source: vec![9, 8, 7],
        agent_key: Some(KEY),
        installed_app_id: Some("alice-app".to_string()),
        roles_settings: RolesSettings::AsInBundle,
        network_seed: Some("run-1".to_string()),
        ignore_genesis_failure: false,
        allow_throwaway_random_agent_key: false,
    };
    let mut expected = vec![
        Progress::Ask(InstallRequest::GenerateKey),
        Progress::Ask(InstallRequest::ReadBundle { app_path: "app.happ".into() }),
        Progress::Ask(InstallRequest::InstallApp(payload)),
        Progress::Ask(InstallRequest::EnableApp { installed_app_id: "alice-app".to_string() }),
    ];
    expected.extend(session_requests().into_iter().map(InstallRequest::Session).map(Progress::Ask));
    expected.push(Progress::Finish(Ok(session("client"))));
    assert_eq!(answers, expected);
    let (_, progress) =
        install_app::<Credentials, Client, Failure>(flow, InstallReply::AdminConnected(Ok(())));
    assert_eq!(progress, None);
}

#[test]
fn installing_fails_as_its_requests_do() {
    let mut failures = vec![
        (InstallReply::AdminConnected(Err("d")), SetupError::ConnectAdmin("d")),
        (InstallReply::KeyGenerated(Err("k")), SetupError::GenerateKey("k")),
        (InstallReply::BundleRead(Err("b")), SetupError::ReadBundle("b")),
        (InstallReply::AppInstalled(Err("i")), SetupError::InstallApp("i")),
        (InstallReply::AppEnabled(Err("e")), SetupError::EnableApp("e")),
    ];
    failures.extend(
        session_failures().into_iter().map(|(reply, error)| (InstallReply::Session(reply), error)),
    );
    for (failing, (reply, error)) in failures.into_iter().enumerate() {
        let mut replies: Vec<_> = install_replies().into_iter().take(failing).collect();
        replies.push(reply);
        let (_, answers) = feed_install(replies);
        assert_eq!(answers.last(), Some(&Progress::Finish(Err(error))));
    }
}

#[test]
fn a_missing_role_is_found_once_the_app_is_enabled() {
    let apps = vec![
        (
            AppInfo { cell_info: vec![], ..alice_app() },
            RoleError::RoleNotFound,
        ),
        (app("alice-app", vec![], AppInfoStatus::Running), RoleError::CellNotFound),
        (
            app("alice-app", vec![CellInfo::Stem], AppInfoStatus::Running),
            RoleError::CellNotProvisioned,
        ),
    ];
    for (app_info, error) in apps {
        let mut replies: Vec<_> = install_replies().into_iter().take(3).collect();
        replies.push(InstallReply::AppInstalled(Ok(app_info)));
        replies.push(InstallReply::AppEnabled(Ok(())));
        let (flow, answers) = feed_install(replies);
        assert_eq!(
            answers[3],
            Progress::Ask(InstallRequest::EnableApp { installed_app_id: "alice-app".to_string() })
        );
        assert_eq!(answers[4], Progress::Finish(Err(SetupError::Role(error))));
        assert_eq!(flow.step, InstallStep::Finished);
    }
}

#[test]
fn replies_out_of_turn_are_ignored_while_installing() {
    let (flow, progress) =
        install_app::<Credentials, Client, Failure>(begin_install(), InstallReply::AppEnabled(Ok(())));
    assert_eq!(progress, None);
    assert_eq!(flow, begin_install());
}

#[test]
fn takes_up_an_installed_app() {
    let (_, answers) = feed_installed(installed_replies());
    let mut expected = vec![Progress::Ask(InstalledRequest::ListApps { status_filter: None })];
    expected
        .extend(session_requests().into_iter().map(InstalledRequest::Session).map(Progress::Ask));
    expected.push(Progress::Finish(Ok(session("client"))));
    assert_eq!(answers, expected);
}

#[test]
fn an_installed_app_is_a_drop_in() {
    let (_, mut installed) = feed_install(install_replies());
    let (_, mut taken_up) = feed_installed(installed_replies());
    match (installed.pop(), taken_up.pop()) {
        (Some(Progress::Finish(Ok(a))), Some(Progress::Finish(Ok(b)))) => assert_eq!(a, b),
        other => panic!("{:?}", other),
    }
}

#[test]
fn taking_up_fails_as_its_requests_do() {
    let mut failures = vec![
        (InstalledReply::AdminConnected(Err("d")), SetupError::ConnectAdmin("d")),
        (InstalledReply::AppsListed(Err("l")), SetupError::ListApps("l")),
    ];
    failures.extend(
        session_failures()
            .into_iter()
            .map(|(reply, error)| (InstalledReply::Session(reply), error)),
    );
    for (failing, (reply, error)) in failures.into_iter().enumerate() {
        let mut replies: Vec<_> = installed_replies().into_iter().take(failing).collect();
        replies.push(reply);
        let (_, answers) = feed_installed(replies);
        assert_eq!(answers.last(), Some(&Progress::Finish(Err(error))));
    }
}

#[test]
fn only_a_running_app_is_taken_up() {
    let id = || "alice-app".to_string();
    let lists = vec![
        (vec![], SetupError::AppNotFound(id())),
        (
            vec![app("bob-app", vec![CellInfo::Provisioned(CELL)], AppInfoStatus::Running)],
            SetupError::AppNotFound(id()),
        ),
        (
            vec![app("alice-app", vec![], AppInfoStatus::Disabled)],
            SetupError::AppNotRunning(id()),
        ),
        (
            vec![app("alice-app", vec![], AppInfoStatus::Paused)],
            SetupError::AppNotRunning(id()),
        ),
        (
            vec![app("alice-app", vec![], AppInfoStatus::AwaitingMemproofs)],
            SetupError::AppNotRunning(id()),
        ),
        (
            vec![app("alice-app", vec![], AppInfoStatus::Running)],
            SetupError::Role(RoleError::CellNotFound),
        ),
    ];
    for (apps, error) in lists {
        let replies =
            vec![InstalledReply::AdminConnected(Ok(())), InstalledReply::AppsListed(Ok(apps))];
        let (flow, mut answers) = feed_installed(replies);
        assert_eq!(answers.pop(), Some(Progress::Finish(Err(error))));
        assert_eq!(flow.step, InstalledStep::Finished);
    }
}

#[test]
fn finds_the_cell_of_a_running_app() {
    let apps = vec![alice_app()];
    let id = "alice-app".to_string();
    assert_eq!(find_running_cell::<Failure>(&apps, &id, &"role".to_string()), Ok(CELL));
    assert_eq!(
        find_running_cell::<Failure>(&apps, &id, &"other".to_string()),
        Err(SetupError::Role(RoleError::RoleNotFound))
    );
}

#[test]
fn replies_out_of_turn_are_ignored_while_taking_up() {
    let (flow, progress) = use_installed_app::<Credentials, Client, Failure>(
        begin_installed(),
        InstalledReply::AppsListed(Ok(vec![])),
    );
    assert_eq!(progress, None);
    assert_eq!(flow, begin_installed());
}

#[test]
fn an_agent_remembers_its_session() {
    let mut ctx = agent();
    assert_eq!(ctx.installed_app_id, None);
    assert_eq!(ctx.record(Ok::<_, Failure>(session("client"))), Ok(()));
    assert_eq!(
        ctx,
        AgentContext {
            agent_name: "alice".to_string(),
            installed_app_id: Some("alice-app".to_string()),
            cell_id: Some(CELL),
            app_client: Some("client"),
        }
    );
}

#[test]
fn an_agent_keeps_its_session_where_no_other_is_opened() {
    let mut ctx = agent();
    ctx.record(Ok::<_, Failure>(session("client"))).unwrap();
    assert_eq!(ctx.record(Err("failed")), Err("failed"));
    assert_eq!(ctx.app_client, Some("client"));
    assert_eq!(ctx.installed_app_id, Some("alice-app".to_string()));
    assert_eq!(ctx.cell_id, Some(CELL));
}

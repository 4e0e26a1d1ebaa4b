use holochain_runner::app_info::{
    find_app_info, get_cell_id_for_role_name, installed_app_id_for_agent, AppInfo, AppInfoStatus,
    CellInfo, RoleCells, RoleError,
};
use holochain_runner::keys::{AgentPubKey, CellId, DnaHash};

fn cell(n: u8) -> CellId {
    CellId {
        dna_hash: DnaHash { raw: [n; 39] },
        agent_pubkey: AgentPubKey { raw: [n + 1; 39] },
    }
}

fn role(role_name: &str, cells: Vec<CellInfo>) -> RoleCells {
    RoleCells { role_name: role_name.to_string(), cells }
}

fn app(installed_app_id: &str, cell_info: Vec<RoleCells>) -> AppInfo {
    AppInfo {
        installed_app_id: installed_app_id.to_string(),
        cell_info,
        status: AppInfoStatus::Running,
    }
}

#[test]
fn finds_the_first_cell_of_the_role() {
    let info = app(
        "app",
        vec![
            role("first", vec![CellInfo::Provisioned(cell(1))]),
            role("second", vec![CellInfo::Provisioned(cell(2)), CellInfo::Provisioned(cell(3))]),
        ],
    );
    assert_eq!(get_cell_id_for_role_name(&info, &"first".to_string()), Ok(cell(1)));
    assert_eq!(get_cell_id_for_role_name(&info, &"second".to_string()), Ok(cell(2)));
}

#[test]
fn misses_a_role_that_is_not_listed() {
    let info = app("app", vec![role("first", vec![CellInfo::Provisioned(cell(1))])]);
    assert_eq!(
        get_cell_id_for_role_name(&info, &"other".to_string()),
        Err(RoleError::RoleNotFound)
    );
    assert_eq!(
        get_cell_id_for_role_name(&app("app", vec![]), &"first".to_string()),
        Err(RoleError::RoleNotFound)
    );
}

#[test]
fn misses_the_cell_of_an_empty_role() {
    let info = app("app", vec![role("first", vec![])]);
    assert_eq!(
        get_cell_id_for_role_name(&info, &"first".to_string()),
        Err(RoleError::CellNotFound)
    );
}

#[test]
fn insists_on_a_provisioned_first_cell() {
    let info = app(
        "app",
        vec![
            role("first", vec![CellInfo::Stem, CellInfo::Provisioned(cell(1))]),
            role("second", vec![CellInfo::Cloned]),
        ],
    );
    assert_eq!(
        get_cell_id_for_role_name(&info, &"first".to_string()),
        Err(RoleError::CellNotProvisioned)
    );
    assert_eq!(
        get_cell_id_for_role_name(&info, &"second".to_string()),
        Err(RoleError::CellNotProvisioned)
    );
}

#[test]
fn names_the_app_after_the_agent() {
    assert_eq!(installed_app_id_for_agent("agent_0"), "agent_0-app");
    assert_eq!(installed_app_id_for_agent(""), "-app");
    assert_ne!(installed_app_id_for_agent("a"), installed_app_id_for_agent("b"));
}

#[test]
fn finds_the_first_app_with_the_id() {
    let apps = vec![app("a", vec![]), app("b", vec![role("x", vec![])]), app("b", vec![])];
    assert_eq!(find_app_info(&apps, &"b".to_string()), Some(&apps[1]));
    assert_eq!(find_app_info(&apps, &"a".to_string()), Some(&apps[0]));
    assert_eq!(find_app_info(&apps, &"c".to_string()), None);
}

#[test]
fn keys_are_the_same_where_every_byte_is() {
    let key = AgentPubKey { raw: [7; 39] };
    assert!(key.same_as(&AgentPubKey { raw: [7; 39] }));
    for i in 0..39 {
        let mut raw = [7; 39];
        raw[i] = 8;
        assert!(!key.same_as(&AgentPubKey { raw }));
    }
}

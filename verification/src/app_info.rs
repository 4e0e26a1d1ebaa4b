//! What a conductor tells about an installed app, and how an agent finds its app and cell in it.

use crate::keys::CellId;
use vstd::prelude::*;
use vstd::string::*;

verus! {

/// A cell of an app.
#[derive(Debug, Clone, Copy, PartialEq, Eq)]
pub enum CellInfo {
    /// Provisioned when the app was installed.
    Provisioned(CellId),
    /// Cloned from a provisioned cell.
    Cloned,
    /// Not created yet.
    Stem,
}

/// The cells that an app has under one role.
#[derive(Debug, PartialEq, Eq)]
pub struct RoleCells {
    pub role_name: String,
    pub cells: Vec<CellInfo>,
}

/// The status of an app.
#[derive(Debug, Clone, Copy, PartialEq, Eq)]
pub enum AppInfoStatus {
    Paused,
    Disabled,
    Running,
    AwaitingMemproofs,
}

/// Which apps to list.
#[derive(Debug, Clone, Copy, PartialEq, Eq)]
pub enum AppStatusFilter {
    Enabled,
    Disabled,
    Running,
    Stopped,
    Paused,
}

/// An installed app. A conductor lists each role once; were one listed twice, its first entry would
/// count.
#[derive(Debug, PartialEq, Eq)]
pub struct AppInfo {
    pub installed_app_id: String,
    pub cell_info: Vec<RoleCells>,
    pub status: AppInfoStatus,
}

/// Why an app has no cell to call under a role.
#[derive(Debug, Clone, Copy, PartialEq, Eq)]
pub enum RoleError {
    RoleNotFound,
    CellNotFound,
    CellNotProvisioned,
}

/// The cells listed under a role, if the role is listed.
pub open spec fn cells_of_role(cell_info: Seq<RoleCells>, role_name: Seq<char>) -> Option<
    Seq<CellInfo>,
>
    decreases cell_info.len(),
{
    if cell_info.len() == 0 {
        None
    } else if cell_info[0].role_name@ == role_name {
        Some(cell_info[0].cells@)
    } else {
        cells_of_role(cell_info.drop_first(), role_name)
    }
}

/// The cell to call under a role: the first one listed, which must have been provisioned.
pub open spec fn cell_id_for_role(app_info: AppInfo, role_name: Seq<char>) -> Result<
    CellId,
    RoleError,
> {
    match cells_of_role(app_info.cell_info@, role_name) {
        None => Err(RoleError::RoleNotFound),
        Some(cells) => if cells.len() == 0 {
            Err(RoleError::CellNotFound)
        } else {
            match cells[0] {
                CellInfo::Provisioned(cell_id) => Ok(cell_id),
                _ => Err(RoleError::CellNotProvisioned),
            }
        },
    }
}

/// The cell to call under a role of an app.
pub fn get_cell_id_for_role_name(app_info: &AppInfo, role_name: &String) -> (cell_id: Result<
    CellId,
    RoleError,
>)
    ensures
        cell_id == cell_id_for_role(*app_info, role_name@),
{
    let mut i: usize = 0;
    assert(app_info.cell_info@.skip(0) =~= app_info.cell_info@);
    while i < app_info.cell_info.len()
        invariant
            i <= app_info.cell_info@.len(),
            cells_of_role(app_info.cell_info@, role_name@) == cells_of_role(
                app_info.cell_info@.skip(i as int),
                role_name@,
            ),
        decreases app_info.cell_info@.len() - i,
    {
        let entry = &app_info.cell_info[i];
        assert(app_info.cell_info@.skip(i as int)[0] == entry);
        if entry.role_name == *role_name {
            if entry.cells.len() == 0 {
                return Err(RoleError::CellNotFound);
            }
            return match entry.cells[0] {
                CellInfo::Provisioned(cell_id) => Ok(cell_id),
                _ => Err(RoleError::CellNotProvisioned),
            };
        }
        assert(app_info.cell_info@.skip(i as int).drop_first() =~= app_info.cell_info@.skip(i + 1));
        i = i + 1;
    }
    Err(RoleError::RoleNotFound)
}

/// The id under which an agent's app is installed.
pub open spec fn agent_app_id(agent_name: Seq<char>) -> Seq<char> {
    agent_name + "-app"@
}

/// The id under which an agent's app is installed.
pub fn installed_app_id_for_agent(agent_name: &str) -> (installed_app_id: String)
    ensures
        installed_app_id@ == agent_app_id(agent_name@),
{
    agent_name.to_owned().concat("-app")
}

/// The first of the listed apps that is installed under an id.
pub open spec fn find_app(app_infos: Seq<AppInfo>, installed_app_id: Seq<char>) -> Option<AppInfo>
    decreases app_infos.len(),
{
    if app_infos.len() == 0 {
        None
    } else if app_infos[0].installed_app_id@ == installed_app_id {
        Some(app_infos[0])
    } else {
        find_app(app_infos.drop_first(), installed_app_id)
    }
}

/// Finds the app that is installed under an id.
pub fn find_app_info<'a>(app_infos: &'a Vec<AppInfo>, installed_app_id: &String) -> (found: Option<
    &'a AppInfo,
>)
    ensures
        match found {
            Some(app_info) => find_app(app_infos@, installed_app_id@) == Some(*app_info),
            None => find_app(app_infos@, installed_app_id@) is None,
        },
{
    let mut i: usize = 0;
    assert(app_infos@.skip(0) =~= app_infos@);
    while i < app_infos.len()
        invariant
            i <= app_infos@.len(),
            find_app(app_infos@, installed_app_id@) == find_app(
                app_infos@.skip(i as int),
                installed_app_id@,
            ),
        decreases app_infos@.len() - i,
    {
        let app_info = &app_infos[i];
        assert(app_infos@.skip(i as int)[0] == app_info);
        if app_info.installed_app_id == *installed_app_id {
            return Some(app_info);
        }
        assert(app_infos@.skip(i as int).drop_first() =~= app_infos@.skip(i + 1));
        i = i + 1;
    }
    None
}

/// No role is listed twice.
pub open spec fn roles_are_distinct(cell_info: Seq<RoleCells>) -> bool {
    forall|i: int, j: int|
        0 <= i < j < cell_info.len() ==> #[trigger] cell_info[i].role_name@
            != #[trigger] cell_info[j].role_name@
}

/// The cells listed under a role are found under it, and under no other name is anything found.
pub proof fn law_roles_are_found(cell_info: Seq<RoleCells>, role_name: Seq<char>)
    requires
        roles_are_distinct(cell_info),
    ensures
        forall|i: int|
            0 <= i < cell_info.len() && #[trigger] cell_info[i].role_name@ == role_name
                ==> cells_of_role(cell_info, role_name) == Some(cell_info[i].cells@),
        (forall|i: int| 0 <= i < cell_info.len() ==> #[trigger] cell_info[i].role_name@ != role_name)
            ==> cells_of_role(cell_info, role_name) is None,
    decreases cell_info.len(),
{
    if cell_info.len() > 0 {
        let rest = cell_info.drop_first();
        assert forall|i: int| 0 <= i < rest.len() implies rest[i] == cell_info[i + 1] by {}
        assert forall|i: int, j: int| 0 <= i < j < rest.len() implies #[trigger] rest[i].role_name@
            != #[trigger] rest[j].role_name@ by {
            assert(cell_info[i + 1].role_name@ != cell_info[j + 1].role_name@);
        }
        law_roles_are_found(rest, role_name);
        assert forall|i: int|
            0 <= i < cell_info.len() && #[trigger] cell_info[i].role_name@
                == role_name implies cells_of_role(cell_info, role_name) == Some(
            cell_info[i].cells@,
        ) by {
            if i > 0 {
                assert(cell_info[0].role_name@ != cell_info[i].role_name@);
                assert(rest[i - 1].role_name@ == role_name);
            }
        }
        if forall|i: int| 0 <= i < cell_info.len() ==> #[trigger] cell_info[i].role_name@ != role_name {
            assert(cell_info[0].role_name@ != role_name);
            assert forall|i: int| 0 <= i < rest.len() implies #[trigger] rest[i].role_name@
                != role_name by {
                assert(cell_info[i + 1].role_name@ != role_name);
            }
        }
    }
}

/// An app is found under its id where no app before it has the same, and nothing is found under an
/// id that no app has.
pub proof fn law_apps_are_found(app_infos: Seq<AppInfo>, installed_app_id: Seq<char>, i: int)
    requires
        0 <= i <= app_infos.len(),
        forall|j: int|
            0 <= j < i ==> #[trigger] app_infos[j].installed_app_id@ != installed_app_id,
        i < app_infos.len() ==> app_infos[i].installed_app_id@ == installed_app_id,
    ensures
        find_app(app_infos, installed_app_id) == (if i < app_infos.len() {
            Some(app_infos[i])
        } else {
            None
        }),
    decreases i,
{
    if i > 0 {
        let rest = app_infos.drop_first();
        assert(app_infos[0].installed_app_id@ != installed_app_id);
        assert forall|j: int| 0 <= j < i - 1 implies #[trigger] rest[j].installed_app_id@
            != installed_app_id by {
            assert(app_infos[j + 1].installed_app_id@ != installed_app_id);
        }
        law_apps_are_found(rest, installed_app_id, i - 1);
    }
}

/// Agents with different names have different apps.
pub proof fn law_agents_do_not_share_an_app(a: Seq<char>, b: Seq<char>)
    ensures
        agent_app_id(a) == agent_app_id(b) <==> a == b,
{
    if agent_app_id(a) == agent_app_id(b) {
        assert(agent_app_id(a).len() == a.len() + "-app"@.len());
        assert(agent_app_id(b).len() == b.len() + "-app"@.len());
        assert(a =~= agent_app_id(a).take(a.len() as int));
        assert(b =~= agent_app_id(b).take(b.len() as int));
    }
}

} // verus!

//! Promises about how an agent finds its app and its cell.

use crate::app_info::{
    find_app_info, get_cell_id_for_role_name, installed_app_id_for_agent, AppInfo, CellInfo, RoleError,
};
use crate::installed::find_running_cell;
use crate::keys::CellId;
use crate::session::SetupError;
use vstd::prelude::*;

verus! {

/// The entry of a role among the listed ones, the first where there are several.
pub open spec fn is_entry(app_info: AppInfo, role_name: Seq<char>, i: int) -> bool {
    &&& 0 <= i < app_info.cell_info@.len()
    &&& app_info.cell_info@[i].role_name@ == role_name
    &&& forall|j: int| 0 <= j < i ==> #[trigger] app_info.cell_info@[j].role_name@ != role_name
}

/// No entry is listed for a role.
pub open spec fn has_no_entry(app_info: AppInfo, role_name: Seq<char>) -> bool {
    forall|j: int|
        0 <= j < app_info.cell_info@.len() ==> #[trigger] app_info.cell_info@[j].role_name@
            != role_name
}

/// An app listed under an id, the first where there are several.
pub open spec fn is_listed(app_infos: Seq<AppInfo>, installed_app_id: Seq<char>, i: int) -> bool {
    &&& 0 <= i < app_infos.len()
    &&& app_infos[i].installed_app_id@ == installed_app_id
    &&& forall|j: int| 0 <= j < i ==> #[trigger] app_infos[j].installed_app_id@ != installed_app_id
}

/// No app is listed under an id.
pub open spec fn is_not_listed(app_infos: Seq<AppInfo>, installed_app_id: Seq<char>) -> bool {
    forall|j: int|
        0 <= j < app_infos.len() ==> #[trigger] app_infos[j].installed_app_id@ != installed_app_id
}

proof fn lemma_cells_of_role(cell_info: Seq<crate::app_info::RoleCells>, role_name: Seq<char>, i: int)
    requires
        0 <= i <= cell_info.len(),
        i < cell_info.len() ==> cell_info[i].role_name@ == role_name,
        forall|j: int| 0 <= j < i ==> #[trigger] cell_info[j].role_name@ != role_name,
    ensures
        crate::app_info::cells_of_role(cell_info, role_name) == (if i < cell_info.len() {
            Some(cell_info[i].cells@)
        } else {
            None
        }),
    decreases i,
{
    if i > 0 {
        let rest = cell_info.drop_first();
        assert(cell_info[0].role_name@ != role_name);
        assert forall|j: int| 0 <= j < i - 1 implies #[trigger] rest[j].role_name@ != role_name by {
            assert(cell_info[j + 1].role_name@ != role_name);
        }
        lemma_cells_of_role(rest, role_name, i - 1);
    }
}

/// The cell to call under a role is the first one listed, whatever is listed after it, and has to
/// have been provisioned.
pub proof fn law_first_cell_is_called(
    app_info: &AppInfo,
    role_name: &String,
    i: int,
    cell_id: Result<CellId, RoleError>,
)
    requires
        call_ensures(get_cell_id_for_role_name, (app_info, role_name), cell_id),
        is_entry(*app_info, role_name@, i),
    ensures
        ({
            let cells = app_info.cell_info@[i].cells@;
            &&& cells.len() == 0 ==> cell_id == Err::<CellId, RoleError>(RoleError::CellNotFound)
            &&& cells.len() > 0 && cells[0] is Provisioned ==> cell_id == Ok::<CellId, RoleError>(
                cells[0]->Provisioned_0,
            )
            &&& cells.len() > 0 && !(cells[0] is Provisioned) ==> cell_id == Err::<CellId, RoleError>(
                RoleError::CellNotProvisioned,
            )
        }),
{
    lemma_cells_of_role(app_info.cell_info@, role_name@, i);
}

/// Under a role that is not listed there is no cell to call.
pub proof fn law_unlisted_role_is_not_found(
    app_info: &AppInfo,
    role_name: &String,
    cell_id: Result<CellId, RoleError>,
)
    requires
        call_ensures(get_cell_id_for_role_name, (app_info, role_name), cell_id),
        has_no_entry(*app_info, role_name@),
    ensures
        cell_id == Err::<CellId, RoleError>(RoleError::RoleNotFound),
{
    lemma_cells_of_role(app_info.cell_info@, role_name@, app_info.cell_info@.len() as int);
}

/// The app of an agent is named after it.
pub proof fn law_app_is_named_after_agent(agent_name: &str, installed_app_id: String)
    requires
        call_ensures(installed_app_id_for_agent, (agent_name,), installed_app_id),
    ensures
        installed_app_id@ == agent_name@ + "-app"@,
{
}

/// The app found under an id is the first one listed under it.
pub proof fn law_listed_app_is_found<'a>(
    app_infos: &'a Vec<AppInfo>,
    installed_app_id: &String,
    i: int,
    found: Option<&'a AppInfo>,
)
    requires
        call_ensures(find_app_info, (app_infos, installed_app_id), found),
        is_listed(app_infos@, installed_app_id@, i),
    ensures
        found is Some,
        *found->0 == app_infos@[i],
{
    crate::app_info::law_apps_are_found(app_infos@, installed_app_id@, i);
}

/// No app is found under an id under which none is listed.
pub proof fn law_unlisted_app_is_not_found<'a>(
    app_infos: &'a Vec<AppInfo>,
    installed_app_id: &String,
    found: Option<&'a AppInfo>,
)
    requires
        call_ensures(find_app_info, (app_infos, installed_app_id), found),
        is_not_listed(app_infos@, installed_app_id@),
    ensures
        found is None,
{
    crate::app_info::law_apps_are_found(
        app_infos@,
        installed_app_id@,
        app_infos@.len() as int,
    );
}

/// Of the listed apps, the one under the id is looked at: it has to be running, and the cell that is
/// called is the one that it has under the role.
pub proof fn law_running_app_is_looked_at<E>(
    app_infos: &Vec<AppInfo>,
    installed_app_id: &String,
    role_name: &String,
    i: int,
    of_role: Result<CellId, RoleError>,
    cell_id: Result<CellId, SetupError<E>>,
)
    requires
        call_ensures(find_running_cell::<E>, (app_infos, installed_app_id, role_name), cell_id),
        is_listed(app_infos@, installed_app_id@, i),
        call_ensures(get_cell_id_for_role_name, (&app_infos@[i], role_name), of_role),
    ensures
        !(app_infos@[i].status is Running) ==> cell_id == Err::<CellId, SetupError<E>>(
            SetupError::AppNotRunning(*installed_app_id),
        ),
        app_infos@[i].status is Running && of_role is Ok ==> cell_id == Ok::<CellId, SetupError<E>>(
            of_role->Ok_0,
        ),
        app_infos@[i].status is Running && of_role is Err ==> cell_id == Err::<CellId, SetupError<E>>(
            SetupError::Role(of_role->Err_0),
        ),
{
    crate::app_info::law_apps_are_found(app_infos@, installed_app_id@, i);
}

/// Where no app is listed under the id, there is none to look at.
pub proof fn law_missing_app_is_missed<E>(
    app_infos: &Vec<AppInfo>,
    installed_app_id: &String,
    role_name: &String,
    cell_id: Result<CellId, SetupError<E>>,
)
    requires
        call_ensures(find_running_cell::<E>, (app_infos, installed_app_id, role_name), cell_id),
        is_not_listed(app_infos@, installed_app_id@),
    ensures
        cell_id == Err::<CellId, SetupError<E>>(SetupError::AppNotFound(*installed_app_id)),
{
    crate::app_info::law_apps_are_found(
        app_infos@,
        installed_app_id@,
        app_infos@.len() as int,
    );
}

} // verus!

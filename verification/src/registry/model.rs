//! The registry as a mathematical value: a sequence of records, what each
//! command makes of it, and why the invariant survives.

use crate::errors::LauncherError;
use crate::events::event_data::{
    AppDetailView, ManagedApp, ManagedAppView, ModifyAppSettingsView,
};
use crate::identity::AppIdentity;
use crate::naming::binary_name;
use vstd::prelude::*;

verus! {

/// The mathematical values of a sequence of records, in the same order.
pub open spec fn records_view(records: Seq<ManagedApp>) -> Seq<ManagedAppView> {
    Seq::new(records.len(), |i: int| records[i]@)
}

/// The mathematical value of the result of a command that yields a record.
pub open spec fn record_result_view(result: Result<ManagedApp, LauncherError>) -> Result<
    ManagedAppView,
    LauncherError,
> {
    match result {
        Ok(record) => Ok(record@),
        Err(error) => Err(error),
    }
}

/// Whether some record of `apps` is kept under `id`.
pub open spec fn manages(apps: Seq<ManagedAppView>, id: AppIdentity) -> bool {
    exists|i: int| 0 <= i < apps.len() && (#[trigger] apps[i]).id == id
}

/// Index of a record kept under `id`. It is meaningful only where
/// `manages(apps, id)` holds, and unique where `apps` is well formed.
pub open spec fn position(apps: Seq<ManagedAppView>, id: AppIdentity) -> int {
    choose|i: int| 0 <= i < apps.len() && (#[trigger] apps[i]).id == id
}

/// The invariant of the registry: no identity has two records, every record
/// counts at least one reference, and every record has a name.
pub open spec fn well_formed(apps: Seq<ManagedAppView>) -> bool {
    &&& forall|i: int, j: int|
        0 <= i < j < apps.len() ==> (#[trigger] apps[i]).id != (#[trigger] apps[j]).id
    &&& forall|i: int| 0 <= i < apps.len() ==> (#[trigger] apps[i]).reference_count >= 1
    &&& forall|i: int| 0 <= i < apps.len() ==> (#[trigger] apps[i]).name.len() > 0
}

/// Number of references that `apps` counts for `id`: zero where it has no
/// record.
pub open spec fn references(apps: Seq<ManagedAppView>, id: AppIdentity) -> nat {
    if manages(apps, id) {
        apps[position(apps, id)].reference_count as nat
    } else {
        0
    }
}

/// The record created by the first add for `id`.
pub open spec fn fresh_record(id: AppIdentity, detail: AppDetailView) -> ManagedAppView {
    ManagedAppView {
        id,
        name: binary_name(detail.absolute_path),
        local_path: Some(detail.absolute_path),
        reference_count: 1,
        safe_drive_access: detail.safe_drive_access,
    }
}

/// An existing record after one more add: one more reference, and the local
/// path of this machine.
pub open spec fn readded(record: ManagedAppView, detail: AppDetailView) -> ManagedAppView {
    ManagedAppView {
        local_path: Some(detail.absolute_path),
        reference_count: (record.reference_count + 1) as u32,
        ..record
    }
}

/// What an add for `id` yields: the resulting record, `InvalidInput` for an
/// empty path, or `Internal` where the count of references cannot grow.
pub open spec fn add_outcome(
    apps: Seq<ManagedAppView>,
    id: AppIdentity,
    detail: AppDetailView,
) -> Result<ManagedAppView, LauncherError> {
    if detail.absolute_path.len() == 0 {
        Err(LauncherError::InvalidInput)
    } else if !manages(apps, id) {
        Ok(fresh_record(id, detail))
    } else if apps[position(apps, id)].reference_count == u32::MAX {
        Err(LauncherError::Internal)
    } else {
        Ok(readded(apps[position(apps, id)], detail))
    }
}

/// The records after an add for `id`: unchanged where the add fails; else
/// the record of `id` replaced in its place, or a fresh record at the end.
pub open spec fn after_add(
    apps: Seq<ManagedAppView>,
    id: AppIdentity,
    detail: AppDetailView,
) -> Seq<ManagedAppView> {
    match add_outcome(apps, id, detail) {
        Err(_) => apps,
        Ok(record) => if manages(apps, id) {
            apps.update(position(apps, id), record)
        } else {
            apps.push(record)
        },
    }
}

/// What a remove of `id` yields: whether the record is still kept, or
/// `NotFound` where there is none.
pub open spec fn remove_outcome(apps: Seq<ManagedAppView>, id: AppIdentity) -> Result<
    bool,
    LauncherError,
> {
    if manages(apps, id) {
        Ok(apps[position(apps, id)].reference_count > 1)
    } else {
        Err(LauncherError::NotFound)
    }
}

/// A record after one reference to it was given up.
pub open spec fn released(record: ManagedAppView) -> ManagedAppView {
    ManagedAppView { reference_count: (record.reference_count - 1) as u32, ..record }
}

/// The records after a remove of `id`: the record of `id` counts one
/// reference less, and is gone where that was its last.
pub open spec fn after_remove(apps: Seq<ManagedAppView>, id: AppIdentity) -> Seq<ManagedAppView> {
    if !manages(apps, id) {
        apps
    } else if apps[position(apps, id)].reference_count > 1 {
        apps.update(position(apps, id), released(apps[position(apps, id)]))
    } else {
        apps.remove(position(apps, id))
    }
}

/// A record with the fields that `settings` supplies put in place of its own.
pub open spec fn modified(record: ManagedAppView, settings: ModifyAppSettingsView) -> ManagedAppView {
    ManagedAppView {
        id: record.id,
        name: match settings.name {
            Some(name) => name,
            None => record.name,
        },
        local_path: match settings.local_path {
            Some(path) => Some(path),
            None => record.local_path,
        },
        reference_count: record.reference_count,
        safe_drive_access: match settings.safe_drive_access {
            Some(access) => access,
            None => record.safe_drive_access,
        },
    }
}

/// Whether `settings` supplies a name and that name is empty.
pub open spec fn names_nothing(settings: ModifyAppSettingsView) -> bool {
    settings.name matches Some(name) && name.len() == 0
}

/// What a modification yields: the resulting record, `NotFound` where the
/// identity has no record, or `InvalidInput` where it has one and the
/// supplied name is empty.
pub open spec fn modify_outcome(
    apps: Seq<ManagedAppView>,
    settings: ModifyAppSettingsView,
) -> Result<ManagedAppView, LauncherError> {
    if !manages(apps, settings.id) {
        Err(LauncherError::NotFound)
    } else if names_nothing(settings) {
        Err(LauncherError::InvalidInput)
    } else {
        Ok(modified(apps[position(apps, settings.id)], settings))
    }
}

/// The records after a modification: unchanged where it fails, else the
/// record replaced in its place.
pub open spec fn after_modify(
    apps: Seq<ManagedAppView>,
    settings: ModifyAppSettingsView,
) -> Seq<ManagedAppView> {
    match modify_outcome(apps, settings) {
        Err(_) => apps,
        Ok(record) => apps.update(position(apps, settings.id), record),
    }
}

/// In a well-formed registry the record of an identity stands at one index
/// only.
pub proof fn lemma_position(apps: Seq<ManagedAppView>, id: AppIdentity, i: int)
    requires
        well_formed(apps),
        0 <= i < apps.len(),
        apps[i].id == id,
    ensures
        manages(apps, id),
        position(apps, id) == i,
{
    let j = position(apps, id);
    assert(0 <= j < apps.len() && apps[j].id == id);
    if j < i {
        assert(apps[j].id != apps[i].id);
    } else if i < j {
        assert(apps[i].id != apps[j].id);
    }
}

/// Replacing a record by one of the same identity, with a reference and a
/// name, keeps the registry well formed and every record where it stood.
pub proof fn lemma_update_keeps_places(
    apps: Seq<ManagedAppView>,
    i: int,
    record: ManagedAppView,
    id: AppIdentity,
)
    requires
        well_formed(apps),
        0 <= i < apps.len(),
        record.id == apps[i].id,
        record.reference_count >= 1,
        record.name.len() > 0,
    ensures
        well_formed(apps.update(i, record)),
        manages(apps.update(i, record), id) == manages(apps, id),
        manages(apps, id) ==> position(apps.update(i, record), id) == position(apps, id),
{
    let next = apps.update(i, record);
    assert forall|a: int, b: int| 0 <= a < b < next.len() implies (#[trigger] next[a]).id != (
    #[trigger] next[b]).id by {
        assert(next[a].id == apps[a].id);
        assert(next[b].id == apps[b].id);
    }
    assert forall|a: int| 0 <= a < next.len() implies (#[trigger] next[a]).reference_count
        >= 1 by {
        if a != i {
            assert(next[a] == apps[a]);
        }
    }
    assert forall|a: int| 0 <= a < next.len() implies (#[trigger] next[a]).name.len() > 0 by {
        if a != i {
            assert(next[a] == apps[a]);
        }
    }
    if manages(apps, id) {
        let p = position(apps, id);
        assert(next[p].id == apps[p].id);
        lemma_position(next, id, p);
    } else if manages(next, id) {
        let p = position(next, id);
        assert(apps[p].id == next[p].id);
    }
}

/// Appending a record of an identity that has none keeps the registry well
/// formed, puts that record last and leaves the others where they stood.
pub proof fn lemma_push_keeps_places(
    apps: Seq<ManagedAppView>,
    record: ManagedAppView,
    id: AppIdentity,
)
    requires
        well_formed(apps),
        !manages(apps, record.id),
        record.reference_count >= 1,
        record.name.len() > 0,
    ensures
        well_formed(apps.push(record)),
        manages(apps.push(record), id) == (manages(apps, id) || id == record.id),
        manages(apps, id) ==> position(apps.push(record), id) == position(apps, id),
        position(apps.push(record), record.id) == apps.len(),
{
    let next = apps.push(record);
    assert forall|a: int, b: int| 0 <= a < b < next.len() implies (#[trigger] next[a]).id != (
    #[trigger] next[b]).id by {
        assert(next[a] == apps[a]);
        if b < apps.len() {
            assert(next[b] == apps[b]);
        }
    }
    assert forall|a: int| 0 <= a < next.len() implies (#[trigger] next[a]).reference_count
        >= 1 by {
        if a < apps.len() {
            assert(next[a] == apps[a]);
        }
    }
    assert forall|a: int| 0 <= a < next.len() implies (#[trigger] next[a]).name.len() > 0 by {
        if a < apps.len() {
            assert(next[a] == apps[a]);
        }
    }
    assert(next[apps.len() as int] == record);
    lemma_position(next, record.id, apps.len() as int);
    if manages(apps, id) {
        let p = position(apps, id);
        assert(next[p] == apps[p]);
        lemma_position(next, id, p);
    } else if manages(next, id) {
        let p = position(next, id);
        if p < apps.len() {
            assert(apps[p] == next[p]);
        }
    }
}

/// Deleting the record at `i` keeps the registry well formed, leaves the
/// identity of that record without one and every other identity with its
/// own.
pub proof fn lemma_delete_keeps_others(apps: Seq<ManagedAppView>, i: int, id: AppIdentity)
    requires
        well_formed(apps),
        0 <= i < apps.len(),
    ensures
        well_formed(apps.remove(i)),
        manages(apps.remove(i), id) == (manages(apps, id) && id != apps[i].id),
        manages(apps.remove(i), id) ==> apps.remove(i)[position(apps.remove(i), id)]
            == apps[position(apps, id)],
{
    let next = apps.remove(i);
    assert forall|a: int| 0 <= a < next.len() implies #[trigger] next[a] == apps[if a < i {
        a
    } else {
        a + 1
    }] by {}
    assert forall|a: int, b: int| 0 <= a < b < next.len() implies (#[trigger] next[a]).id != (
    #[trigger] next[b]).id by {
        let a0 = if a < i { a } else { a + 1 };
        let b0 = if b < i { b } else { b + 1 };
        assert(apps[a0].id != apps[b0].id);
    }
    assert forall|a: int| 0 <= a < next.len() implies (#[trigger] next[a]).reference_count
        >= 1 by {
        let a0 = if a < i { a } else { a + 1 };
        assert(apps[a0].reference_count >= 1);
    }
    assert forall|a: int| 0 <= a < next.len() implies (#[trigger] next[a]).name.len() > 0 by {
        let a0 = if a < i { a } else { a + 1 };
        assert(apps[a0].name.len() > 0);
    }
    if manages(next, id) {
        let p = position(next, id);
        let source = if p < i { p } else { p + 1 };
        assert(apps[source].id == id);
        lemma_position(apps, id, source);
        if id == apps[i].id {
            lemma_position(apps, id, i);
        }
    } else if manages(apps, id) && id != apps[i].id {
        let source = position(apps, id);
        let p = if source < i { source } else { source - 1 };
        assert(next[p].id == id);
    }
}

} // verus!

//! How the count of references to one identity follows the adds and removes
//! that were carried out for it.

use crate::errors::LauncherError;
use crate::events::event_data::{AppDetailView, ManagedAppView};
use crate::identity::AppIdentity;
use crate::naming::lemma_binary_name;
use crate::registry::model::{
    add_outcome, after_add, after_remove, lemma_delete_keeps_others, lemma_push_keeps_places,
    lemma_update_keeps_places, manages, position, references, released, remove_outcome,
    well_formed,
};
use vstd::prelude::*;

verus! {

/// One add or one remove for the identity under consideration.
pub ghost enum Change {
    Add(AppDetailView),
    Remove,
}

/// Whether `change` for `id` is carried out on `apps`, rather than refused.
pub open spec fn succeeds(apps: Seq<ManagedAppView>, id: AppIdentity, change: Change) -> bool {
    match change {
        Change::Add(detail) => add_outcome(apps, id, detail) is Ok,
        Change::Remove => remove_outcome(apps, id) is Ok,
    }
}

/// The records after `change` for `id`.
pub open spec fn apply(apps: Seq<ManagedAppView>, id: AppIdentity, change: Change) -> Seq<
    ManagedAppView,
> {
    match change {
        Change::Add(detail) => after_add(apps, id, detail),
        Change::Remove => after_remove(apps, id),
    }
}

/// The records after all of `changes` for `id`, one after the other.
pub open spec fn replay(apps: Seq<ManagedAppView>, id: AppIdentity, changes: Seq<Change>) -> Seq<
    ManagedAppView,
>
    decreases changes.len(),
{
    if changes.len() == 0 {
        apps
    } else {
        replay(apply(apps, id, changes[0]), id, changes.drop_first())
    }
}

/// Number of adds among `changes` that are carried out.
pub open spec fn successful_adds(
    apps: Seq<ManagedAppView>,
    id: AppIdentity,
    changes: Seq<Change>,
) -> nat
    decreases changes.len(),
{
    if changes.len() == 0 {
        0
    } else {
        let first: nat = if changes[0] is Add && succeeds(apps, id, changes[0]) {
            1
        } else {
            0
        };
        first + successful_adds(apply(apps, id, changes[0]), id, changes.drop_first())
    }
}

/// Number of removes among `changes` that are carried out.
pub open spec fn successful_removes(
    apps: Seq<ManagedAppView>,
    id: AppIdentity,
    changes: Seq<Change>,
) -> nat
    decreases changes.len(),
{
    if changes.len() == 0 {
        0
    } else {
        let first: nat = if changes[0] is Remove && succeeds(apps, id, changes[0]) {
            1
        } else {
            0
        };
        first + successful_removes(apply(apps, id, changes[0]), id, changes.drop_first())
    }
}

/// An add that is carried out counts one more reference for its identity
/// and leaves every other count as it is; one that is refused changes
/// nothing. The registry stays well formed.
pub proof fn law_add_counts_one_more(
    apps: Seq<ManagedAppView>,
    id: AppIdentity,
    detail: AppDetailView,
    other: AppIdentity,
)
    requires
        well_formed(apps),
    ensures
        well_formed(after_add(apps, id, detail)),
        add_outcome(apps, id, detail) is Ok ==> references(after_add(apps, id, detail), id)
            == references(apps, id) + 1,
        add_outcome(apps, id, detail) is Err ==> after_add(apps, id, detail) == apps,
        other != id ==> references(after_add(apps, id, detail), other) == references(apps, other),
{
    if let Ok(record) = add_outcome(apps, id, detail) {
        lemma_binary_name(detail.absolute_path);
        if manages(apps, id) {
            let i = position(apps, id);
            lemma_update_keeps_places(apps, i, record, id);
            lemma_update_keeps_places(apps, i, record, other);
            if other != id && manages(apps, other) {
                assert(position(apps, other) != i);
            }
        } else {
            lemma_push_keeps_places(apps, record, id);
            lemma_push_keeps_places(apps, record, other);
        }
    }
}

/// A remove is carried out exactly where a reference is counted; it then
/// counts one less for its identity and leaves every other count as it is.
/// Where none is counted it fails with `NotFound` and changes nothing. The
/// registry stays well formed.
pub proof fn law_remove_counts_one_less(
    apps: Seq<ManagedAppView>,
    id: AppIdentity,
    other: AppIdentity,
)
    requires
        well_formed(apps),
    ensures
        well_formed(after_remove(apps, id)),
        remove_outcome(apps, id) is Ok <==> references(apps, id) > 0,
        references(apps, id) == 0 ==> remove_outcome(apps, id) == Err::<bool, LauncherError>(
            LauncherError::NotFound,
        ) && after_remove(apps, id) == apps,
        references(apps, id) > 0 ==> references(after_remove(apps, id), id) == references(
            apps,
            id,
        ) - 1,
        remove_outcome(apps, id) == Ok::<bool, LauncherError>(true) <==> manages(
            after_remove(apps, id),
            id,
        ),
        other != id ==> references(after_remove(apps, id), other) == references(apps, other),
{
    if manages(apps, id) {
        let i = position(apps, id);
        if apps[i].reference_count > 1 {
            lemma_update_keeps_places(apps, i, released(apps[i]), id);
            lemma_update_keeps_places(apps, i, released(apps[i]), other);
            if other != id && manages(apps, other) {
                assert(position(apps, other) != i);
            }
        } else {
            lemma_delete_keeps_others(apps, i, id);
            lemma_delete_keeps_others(apps, i, other);
        }
    }
}

/// After any sequence of adds and removes for one identity, the count of
/// references to it is the count before, plus the adds that were carried
/// out, minus the removes that were carried out. It never falls below
/// zero, and the registry stays well formed.
pub proof fn law_references_balance(
    apps: Seq<ManagedAppView>,
    id: AppIdentity,
    changes: Seq<Change>,
)
    requires
        well_formed(apps),
    ensures
        well_formed(replay(apps, id, changes)),
        references(replay(apps, id, changes), id) == references(apps, id) + successful_adds(
            apps,
            id,
            changes,
        ) - successful_removes(apps, id, changes),
    decreases changes.len(),
{
    if changes.len() > 0 {
        match changes[0] {
            Change::Add(detail) => law_add_counts_one_more(apps, id, detail, id),
            Change::Remove => law_remove_counts_one_less(apps, id, id),
        }
        law_references_balance(apply(apps, id, changes[0]), id, changes.drop_first());
    }
}

/// Starting from an empty registry, the count of references to an identity
/// is the number of adds that were carried out minus the number of removes
/// that were.
pub proof fn law_references_from_nothing(id: AppIdentity, changes: Seq<Change>)
    ensures
        references(replay(Seq::empty(), id, changes), id) == successful_adds(
            Seq::empty(),
            id,
            changes,
        ) - successful_removes(Seq::empty(), id, changes),
{
    law_references_balance(Seq::empty(), id, changes);
}

} // verus!

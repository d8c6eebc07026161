//! What holds of the handler over whole sequences of commands.

use crate::errors::LauncherError;
use crate::events::event_data::{AppDetailView, ModifyAppSettingsView};
use crate::events::{AppHandlerEventView, ReplyPath};
use crate::handler::model::{done, notify_effects, AppHandlerView, EffectView, OutcomeView};
use crate::identity::AppIdentity;
use crate::observer::delivery::law_registration_adds_last_delivery;
use crate::observer::{
    category_of, AppHandlerObserver, NoticeView, NotificationView, ObserverCategory,
};
use crate::registry::counting::{
    apply, law_add_counts_one_more, law_references_balance, law_remove_counts_one_less, replay,
    succeeds, successful_adds, successful_removes, Change,
};
use crate::registry::model::{
    lemma_update_keeps_places, manages, modified, modify_outcome, position, references,
};
use vstd::prelude::*;

verus! {

/// What reaches the handler: a command, or the identity that the directory
/// resolved for an add.
pub ghost enum Input {
    Command(AppHandlerEventView),
    Resolved { detail: AppDetailView, id: AppIdentity },
}

/// What one input makes of a state, and what is answered to it.
pub open spec fn advance(state: AppHandlerView, input: Input) -> (AppHandlerView, OutcomeView) {
    match input {
        Input::Command(event) => state.step(event),
        Input::Resolved { detail, id } => state.add_resolved(detail, id),
    }
}

/// The state after all of `inputs`, one after the other.
pub open spec fn run(state: AppHandlerView, inputs: Seq<Input>) -> AppHandlerView
    decreases inputs.len(),
{
    if inputs.len() == 0 {
        state
    } else {
        run(advance(state, inputs[0]).0, inputs.drop_first())
    }
}

/// The input that carries out `change` for `id`: the completion of an add,
/// or the command to remove.
pub open spec fn as_input(id: AppIdentity, change: Change) -> Input {
    match change {
        Change::Add(detail) => Input::Resolved { detail, id },
        Change::Remove => Input::Command(AppHandlerEventView::RemoveApp(id)),
    }
}

/// The inputs that carry out `changes` for `id`, in their order.
pub open spec fn as_inputs(id: AppIdentity, changes: Seq<Change>) -> Seq<Input> {
    Seq::new(changes.len(), |i: int| as_input(id, changes[i]))
}

/// The settings that supply nothing for `id`.
pub open spec fn no_change(id: AppIdentity) -> ModifyAppSettingsView {
    ModifyAppSettingsView { id, name: None, local_path: None, safe_drive_access: None }
}

/// Every input leaves the registry well formed.
pub proof fn law_invariant_is_kept(state: AppHandlerView, input: Input)
    requires
        state.well_formed(),
    ensures
        advance(state, input).0.well_formed(),
{
    match input {
        Input::Command(AppHandlerEventView::RemoveApp(id)) => {
            law_remove_counts_one_less(state.apps, id, id);
        },
        Input::Command(AppHandlerEventView::ModifyAppSettings(settings)) => {
            if let Ok(record) = modify_outcome(state.apps, settings) {
                lemma_update_keeps_places(
                    state.apps,
                    position(state.apps, settings.id),
                    record,
                    settings.id,
                );
            }
        },
        Input::Resolved { detail, id } => {
            law_add_counts_one_more(state.apps, id, detail, id);
        },
        _ => {},
    }
}

/// Every sequence of inputs leaves the registry well formed.
pub proof fn law_invariant_is_kept_throughout(state: AppHandlerView, inputs: Seq<Input>)
    requires
        state.well_formed(),
    ensures
        run(state, inputs).well_formed(),
    decreases inputs.len(),
{
    if inputs.len() > 0 {
        law_invariant_is_kept(state, inputs[0]);
        law_invariant_is_kept_throughout(advance(state, inputs[0]).0, inputs.drop_first());
    }
}

/// On a handler that has not terminated, an add or a remove succeeds
/// exactly where the registry carries it out, and makes of the records what
/// the registry makes of them.
pub proof fn law_handler_follows_registry(state: AppHandlerView, id: AppIdentity, change: Change)
    requires
        !state.terminated,
    ensures
        advance(state, as_input(id, change)).0 == (AppHandlerView {
            apps: apply(state.apps, id, change),
            ..state
        }),
        advance(state, as_input(id, change)).1.failure is None <==> succeeds(
            state.apps,
            id,
            change,
        ),
{
}

/// After any sequence of adds and removes for one identity, the handler
/// counts for it the references it counted before, plus the adds that
/// succeeded, minus the removes that succeeded.
pub proof fn law_handler_balances_references(
    state: AppHandlerView,
    id: AppIdentity,
    changes: Seq<Change>,
)
    requires
        state.well_formed(),
        !state.terminated,
    ensures
        run(state, as_inputs(id, changes)) == (AppHandlerView {
            apps: replay(state.apps, id, changes),
            ..state
        }),
        references(run(state, as_inputs(id, changes)).apps, id) == references(state.apps, id)
            + successful_adds(state.apps, id, changes) - successful_removes(
            state.apps,
            id,
            changes,
        ),
    decreases changes.len(),
{
    law_references_balance(state.apps, id, changes);
    if changes.len() > 0 {
        let inputs = as_inputs(id, changes);
        law_handler_follows_registry(state, id, changes[0]);
        law_invariant_is_kept(state, inputs[0]);
        assert(inputs.drop_first() =~= as_inputs(id, changes.drop_first()));
        law_handler_balances_references(advance(state, inputs[0]).0, id, changes.drop_first());
    }
}

/// A command that fails is not applied in part: the state is as before.
pub proof fn law_failed_command_changes_nothing(state: AppHandlerView, input: Input)
    ensures
        advance(state, input).1.failure is Some ==> advance(state, input).0 == state,
{
}

/// A modification that supplies nothing leaves the state as it is, and is
/// still committed: the registry is persisted and each observer of
/// modifications is notified once with the record unchanged.
pub proof fn law_empty_modification_only_notifies(state: AppHandlerView, id: AppIdentity)
    requires
        state.well_formed(),
        !state.terminated,
        manages(state.apps, id),
    ensures
        state.modify(no_change(id)).0 == state,
        state.modify(no_change(id)).1 == done(
            state.committed(NoticeView::Modified(state.apps[position(state.apps, id)])),
        ),
{
    let record = state.apps[position(state.apps, id)];
    assert(modified(record, no_change(id)) == record);
    assert(state.apps.update(position(state.apps, id), record) =~= state.apps);
}

/// The handler that has terminated is inert: every input leaves it as it
/// is and fails with `AlreadyTerminated`. A query is told so along its reply
/// path; for any other input nothing is carried out.
pub proof fn law_terminated_handler_is_inert(state: AppHandlerView, input: Input)
    requires
        state.terminated,
    ensures
        advance(state, input).0 == state,
        advance(state, input).1.failure == Some(LauncherError::AlreadyTerminated),
        advance(state, input).1.effects == (match input {
            Input::Command(AppHandlerEventView::GetAllManagedApps(path)) => seq![
                EffectView::Reply { path, result: Err(LauncherError::AlreadyTerminated) },
            ],
            _ => Seq::empty(),
        }),
{
}

/// Whatever is sent after the command to terminate, the registry and the
/// observers stay as that command found them, and a query fails with
/// `AlreadyTerminated`.
pub proof fn law_nothing_happens_after_terminate(
    state: AppHandlerView,
    inputs: Seq<Input>,
    path: ReplyPath,
)
    ensures
        run(state.terminate().0, inputs) == state.terminate().0,
        run(state.terminate().0, inputs).apps == state.apps,
        run(state.terminate().0, inputs).observers == state.observers,
        run(state.terminate().0, inputs).query(path).1 == (OutcomeView {
            failure: Some(LauncherError::AlreadyTerminated),
            effects: seq![
                EffectView::Reply { path, result: Err(LauncherError::AlreadyTerminated) },
            ],
        }),
    decreases inputs.len(),
{
    let stopped = state.terminate().0;
    assert(stopped.terminate().0 == stopped);
    if inputs.len() > 0 {
        law_terminated_handler_is_inert(stopped, inputs[0]);
        law_nothing_happens_after_terminate(stopped, inputs.drop_first(), path);
    }
}

/// Registering an observer touches no record, and from then on each notice
/// of its category is delivered to it as well, after the observers that
/// registered before.
pub proof fn law_registered_observer_is_notified_last(
    state: AppHandlerView,
    category: ObserverCategory,
    observer: AppHandlerObserver,
    notice: NoticeView,
)
    requires
        !state.terminated,
    ensures
        state.register(category, observer).0.apps == state.apps,
        state.register(category, observer).1 == done(Seq::empty()),
        category_of(notice) == category ==> notify_effects(
            state.register(category, observer).0.observers.dispatch(notice),
        ) == notify_effects(state.observers.dispatch(notice)).push(
            EffectView::Notify(NotificationView { target: observer, notice }),
        ),
        category_of(notice) != category ==> state.register(
            category,
            observer,
        ).0.observers.dispatch(notice) == state.observers.dispatch(notice),
{
    law_registration_adds_last_delivery(state.observers, category, observer, notice);
    if category_of(notice) == category {
        assert(notify_effects(state.register(category, observer).0.observers.dispatch(notice))
            =~= notify_effects(state.observers.dispatch(notice)).push(
            EffectView::Notify(NotificationView { target: observer, notice }),
        ));
    }
}

} // verus!

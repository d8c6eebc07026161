//! The App Handler: the one owner of the registry and of the observers. It
//! takes one command at a time and answers with what the loop around it has
//! to carry out.

pub mod history;
pub mod model;

use crate::errors::LauncherError;
use crate::events::event_data::{AppDetail, ManagedApp, ModifyAppSettings};
use crate::events::{AppHandlerEvent, ReplyPath};
use crate::handler::model::{
    effects_view, notify_effects, refused, AppHandlerView, EffectView, OutcomeView,
};
use crate::identity::AppIdentity;
use crate::observer::{
    notifications_view, AppHandlerNotice, AppHandlerObserver, Notification, ObserverCategory,
    ObserverRegistry,
};
use crate::registry::model::{records_view, well_formed};
use crate::registry::AppRegistry;
use vstd::prelude::*;

verus! {

/// One thing that the loop around the handler has to carry out.
#[derive(Debug, PartialEq, Eq)]
pub enum Effect {
    /// Ask the network directory under which identity this application is
    /// known, then complete the add with the answer.
    ResolveIdentity(AppDetail),
    /// Hand the snapshot of the registry to the configuration store. A
    /// failure there is logged and has no other consequence.
    Persist(Vec<ManagedApp>),
    /// Hand the binary to the process launcher, without waiting for the
    /// process.
    Launch { id: AppIdentity, binary: String },
    /// Deliver the notice to the observer. An observer that cannot be
    /// reached is skipped.
    Notify(Notification),
    /// Send the answer to a query along its reply path.
    Reply { path: ReplyPath, result: Result<Vec<ManagedApp>, LauncherError> },
    /// Leave the loop: the handler has terminated.
    Stop,
}

impl View for Effect {
    type V = EffectView;

    open spec fn view(&self) -> EffectView {
        match *self {
            Effect::ResolveIdentity(detail) => EffectView::ResolveIdentity(detail@),
            Effect::Persist(snapshot) => EffectView::Persist(records_view(snapshot@)),
            Effect::Launch { id, binary } => EffectView::Launch { id, binary: binary@ },
            Effect::Notify(notification) => EffectView::Notify(notification@),
            Effect::Reply { path, result } => EffectView::Reply {
                path,
                result: match result {
                    Ok(snapshot) => Ok(records_view(snapshot@)),
                    Err(error) => Err(error),
                },
            },
            Effect::Stop => EffectView::Stop,
        }
    }
}

/// Appends one effect for each of `notifications`, in their order.
fn push_notifications(effects: &mut Vec<Effect>, notifications: Vec<Notification>)
    ensures
        effects_view(final(effects)@) == effects_view(old(effects)@) + notify_effects(
            notifications_view(notifications@),
        ),
{
    let ghost before = effects@;
    for notification in it: notifications
        invariant
            effects@.len() == before.len() + it.index(),
            forall|k: int| 0 <= k < before.len() ==> effects@[k] == before[k],
            forall|k: int|
                0 <= k < it.index() ==> effects@[before.len() + k] == Effect::Notify(it.seq()[k]),
    {
        effects.push(Effect::Notify(notification));
    }
    assert(effects_view(effects@) =~= effects_view(before) + notify_effects(
        notifications_view(notifications@),
    ));
}

/// What the handler answers to one command: the error with which the
/// command failed, if it did, and what is to be carried out, in this order.
#[derive(Debug, PartialEq, Eq)]
pub struct Outcome {
    pub failure: Option<LauncherError>,
    pub effects: Vec<Effect>,
}

impl View for Outcome {
    type V = OutcomeView;

    open spec fn view(&self) -> OutcomeView {
        OutcomeView { failure: self.failure, effects: effects_view(self.effects@) }
    }
}

/// The answer to a command that failed.
fn refuse(error: LauncherError) -> (outcome: Outcome)
    ensures
        outcome@ == refused(error),
{
    let outcome = Outcome { failure: Some(error), effects: Vec::new() };
    assert(outcome@.effects =~= Seq::empty());
    outcome
}

/// The state of the App Handler. It is made once, when the launcher starts,
/// and is inert after it has terminated.
pub struct AppHandler {
    registry: AppRegistry,
    observers: ObserverRegistry,
    terminated: bool,
}

impl View for AppHandler {
    type V = AppHandlerView;

    closed spec fn view(&self) -> AppHandlerView {
        AppHandlerView {
            apps: self.registry@,
            observers: self.observers@,
            terminated: self.terminated,
        }
    }
}

impl AppHandler {
    /// A handler without records and observers.
    pub fn new() -> (handler: Self)
        ensures
            handler@ == AppHandlerView::initial(),
    {
        AppHandler {
            registry: AppRegistry::new(),
            observers: ObserverRegistry::new(),
            terminated: false,
        }
    }

    /// A handler that starts from the records of an earlier snapshot, without
    /// observers, or `Internal` where those records break the invariant of
    /// the registry.
    pub fn restore(records: Vec<ManagedApp>) -> (result: Result<Self, LauncherError>)
        ensures
            match result {
                Ok(handler) => well_formed(records_view(records@)) && handler@ == (AppHandlerView {
                    apps: records_view(records@),
                    ..AppHandlerView::initial()
                }),
                Err(error) => error == LauncherError::Internal && !well_formed(
                    records_view(records@),
                ),
            },
    {
        match AppRegistry::from_records(records) {
            Ok(registry) => Ok(
                AppHandler { registry, observers: ObserverRegistry::new(), terminated: false },
            ),
            Err(error) => Err(error),
        }
    }

    /// Whether the handler has terminated.
    pub fn is_terminated(&self) -> (terminated: bool)
        ensures
            terminated == self@.terminated,
    {
        self.terminated
    }

    /// The registry of managed applications.
    pub fn registry(&self) -> (registry: &AppRegistry)
        ensures
            registry@ == self@.apps,
            self@.well_formed(),
    {
        proof {
            use_type_invariant(&self.registry);
        }
        &self.registry
    }

    /// The lists of observers.
    pub fn observers(&self) -> (observers: &ObserverRegistry)
        ensures
            observers@ == self@.observers,
    {
        &self.observers
    }

    /// What follows a mutation that was committed.
    fn committed(&self, notice: &AppHandlerNotice) -> (effects: Vec<Effect>)
        ensures
            effects_view(effects@) == self@.committed(notice@),
    {
        let mut effects: Vec<Effect> = Vec::new();
        effects.push(Effect::Persist(self.registry.snapshot()));
        assert(effects_view(effects@) =~= seq![EffectView::Persist(self@.apps)]);
        push_notifications(&mut effects, self.observers.dispatch(notice));
        effects
    }

    /// Takes the command to add an application. The registry is not touched
    /// yet: for a path that is not empty the answer asks for the identity to
    /// be resolved, and [`AppHandler::add_resolved`] completes the add.
    pub fn add_app(&self, detail: AppDetail) -> (outcome: Outcome)
        ensures
            outcome@ == self@.request_add(detail@).1,
    {
        if self.terminated {
            return refuse(LauncherError::AlreadyTerminated);
        }
        if detail.absolute_path.as_str().is_empty() {
            return refuse(LauncherError::InvalidInput);
        }
        let ghost asked = detail@;
        let mut effects: Vec<Effect> = Vec::new();
        effects.push(Effect::ResolveIdentity(detail));
        assert(effects_view(effects@) =~= seq![EffectView::ResolveIdentity(asked)]);
        Outcome { failure: None, effects }
    }

    /// Completes an add with the identity that the directory resolved.
    pub fn add_resolved(&mut self, detail: &AppDetail, id: AppIdentity) -> (outcome: Outcome)
        ensures
            final(self)@ == old(self)@.add_resolved(detail@, id).0,
            outcome@ == old(self)@.add_resolved(detail@, id).1,
            final(self)@.well_formed(),
    {
        proof {
            use_type_invariant(&self.registry);
        }
        if self.terminated {
            return refuse(LauncherError::AlreadyTerminated);
        }
        match self.registry.add(id, detail) {
            Err(error) => refuse(error),
            Ok(record) => {
                let effects = self.committed(&AppHandlerNotice::Added(record));
                Outcome { failure: None, effects }
            },
        }
    }

    /// Gives up one reference to the application and tells the observers of
    /// removals whether it is still managed.
    pub fn remove_app(&mut self, id: AppIdentity) -> (outcome: Outcome)
        ensures
            final(self)@ == old(self)@.remove(id).0,
            outcome@ == old(self)@.remove(id).1,
            final(self)@.well_formed(),
    {
        proof {
            use_type_invariant(&self.registry);
        }
        if self.terminated {
            return refuse(LauncherError::AlreadyTerminated);
        }
        match self.registry.remove(&id) {
            Err(error) => refuse(error),
            Ok(still_managed) => {
                let effects = self.committed(&AppHandlerNotice::Removed { id, still_managed });
                Outcome { failure: None, effects }
            },
        }
    }

    /// Has the application's binary handed to the process launcher and tells
    /// the observers of activations that this was attempted. An application
    /// without a binary on this machine is not found.
    pub fn activate_app(&self, id: AppIdentity) -> (outcome: Outcome)
        ensures
            outcome@ == self@.activate(id).1,
    {
        if self.terminated {
            return refuse(LauncherError::AlreadyTerminated);
        }
        let binary = match self.registry.get(&id) {
            Some(ManagedApp { local_path: Some(binary), .. }) => binary,
            _ => { return refuse(LauncherError::NotFound); },
        };
        let mut effects: Vec<Effect> = Vec::new();
        let ghost launched = binary@;
        effects.push(Effect::Launch { id, binary });
        assert(effects_view(effects@) =~= seq![EffectView::Launch { id, binary: launched }]);
        push_notifications(&mut effects, self.observers.dispatch(&AppHandlerNotice::Activated(id)));
        Outcome { failure: None, effects }
    }

    /// Applies the fields that `settings` supplies and tells the observers
    /// of modifications how the record now stands.
    pub fn modify_app_settings(&mut self, settings: &ModifyAppSettings) -> (outcome: Outcome)
        ensures
            final(self)@ == old(self)@.modify(settings@).0,
            outcome@ == old(self)@.modify(settings@).1,
            final(self)@.well_formed(),
    {
        proof {
            use_type_invariant(&self.registry);
        }
        if self.terminated {
            return refuse(LauncherError::AlreadyTerminated);
        }
        match self.registry.modify(settings) {
            Err(error) => refuse(error),
            Ok(record) => {
                let effects = self.committed(&AppHandlerNotice::Modified(record));
                Outcome { failure: None, effects }
            },
        }
    }

    /// Appends the observer to the list of its category.
    pub fn register_observer(
        &mut self,
        category: ObserverCategory,
        observer: AppHandlerObserver,
    ) -> (outcome: Outcome)
        ensures
            final(self)@ == old(self)@.register(category, observer).0,
            outcome@ == old(self)@.register(category, observer).1,
            final(self)@.well_formed(),
    {
        proof {
            use_type_invariant(&self.registry);
        }
        if self.terminated {
            return refuse(LauncherError::AlreadyTerminated);
        }
        self.observers.register(category, observer);
        let outcome = Outcome { failure: None, effects: Vec::new() };
        assert(outcome@.effects =~= Seq::empty());
        outcome
    }

    /// Answers the query for all managed applications with a snapshot of the
    /// registry, or with `AlreadyTerminated`, along the reply path.
    pub fn get_all_managed_apps(&self, path: ReplyPath) -> (outcome: Outcome)
        ensures
            outcome@ == self@.query(path).1,
    {
        let mut effects: Vec<Effect> = Vec::new();
        if self.terminated {
            effects.push(Effect::Reply { path, result: Err(LauncherError::AlreadyTerminated) });
            assert(effects_view(effects@) =~= seq![
                EffectView::Reply { path, result: Err(LauncherError::AlreadyTerminated) },
            ]);
            Outcome { failure: Some(LauncherError::AlreadyTerminated), effects }
        } else {
            effects.push(Effect::Reply { path, result: Ok(self.registry.snapshot()) });
            assert(effects_view(effects@) =~= seq![
                EffectView::Reply { path, result: Ok(self@.apps) },
            ]);
            Outcome { failure: None, effects }
        }
    }

    /// Terminates the handler: from now on every command is refused.
    pub fn terminate(&mut self) -> (outcome: Outcome)
        ensures
            final(self)@ == old(self)@.terminate().0,
            outcome@ == old(self)@.terminate().1,
            final(self)@.well_formed(),
    {
        proof {
            use_type_invariant(&self.registry);
        }
        if self.terminated {
            return refuse(LauncherError::AlreadyTerminated);
        }
        self.terminated = true;
        let mut effects: Vec<Effect> = Vec::new();
        effects.push(Effect::Stop);
        assert(effects_view(effects@) =~= seq![EffectView::Stop]);
        Outcome { failure: None, effects }
    }

    /// Takes one command: the state becomes what the command makes of it,
    /// and the answer says what is to be carried out.
    pub fn handle(&mut self, event: AppHandlerEvent) -> (outcome: Outcome)
        ensures
            final(self)@ == old(self)@.step(event@).0,
            outcome@ == old(self)@.step(event@).1,
            final(self)@.well_formed(),
    {
        proof {
            use_type_invariant(&self.registry);
        }
        match event {
            AppHandlerEvent::AddApp(detail) => self.add_app(detail),
            AppHandlerEvent::RemoveApp(id) => self.remove_app(id),
            AppHandlerEvent::ActivateApp(id) => self.activate_app(id),
            AppHandlerEvent::ModifyAppSettings(settings) => self.modify_app_settings(&settings),
            AppHandlerEvent::RegisterAppAddObserver(observer) => self.register_observer(
                ObserverCategory::Added,
                observer,
            ),
            AppHandlerEvent::RegisterAppRemoveObserver(observer) => self.register_observer(
                ObserverCategory::Removed,
                observer,
            ),
            AppHandlerEvent::RegisterAppActivateObserver(observer) => self.register_observer(
                ObserverCategory::Activated,
                observer,
            ),
            AppHandlerEvent::RegisterAppModifyObserver(observer) => self.register_observer(
                ObserverCategory::Modified,
                observer,
            ),
            AppHandlerEvent::GetAllManagedApps(path) => self.get_all_managed_apps(path),
            AppHandlerEvent::Terminate => self.terminate(),
        }
    }
}

} // verus!

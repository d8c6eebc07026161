//! The App Handler as a mathematical value, and what each command makes of
//! it.

use crate::errors::LauncherError;
use crate::events::event_data::{AppDetailView, ManagedAppView, ModifyAppSettingsView};
use crate::events::{AppHandlerEventView, ReplyPath};
use crate::handler::Effect;
use crate::identity::AppIdentity;
use crate::observer::{
    AppHandlerObserver, NoticeView, NotificationView, ObserverCategory, ObserverRegistryView,
};
use crate::registry::model::{
    add_outcome, after_add, after_modify, after_remove, manages, modify_outcome, position,
    remove_outcome, well_formed,
};
use vstd::prelude::*;

verus! {

/// The mathematical value of an [`Effect`].
pub ghost enum EffectView {
    ResolveIdentity(AppDetailView),
    Persist(Seq<ManagedAppView>),
    Launch { id: AppIdentity, binary: Seq<char> },
    Notify(NotificationView),
    Reply { path: ReplyPath, result: Result<Seq<ManagedAppView>, LauncherError> },
    Stop,
}

/// The mathematical values of a sequence of effects, in the same order.
pub open spec fn effects_view(effects: Seq<Effect>) -> Seq<EffectView> {
    Seq::new(effects.len(), |i: int| effects[i]@)
}

/// One effect for each of `notifications`, in their order.
pub open spec fn notify_effects(notifications: Seq<NotificationView>) -> Seq<EffectView> {
    Seq::new(notifications.len(), |i: int| EffectView::Notify(notifications[i]))
}

/// The mathematical value of what the handler answers to one command.
pub ghost struct OutcomeView {
    pub failure: Option<LauncherError>,
    pub effects: Seq<EffectView>,
}

/// The answer to a command that was carried out.
pub open spec fn done(effects: Seq<EffectView>) -> OutcomeView {
    OutcomeView { failure: None, effects }
}

/// The answer to a command that failed: nothing is to be carried out.
pub open spec fn refused(error: LauncherError) -> OutcomeView {
    OutcomeView { failure: Some(error), effects: Seq::empty() }
}

/// The mathematical value of the handler: the records, the observers, and
/// whether it has terminated.
pub ghost struct AppHandlerView {
    pub apps: Seq<ManagedAppView>,
    pub observers: ObserverRegistryView,
    pub terminated: bool,
}

impl AppHandlerView {
    /// The handler at its start: no record, no observer, not terminated.
    pub open spec fn initial() -> AppHandlerView {
        AppHandlerView {
            apps: Seq::empty(),
            observers: ObserverRegistryView::empty(),
            terminated: false,
        }
    }

    /// The invariant of the handler: that of its registry.
    pub open spec fn well_formed(self) -> bool {
        well_formed(self.apps)
    }

    /// What follows a mutation that was committed in this state: the
    /// registry is persisted, then each observer of the notice's category is
    /// notified, in the order of registration.
    pub open spec fn committed(self, notice: NoticeView) -> Seq<EffectView> {
        seq![EffectView::Persist(self.apps)] + notify_effects(self.observers.dispatch(notice))
    }

    /// The command to add an application. It changes nothing yet: unless
    /// the path is empty, the identity is to be resolved first.
    pub open spec fn request_add(self, detail: AppDetailView) -> (AppHandlerView, OutcomeView) {
        if self.terminated {
            (self, refused(LauncherError::AlreadyTerminated))
        } else if detail.absolute_path.len() == 0 {
            (self, refused(LauncherError::InvalidInput))
        } else {
            (self, done(seq![EffectView::ResolveIdentity(detail)]))
        }
    }

    /// The add, once the directory has resolved the identity to `id`.
    pub open spec fn add_resolved(self, detail: AppDetailView, id: AppIdentity) -> (
        AppHandlerView,
        OutcomeView,
    ) {
        if self.terminated {
            (self, refused(LauncherError::AlreadyTerminated))
        } else {
            match add_outcome(self.apps, id, detail) {
                Err(error) => (self, refused(error)),
                Ok(record) => {
                    let next = AppHandlerView { apps: after_add(self.apps, id, detail), ..self };
                    (next, done(next.committed(NoticeView::Added(record))))
                },
            }
        }
    }

    /// The command to remove an application.
    pub open spec fn remove(self, id: AppIdentity) -> (AppHandlerView, OutcomeView) {
        if self.terminated {
            (self, refused(LauncherError::AlreadyTerminated))
        } else {
            match remove_outcome(self.apps, id) {
                Err(error) => (self, refused(error)),
                Ok(still_managed) => {
                    let next = AppHandlerView { apps: after_remove(self.apps, id), ..self };
                    (next, done(next.committed(NoticeView::Removed { id, still_managed })))
                },
            }
        }
    }

    /// Whether `id` has a record with a binary on this machine.
    pub open spec fn can_activate(self, id: AppIdentity) -> bool {
        manages(self.apps, id) && self.apps[position(self.apps, id)].local_path is Some
    }

    /// The command to activate an application: the binary goes to the
    /// process launcher, then the observers of activations are notified.
    pub open spec fn activate(self, id: AppIdentity) -> (AppHandlerView, OutcomeView) {
        if self.terminated {
            (self, refused(LauncherError::AlreadyTerminated))
        } else if !self.can_activate(id) {
            (self, refused(LauncherError::NotFound))
        } else {
            (
                self,
                done(
                    seq![
                        EffectView::Launch {
                            id,
                            binary: self.apps[position(self.apps, id)].local_path->0,
                        },
                    ] + notify_effects(self.observers.dispatch(NoticeView::Activated(id))),
                ),
            )
        }
    }

    /// The command to modify the settings of an application.
    pub open spec fn modify(self, settings: ModifyAppSettingsView) -> (
        AppHandlerView,
        OutcomeView,
    ) {
        if self.terminated {
            (self, refused(LauncherError::AlreadyTerminated))
        } else {
            match modify_outcome(self.apps, settings) {
                Err(error) => (self, refused(error)),
                Ok(record) => {
                    let next = AppHandlerView { apps: after_modify(self.apps, settings), ..self };
                    (next, done(next.committed(NoticeView::Modified(record))))
                },
            }
        }
    }

    /// The command to register an observer.
    pub open spec fn register(self, category: ObserverCategory, observer: AppHandlerObserver) -> (
        AppHandlerView,
        OutcomeView,
    ) {
        if self.terminated {
            (self, refused(LauncherError::AlreadyTerminated))
        } else {
            (
                AppHandlerView {
                    observers: self.observers.registered(category, observer),
                    ..self
                },
                done(Seq::empty()),
            )
        }
    }

    /// The query for all records. Its failure, too, travels along the reply
    /// path.
    pub open spec fn query(self, path: ReplyPath) -> (AppHandlerView, OutcomeView) {
        if self.terminated {
            (
                self,
                OutcomeView {
                    failure: Some(LauncherError::AlreadyTerminated),
                    effects: seq![
                        EffectView::Reply { path, result: Err(LauncherError::AlreadyTerminated) },
                    ],
                },
            )
        } else {
            (self, done(seq![EffectView::Reply { path, result: Ok(self.apps) }]))
        }
    }

    /// The command to terminate.
    pub open spec fn terminate(self) -> (AppHandlerView, OutcomeView) {
        if self.terminated {
            (self, refused(LauncherError::AlreadyTerminated))
        } else {
            (AppHandlerView { terminated: true, ..self }, done(seq![EffectView::Stop]))
        }
    }

    /// What one command makes of this state, and what is answered to it.
    pub open spec fn step(self, event: AppHandlerEventView) -> (AppHandlerView, OutcomeView) {
        match event {
            AppHandlerEventView::AddApp(detail) => self.request_add(detail),
            AppHandlerEventView::RemoveApp(id) => self.remove(id),
            AppHandlerEventView::ActivateApp(id) => self.activate(id),
            AppHandlerEventView::ModifyAppSettings(settings) => self.modify(settings),
            AppHandlerEventView::RegisterAppAddObserver(observer) => self.register(
                ObserverCategory::Added,
                observer,
            ),
            AppHandlerEventView::RegisterAppRemoveObserver(observer) => self.register(
                ObserverCategory::Removed,
                observer,
            ),
            AppHandlerEventView::RegisterAppActivateObserver(observer) => self.register(
                ObserverCategory::Activated,
                observer,
            ),
            AppHandlerEventView::RegisterAppModifyObserver(observer) => self.register(
                ObserverCategory::Modified,
                observer,
            ),
            AppHandlerEventView::GetAllManagedApps(path) => self.query(path),
            AppHandlerEventView::Terminate => self.terminate(),
        }
    }
}

} // verus!

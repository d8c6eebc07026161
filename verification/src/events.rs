//! The commands that callers send to the App Handler.

pub mod event_data;

use crate::events::event_data::{
    AppDetail, AppDetailView, ModifyAppSettings, ModifyAppSettingsView,
};
use crate::identity::AppIdentity;
use crate::observer::AppHandlerObserver;
use vstd::prelude::*;
use vstd::std_specs::convert::FromSpecImpl;

verus! {

/// A handle on the path along which the answer to one query travels back.
/// The handler hands it back with the answer; what stands behind the token
/// is known only to the loop that delivers.
#[derive(Clone, Copy, Debug, PartialEq, Eq, Hash, Structural)]
pub struct ReplyPath {
    pub token: u64,
}

/// The commands of the App Handler. Observers can be registered to be told
/// of what the mutating ones bring about.
#[derive(Debug, PartialEq, Eq)]
pub enum AppHandlerEvent {
    /// Add an application to those that the launcher manages.
    AddApp(AppDetail),
    /// Remove an application that was added before.
    RemoveApp(AppIdentity),
    /// Start an application.
    ActivateApp(AppIdentity),
    /// Modify the settings of an application.
    ModifyAppSettings(ModifyAppSettings),
    /// Register an observer of additions.
    RegisterAppAddObserver(AppHandlerObserver),
    /// Register an observer of removals.
    RegisterAppRemoveObserver(AppHandlerObserver),
    /// Register an observer of activations. An activation that succeeded
    /// only means that the application was started: it may still crash or
    /// fail to authenticate afterwards.
    RegisterAppActivateObserver(AppHandlerObserver),
    /// Register an observer of modifications.
    RegisterAppModifyObserver(AppHandlerObserver),
    /// Obtain all applications that the launcher currently manages.
    GetAllManagedApps(ReplyPath),
    /// Stop handling. No command is carried out after this one.
    Terminate,
}

/// The mathematical value of an [`AppHandlerEvent`].
pub ghost enum AppHandlerEventView {
    AddApp(AppDetailView),
    RemoveApp(AppIdentity),
    ActivateApp(AppIdentity),
    ModifyAppSettings(ModifyAppSettingsView),
    RegisterAppAddObserver(AppHandlerObserver),
    RegisterAppRemoveObserver(AppHandlerObserver),
    RegisterAppActivateObserver(AppHandlerObserver),
    RegisterAppModifyObserver(AppHandlerObserver),
    GetAllManagedApps(ReplyPath),
    Terminate,
}

impl View for AppHandlerEvent {
    type V = AppHandlerEventView;

    open spec fn view(&self) -> AppHandlerEventView {
        match *self {
            AppHandlerEvent::AddApp(detail) => AppHandlerEventView::AddApp(detail@),
            AppHandlerEvent::RemoveApp(id) => AppHandlerEventView::RemoveApp(id),
            AppHandlerEvent::ActivateApp(id) => AppHandlerEventView::ActivateApp(id),
            AppHandlerEvent::ModifyAppSettings(settings) => AppHandlerEventView::ModifyAppSettings(
                settings@,
            ),
            AppHandlerEvent::RegisterAppAddObserver(observer) => {
                AppHandlerEventView::RegisterAppAddObserver(observer)
            },
            AppHandlerEvent::RegisterAppRemoveObserver(observer) => {
                AppHandlerEventView::RegisterAppRemoveObserver(observer)
            },
            AppHandlerEvent::RegisterAppActivateObserver(observer) => {
                AppHandlerEventView::RegisterAppActivateObserver(observer)
            },
            AppHandlerEvent::RegisterAppModifyObserver(observer) => {
                AppHandlerEventView::RegisterAppModifyObserver(observer)
            },
            AppHandlerEvent::GetAllManagedApps(path) => AppHandlerEventView::GetAllManagedApps(
                path,
            ),
            AppHandlerEvent::Terminate => AppHandlerEventView::Terminate,
        }
    }
}

impl From<AppDetail> for AppHandlerEvent {
    fn from(data: AppDetail) -> (event: Self) {
        AppHandlerEvent::AddApp(data)
    }
}

impl FromSpecImpl<AppDetail> for AppHandlerEvent {
    open spec fn obeys_from_spec() -> bool {
        true
    }

    open spec fn from_spec(data: AppDetail) -> Self {
        AppHandlerEvent::AddApp(data)
    }
}

impl From<ModifyAppSettings> for AppHandlerEvent {
    fn from(data: ModifyAppSettings) -> (event: Self) {
        AppHandlerEvent::ModifyAppSettings(data)
    }
}

impl FromSpecImpl<ModifyAppSettings> for AppHandlerEvent {
    open spec fn obeys_from_spec() -> bool {
        true
    }

    open spec fn from_spec(data: ModifyAppSettings) -> Self {
        AppHandlerEvent::ModifyAppSettings(data)
    }
}

} // verus!

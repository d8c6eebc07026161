//! The data that travels with commands and notifications.

use crate::identity::AppIdentity;
use vstd::prelude::*;

verus! {

/// The mathematical value of an optional piece of text.
pub open spec fn text_view(text: Option<String>) -> Option<Seq<char>> {
    match text {
        Some(s) => Some(s@),
        None => None,
    }
}

/// A copy of an optional piece of text.
pub fn clone_text(text: &Option<String>) -> (copy: Option<String>)
    ensures
        copy == *text,
{
    match text {
        Some(s) => Some(s.clone()),
        None => None,
    }
}

/// What a caller supplies to have an application managed. It is input only
/// and never stored.
#[derive(Debug, PartialEq, Eq)]
pub struct AppDetail {
    /// Absolute path to the application's binary on this machine.
    pub absolute_path: String,
    /// Whether the application may access the drive.
    pub safe_drive_access: bool,
}

/// The mathematical value of an [`AppDetail`].
pub ghost struct AppDetailView {
    pub absolute_path: Seq<char>,
    pub safe_drive_access: bool,
}

impl View for AppDetail {
    type V = AppDetailView;

    open spec fn view(&self) -> AppDetailView {
        AppDetailView {
            absolute_path: self.absolute_path@,
            safe_drive_access: self.safe_drive_access,
        }
    }
}

impl Clone for AppDetail {
    fn clone(&self) -> (copy: Self)
        ensures
            copy == *self,
    {
        AppDetail {
            absolute_path: self.absolute_path.clone(),
            safe_drive_access: self.safe_drive_access,
        }
    }
}

/// The registry's record of one managed application.
#[derive(Debug, PartialEq, Eq)]
pub struct ManagedApp {
    /// Identity of the application, the same on every machine.
    pub id: AppIdentity,
    /// Name of the application: unless changed, the name of the binary that
    /// was first added for it.
    pub name: String,
    /// Absolute path of the binary on this machine, or `None` while the
    /// application is known here only from another machine.
    pub local_path: Option<String>,
    /// Number of machines on which the application is currently added.
    pub reference_count: u32,
    /// Whether the application may access the drive.
    pub safe_drive_access: bool,
}

/// The mathematical value of a [`ManagedApp`].
pub ghost struct ManagedAppView {
    pub id: AppIdentity,
    pub name: Seq<char>,
    pub local_path: Option<Seq<char>>,
    pub reference_count: u32,
    pub safe_drive_access: bool,
}

impl View for ManagedApp {
    type V = ManagedAppView;

    open spec fn view(&self) -> ManagedAppView {
        ManagedAppView {
            id: self.id,
            name: self.name@,
            local_path: text_view(self.local_path),
            reference_count: self.reference_count,
            safe_drive_access: self.safe_drive_access,
        }
    }
}

impl Clone for ManagedApp {
    fn clone(&self) -> (copy: Self)
        ensures
            copy == *self,
    {
        ManagedApp {
            id: self.id,
            name: self.name.clone(),
            local_path: clone_text(&self.local_path),
            reference_count: self.reference_count,
            safe_drive_access: self.safe_drive_access,
        }
    }
}

/// A partial update of one record. A field that is `None` leaves the
/// corresponding attribute as it is.
#[derive(Debug, PartialEq, Eq)]
pub struct ModifyAppSettings {
    /// Identity of the application to modify.
    pub id: AppIdentity,
    /// New name of the application.
    pub name: Option<String>,
    /// New absolute path of the binary on this machine.
    pub local_path: Option<String>,
    /// New permission to access the drive.
    pub safe_drive_access: Option<bool>,
}

/// The mathematical value of a [`ModifyAppSettings`].
pub ghost struct ModifyAppSettingsView {
    pub id: AppIdentity,
    pub name: Option<Seq<char>>,
    pub local_path: Option<Seq<char>>,
    pub safe_drive_access: Option<bool>,
}

impl View for ModifyAppSettings {
    type V = ModifyAppSettingsView;

    open spec fn view(&self) -> ModifyAppSettingsView {
        ModifyAppSettingsView {
            id: self.id,
            name: text_view(self.name),
            local_path: text_view(self.local_path),
            safe_drive_access: self.safe_drive_access,
        }
    }
}

impl Clone for ModifyAppSettings {
    fn clone(&self) -> (copy: Self)
        ensures
            copy == *self,
    {
        ModifyAppSettings {
            id: self.id,
            name: clone_text(&self.name),
            local_path: clone_text(&self.local_path),
            safe_drive_access: self.safe_drive_access,
        }
    }
}

} // verus!

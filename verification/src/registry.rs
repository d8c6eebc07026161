//! The registry of managed applications: a keyed store in which each
//! identity has at most one record and every record counts at least one
//! reference.

pub mod counting;
pub mod model;

use crate::errors::LauncherError;
use crate::events::event_data::{clone_text, AppDetail, ManagedApp, ManagedAppView, ModifyAppSettings};
use crate::identity::AppIdentity;
use crate::naming::{binary_name_of, lemma_binary_name};
use crate::registry::model::{
    add_outcome, after_add, after_modify, after_remove, lemma_delete_keeps_others,
    lemma_position, lemma_push_keeps_places, lemma_update_keeps_places, manages, modify_outcome,
    position, record_result_view, records_view, references, remove_outcome, well_formed,
};
use vstd::prelude::*;

verus! {

/// The records of all managed applications, in the order in which their
/// identities were first added.
pub struct AppRegistry {
    apps: Vec<ManagedApp>,
}

impl View for AppRegistry {
    type V = Seq<ManagedAppView>;

    closed spec fn view(&self) -> Seq<ManagedAppView> {
        records_view(self.apps@)
    }
}

impl AppRegistry {
    /// The invariant that every registry meets at all times.
    #[verifier::type_invariant]
    pub open spec fn valid(&self) -> bool {
        well_formed(self@)
    }

    /// A registry without records.
    pub fn new() -> (registry: Self)
        ensures
            registry@ == Seq::<ManagedAppView>::empty(),
            well_formed(registry@),
    {
        let registry = AppRegistry { apps: Vec::new() };
        assert(registry@ =~= Seq::<ManagedAppView>::empty());
        registry
    }

    /// The registry that holds `records`, in their order, or `Internal`
    /// where they break the invariant: two records of one identity, a record
    /// without a reference, or a record without a name.
    pub fn from_records(records: Vec<ManagedApp>) -> (result: Result<Self, LauncherError>)
        ensures
            match result {
                Ok(registry) => well_formed(records_view(records@)) && registry@ == records_view(
                    records@,
                ),
                Err(error) => error == LauncherError::Internal && !well_formed(
                    records_view(records@),
                ),
            },
    {
        let ghost apps = records_view(records@);
        let mut i: usize = 0;
        while i < records.len()
            invariant
                i <= records.len(),
                apps == records_view(records@),
                forall|a: int, b: int|
                    0 <= a < b < i ==> (#[trigger] apps[a]).id != (#[trigger] apps[b]).id,
                forall|a: int| 0 <= a < i ==> (#[trigger] apps[a]).reference_count >= 1,
                forall|a: int| 0 <= a < i ==> (#[trigger] apps[a]).name.len() > 0,
            decreases records.len() - i,
        {
            if records[i].reference_count == 0 || records[i].name.as_str().is_empty() {
                assert(apps[i as int].reference_count == 0 || apps[i as int].name.len() == 0);
                return Err(LauncherError::Internal);
            }
            let mut j: usize = 0;
            while j < i
                invariant
                    j <= i < records.len(),
                    apps == records_view(records@),
                    forall|a: int| 0 <= a < j ==> (#[trigger] apps[a]).id != apps[i as int].id,
                decreases i - j,
            {
                if records[j].id.same_as(&records[i].id) {
                    assert(apps[j as int].id == apps[i as int].id);
                    return Err(LauncherError::Internal);
                }
                j += 1;
            }
            i += 1;
        }
        Ok(AppRegistry { apps: records })
    }

    /// Number of records.
    pub fn len(&self) -> (count: usize)
        ensures
            count == self@.len(),
            well_formed(self@),
    {
        proof {
            use_type_invariant(self);
        }
        self.apps.len()
    }

    /// Whether the registry holds no record.
    pub fn is_empty(&self) -> (empty: bool)
        ensures
            empty == (self@.len() == 0),
    {
        self.apps.len() == 0
    }

    /// Index of the record kept under `id`.
    fn find(&self, id: &AppIdentity) -> (found: Option<usize>)
        ensures
            well_formed(self@),
            match found {
                Some(i) => manages(self@, *id) && i == position(self@, *id) && i < self.apps.len()
                    && self.apps[i as int].id == *id,
                None => !manages(self@, *id),
            },
    {
        proof {
            use_type_invariant(self);
        }
        let mut i: usize = 0;
        while i < self.apps.len()
            invariant
                i <= self.apps.len(),
                well_formed(self@),
                forall|k: int| 0 <= k < i ==> (#[trigger] self@[k]).id != *id,
            decreases self.apps.len() - i,
        {
            if self.apps[i].id.same_as(id) {
                proof {
                    assert(self@[i as int].id == *id);
                    lemma_position(self@, *id, i as int);
                }
                return Some(i);
            }
            i += 1;
        }
        None
    }

    /// Whether a record is kept under `id`.
    pub fn contains(&self, id: &AppIdentity) -> (found: bool)
        ensures
            found == manages(self@, *id),
    {
        self.find(id).is_some()
    }

    /// A copy of the record kept under `id`.
    pub fn get(&self, id: &AppIdentity) -> (record: Option<ManagedApp>)
        ensures
            match record {
                Some(app) => manages(self@, *id) && app@ == self@[position(self@, *id)],
                None => !manages(self@, *id),
            },
    {
        match self.find(id) {
            Some(i) => Some(self.apps[i].clone()),
            None => None,
        }
    }

    /// Number of references counted for `id`: zero where it has no record.
    pub fn reference_count(&self, id: &AppIdentity) -> (count: u32)
        ensures
            count == references(self@, *id),
    {
        match self.find(id) {
            Some(i) => self.apps[i].reference_count,
            None => 0,
        }
    }

    /// Copies of all records, in the registry's order.
    pub fn snapshot(&self) -> (copy: Vec<ManagedApp>)
        ensures
            records_view(copy@) == self@,
    {
        let mut copy: Vec<ManagedApp> = Vec::new();
        let mut i: usize = 0;
        while i < self.apps.len()
            invariant
                i <= self.apps.len(),
                copy@.len() == i,
                forall|k: int| 0 <= k < i ==> (#[trigger] copy@[k])@ == self.apps@[k]@,
            decreases self.apps.len() - i,
        {
            copy.push(self.apps[i].clone());
            i += 1;
        }
        assert(records_view(copy@) =~= self@);
        copy
    }

    /// Adds the application that the directory resolved to `id`. The first
    /// add for an identity creates its record with one reference, named
    /// after the binary; each further add counts one more reference and sets
    /// the local path. Nothing changes where the add fails.
    pub fn add(&mut self, id: AppIdentity, detail: &AppDetail) -> (result: Result<
        ManagedApp,
        LauncherError,
    >)
        ensures
            final(self)@ == after_add(old(self)@, id, detail@),
            record_result_view(result) == add_outcome(old(self)@, id, detail@),
            well_formed(final(self)@),
    {
        proof {
            use_type_invariant(&*self);
        }
        if detail.absolute_path.as_str().is_empty() {
            return Err(LauncherError::InvalidInput);
        }
        match self.find(&id) {
            Some(i) => {
                let current = &self.apps[i];
                if current.reference_count == u32::MAX {
                    return Err(LauncherError::Internal);
                }
                let record = ManagedApp {
                    id: current.id,
                    name: current.name.clone(),
                    local_path: Some(detail.absolute_path.clone()),
                    reference_count: current.reference_count + 1,
                    safe_drive_access: current.safe_drive_access,
                };
                let copy = record.clone();
                proof {
                    lemma_update_keeps_places(old(self)@, i as int, record@, id);
                }
                let mut apps: Vec<ManagedApp> = Vec::new();
                core::mem::swap(&mut apps, &mut self.apps);
                apps[i] = record;
                assert(records_view(apps@) =~= old(self)@.update(i as int, copy@));
                self.apps = apps;
                Ok(copy)
            },
            None => {
                let record = ManagedApp {
                    id,
                    name: binary_name_of(detail.absolute_path.as_str()),
                    local_path: Some(detail.absolute_path.clone()),
                    reference_count: 1,
                    safe_drive_access: detail.safe_drive_access,
                };
                let copy = record.clone();
                proof {
                    lemma_binary_name(detail.absolute_path@);
                    lemma_push_keeps_places(old(self)@, record@, id);
                }
                let mut apps: Vec<ManagedApp> = Vec::new();
                core::mem::swap(&mut apps, &mut self.apps);
                apps.push(record);
                assert(records_view(apps@) =~= old(self)@.push(copy@));
                self.apps = apps;
                Ok(copy)
            },
        }
    }

    /// Gives up one reference to `id` and says whether its record is still
    /// kept: the record goes with its last reference.
    pub fn remove(&mut self, id: &AppIdentity) -> (result: Result<bool, LauncherError>)
        ensures
            final(self)@ == after_remove(old(self)@, *id),
            result == remove_outcome(old(self)@, *id),
            well_formed(final(self)@),
    {
        proof {
            use_type_invariant(&*self);
        }
        match self.find(id) {
            Some(i) => {
                let current = &self.apps[i];
                if current.reference_count > 1 {
                    let record = ManagedApp {
                        id: current.id,
                        name: current.name.clone(),
                        local_path: clone_text(&current.local_path),
                        reference_count: current.reference_count - 1,
                        safe_drive_access: current.safe_drive_access,
                    };
                    proof {
                        lemma_update_keeps_places(old(self)@, i as int, record@, *id);
                    }
                    let ghost kept = record@;
                    let mut apps: Vec<ManagedApp> = Vec::new();
                    core::mem::swap(&mut apps, &mut self.apps);
                    apps[i] = record;
                    assert(records_view(apps@) =~= old(self)@.update(i as int, kept));
                    self.apps = apps;
                    Ok(true)
                } else {
                    proof {
                        lemma_delete_keeps_others(old(self)@, i as int, *id);
                    }
                    let mut apps: Vec<ManagedApp> = Vec::new();
                    core::mem::swap(&mut apps, &mut self.apps);
                    let _ = apps.remove(i);
                    assert(records_view(apps@) =~= old(self)@.remove(i as int));
                    self.apps = apps;
                    Ok(false)
                }
            },
            None => Err(LauncherError::NotFound),
        }
    }

    /// Puts the fields that `settings` supplies in place of those of the
    /// record kept under its identity. Nothing changes where this fails.
    pub fn modify(&mut self, settings: &ModifyAppSettings) -> (result: Result<
        ManagedApp,
        LauncherError,
    >)
        ensures
            final(self)@ == after_modify(old(self)@, settings@),
            record_result_view(result) == modify_outcome(old(self)@, settings@),
            well_formed(final(self)@),
    {
        proof {
            use_type_invariant(&*self);
        }
        match self.find(&settings.id) {
            Some(i) => {
                let current = &self.apps[i];
                let name = match &settings.name {
                    Some(name) => {
                        if name.as_str().is_empty() {
                            return Err(LauncherError::InvalidInput);
                        }
                        name.clone()
                    },
                    None => current.name.clone(),
                };
                let local_path = match &settings.local_path {
                    Some(path) => Some(path.clone()),
                    None => clone_text(&current.local_path),
                };
                let safe_drive_access = match settings.safe_drive_access {
                    Some(access) => access,
                    None => current.safe_drive_access,
                };
                let record = ManagedApp {
                    id: current.id,
                    name,
                    local_path,
                    reference_count: current.reference_count,
                    safe_drive_access,
                };
                let copy = record.clone();
                proof {
                    lemma_update_keeps_places(old(self)@, i as int, record@, settings.id);
                }
                let mut apps: Vec<ManagedApp> = Vec::new();
                core::mem::swap(&mut apps, &mut self.apps);
                apps[i] = record;
                assert(records_view(apps@) =~= old(self)@.update(i as int, copy@));
                self.apps = apps;
                Ok(copy)
            },
            None => Err(LauncherError::NotFound),
        }
    }
}

} // verus!

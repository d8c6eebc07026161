use app_handler::errors::LauncherError;
use app_handler::events::event_data::{AppDetail, ManagedApp, ModifyAppSettings};
use app_handler::identity::AppIdentity;
use app_handler::registry::AppRegistry;

fn id(byte: u8) -> AppIdentity {
    AppIdentity::new([byte; 64])
}

fn detail(path: &str, access: bool) -> AppDetail {
    AppDetail { absolute_path: String::from(path), safe_drive_access: access }
}

fn record(byte: u8, name: &str, path: Option<&str>, count: u32, access: bool) -> ManagedApp {
    ManagedApp {
        id: id(byte),
        name: String::from(name),
        local_path: path.map(String::from),
        reference_count: count,
        safe_drive_access: access,
    }
}

#[test]
fn new_registry_is_empty() {
    let registry = AppRegistry::new();
    assert!(registry.is_empty());
    assert_eq!(registry.len(), 0);
    assert_eq!(registry.snapshot(), Vec::<ManagedApp>::new());
    assert!(!registry.contains(&id(1)));
    assert_eq!(registry.get(&id(1)), None);
    assert_eq!(registry.reference_count(&id(1)), 0);
}

#[test]
fn first_add_creates_a_record_with_one_reference() {
    let mut registry = AppRegistry::new();
    let added = registry.add(id(1), &detail("/bin/foo", false));
    let expected = record(1, "foo", Some("/bin/foo"), 1, false);
    assert_eq!(added, Ok(expected.clone()));
    assert_eq!(registry.snapshot(), vec![expected.clone()]);
    assert_eq!(registry.get(&id(1)), Some(expected));
    assert!(registry.contains(&id(1)));
    assert_eq!(registry.len(), 1);
}

#[test]
fn two_adds_and_three_removes_of_one_identity() {
    let mut registry = AppRegistry::new();
    assert!(registry.add(id(1), &detail("/bin/foo", false)).is_ok());
    assert!(registry.add(id(1), &detail("/bin/foo", false)).is_ok());
    assert_eq!(registry.reference_count(&id(1)), 2);
    assert_eq!(registry.remove(&id(1)), Ok(true));
    assert_eq!(registry.reference_count(&id(1)), 1);
    assert!(registry.contains(&id(1)));
    assert_eq!(registry.remove(&id(1)), Ok(false));
    assert!(!registry.contains(&id(1)));
    assert!(registry.is_empty());
    assert_eq!(registry.remove(&id(1)), Err(LauncherError::NotFound));
    assert_eq!(registry.reference_count(&id(1)), 0);
}

#[test]
fn further_add_sets_the_local_path_and_keeps_the_rest() {
    let mut registry = AppRegistry::new();
    assert!(registry.add(id(1), &detail("/bin/foo", false)).is_ok());
    let again = registry.add(id(1), &detail("/opt/other/bar", true));
    let expected = record(1, "foo", Some("/opt/other/bar"), 2, false);
    assert_eq!(again, Ok(expected.clone()));
    assert_eq!(registry.snapshot(), vec![expected]);
}

#[test]
fn add_of_an_empty_path_is_invalid_input() {
    let mut registry = AppRegistry::new();
    assert_eq!(registry.add(id(1), &detail("", true)), Err(LauncherError::InvalidInput));
    assert!(registry.is_empty());
    assert!(registry.add(id(1), &detail("/bin/foo", false)).is_ok());
    assert_eq!(registry.add(id(1), &detail("", true)), Err(LauncherError::InvalidInput));
    assert_eq!(registry.reference_count(&id(1)), 1);
}

#[test]
fn add_beyond_the_largest_count_is_an_internal_error() {
    let full = record(1, "foo", Some("/bin/foo"), u32::MAX, false);
    let almost = record(2, "bar", None, u32::MAX - 1, true);
    let mut registry = AppRegistry::from_records(vec![full.clone(), almost]).unwrap();
    assert_eq!(registry.add(id(1), &detail("/bin/foo", false)), Err(LauncherError::Internal));
    assert_eq!(registry.get(&id(1)), Some(full));
    assert_eq!(
        registry.add(id(2), &detail("/bin/bar", false)),
        Ok(record(2, "bar", Some("/bin/bar"), u32::MAX, true))
    );
    assert_eq!(registry.add(id(2), &detail("/bin/bar", false)), Err(LauncherError::Internal));
}

#[test]
fn records_are_kept_in_the_order_of_their_first_add() {
    let mut registry = AppRegistry::new();
    assert!(registry.add(id(1), &detail("/bin/a", false)).is_ok());
    assert!(registry.add(id(2), &detail("/bin/b", true)).is_ok());
    assert!(registry.add(id(3), &detail("/bin/c", false)).is_ok());
    assert!(registry.add(id(1), &detail("/bin/a", false)).is_ok());
    assert_eq!(
        registry.snapshot(),
        vec![
            record(1, "a", Some("/bin/a"), 2, false),
            record(2, "b", Some("/bin/b"), 1, true),
            record(3, "c", Some("/bin/c"), 1, false),
        ]
    );
    assert_eq!(registry.remove(&id(2)), Ok(false));
    assert_eq!(
        registry.snapshot(),
        vec![record(1, "a", Some("/bin/a"), 2, false), record(3, "c", Some("/bin/c"), 1, false)]
    );
    assert_eq!(registry.remove(&id(1)), Ok(true));
    assert_eq!(
        registry.snapshot(),
        vec![record(1, "a", Some("/bin/a"), 1, false), record(3, "c", Some("/bin/c"), 1, false)]
    );
}

#[test]
fn count_is_successful_adds_minus_successful_removes() {
    let mut registry = AppRegistry::new();
    let mut adds: u32 = 0;
    let mut removes: u32 = 0;
    let script = [true, false, false, true, true, true, false, true, false, false, false, false];
    for is_add in script {
        if is_add {
            if registry.add(id(5), &detail("/bin/foo", false)).is_ok() {
                adds += 1;
            }
        } else {
            match registry.remove(&id(5)) {
                Ok(_) => removes += 1,
                Err(error) => {
                    assert_eq!(error, LauncherError::NotFound);
                    assert_eq!(adds, removes);
                }
            }
        }
        assert_eq!(registry.reference_count(&id(5)), adds - removes);
        assert_eq!(registry.contains(&id(5)), adds > removes);
    }
    assert_eq!(adds, 5);
    assert_eq!(removes, 5);
}

#[test]
fn changes_for_one_identity_leave_the_others() {
    let mut registry = AppRegistry::new();
    assert!(registry.add(id(1), &detail("/bin/a", false)).is_ok());
    assert!(registry.add(id(2), &detail("/bin/b", false)).is_ok());
    assert!(registry.add(id(2), &detail("/bin/b", false)).is_ok());
    assert_eq!(registry.reference_count(&id(1)), 1);
    assert_eq!(registry.remove(&id(2)), Ok(true));
    assert_eq!(registry.reference_count(&id(1)), 1);
    assert_eq!(registry.remove(&id(1)), Ok(false));
    assert_eq!(registry.reference_count(&id(2)), 1);
}

#[test]
fn modification_replaces_only_the_supplied_fields() {
    let mut registry = AppRegistry::new();
    assert!(registry.add(id(1), &detail("/bin/foo", false)).is_ok());
    let renamed = registry.modify(&ModifyAppSettings {
        id: id(1),
        name: Some(String::from("Foo")),
        local_path: None,
        safe_drive_access: None,
    });
    assert_eq!(renamed, Ok(record(1, "Foo", Some("/bin/foo"), 1, false)));
    let moved = registry.modify(&ModifyAppSettings {
        id: id(1),
        name: None,
        local_path: Some(String::from("/opt/foo")),
        safe_drive_access: Some(true),
    });
    assert_eq!(moved, Ok(record(1, "Foo", Some("/opt/foo"), 1, true)));
    assert_eq!(registry.snapshot(), vec![record(1, "Foo", Some("/opt/foo"), 1, true)]);
}

#[test]
fn modification_that_supplies_nothing_changes_nothing() {
    let mut registry = AppRegistry::new();
    assert!(registry.add(id(1), &detail("/bin/foo", true)).is_ok());
    assert!(registry.add(id(2), &detail("/bin/bar", false)).is_ok());
    let before = registry.snapshot();
    let result = registry.modify(&ModifyAppSettings {
        id: id(2),
        name: None,
        local_path: None,
        safe_drive_access: None,
    });
    assert_eq!(result, Ok(record(2, "bar", Some("/bin/bar"), 1, false)));
    assert_eq!(registry.snapshot(), before);
}

#[test]
fn modification_of_an_unknown_identity_is_not_found() {
    let mut registry = AppRegistry::new();
    assert!(registry.add(id(1), &detail("/bin/foo", true)).is_ok());
    let result = registry.modify(&ModifyAppSettings {
        id: id(2),
        name: Some(String::from("x")),
        local_path: None,
        safe_drive_access: None,
    });
    assert_eq!(result, Err(LauncherError::NotFound));
    let both = registry.modify(&ModifyAppSettings {
        id: id(2),
        name: Some(String::new()),
        local_path: None,
        safe_drive_access: None,
    });
    assert_eq!(both, Err(LauncherError::NotFound));
    assert_eq!(registry.snapshot(), vec![record(1, "foo", Some("/bin/foo"), 1, true)]);
}

#[test]
fn modification_to_an_empty_name_is_invalid_input() {
    let mut registry = AppRegistry::new();
    assert!(registry.add(id(1), &detail("/bin/foo", true)).is_ok());
    let result = registry.modify(&ModifyAppSettings {
        id: id(1),
        name: Some(String::new()),
        local_path: Some(String::from("/opt/foo")),
        safe_drive_access: Some(false),
    });
    assert_eq!(result, Err(LauncherError::InvalidInput));
    assert_eq!(registry.snapshot(), vec![record(1, "foo", Some("/bin/foo"), 1, true)]);
}

#[test]
fn registry_from_well_formed_records_holds_them() {
    let records = vec![record(1, "a", None, 3, false), record(2, "b", Some("/bin/b"), 1, true)];
    let registry = AppRegistry::from_records(records.clone()).unwrap();
    assert_eq!(registry.snapshot(), records);
    assert_eq!(registry.reference_count(&id(1)), 3);
    assert!(AppRegistry::from_records(Vec::new()).unwrap().is_empty());
}

#[test]
fn registry_from_broken_records_is_an_internal_error() {
    let twice = vec![record(1, "a", None, 1, false), record(2, "b", None, 1, false), record(1, "c", None, 1, false)];
    assert_eq!(AppRegistry::from_records(twice).err(), Some(LauncherError::Internal));
    let unreferenced = vec![record(1, "a", None, 0, false)];
    assert_eq!(AppRegistry::from_records(unreferenced).err(), Some(LauncherError::Internal));
    let unnamed = vec![record(1, "a", None, 1, false), record(2, "", None, 1, false)];
    assert_eq!(AppRegistry::from_records(unnamed).err(), Some(LauncherError::Internal));
}

use app_handler::errors::LauncherError;
use app_handler::events::event_data::{AppDetail, ManagedApp, ModifyAppSettings};
use app_handler::events::{AppHandlerEvent, ReplyPath};
use app_handler::handler::{AppHandler, Effect, Outcome};
use app_handler::identity::AppIdentity;
use app_handler::observer::{
    AppHandlerNotice, AppHandlerObserver, Notification, ObserverCategory,
};

fn id(byte: u8) -> AppIdentity {
    AppIdentity::new([byte; 64])
}

fn detail(path: &str, access: bool) -> AppDetail {
    AppDetail { absolute_path: String::from(path), safe_drive_access: access }
}

fn record(byte: u8, name: &str, path: Option<&str>, count: u32, access: bool) -> ManagedApp {
    ManagedApp {
        id: id(byte),
        name: String::from(name),
        local_path: path.map(String::from),
        reference_count: count,
        safe_drive_access: access,
    }
}

fn observer(token: u64) -> AppHandlerObserver {
    AppHandlerObserver { token }
}

fn notify(token: u64, notice: &AppHandlerNotice) -> Effect {
    Effect::Notify(Notification { target: observer(token), notice: notice.clone() })
}

fn done(effects: Vec<Effect>) -> Outcome {
    Outcome { failure: None, effects }
}

fn refused(error: LauncherError) -> Outcome {
    Outcome { failure: Some(error), effects: Vec::new() }
}

#[test]
fn add_query_remove_scenario() {
    let mut handler = AppHandler::new();
    let asked = handler.handle(AppHandlerEvent::AddApp(detail("/bin/foo", false)));
    assert_eq!(asked, done(vec![Effect::ResolveIdentity(detail("/bin/foo", false))]));
    assert!(handler.registry().is_empty());

    let expected = record(1, "foo", Some("/bin/foo"), 1, false);
    let added = handler.add_resolved(&detail("/bin/foo", false), id(1));
    assert_eq!(added, done(vec![Effect::Persist(vec![expected.clone()])]));
    assert_eq!(handler.registry().snapshot(), vec![expected.clone()]);

    let path = ReplyPath { token: 11 };
    let answer = handler.handle(AppHandlerEvent::GetAllManagedApps(path));
    assert_eq!(answer, done(vec![Effect::Reply { path, result: Ok(vec![expected]) }]));

    let removed = handler.handle(AppHandlerEvent::RemoveApp(id(1)));
    assert_eq!(removed, done(vec![Effect::Persist(Vec::new())]));
    assert!(handler.registry().is_empty());

    let again = handler.handle(AppHandlerEvent::RemoveApp(id(1)));
    assert_eq!(again, refused(LauncherError::NotFound));
    assert!(handler.registry().is_empty());
}

#[test]
fn add_add_remove_remove_remove_through_the_handler() {
    let mut handler = AppHandler::new();
    handler.register_observer(ObserverCategory::Removed, observer(5));
    assert_eq!(handler.add_resolved(&detail("/bin/foo", false), id(1)).failure, None);
    assert_eq!(handler.add_resolved(&detail("/bin/foo", false), id(1)).failure, None);
    assert_eq!(handler.registry().reference_count(&id(1)), 2);

    let first = handler.remove_app(id(1));
    let still = AppHandlerNotice::Removed { id: id(1), still_managed: true };
    assert_eq!(
        first,
        done(vec![
            Effect::Persist(vec![record(1, "foo", Some("/bin/foo"), 1, false)]),
            notify(5, &still),
        ])
    );
    assert!(handler.registry().contains(&id(1)));

    let second = handler.remove_app(id(1));
    let gone = AppHandlerNotice::Removed { id: id(1), still_managed: false };
    assert_eq!(second, done(vec![Effect::Persist(Vec::new()), notify(5, &gone)]));
    assert!(!handler.registry().contains(&id(1)));

    assert_eq!(handler.remove_app(id(1)), refused(LauncherError::NotFound));
}

#[test]
fn add_command_with_an_empty_path_is_invalid_input() {
    let mut handler = AppHandler::new();
    let outcome = handler.handle(AppHandlerEvent::AddApp(detail("", true)));
    assert_eq!(outcome, refused(LauncherError::InvalidInput));
    assert_eq!(handler.add_resolved(&detail("", true), id(1)), refused(LauncherError::InvalidInput));
    assert!(handler.registry().is_empty());
}

#[test]
fn added_notice_carries_the_resulting_record() {
    let mut handler = AppHandler::new();
    handler.handle(AppHandlerEvent::RegisterAppAddObserver(observer(1)));
    handler.handle(AppHandlerEvent::RegisterAppAddObserver(observer(2)));
    handler.handle(AppHandlerEvent::RegisterAppRemoveObserver(observer(3)));
    let first = handler.add_resolved(&detail("/bin/foo", true), id(1));
    let one = record(1, "foo", Some("/bin/foo"), 1, true);
    let notice = AppHandlerNotice::Added(one.clone());
    assert_eq!(first, done(vec![Effect::Persist(vec![one]), notify(1, &notice), notify(2, &notice)]));
    let second = handler.add_resolved(&detail("/opt/foo", false), id(1));
    let two = record(1, "foo", Some("/opt/foo"), 2, true);
    let notice = AppHandlerNotice::Added(two.clone());
    assert_eq!(second, done(vec![Effect::Persist(vec![two]), notify(1, &notice), notify(2, &notice)]));
}

#[test]
fn empty_modification_notifies_with_the_unchanged_record() {
    let mut handler = AppHandler::new();
    handler.register_observer(ObserverCategory::Modified, observer(9));
    handler.register_observer(ObserverCategory::Added, observer(8));
    assert_eq!(handler.add_resolved(&detail("/bin/foo", true), id(1)).failure, None);
    let before = handler.registry().snapshot();
    let outcome = handler.handle(AppHandlerEvent::ModifyAppSettings(ModifyAppSettings {
        id: id(1),
        name: None,
        local_path: None,
        safe_drive_access: None,
    }));
    let unchanged = record(1, "foo", Some("/bin/foo"), 1, true);
    assert_eq!(
        outcome,
        done(vec![
            Effect::Persist(vec![unchanged.clone()]),
            notify(9, &AppHandlerNotice::Modified(unchanged)),
        ])
    );
    assert_eq!(handler.registry().snapshot(), before);
}

#[test]
fn modification_through_the_handler() {
    let mut handler = AppHandler::new();
    handler.register_observer(ObserverCategory::Modified, observer(9));
    assert_eq!(handler.add_resolved(&detail("/bin/foo", true), id(1)).failure, None);
    let outcome = handler.modify_app_settings(&ModifyAppSettings {
        id: id(1),
        name: Some(String::from("Foo")),
        local_path: Some(String::from("/opt/foo")),
        safe_drive_access: Some(false),
    });
    let changed = record(1, "Foo", Some("/opt/foo"), 1, false);
    assert_eq!(
        outcome,
        done(vec![
            Effect::Persist(vec![changed.clone()]),
            notify(9, &AppHandlerNotice::Modified(changed)),
        ])
    );
    let unknown = handler.modify_app_settings(&ModifyAppSettings {
        id: id(2),
        name: None,
        local_path: None,
        safe_drive_access: None,
    });
    assert_eq!(unknown, refused(LauncherError::NotFound));
    let unnamed = handler.modify_app_settings(&ModifyAppSettings {
        id: id(1),
        name: Some(String::new()),
        local_path: None,
        safe_drive_access: None,
    });
    assert_eq!(unnamed, refused(LauncherError::InvalidInput));
    assert_eq!(handler.registry().snapshot(), vec![record(1, "Foo", Some("/opt/foo"), 1, false)]);
}

#[test]
fn n_events_bring_n_notifications_in_registration_order() {
    let mut handler = AppHandler::new();
    assert_eq!(handler.handle(AppHandlerEvent::RegisterAppActivateObserver(observer(1))), done(Vec::new()));
    assert_eq!(handler.handle(AppHandlerEvent::RegisterAppActivateObserver(observer(2))), done(Vec::new()));
    assert_eq!(handler.add_resolved(&detail("/bin/foo", true), id(1)).failure, None);
    let mut to_first = 0;
    let mut to_second = 0;
    for _ in 0..4 {
        let outcome = handler.handle(AppHandlerEvent::ActivateApp(id(1)));
        let notice = AppHandlerNotice::Activated(id(1));
        assert_eq!(
            outcome,
            done(vec![
                Effect::Launch { id: id(1), binary: String::from("/bin/foo") },
                notify(1, &notice),
                notify(2, &notice),
            ])
        );
        for effect in outcome.effects {
            if let Effect::Notify(notification) = effect {
                if notification.target == observer(1) {
                    to_first += 1;
                }
                if notification.target == observer(2) {
                    to_second += 1;
                }
            }
        }
    }
    assert_eq!(to_first, 4);
    assert_eq!(to_second, 4);
}

#[test]
fn activation_of_what_is_not_here_is_not_found() {
    let mut handler = AppHandler::restore(vec![record(3, "remote", None, 2, false)]).unwrap();
    handler.register_observer(ObserverCategory::Activated, observer(1));
    assert_eq!(handler.activate_app(id(1)), refused(LauncherError::NotFound));
    assert_eq!(handler.activate_app(id(3)), refused(LauncherError::NotFound));
    assert_eq!(handler.add_resolved(&detail("/bin/remote", true), id(3)).failure, None);
    assert_eq!(
        handler.activate_app(id(3)),
        done(vec![
            Effect::Launch { id: id(3), binary: String::from("/bin/remote") },
            notify(1, &AppHandlerNotice::Activated(id(3))),
        ])
    );
    assert_eq!(
        handler.registry().snapshot(),
        vec![record(3, "remote", Some("/bin/remote"), 3, false)]
    );
}

#[test]
fn query_answers_with_a_snapshot_in_registry_order() {
    let mut handler = AppHandler::new();
    assert_eq!(handler.add_resolved(&detail("/bin/a", true), id(1)).failure, None);
    assert_eq!(handler.add_resolved(&detail("/bin/b", false), id(2)).failure, None);
    let path = ReplyPath { token: 77 };
    assert_eq!(
        handler.get_all_managed_apps(path),
        done(vec![Effect::Reply {
            path,
            result: Ok(vec![
                record(1, "a", Some("/bin/a"), 1, true),
                record(2, "b", Some("/bin/b"), 1, false),
            ]),
        }])
    );
    let empty = AppHandler::new();
    assert_eq!(
        empty.get_all_managed_apps(path),
        done(vec![Effect::Reply { path, result: Ok(Vec::new()) }])
    );
}

#[test]
fn terminate_stops_the_loop_once() {
    let mut handler = AppHandler::new();
    assert!(!handler.is_terminated());
    assert_eq!(handler.handle(AppHandlerEvent::Terminate), done(vec![Effect::Stop]));
    assert!(handler.is_terminated());
    assert_eq!(handler.handle(AppHandlerEvent::Terminate), refused(LauncherError::AlreadyTerminated));
    assert!(handler.is_terminated());
}

#[test]
fn nothing_is_carried_out_after_terminate() {
    let mut handler = AppHandler::new();
    handler.register_observer(ObserverCategory::Added, observer(1));
    assert_eq!(handler.add_resolved(&detail("/bin/foo", true), id(1)).failure, None);
    let before = handler.registry().snapshot();
    assert_eq!(handler.terminate(), done(vec![Effect::Stop]));

    let path = ReplyPath { token: 5 };
    assert_eq!(
        handler.handle(AppHandlerEvent::GetAllManagedApps(path)),
        Outcome {
            failure: Some(LauncherError::AlreadyTerminated),
            effects: vec![Effect::Reply { path, result: Err(LauncherError::AlreadyTerminated) }],
        }
    );
    let late = refused(LauncherError::AlreadyTerminated);
    assert_eq!(handler.handle(AppHandlerEvent::AddApp(detail("/bin/bar", true))), late);
    assert_eq!(handler.add_resolved(&detail("/bin/bar", true), id(2)), late);
    assert_eq!(handler.add_resolved(&detail("/bin/foo", true), id(1)), late);
    assert_eq!(handler.handle(AppHandlerEvent::RemoveApp(id(1))), late);
    assert_eq!(handler.handle(AppHandlerEvent::ActivateApp(id(1))), late);
    assert_eq!(
        handler.handle(AppHandlerEvent::ModifyAppSettings(ModifyAppSettings {
            id: id(1),
            name: Some(String::from("x")),
            local_path: None,
            safe_drive_access: None,
        })),
        late
    );
    assert_eq!(handler.handle(AppHandlerEvent::RegisterAppAddObserver(observer(2))), late);
    assert_eq!(handler.handle(AppHandlerEvent::RegisterAppRemoveObserver(observer(2))), late);
    assert_eq!(handler.handle(AppHandlerEvent::RegisterAppActivateObserver(observer(2))), late);
    assert_eq!(handler.handle(AppHandlerEvent::RegisterAppModifyObserver(observer(2))), late);
    assert_eq!(handler.registry().snapshot(), before);
    assert_eq!(handler.observers().observers(ObserverCategory::Added), &vec![observer(1)]);
    assert!(handler.observers().observers(ObserverCategory::Removed).is_empty());
}

#[test]
fn failed_command_leaves_the_registry_as_it_was() {
    let mut handler = AppHandler::restore(vec![record(1, "foo", Some("/bin/foo"), u32::MAX, false)])
        .unwrap();
    handler.register_observer(ObserverCategory::Added, observer(1));
    let before = handler.registry().snapshot();
    assert_eq!(handler.add_resolved(&detail("/bin/foo", true), id(1)), refused(LauncherError::Internal));
    assert_eq!(handler.remove_app(id(2)), refused(LauncherError::NotFound));
    assert_eq!(handler.registry().snapshot(), before);
}

#[test]
fn handler_is_not_restored_from_broken_records() {
    let broken = vec![record(1, "a", None, 1, false), record(1, "b", None, 1, false)];
    assert_eq!(AppHandler::restore(broken).err(), Some(LauncherError::Internal));
    let restored = AppHandler::restore(vec![record(1, "a", None, 1, false)]).unwrap();
    assert!(!restored.is_terminated());
    assert_eq!(restored.registry().snapshot(), vec![record(1, "a", None, 1, false)]);
    assert!(restored.observers().observers(ObserverCategory::Modified).is_empty());
}

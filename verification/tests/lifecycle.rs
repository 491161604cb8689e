use libnotify::{Context, ContextCreationError, Error, NotificationCreationError, Subsystem};

#[test]
fn create_succeeds_and_second_create_fails() {
    let mut sys = Subsystem::new();
    let ctx = Context::new("myapp", &mut sys);
    assert!(ctx.is_ok());
    assert!(sys.initted);
    assert_eq!(sys.app_name.as_deref(), Some("myapp"));
    let second = Context::new("otherapp", &mut sys);
    assert_eq!(second.err(), Some(ContextCreationError::AlreadyExists));
    // The failed attempt touched nothing: one successful init call only.
    assert_eq!(sys.init_log, vec![true]);
}

#[test]
fn nul_in_app_name_makes_no_native_call() {
    let mut sys = Subsystem::new();
    let r = Context::new("bad\0name", &mut sys);
    assert_eq!(r.err(), Some(ContextCreationError::NulError(3)));
    assert!(!sys.initted);
    assert!(sys.init_log.is_empty());
}

#[test]
fn refused_initialization_is_reported() {
    let mut sys = Subsystem::new();
    sys.refuse_init = true;
    let r = Context::new("myapp", &mut sys);
    assert_eq!(r.err(), Some(ContextCreationError::InitError));
    assert!(!sys.initted);
    assert_eq!(sys.init_log, vec![false]);
}

#[test]
fn notification_is_created_and_shown() {
    let mut sys = Subsystem::new();
    let ctx = Context::new("myapp", &mut sys).unwrap();
    let n = ctx
        .new_notification("Summary", Some("Optional Body"), None, &mut sys)
        .unwrap();
    assert_eq!(sys.records.len(), 1);
    assert_eq!(sys.records[0].handle, n.handle);
    assert_eq!(sys.records[0].summary, "Summary");
    assert_eq!(sys.records[0].body.as_deref(), Some("Optional Body"));
    assert_eq!(sys.records[0].icon, None);
    assert_eq!(sys.records[0].timeout, -1);
    assert!(n.show(&mut sys).is_ok());
    assert_eq!(sys.render_log, vec![n.handle]);
}

#[test]
fn nul_in_summary_makes_no_native_call() {
    let mut sys = Subsystem::new();
    let ctx = Context::new("myapp", &mut sys).unwrap();
    let r = ctx.new_notification("Bad\0Name", None, None, &mut sys);
    assert_eq!(r.err(), Some(NotificationCreationError::NulError(3)));
    assert!(sys.create_log.is_empty());
    assert!(sys.records.is_empty());
}

#[test]
fn nul_checks_go_summary_then_body_then_icon() {
    let mut sys = Subsystem::new();
    let ctx = Context::new("myapp", &mut sys).unwrap();
    let r = ctx.new_notification("ok", Some("a\0b"), Some("\0icon"), &mut sys);
    assert_eq!(r.err(), Some(NotificationCreationError::NulError(1)));
    let r = ctx.new_notification("ok", Some("clean"), Some("\0icon"), &mut sys);
    assert_eq!(r.err(), Some(NotificationCreationError::NulError(0)));
    assert!(sys.create_log.is_empty());
}

#[test]
fn refused_creation_is_unknown() {
    let mut sys = Subsystem::new();
    let ctx = Context::new("myapp", &mut sys).unwrap();
    sys.refuse_create = true;
    let r = ctx.new_notification("Summary", None, None, &mut sys);
    assert_eq!(r.err(), Some(NotificationCreationError::Unknown));
    assert_eq!(sys.create_log, vec![false]);
    assert!(sys.records.is_empty());
}

#[test]
fn update_changes_fields_but_renders_nothing() {
    let mut sys = Subsystem::new();
    let ctx = Context::new("myapp", &mut sys).unwrap();
    let n = ctx.new_notification("Before", None, None, &mut sys).unwrap();
    assert!(n.show(&mut sys).is_ok());
    assert_eq!(sys.render_log.len(), 1);
    assert!(n.update("After", Some("NewBody"), None, &mut sys).is_ok());
    // The update reached the subsystem and replaced the fields...
    assert_eq!(sys.update_log, vec![n.handle]);
    assert_eq!(sys.records[0].summary, "After");
    assert_eq!(sys.records[0].body.as_deref(), Some("NewBody"));
    // ...but nothing new was rendered.
    assert_eq!(sys.render_log.len(), 1);
}

#[test]
fn update_with_nul_makes_no_native_call() {
    let mut sys = Subsystem::new();
    let ctx = Context::new("myapp", &mut sys).unwrap();
    let n = ctx.new_notification("Before", None, None, &mut sys).unwrap();
    let r = n.update("x\0y", None, None, &mut sys);
    assert_eq!(r.err(), Some(NotificationCreationError::NulError(1)));
    assert!(sys.update_log.is_empty());
    assert_eq!(sys.records[0].summary, "Before");
}

#[test]
fn show_twice_succeeds_twice() {
    let mut sys = Subsystem::new();
    let ctx = Context::new("myapp", &mut sys).unwrap();
    let n = ctx.new_notification("Summary", None, None, &mut sys).unwrap();
    assert!(n.show(&mut sys).is_ok());
    assert!(n.show(&mut sys).is_ok());
    assert_eq!(sys.render_log, vec![n.handle, n.handle]);
}

#[test]
fn destroyed_context_rejects_surviving_notifications() {
    let mut sys = Subsystem::new();
    let ctx = Context::new("myapp", &mut sys).unwrap();
    let n = ctx.new_notification("Summary", None, None, &mut sys).unwrap();
    ctx.destroy(&mut sys);
    assert!(!sys.initted);
    let shown = n.show(&mut sys);
    let e = shown.err().expect("show after destroy must fail");
    assert_eq!(
        e.message,
        "the notification is no longer valid: its context is gone"
    );
    let updated = n.update("New", None, None, &mut sys);
    assert_eq!(
        updated.err(),
        Some(NotificationCreationError::InvalidParameter)
    );
    // The timeout hint on a stale handle is silently ignored.
    n.set_notification_timeout(1000, &mut sys);
    assert!(sys.records.is_empty());
    // A fresh context may be created again afterwards.
    assert!(Context::new("myapp", &mut sys).is_ok());
}

#[test]
fn two_create_destroy_cycles_succeed() {
    let mut sys = Subsystem::new();
    let first = Context::new("myapp", &mut sys).unwrap();
    first.destroy(&mut sys);
    assert!(!sys.initted);
    assert_eq!(sys.app_name, None);
    let second = Context::new("myapp", &mut sys).unwrap();
    assert!(sys.initted);
    second.destroy(&mut sys);
    assert!(!sys.initted);
    assert_eq!(sys.init_log, vec![true, true]);
}

#[test]
fn show_failure_message_is_surfaced_verbatim() {
    let mut sys = Subsystem::new();
    let ctx = Context::new("myapp", &mut sys).unwrap();
    let n = ctx.new_notification("Summary", None, None, &mut sys).unwrap();
    sys.show_failure = Some("boom".to_string());
    let r = n.show(&mut sys);
    let e = r.err().expect("injected failure must surface");
    assert_eq!(e.message().as_str(), "boom");
    assert_eq!(e.message, "boom");
    assert!(sys.render_log.is_empty());
}

#[test]
fn convenience_show_creates_and_renders() {
    let mut sys = Subsystem::new();
    let ctx = Context::new("myapp", &mut sys).unwrap();
    assert!(ctx.show("I am another notification", None, None, &mut sys).is_ok());
    // The one-step notification was created, rendered, and released.
    assert_eq!(sys.create_log, vec![true]);
    assert_eq!(sys.render_log, vec![1]);
    assert!(sys.records.is_empty());
}

#[test]
fn release_frees_the_record() {
    let mut sys = Subsystem::new();
    let ctx = Context::new("myapp", &mut sys).unwrap();
    let a = ctx.new_notification("first", None, None, &mut sys).unwrap();
    let b = ctx.new_notification("second", None, None, &mut sys).unwrap();
    assert!(a.show(&mut sys).is_ok());
    let a_handle = a.handle;
    a.release(&mut sys);
    assert_eq!(sys.records.len(), 1);
    assert_eq!(sys.records[0].summary, "second");
    // What was rendered stays rendered.
    assert_eq!(sys.render_log, vec![a_handle]);
    assert!(b.show(&mut sys).is_ok());
}

#[test]
fn convenience_show_propagates_the_first_error() {
    let mut sys = Subsystem::new();
    let ctx = Context::new("myapp", &mut sys).unwrap();
    let r = ctx.show("bad\0summary", None, None, &mut sys);
    assert!(matches!(
        r,
        Err(Error::Creation(NotificationCreationError::NulError(3)))
    ));
    sys.show_failure = Some("no screen".to_string());
    let r = ctx.show("fine", None, None, &mut sys);
    match r {
        Err(Error::Show(e)) => assert_eq!(e.message, "no screen"),
        _ => panic!("expected the show step to fail"),
    }
}

#[test]
fn timeout_hint_is_recorded() {
    let mut sys = Subsystem::new();
    let ctx = Context::new("myapp", &mut sys).unwrap();
    let n = ctx.new_notification("Summary", None, None, &mut sys).unwrap();
    n.set_notification_timeout(5000, &mut sys);
    assert_eq!(sys.records[0].timeout, 5000);
}

#[test]
fn empty_texts_are_accepted() {
    let mut sys = Subsystem::new();
    let ctx = Context::new("", &mut sys).unwrap();
    let n = ctx.new_notification("", Some(""), Some(""), &mut sys).unwrap();
    assert_eq!(sys.records[0].summary, "");
    assert_eq!(sys.records[0].body.as_deref(), Some(""));
    assert!(n.show(&mut sys).is_ok());
}

#[test]
fn error_descriptions_are_stable() {
    assert_eq!(
        ContextCreationError::AlreadyExists.message(),
        "A Libnotify context already exists."
    );
    assert_eq!(
        ContextCreationError::InitError.message(),
        "Failed to initialize libnotify."
    );
    assert_eq!(
        ContextCreationError::NulError(0).message(),
        "An interior nul byte was found."
    );
    assert_eq!(
        NotificationCreationError::Unknown.message(),
        "Unknown error"
    );
    assert_eq!(
        NotificationCreationError::InvalidParameter.message(),
        "An invalid parameter was passed"
    );
    assert_eq!(
        NotificationCreationError::NulError(1).message(),
        "An interior nul byte was found."
    );
}

#[test]
fn distinct_notifications_get_distinct_handles() {
    let mut sys = Subsystem::new();
    let ctx = Context::new("myapp", &mut sys).unwrap();
    let a = ctx.new_notification("first", None, None, &mut sys).unwrap();
    let b = ctx.new_notification("second", None, None, &mut sys).unwrap();
    assert_ne!(a.handle, b.handle);
    assert!(a.update("first again", None, None, &mut sys).is_ok());
    assert_eq!(sys.records[0].summary, "first again");
    assert_eq!(sys.records[1].summary, "second");
}

use webshell::window::{
    allowed_host, default_url, plan_open_window, resolve_window_target, LabelCounter, WindowError,
};

#[test]
fn foreign_host_is_blocked() {
    match resolve_window_target(Some("https://evil.example.net/page")) {
        Err(WindowError::BlockedDomain(h)) => assert_eq!(h, "evil.example.net"),
        _ => panic!("expected a blocked domain"),
    }
}

#[test]
fn allowed_host_opens_the_given_url() {
    let target = resolve_window_target(Some("https://app.example.com/docs")).unwrap();
    assert_eq!(target, "https://app.example.com/docs");
}

#[test]
fn no_url_opens_the_default() {
    assert_eq!(resolve_window_target(None).unwrap(), "https://www.example.org/");
}

#[test]
fn blank_url_opens_the_default() {
    assert_eq!(resolve_window_target(Some("   ")).unwrap(), default_url());
    assert_eq!(resolve_window_target(Some("")).unwrap(), default_url());
}

#[test]
fn unparseable_url_is_rejected() {
    assert!(matches!(
        resolve_window_target(Some("not a url")),
        Err(WindowError::InvalidUrl)
    ));
}

#[test]
fn hostless_url_is_blocked() {
    match resolve_window_target(Some("mailto:someone@example.com")) {
        Err(WindowError::BlockedDomain(h)) => assert_eq!(h, ""),
        _ => panic!("expected a blocked domain"),
    }
}

#[test]
fn the_default_url_is_not_on_the_allowed_host() {
    // The default landing page is a different domain than the allow-listed
    // one, so a shortcut fired there is re-validated and blocked.
    let default = default_url();
    match resolve_window_target(Some(default.as_str())) {
        Err(WindowError::BlockedDomain(h)) => assert_ne!(h, allowed_host()),
        _ => panic!("expected a blocked domain"),
    }
}

#[test]
fn labels_count_up_and_never_collide() {
    let mut counter = LabelCounter::new();
    let a = counter.fresh_label();
    let b = counter.fresh_label();
    let c = counter.fresh_label();
    assert_eq!(a, "win-1");
    assert_eq!(b, "win-2");
    assert_eq!(c, "win-3");
    assert_ne!(a, b);
    assert_ne!(b, c);
    assert_ne!(a, c);
}

#[test]
fn open_command_allocates_labels_only_on_success() {
    let mut counter = LabelCounter::new();
    assert!(matches!(
        plan_open_window(&mut counter, Some("https://evil.example.net/")),
        Err(WindowError::BlockedDomain(_))
    ));
    // a rejected request spends no label
    let plan = plan_open_window(&mut counter, None).unwrap();
    assert_eq!(plan.label, "win-1");
    assert_eq!(plan.url, "https://www.example.org/");
    assert_eq!(plan.title, "Web Shell");
    assert_eq!((plan.width, plan.height), (1200, 800));
    assert!(plan.centered);
    let plan2 = plan_open_window(&mut counter, Some("https://app.example.com/a")).unwrap();
    assert_eq!(plan2.label, "win-2");
    assert_eq!(plan2.url, "https://app.example.com/a");
    assert_ne!(plan.label, plan2.label);
}

#[test]
fn window_error_messages() {
    assert_eq!(WindowError::InvalidUrl.message(), "invalid url");
    assert_eq!(
        WindowError::BlockedDomain("evil.example.net".to_string()).message(),
        "blocked domain: evil.example.net"
    );
    assert_eq!(
        WindowError::CreateFailed("oom".to_string()).message(),
        "failed to create window: oom"
    );
}

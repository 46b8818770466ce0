use portfolio::session::{same_text, AdminCredential, Session};
use portfolio::site::{dashboard, dashboard_path, login_error, login_path, submit_contact, DashboardView};
use portfolio::store::ContactStore;

fn admin() -> AdminCredential {
    AdminCredential::new("admin@site.com".to_string(), "s3cret".to_string())
}

fn sample_store() -> ContactStore {
    let mut store = ContactStore::new();
    submit_contact(&mut store, "A", "a@x.io", "one", 100);
    submit_contact(&mut store, "B", "b@x.io", "two", 100);
    submit_contact(&mut store, "C", "c@x.io", "three", 99);
    store
}

#[test]
fn matching_login_opens_dashboard() {
    let (session, granted) = Session::Anonymous.login(&admin(), "admin@site.com", "s3cret");
    assert!(granted);
    assert_eq!(session, Session::Authenticated);
    let store = sample_store();
    match dashboard(session, Some(&store)) {
        DashboardView::Listing { messages, count } => {
            assert_eq!(count, 3);
            assert_eq!(messages.len(), 3);
        }
        DashboardView::RedirectToLogin => panic!("authenticated session was redirected"),
    }
}

#[test]
fn wrong_login_keeps_redirecting() {
    let admin = admin();
    for (email, password) in [
        ("admin@site.com", "wrong"),
        ("Admin@site.com", "s3cret"),
        ("admin@site.com", "S3CRET"),
        ("admin@site.com", "s3cret "),
        ("", ""),
    ] {
        let (session, granted) = Session::Anonymous.login(&admin, email, password);
        assert!(!granted);
        assert_eq!(session, Session::Anonymous);
        assert!(matches!(dashboard(session, Some(&sample_store())), DashboardView::RedirectToLogin));
    }
    assert_eq!(login_error(), "Invalid email or password");
    assert_eq!(login_path(), "/login");
}

#[test]
fn failed_login_keeps_existing_session() {
    let (session, granted) = Session::Authenticated.login(&admin(), "x@y.z", "nope");
    assert!(!granted);
    assert_eq!(session, Session::Authenticated);
}

#[test]
fn unconfigured_credential_refuses_every_login() {
    let unset = AdminCredential::new(String::new(), String::new());
    assert!(!unset.is_configured());
    assert!(!unset.matches("", ""));
    assert!(!unset.matches("a", ""));
    let (session, granted) = Session::Anonymous.login(&unset, "", "");
    assert!(!granted);
    assert_eq!(session, Session::Anonymous);
    let half = AdminCredential::new("admin@site.com".to_string(), String::new());
    assert!(!half.is_configured());
    assert!(!half.matches("admin@site.com", ""));
    assert!(admin().is_configured());
}

#[test]
fn logout_closes_dashboard() {
    let (session, _) = Session::Anonymous.login(&admin(), "admin@site.com", "s3cret");
    let session = session.logout();
    assert_eq!(session, Session::Anonymous);
    assert_eq!(Session::Anonymous.logout(), Session::Anonymous);
    assert!(matches!(dashboard(session, Some(&sample_store())), DashboardView::RedirectToLogin));
}

#[test]
fn listing_is_newest_first() {
    let store = sample_store();
    let rows = store.list_all();
    let names: Vec<&str> = rows.iter().map(|m| m.name.as_str()).collect();
    assert_eq!(names, vec!["C", "B", "A"]);
    let ids: Vec<u64> = rows.iter().map(|m| m.id).collect();
    assert_eq!(ids, vec![3, 2, 1]);
    match dashboard(Session::Authenticated, Some(&store)) {
        DashboardView::Listing { messages, .. } => {
            assert_eq!(messages[0].message, "three");
            assert_eq!(messages[2].message, "one");
        }
        DashboardView::RedirectToLogin => panic!("authenticated session was redirected"),
    }
}

#[test]
fn empty_store_lists_nothing() {
    let store = ContactStore::new();
    assert!(store.list_all().is_empty());
    match dashboard(Session::Authenticated, Some(&store)) {
        DashboardView::Listing { messages, count } => {
            assert_eq!(count, 0);
            assert!(messages.is_empty());
        }
        DashboardView::RedirectToLogin => panic!("authenticated session was redirected"),
    }
}

#[test]
fn unreachable_store_degrades_to_empty() {
    match dashboard(Session::Authenticated, None) {
        DashboardView::Listing { messages, count } => {
            assert_eq!(count, 0);
            assert!(messages.is_empty());
        }
        DashboardView::RedirectToLogin => panic!("authenticated session was redirected"),
    }
    assert!(matches!(dashboard(Session::Anonymous, None), DashboardView::RedirectToLogin));
    assert_eq!(dashboard_path(), "/dashboard");
}

#[test]
fn cookie_round_trip() {
    let key = "9f3c0a7d51e2b84c";
    for s in [Session::Anonymous, Session::Authenticated] {
        assert_eq!(Session::from_cookie(Some(s.cookie_value(key)), key), s);
    }
    assert_eq!(Session::Authenticated.cookie_value(key), key);
    assert_eq!(Session::Anonymous.cookie_value(key), "");
    assert_eq!(Session::from_cookie(None, key), Session::Anonymous);
}

#[test]
fn forged_cookie_stays_anonymous() {
    let key = "9f3c0a7d51e2b84c";
    for forged in ["authenticated", "Authenticated", "", "9f3c0a7d51e2b84", "9f3c0a7d51e2b84c0", "9F3C0A7D51E2B84C"] {
        assert_eq!(Session::from_cookie(Some(forged), key), Session::Anonymous, "{}", forged);
    }
    assert_eq!(Session::from_cookie(Some(""), ""), Session::Anonymous);
    let store = sample_store();
    let session = Session::from_cookie(Some("authenticated"), key);
    assert!(matches!(dashboard(session, Some(&store)), DashboardView::RedirectToLogin));
    assert!(Session::Authenticated.is_authenticated());
    assert!(!Session::Anonymous.is_authenticated());
}

#[test]
fn text_comparison() {
    assert!(same_text("", ""));
    assert!(same_text("héllo", "héllo"));
    assert!(!same_text("hello", "hellO"));
    assert!(!same_text("hello", "hell"));
}

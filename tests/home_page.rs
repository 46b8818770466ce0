use portfolio::portfolio::portfolio;
use portfolio::site::page_reply;

#[test]
fn home_page_content() {
    let p = portfolio();
    assert_eq!(p.name, "Philani Dlamini");
    assert_eq!(p.title, "Full Stack Developer");
    assert!(p.about.starts_with("I'm a passionate developer"));
    assert_eq!(p.skills.len(), 9);
    assert_eq!(p.skills[0], "Python");
    assert_eq!(p.skills[8], "Docker");
    assert_eq!(p.projects.len(), 3);
    assert_eq!(p.projects[0].name, "Futuristic Portfolio Web App");
    assert_eq!(p.projects[0].technologies.len(), 6);
    assert_eq!(
        p.projects[2].github_url.as_deref(),
        Some("https://github.com/Killjoy99/sage_integration")
    );
    assert!(p.projects.iter().all(|pr| pr.live_url.is_none()));
    assert_eq!(p.contact_email, "philani.dlamini@outlook.com");
}

#[test]
fn render_results_become_replies() {
    let ok = page_reply(Some("<h1>Philani</h1>".to_string()));
    assert_eq!(ok.status, 200);
    assert_eq!(ok.body, "<h1>Philani</h1>");
    let failed = page_reply(None);
    assert_eq!(failed.status, 500);
    assert_eq!(failed.body, "Error rendering template");
}

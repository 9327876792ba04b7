use std::sync::Arc;

use web_views::reloader::{BuildError, BuildMode, ContextError, Reloader};
use web_views::templates::{
    dashboard, home, home_context, login_form_context, render_login_form, PageError, TemplateSet,
};

fn sources(templates: &[(&str, &str)]) -> Vec<(String, String)> {
    templates.iter().map(|(n, s)| (n.to_string(), s.to_string())).collect()
}

fn set_with(templates: &[(&str, &str)]) -> TemplateSet {
    TemplateSet::build(sources(templates)).unwrap()
}

fn site(login: &str) -> Result<Arc<TemplateSet>, BuildError> {
    TemplateSet::build(sources(&[("index.html", "<h1>{{ heading }}</h1>"), ("pages/login.html", login)]))
        .map(Arc::new)
}

#[test]
fn home_renders_its_context() {
    let set = set_with(&[("index.html", "{{ title }}|{{ heading }}|{{ content }}")]);
    assert_eq!(home(&set).unwrap(), "My Page|Hello, world!|This is a paragraph.");
}

#[test]
fn login_form_shows_generic_error() {
    let set = set_with(&[("pages/login.html", "<p>{{ error }}</p>")]);
    assert_eq!(render_login_form(&set).unwrap(), "<p>Invalid username or password</p>");
}

#[test]
fn dashboard_renders_with_empty_context() {
    let set = set_with(&[("pages/dashboard.html", "dash[{{ error }}]")]);
    assert_eq!(dashboard(&set).unwrap(), "dash[]");
}

#[test]
fn missing_template_is_not_found() {
    let set = set_with(&[("index.html", "hi")]);
    assert_eq!(dashboard(&set), Err(PageError::TemplateNotFound));
}

#[test]
fn failing_template_is_a_render_error() {
    let set = set_with(&[("index.html", "{{ no_such_function() }}")]);
    assert_eq!(home(&set), Err(PageError::RenderFailed));
}

#[test]
fn page_contexts() {
    let ctx = home_context();
    assert_eq!(ctx.len(), 3);
    assert_eq!(ctx[0], ("title".to_string(), "My Page".to_string()));
    assert_eq!(ctx[1], ("heading".to_string(), "Hello, world!".to_string()));
    assert_eq!(ctx[2], ("content".to_string(), "This is a paragraph.".to_string()));
    let form = login_form_context();
    assert_eq!(form, vec![("error".to_string(), "Invalid username or password".to_string())]);
}

#[test]
fn new_reloader_has_nothing_published() {
    let r: Reloader<u32> = Reloader::new(BuildMode::Watched);
    assert!(!r.is_published());
    assert!(r.current().is_none());
    assert_eq!(r.current_or_error(), Err(ContextError::NotBuilt));
    assert_eq!(r.mode(), BuildMode::Watched);
}

#[test]
fn watched_reload_replaces_the_set() {
    let mut r: Reloader<u32> = Reloader::new(BuildMode::Watched);
    assert!(r.reload(Ok(1)).is_ok());
    assert_eq!(r.current(), Some(&1));
    assert!(r.needs_build());
    assert!(r.reload(Ok(2)).is_ok());
    assert_eq!(r.current(), Some(&2));
    assert_eq!(r.current_or_error(), Ok(&2));
}

#[test]
fn failed_reload_keeps_previous_set() {
    let mut r: Reloader<u32> = Reloader::new(BuildMode::Watched);
    r.reload(Ok(7)).unwrap();
    let err = BuildError { template: "login.html".to_string(), message: "bad tag".to_string() };
    let reported = r.reload(Err(err)).unwrap_err();
    assert_eq!(reported.template, "login.html");
    assert_eq!(reported.message, "bad tag");
    assert_eq!(r.current(), Some(&7));
}

#[test]
fn failed_first_build_leaves_nothing_published() {
    let mut r: Reloader<u32> = Reloader::new(BuildMode::Static);
    let err = BuildError { template: String::new(), message: "x".to_string() };
    assert!(r.reload(Err(err)).is_err());
    assert!(!r.is_published());
    assert!(r.needs_build());
}

#[test]
fn static_mode_builds_once() {
    let mut r: Reloader<u32> = Reloader::new(BuildMode::Static);
    assert!(r.needs_build());
    r.reload(Ok(1)).unwrap();
    assert!(!r.needs_build());
    assert!(r.reload(Ok(2)).is_ok());
    assert_eq!(r.current(), Some(&1));
}

#[test]
fn malformed_template_fails_build_and_is_named() {
    let err = TemplateSet::build(sources(&[("index.html", "ok"), ("pages/login.html", "{% if %}")]))
        .err()
        .unwrap();
    assert_eq!(err.template, "pages/login.html");
    assert!(!err.message.is_empty());
}

#[test]
fn set_lists_its_templates() {
    let set = set_with(&[("index.html", "a"), ("pages/login.html", "b")]);
    assert!(set.contains("index.html"));
    assert!(set.contains("pages/login.html"));
    assert!(!set.contains("pages/dashboard.html"));
    let empty = set_with(&[]);
    assert_eq!(home(&empty), Err(PageError::TemplateNotFound));
}

#[test]
fn templates_can_include_each_other() {
    let set = set_with(&[("index.html", "[{% include 'part.html' %}]"), ("part.html", "{{ title }}")]);
    assert_eq!(home(&set).unwrap(), "[My Page]");
}

#[test]
fn watched_scenario_publishes_new_content_and_keeps_old_handles() {
    let mut r: Reloader<Arc<TemplateSet>> = Reloader::new(BuildMode::Watched);
    r.reload(site("v1 {{ error }}")).unwrap();
    let before = r.current().unwrap().clone();
    assert!(before.contains("index.html") && before.contains("pages/login.html"));
    assert_eq!(render_login_form(&before).unwrap(), "v1 Invalid username or password");

    r.reload(site("v2 {{ error }}")).unwrap();
    let after = r.current().unwrap().clone();
    assert_eq!(render_login_form(&after).unwrap(), "v2 Invalid username or password");
    assert_eq!(render_login_form(&before).unwrap(), "v1 Invalid username or password");
    assert_eq!(home(&before).unwrap(), "<h1>Hello, world!</h1>");
}

#[test]
fn watched_build_failure_keeps_published_set() {
    let mut r: Reloader<Arc<TemplateSet>> = Reloader::new(BuildMode::Watched);
    r.reload(site("ok")).unwrap();
    let before = r.current().unwrap().clone();

    let err = r.reload(site("{% if %}")).unwrap_err();
    assert_eq!(err.template, "pages/login.html");
    for _ in 0..3 {
        assert!(Arc::ptr_eq(r.current_or_error().unwrap(), &before));
    }
    assert_eq!(render_login_form(&before).unwrap(), "ok");
}

#[test]
fn first_malformed_template_is_named() {
    let err = TemplateSet::build(sources(&[
        ("a.html", "fine"),
        ("b.html", "{% for %}"),
        ("c.html", "{% if %}"),
    ]))
    .err()
    .unwrap();
    assert_eq!(err.template, "b.html");
}

#[test]
fn engine_state_dump_is_not_available() {
    let set = set_with(&[("index.html", "{{ debug() }}"), ("b.html", "x")]);
    assert_eq!(home(&set), Err(PageError::RenderFailed));
}

#[test]
fn well_formed_cold_start_holds_both_templates() {
    let set = site("{{ error }}").unwrap();
    assert!(set.contains("index.html"));
    assert!(set.contains("pages/login.html"));
    assert_eq!(home(&set).unwrap(), "<h1>Hello, world!</h1>");
}

use sentinel::data::SQLHandler;
use sentinel::gui::{bind_event, GUIComponent, GUIContainer, Renderable, Script};
use sentinel::roles::RoleViews;
use sentinel::template::Template;
use sentinel::work::Work;

fn pairs(items: &[(&str, &str)]) -> Vec<(String, String)> {
    items
        .iter()
        .map(|(k, v)| (k.to_string(), v.to_string()))
        .collect()
}

#[test]
fn apply_replaces_placeholders_in_all_three_texts() {
    let template = Template {
        html: "<h1>{{title}}</h1>".to_string(),
        css: "h1 { color: {{color}}; }".to_string(),
        js: "console.log('{{title}}');".to_string(),
    };
    let applied = template.apply(&pairs(&[("title", "Home"), ("color", "red")]));
    assert_eq!(applied.html, "<h1>Home</h1>");
    assert_eq!(applied.css, "h1 { color: red; }");
    assert_eq!(applied.js, "console.log('Home');");
}

#[test]
fn apply_replaces_every_occurrence() {
    let template = Template {
        html: "{{x}} and {{x}}".to_string(),
        css: String::new(),
        js: String::new(),
    };
    let applied = template.apply(&pairs(&[("x", "y")]));
    assert_eq!(applied.html, "y and y");
}

#[test]
fn render_frames_the_texts_exactly() {
    let template = Template {
        html: "<p>Hi</p>".to_string(),
        css: "p{}".to_string(),
        js: "go();".to_string(),
    };
    let expected = "\n            <style>p{}</style>\n            <p>Hi</p>\n            <script>go();</script>\n            ";
    assert_eq!(template.render(), expected);
}

#[test]
fn work_applies_templates() {
    let work = Work::new();
    let template = Template {
        html: "{{a}}".to_string(),
        css: String::new(),
        js: String::new(),
    };
    let applied = work.apply_template(template, &pairs(&[("a", "b")]));
    assert_eq!(applied.html, "b");
}

#[test]
fn sql_placeholder_echoes_the_query() {
    assert_eq!(
        SQLHandler.query("SELECT 1"),
        Ok("Executed SQL: SELECT 1".to_string())
    );
    let work = Work::new();
    assert_eq!(
        work.sql_query("SELECT 2"),
        Ok("Executed SQL: SELECT 2".to_string())
    );
}

#[test]
fn script_wraps_itself_in_a_tag() {
    let script = Script::new("boot", "init();");
    assert_eq!(
        script.as_html(),
        "<script id=\"script_boot\">init();</script>"
    );
}

#[test]
fn bind_event_builds_the_listener_js() {
    let js = bind_event("login", "onLogin");
    let expected = "\n        document.addEventListener(\"login\", (e) => {\n            if (typeof onLogin === \"function\") {\n                onLogin(e.detail);\n            }\n        });\n        ";
    assert_eq!(js, expected);
}

#[test]
fn component_renders_html_with_props() {
    let component = GUIComponent::new("card")
        .with_html("<p>{{title}}</p>")
        .with_prop("title", "Dashboard");
    assert_eq!(component.render(), "<p>Dashboard</p>");
}

#[test]
fn component_with_css_gets_a_style_block() {
    let component = GUIComponent::new("card")
        .with_html("<p>x</p>")
        .with_css("p{margin:0}");
    assert_eq!(
        component.render(),
        "<style id=\"card_style\">p{margin:0}</style>\n<p>x</p>"
    );
}

#[test]
fn container_joins_children_with_newlines() {
    let container = GUIContainer::new()
        .add(GUIComponent::new("a").with_html("<a/>"))
        .add(GUIComponent::new("b").with_html("<b/>"));
    assert_eq!(container.render(), "<a/>\n<b/>");
    assert_eq!(GUIContainer::new().render(), "");
}

#[test]
fn role_views_resolve_by_role() {
    let admin_view = GUIContainer::new().add(GUIComponent::new("admin").with_html("<admin/>"));
    let views = RoleViews::new().register_role_view("admin".to_string(), admin_view);
    let admin = sentinel::auth::User {
        username: "u".to_string(),
        password_hash: "h".to_string(),
        role: "admin".to_string(),
    };
    let guest = sentinel::auth::User {
        username: "g".to_string(),
        password_hash: "h".to_string(),
        role: "guest".to_string(),
    };
    assert!(views.resolve(&admin).is_some());
    assert!(views.resolve(&guest).is_none());
    let fallback = GUIContainer::new().add(GUIComponent::new("f").with_html("<f/>"));
    assert_eq!(views.resolve_or_default(&guest, &fallback).render(), "<f/>");
    assert_eq!(views.resolve_or_default(&admin, &fallback).render(), "<admin/>");
}

#[test]
fn work_resolves_views_with_fallback() {
    let admin_view = GUIContainer::new().add(GUIComponent::new("admin").with_html("<admin/>"));
    let work = Work::new().register_role_view("admin".to_string(), admin_view);
    let admin = sentinel::auth::User {
        username: "u".to_string(),
        password_hash: "h".to_string(),
        role: "admin".to_string(),
    };
    let guest = sentinel::auth::User {
        username: "g".to_string(),
        password_hash: "h".to_string(),
        role: "guest".to_string(),
    };
    let fallback = GUIContainer::new().add(GUIComponent::new("f").with_html("<f/>"));
    assert_eq!(work.resolve_view(&admin, &fallback).render(), "<admin/>");
    assert_eq!(work.resolve_view(&guest, &fallback).render(), "<f/>");
}

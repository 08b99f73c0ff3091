use metallian_photos::template::tera::TeraRenderer;
use metallian_photos::template::TemplateError;

#[test]
fn render_returns_404_not_found_for_missing_template() {
    // Arrange — an engine that holds no template named "test"
    let renderer = TeraRenderer::from_engine(tera::Tera::default());
    let template_name = "test";
    let context = serde_json::Value::Object(serde_json::Map::new());

    // Act
    let result = renderer.render(template_name, &context);

    // Assert
    assert!(matches!(result, Err(TemplateError::NotFound(_))));
}

#[test]
fn render_fills_a_held_template() {
    let mut engine = tera::Tera::default();
    engine.add_raw_template("hello.html", "Hello {{ name }}").unwrap();
    let renderer = TeraRenderer::from_engine(engine);
    let mut fields = serde_json::Map::new();
    fields.insert("name".to_string(), serde_json::Value::String("Lemmy".to_string()));
    let html = renderer.render("hello.html", &serde_json::Value::Object(fields)).unwrap();
    assert_eq!(html, "Hello Lemmy");
}

#[test]
fn render_refuses_a_context_that_is_not_an_object() {
    let mut engine = tera::Tera::default();
    engine.add_raw_template("hello.html", "Hello").unwrap();
    let renderer = TeraRenderer::from_engine(engine);
    let result = renderer.render("hello.html", &serde_json::Value::Bool(true));
    assert!(matches!(result, Err(TemplateError::Operation(m)) if m == "Unable to build the page context"));
}

#[test]
fn page_context_for_checks_the_template_then_the_context() {
    let mut engine = tera::Tera::default();
    engine.add_raw_template("hello.html", "Hello").unwrap();
    let renderer = TeraRenderer::from_engine(engine);
    let object = serde_json::Value::Object(serde_json::Map::new());
    assert!(renderer.page_context_for("hello.html", &object).is_ok());
    assert!(matches!(
        renderer.page_context_for("missing.html", &serde_json::Value::Null),
        Err(TemplateError::NotFound(n)) if n == "missing.html"
    ));
    assert!(matches!(
        renderer.page_context_for("hello.html", &serde_json::Value::Null),
        Err(TemplateError::Operation(_))
    ));
}

#[test]
fn render_reports_a_failed_render() {
    let mut engine = tera::Tera::default();
    engine.add_raw_template("bad.html", "{{ missing_variable }}").unwrap();
    let renderer = TeraRenderer::from_engine(engine);
    let result = renderer.render("bad.html", &serde_json::Value::Object(serde_json::Map::new()));
    assert!(matches!(result, Err(TemplateError::Operation(m)) if m.starts_with("Tera engine failed to render template: ")));
}

use bang_web::render::{build_context, plan_render, render_outcome, RenderPlan};

fn engine() -> tera::Tera {
    let mut t = tera::Tera::default();
    t.add_raw_template("start", "{{ pog }} / {{ submit }}").unwrap();
    t
}

fn render(file: &str, t: tera::Tera, page: &str, pairs: Vec<(&str, &str)>) -> (String, bool) {
    match plan_render(&t, page, &pairs) {
        RenderPlan::UseFile => (file.to_string(), false),
        RenderPlan::Render(ctx) => {
            let (text, err) = render_outcome(t.render(page, &ctx), file.to_string());
            (text, err.is_some())
        }
    }
}

#[test]
fn renders_with_substitutions() {
    let out = render("fallback", engine(), "start", vec![("pog", "helo"), ("submit", "Time to submit")]);
    assert_eq!(out, ("helo / Time to submit".to_string(), false));
}

#[test]
fn later_pair_wins() {
    let out = render("fallback", engine(), "start", vec![("pog", "a"), ("submit", "b"), ("pog", "c")]);
    assert_eq!(out, ("c / b".to_string(), false));
}

#[test]
fn unknown_template_uses_file_text() {
    assert!(matches!(plan_render(&engine(), "missing", &vec![]), RenderPlan::UseFile));
    assert!(matches!(plan_render(&tera::Tera::default(), "start", &vec![("pog", "x")]), RenderPlan::UseFile));
    assert!(matches!(plan_render(&engine(), "start", &vec![]), RenderPlan::Render(_)));
}

#[test]
fn failed_rendering_gives_file_text_and_error() {
    let out = render("the file", engine(), "start", vec![("pog", "only")]);
    assert_eq!(out, ("the file".to_string(), true));
}

#[test]
fn outcome_keeps_rendered_text() {
    let (text, err) = render_outcome(Ok("page".to_string()), "file".to_string());
    assert_eq!(text, "page");
    assert!(err.is_none());
}

#[test]
fn context_holds_the_pairs() {
    let c = build_context(&vec![("k", "v"), ("k", "w"), ("j", "x")]);
    let json = c.into_json();
    assert_eq!(json["k"], "w");
    assert_eq!(json["j"], "x");
    assert_eq!(json.as_object().unwrap().len(), 2);
}

#[test]
fn plan_context_holds_the_pairs() {
    match plan_render(&engine(), "start", &vec![("pog", "1")]) {
        RenderPlan::Render(ctx) => assert_eq!(ctx.into_json()["pog"], "1"),
        RenderPlan::UseFile => panic!("template is there"),
    }
}

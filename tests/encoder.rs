use shiny_rs::{
    html_values_frame, insert_html, ns, remove_html, render_html, render_plot, run_js,
    select_options, show_notification, update_numeric_input, update_select_input,
    update_text_input,
};

fn parse(text: &str) -> serde_json::Value {
    serde_json::from_str(text).unwrap()
}

#[test]
fn render_html_envelope() {
    let r = render_html("out1", "<b>hi</b>");
    assert_eq!(parse(&r), parse(r#"{"values":{"out1":{"html":"<b>hi</b>","deps":[]}}}"#));
    assert_eq!(r, r#"{"values":{"out1":{"html":"<b>hi</b>","deps":[]}}}"#);
}

#[test]
fn render_html_escapes_strings() {
    let r = render_html("o\"1", "a\"b\\c\n");
    let v = parse(&r);
    assert_eq!(v["values"]["o\"1"]["html"], serde_json::Value::String("a\"b\\c\n".to_string()));
}

#[test]
fn html_values_frame_is_verbatim() {
    assert_eq!(html_values_frame("\"a\"", "\"b\""), r#"{"values":{"a":{"html":"b","deps":[]}}}"#);
}

#[test]
fn render_plot_envelope() {
    let r = render_plot("p", "data:image/png;base64,AA==");
    assert_eq!(
        parse(&r),
        parse(r#"{"values":{"p":{"src":"data:image/png;base64,AA==","height":"100%","style":"object-fit:contain"}}}"#)
    );
}

#[test]
fn notification_envelope() {
    let r = show_notification(r#"{"html":"saved","duration":3}"#);
    assert_eq!(
        parse(&r),
        parse(r#"{"notification":{"type":"show","message":{"html":"saved","duration":3}}}"#)
    );
}

#[test]
fn insert_envelope() {
    let r = insert_html("#main", "afterEnd", "<p>x</p>");
    assert_eq!(
        parse(&r),
        parse(r##"{"shiny-insert-ui":{"selector":"#main","multiple":false,"where":"afterEnd","content":{"html":"<p>x</p>","deps":[]}}}"##)
    );
}

#[test]
fn remove_envelope() {
    let r = remove_html("#main");
    assert_eq!(parse(&r), parse(r##"{"shiny-remove-ui":{"selector":"#main","multiple":false}}"##));
}

#[test]
fn script_envelope() {
    let r = run_js("alert(\"x\")");
    assert_eq!(parse(&r), parse(r#"{"javascript":"alert(\"x\")"}"#));
}

#[test]
fn input_update_envelopes() {
    let expected = parse(r#"{"errors":{},"values":{},"inputMessages":[{"id":"n","message":{"value":5}}]}"#);
    assert_eq!(parse(&update_text_input("n", r#"{"value":5}"#)), expected);
    assert_eq!(parse(&update_numeric_input("n", r#"{"value":5}"#)), expected);
    assert_eq!(parse(&update_select_input("n", r#"{"value":5}"#)), expected);
}

#[test]
fn select_options_in_order() {
    let r = select_options(vec![
        ("One".to_string(), "1".to_string()),
        ("Two".to_string(), "2".to_string()),
    ]);
    assert_eq!(r, r#"<option value="1">One</option><option value="2">Two</option>"#);
    assert_eq!(select_options(vec![]), "");
}

#[test]
fn select_options_verbatim() {
    let r = select_options(vec![("<i>".to_string(), "\"".to_string())]);
    assert_eq!(r, r#"<option value=""">"<i>"</option>"#.replace("\"<i>\"", "<i>"));
}

#[test]
fn namespaced_id() {
    assert_eq!(ns("mod", "plot"), "mod-plot");
}

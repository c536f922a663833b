use khonsu_tools::audit::annotation::{distinct_names, render_line, render_output, Rendered};
use khonsu_tools::audit::record::{decode, Diagnostic, Graph, Label, Report};
use khonsu_tools::audit::{executing_on_ci, Action, Audit, Config, DefaultConfig, Event, State};
use khonsu_tools::json::Json;

fn graph(name: &str) -> Graph {
    Graph { name: name.to_string() }
}

fn diagnostic(graphs: Vec<Graph>, labels: Vec<Label>) -> Diagnostic {
    Diagnostic {
        code: "C1".to_string(),
        graphs,
        labels,
        message: "bad dep".to_string(),
        severity: "error".to_string(),
    }
}

fn label(span: &str) -> Label {
    Label { column: 3, line: 7, message: "here".to_string(), span: span.to_string() }
}

fn member(key: &str, value: Json) -> (String, Json) {
    (key.to_string(), value)
}

fn text(value: &str) -> Json {
    Json::Text(value.to_string())
}

#[test]
fn diagnostic_line_becomes_one_annotation() {
    let line = r#"{"type":"diagnostic","fields":{"code":"C1","graphs":[{"name":"pkgA"}],"labels":[],"message":"bad dep","severity":"error"}}"#;
    let record = decode(line).expect("a diagnostic");
    assert_eq!(khonsu_tools::audit::annotation::format(&record), vec!["::error::pkgA: bad dep".to_string()]);
}

#[test]
fn decoded_diagnostic_keeps_every_field() {
    let line = r#"{"type":"diagnostic","fields":{"code":"C1","graphs":[{"name":"a"},{"name":"b"}],"labels":[{"column":4,"line":12,"message":"m","span":"s"}],"message":"bad dep","severity":"warning"}}"#;
    match decode(line) {
        Some(Report::Diagnostic(d)) => {
            assert_eq!(d.code, "C1");
            assert_eq!(d.graphs.len(), 2);
            assert_eq!(d.graphs[0].name, "a");
            assert_eq!(d.graphs[1].name, "b");
            assert_eq!(d.labels.len(), 1);
            assert_eq!(d.labels[0].column, 4);
            assert_eq!(d.labels[0].line, 12);
            assert_eq!(d.labels[0].message, "m");
            assert_eq!(d.labels[0].span, "s");
            assert_eq!(d.message, "bad dep");
            assert_eq!(d.severity, "warning");
        }
        _ => panic!("expected a diagnostic"),
    }
}

#[test]
fn summary_line_has_no_output() {
    let record = decode(r#"{"type":"summary","fields":{}}"#).expect("a summary");
    assert!(matches!(record, Report::Summary));
    assert!(khonsu_tools::audit::annotation::format(&record).is_empty());
}

#[test]
fn summary_ignores_its_content() {
    let record = decode(r#"{"type":"summary","fields":{"advisories":{"found":2}}}"#);
    assert!(matches!(record, Some(Report::Summary)));
}

#[test]
fn text_that_is_not_json_is_not_decoded() {
    assert!(decode("not json at all").is_none());
}

#[test]
fn text_that_is_not_json_passes_through_unchanged() {
    match render_line("not json at all") {
        Rendered::Raw(line) => assert_eq!(line, "not json at all"),
        Rendered::Annotations(_) => panic!("expected the raw line"),
    }
}

#[test]
fn unknown_tag_is_not_decoded() {
    assert!(decode(r#"{"type":"other","fields":{}}"#).is_none());
    assert!(decode(r#"{"type":"Diagnostic","fields":{}}"#).is_none());
}

#[test]
fn untagged_document_passes_through_unchanged() {
    let line = r#"  {"fields": {}}  "#;
    match render_line(line) {
        Rendered::Raw(raw) => assert_eq!(raw, line),
        Rendered::Annotations(_) => panic!("expected the raw line"),
    }
}

#[test]
fn missing_field_is_not_decoded() {
    let line = r#"{"type":"diagnostic","fields":{"code":"C1","graphs":[],"labels":[],"message":"bad dep"}}"#;
    assert!(decode(line).is_none());
}

#[test]
fn missing_content_is_not_decoded() {
    assert!(decode(r#"{"type":"summary"}"#).is_none());
    assert!(decode(r#"{"type":"diagnostic"}"#).is_none());
}

#[test]
fn wrong_field_type_is_not_decoded() {
    let line = r#"{"type":"diagnostic","fields":{"code":1,"graphs":[],"labels":[],"message":"m","severity":"error"}}"#;
    assert!(decode(line).is_none());
    let line = r#"{"type":"diagnostic","fields":{"code":"C","graphs":{},"labels":[],"message":"m","severity":"error"}}"#;
    assert!(decode(line).is_none());
}

#[test]
fn label_numbers_must_be_natural() {
    let with = |column: &str| {
        format!(
            r#"{{"type":"diagnostic","fields":{{"code":"C","graphs":[],"labels":[{{"column":{},"line":1,"message":"m","span":"s"}}],"message":"m","severity":"error"}}}}"#,
            column
        )
    };
    assert!(decode(&with("0")).is_some());
    assert!(decode(&with("18446744073709551615")).is_some());
    assert!(decode(&with("-1")).is_none());
    assert!(decode(&with("1.5")).is_none());
    assert!(decode(&with("1.0")).is_none());
    assert!(decode(&with("18446744073709551616")).is_none());
    assert!(decode(&with("\"1\"")).is_none());
}

#[test]
fn one_bad_label_spoils_the_record() {
    let line = r#"{"type":"diagnostic","fields":{"code":"C","graphs":[],"labels":[{"column":1,"line":1,"message":"m","span":"s"},{"column":1,"line":1,"message":"m"}],"message":"m","severity":"error"}}"#;
    assert!(decode(line).is_none());
}

#[test]
fn record_decodes_from_a_document_built_by_hand() {
    let fields = Json::Object(vec![
        member("code", text("C1")),
        member("graphs", Json::Array(vec![Json::Object(vec![member("name", text("pkgA"))])])),
        member(
            "labels",
            Json::Array(vec![Json::Object(vec![
                member("column", Json::Number("007".to_string())),
                member("line", Json::Number("12".to_string())),
                member("message", text("m")),
                member("span", text("s")),
            ])]),
        ),
        member("message", text("bad dep")),
        member("severity", text("error")),
        member("extra", Json::Null),
    ]);
    let document = Json::Object(vec![member("fields", fields), member("type", text("diagnostic"))]);
    match Report::decode(&document) {
        Some(Report::Diagnostic(d)) => {
            assert_eq!(d.graphs[0].name, "pkgA");
            assert_eq!(d.labels[0].column, 7);
            assert_eq!(d.labels[0].line, 12);
        }
        _ => panic!("expected a diagnostic"),
    }
}

#[test]
fn summary_content_must_be_an_object() {
    let document = Json::Object(vec![member("type", text("summary")), member("fields", Json::Null)]);
    assert!(Report::decode(&document).is_none());
    let document =
        Json::Object(vec![member("type", text("summary")), member("fields", Json::Object(vec![]))]);
    assert!(matches!(Report::decode(&document), Some(Report::Summary)));
}

#[test]
fn repeated_graph_names_appear_once() {
    let record = Report::Diagnostic(diagnostic(vec![graph("a"), graph("b"), graph("a")], vec![]));
    assert_eq!(khonsu_tools::audit::annotation::format(&record), vec!["::error::a; b: bad dep".to_string()]);
}

#[test]
fn repeated_graph_names_appear_once_in_any_order() {
    let record = Report::Diagnostic(diagnostic(vec![graph("b"), graph("a"), graph("a")], vec![]));
    assert_eq!(khonsu_tools::audit::annotation::format(&record), vec!["::error::b; a: bad dep".to_string()]);
    let record = Report::Diagnostic(diagnostic(vec![graph("a"), graph("a"), graph("b")], vec![]));
    assert_eq!(khonsu_tools::audit::annotation::format(&record), vec!["::error::a; b: bad dep".to_string()]);
}

#[test]
fn graph_names_are_compared_exactly() {
    let names = distinct_names(&vec![graph("a"), graph("A"), graph("a "), graph("a")]);
    assert_eq!(names, vec!["a".to_string(), "A".to_string(), "a ".to_string()]);
}

#[test]
fn no_graphs_leave_the_names_empty() {
    let record = Report::Diagnostic(diagnostic(vec![], vec![]));
    assert_eq!(khonsu_tools::audit::annotation::format(&record), vec!["::error::: bad dep".to_string()]);
}

#[test]
fn span_lines_are_joined() {
    let record = Report::Diagnostic(diagnostic(vec![graph("pkgA")], vec![label("line1\nline2")]));
    let output = khonsu_tools::audit::annotation::format(&record);
    assert_eq!(output.len(), 2);
    assert_eq!(output[0], "::error::pkgA: bad dep");
    assert_eq!(output[1], "::error::line1; line2");
    assert!(output[1].ends_with("line1; line2"));
}

#[test]
fn labels_keep_their_order() {
    let record = Report::Diagnostic(diagnostic(
        vec![graph("p")],
        vec![label("first"), label("second\r\nthird\n"), label("")],
    ));
    assert_eq!(
        khonsu_tools::audit::annotation::format(&record),
        vec![
            "::error::p: bad dep".to_string(),
            "::error::first".to_string(),
            "::error::second; third".to_string(),
            "::error::".to_string(),
        ]
    );
}

#[test]
fn decode_then_format_repeats_itself() {
    let line = r#"{"type":"diagnostic","fields":{"code":"C1","graphs":[{"name":"z"},{"name":"a"},{"name":"z"},{"name":"m"}],"labels":[{"column":1,"line":2,"message":"m","span":"x\ny"}],"message":"bad dep","severity":"error"}}"#;
    let first = khonsu_tools::audit::annotation::format(&decode(line).unwrap());
    for _ in 0..20 {
        assert_eq!(khonsu_tools::audit::annotation::format(&decode(line).unwrap()), first);
    }
    assert_eq!(first, vec!["::error::z; a; m: bad dep".to_string(), "::error::x; y".to_string()]);
}

#[test]
fn output_is_rendered_line_by_line() {
    let output = "warning: something\n{\"type\":\"summary\",\"fields\":{}}\n{\"type\":\"diagnostic\",\"fields\":{\"code\":\"C1\",\"graphs\":[{\"name\":\"pkgA\"}],\"labels\":[],\"message\":\"bad dep\",\"severity\":\"error\"}}\r\nlast";
    let rendered = render_output(output);
    assert_eq!(rendered.len(), 4);
    assert!(matches!(&rendered[0], Rendered::Raw(line) if line == "warning: something"));
    assert!(matches!(&rendered[1], Rendered::Annotations(lines) if lines.is_empty()));
    assert!(
        matches!(&rendered[2], Rendered::Annotations(lines) if lines == &vec!["::error::pkgA: bad dep".to_string()])
    );
    assert!(matches!(&rendered[3], Rendered::Raw(line) if line == "last"));
}

#[test]
fn continuous_integration_needs_a_value() {
    assert!(executing_on_ci(&Some("true".to_string())));
    assert!(executing_on_ci(&Some("0".to_string())));
    assert!(!executing_on_ci(&Some(String::new())));
    assert!(!executing_on_ci(&None));
}

#[test]
fn default_arguments_exclude_xtask_where_present() {
    assert_eq!(DefaultConfig::args(false), vec!["--all-features".to_string()]);
    assert_eq!(
        DefaultConfig::args(true),
        vec!["--all-features".to_string(), "--exclude=xtask".to_string()]
    );
}

fn spawn_of(action: Action) -> (String, Vec<String>, Vec<(String, String)>, bool) {
    match action {
        Action::Spawn { invocation, capture } => {
            (invocation.program, invocation.args, invocation.env, capture)
        }
        _ => panic!("expected a spawn"),
    }
}

#[test]
fn buffered_run_assembles_the_plain_command_line() {
    let (audit, action) = Audit::<DefaultConfig>::execute(None, None, false);
    assert_eq!(audit.state(), State::Running { streaming: false });
    let (program, args, env, capture) = spawn_of(action);
    assert_eq!(program, "cargo");
    assert_eq!(args, vec!["deny", "--all-features", "check"]);
    assert!(env.is_empty());
    assert!(!capture);
}

#[test]
fn streaming_run_asks_for_json() {
    let (audit, action) = Audit::<DefaultConfig>::execute(
        Some("licenses".to_string()),
        Some("true".to_string()),
        true,
    );
    assert_eq!(audit.state(), State::Running { streaming: true });
    let (program, args, _, capture) = spawn_of(action);
    assert_eq!(program, "cargo");
    assert_eq!(
        args,
        vec!["deny", "--format=json", "--all-features", "--exclude=xtask", "check", "licenses"]
    );
    assert!(capture);
}

struct Offline;

impl Config for Offline {
    fn args(_xtask_present: bool) -> Vec<String> {
        vec!["--offline".to_string(), "--workspace".to_string()]
    }
}

#[test]
fn configured_arguments_stand_before_the_check() {
    let (_, action) = Audit::<Offline>::execute(Some("bans".to_string()), None, true);
    let (_, args, _, _) = spawn_of(action);
    assert_eq!(args, vec!["deny", "--offline", "--workspace", "check", "bans"]);
}

#[test]
fn streamed_run_mirrors_the_exit_status() {
    for success in [true, false] {
        let (mut audit, _) = Audit::<DefaultConfig>::execute(None, Some("1".to_string()), false);
        assert!(matches!(audit.step(Event::Spawned), Action::Read));
        assert_eq!(audit.state(), State::StreamingOutput);
        match audit.step(Event::Line { line: "plain".to_string() }) {
            Action::Write { rendered: Rendered::Raw(line) } => assert_eq!(line, "plain"),
            _ => panic!("expected the raw line"),
        }
        match audit.step(Event::Line { line: r#"{"type":"summary","fields":{}}"#.to_string() }) {
            Action::Write { rendered: Rendered::Annotations(lines) } => assert!(lines.is_empty()),
            _ => panic!("expected annotations"),
        }
        assert_eq!(audit.state(), State::StreamingOutput);
        assert!(matches!(audit.step(Event::EndOfStream), Action::Wait));
        assert_eq!(audit.outcome(), None);
        match audit.step(Event::Exited { success }) {
            Action::Finish { success: reported } => assert_eq!(reported, success),
            _ => panic!("expected the end"),
        }
        assert_eq!(audit.state(), State::Completed { success });
        assert_eq!(audit.outcome(), Some(success));
    }
}

#[test]
fn buffered_run_fails_on_a_bad_exit_status() {
    let (mut audit, _) = Audit::<DefaultConfig>::execute(None, None, false);
    assert!(matches!(audit.step(Event::Spawned), Action::Wait));
    assert_eq!(audit.state(), State::BufferedRun);
    assert!(matches!(audit.step(Event::Line { line: "x".to_string() }), Action::Nothing));
    assert!(matches!(audit.step(Event::Exited { success: false }), Action::Finish { success: false }));
    assert_eq!(audit.state(), State::Failed);
    assert_eq!(audit.outcome(), Some(false));

    let (mut audit, _) = Audit::<DefaultConfig>::execute(None, None, false);
    audit.step(Event::Spawned);
    assert!(matches!(audit.step(Event::Exited { success: true }), Action::Finish { success: true }));
    assert_eq!(audit.state(), State::Completed { success: true });
}

#[test]
fn failed_spawn_fails_the_run() {
    let (mut audit, _) = Audit::<DefaultConfig>::execute(None, Some("ci".to_string()), false);
    assert!(matches!(audit.step(Event::SpawnFailed), Action::Finish { success: false }));
    assert_eq!(audit.state(), State::Failed);
}

#[test]
fn finished_run_ignores_events() {
    let (mut audit, _) = Audit::<DefaultConfig>::execute(None, None, false);
    audit.step(Event::SpawnFailed);
    assert!(matches!(audit.step(Event::Spawned), Action::Nothing));
    assert!(matches!(audit.step(Event::Exited { success: true }), Action::Nothing));
    assert!(matches!(
        audit.step(Event::Start { command: None, ci: None, config_args: vec![] }),
        Action::Nothing
    ));
    assert_eq!(audit.state(), State::Failed);
}

#[test]
fn start_takes_the_configured_arguments_as_given() {
    let mut audit = Audit::<DefaultConfig>::new();
    let action = audit.step(Event::Start {
        command: None,
        ci: Some(String::new()),
        config_args: vec!["-x".to_string()],
    });
    let (_, args, _, capture) = spawn_of(action);
    assert_eq!(args, vec!["deny", "-x", "check"]);
    assert!(!capture);
}

struct Inherited;

impl Config for Inherited {}

#[test]
fn configuration_falls_back_to_the_default_arguments() {
    assert_eq!(Inherited::args(true), DefaultConfig::args(true));
    assert_eq!(Inherited::args(false), DefaultConfig::args(false));
}

#[test]
fn new_audit_is_idle() {
    let mut audit = Audit::<DefaultConfig>::new();
    assert_eq!(audit.state(), State::Idle);
    assert!(matches!(audit.step(Event::Spawned), Action::Nothing));
    assert_eq!(audit.state(), State::Idle);
}

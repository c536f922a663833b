//! The records of the auditor's report, and how a line of its error stream
//! encodes one.

use crate::json::{array_view, json_document, parse, Json, JsonValue};
use vstd::prelude::*;

verus! {

/// A package of the dependency graph that a diagnostic implicates.
pub struct Graph {
    pub name: String,
}

/// A source location that a diagnostic points at.
pub struct Label {
    pub column: usize,
    pub line: usize,
    pub message: String,
    pub span: String,
}

/// One finding of the auditor.
pub struct Diagnostic {
    pub code: String,
    pub graphs: Vec<Graph>,
    pub labels: Vec<Label>,
    pub message: String,
    pub severity: String,
}

/// One record of the auditor's report.
pub enum Report {
    Diagnostic(Diagnostic),
    Summary,
}

/// The mathematical value of a [`Label`].
pub struct LabelView {
    pub column: nat,
    pub line: nat,
    pub message: Seq<char>,
    pub span: Seq<char>,
}

/// The mathematical value of a [`Diagnostic`]; a graph is held as its name.
pub struct DiagnosticView {
    pub code: Seq<char>,
    pub graphs: Seq<Seq<char>>,
    pub labels: Seq<LabelView>,
    pub message: Seq<char>,
    pub severity: Seq<char>,
}

/// The mathematical value of a [`Report`].
pub enum ReportView {
    Diagnostic(DiagnosticView),
    Summary,
}

impl View for Graph {
    type V = Seq<char>;

    open spec fn view(&self) -> Seq<char> {
        self.name@
    }
}

impl View for Label {
    type V = LabelView;

    open spec fn view(&self) -> LabelView {
        LabelView {
            column: self.column as nat,
            line: self.line as nat,
            message: self.message@,
            span: self.span@,
        }
    }
}

/// The names of a sequence of graphs.
pub open spec fn graph_names(graphs: Seq<Graph>) -> Seq<Seq<char>> {
    Seq::new(graphs.len(), |i: int| graphs[i]@)
}

/// The values of a sequence of labels.
pub open spec fn label_views(labels: Seq<Label>) -> Seq<LabelView> {
    Seq::new(labels.len(), |i: int| labels[i]@)
}

impl View for Diagnostic {
    type V = DiagnosticView;

    open spec fn view(&self) -> DiagnosticView {
        DiagnosticView {
            code: self.code@,
            graphs: graph_names(self.graphs@),
            labels: label_views(self.labels@),
            message: self.message@,
            severity: self.severity@,
        }
    }
}

impl View for Report {
    type V = ReportView;

    open spec fn view(&self) -> ReportView {
        match self {
            Report::Diagnostic(diagnostic) => ReportView::Diagnostic(diagnostic@),
            Report::Summary => ReportView::Summary,
        }
    }
}

/// The graph that `json` encodes: an object whose member `name` is a string.
pub open spec fn graph_of(json: JsonValue) -> Option<Seq<char>> {
    json.text("name"@)
}

/// The graphs that `items` encode, if each of them encodes one.
pub open spec fn graphs_of(items: Seq<JsonValue>) -> Option<Seq<Seq<char>>> {
    if forall|i: int| 0 <= i < items.len() ==> graph_of(#[trigger] items[i]) is Some {
        Some(Seq::new(items.len(), |i: int| graph_of(items[i])->0))
    } else {
        None
    }
}

impl LabelView {
    /// The label that `json` encodes: an object with the natural numbers
    /// `column` and `line` and the strings `message` and `span`.
    pub open spec fn decode(json: JsonValue) -> Option<LabelView> {
        if json.number("column"@) is Some && json.number("line"@) is Some && json.text("message"@)
            is Some && json.text("span"@) is Some {
            Some(
                LabelView {
                    column: json.number("column"@)->0 as nat,
                    line: json.number("line"@)->0 as nat,
                    message: json.text("message"@)->0,
                    span: json.text("span"@)->0,
                },
            )
        } else {
            None
        }
    }
}

/// The labels that `items` encode, if each of them encodes one.
pub open spec fn labels_of(items: Seq<JsonValue>) -> Option<Seq<LabelView>> {
    if forall|i: int| 0 <= i < items.len() ==> LabelView::decode(#[trigger] items[i]) is Some {
        Some(Seq::new(items.len(), |i: int| LabelView::decode(items[i])->0))
    } else {
        None
    }
}

impl DiagnosticView {
    /// The diagnostic that `json` encodes: an object with the strings `code`,
    /// `message` and `severity`, an array `graphs` of graphs and an array
    /// `labels` of labels. Other members are ignored.
    pub open spec fn decode(json: JsonValue) -> Option<DiagnosticView> {
        if json.text("code"@) is Some && json.array("graphs"@) is Some && graphs_of(
            json.array("graphs"@)->0,
        ) is Some && json.array("labels"@) is Some && labels_of(json.array("labels"@)->0) is Some
            && json.text("message"@) is Some && json.text("severity"@) is Some {
            Some(
                DiagnosticView {
                    code: json.text("code"@)->0,
                    graphs: graphs_of(json.array("graphs"@)->0)->0,
                    labels: labels_of(json.array("labels"@)->0)->0,
                    message: json.text("message"@)->0,
                    severity: json.text("severity"@)->0,
                },
            )
        } else {
            None
        }
    }
}

impl ReportView {
    /// The record that `json` encodes.
    ///
    /// A record is an object whose member `type` names the variant and whose
    /// member `fields` holds the variant's content: a diagnostic under
    /// `"diagnostic"`, any object under `"summary"`. Everything else encodes
    /// no record.
    pub open spec fn decode(json: JsonValue) -> Option<ReportView> {
        match json.text("type"@) {
            Some(tag) => if tag == "diagnostic"@ {
                match json.get("fields"@) {
                    Some(fields) => match DiagnosticView::decode(fields) {
                        Some(diagnostic) => Some(ReportView::Diagnostic(diagnostic)),
                        None => None,
                    },
                    None => None,
                }
            } else if tag == "summary"@ {
                match json.get("fields"@) {
                    Some(JsonValue::Object(_)) => Some(ReportView::Summary),
                    _ => None,
                }
            } else {
                None
            },
            None => None,
        }
    }
}

/// The record that the line `line` encodes, if it is one JSON document that
/// encodes a record.
pub open spec fn decoded(line: Seq<char>) -> Option<ReportView> {
    match json_document(line) {
        Some(json) => ReportView::decode(json),
        None => None,
    }
}

impl Graph {
    /// Decodes a graph.
    pub fn decode(json: &Json) -> (graph: Option<Graph>)
        ensures
            graph is Some <==> graph_of(json@) is Some,
            graph matches Some(g) ==> graph_of(json@) == Some(g@),
    {
        match json.text("name") {
            Some(name) => Some(Graph { name }),
            None => None,
        }
    }
}

impl Label {
    /// Decodes a label.
    pub fn decode(json: &Json) -> (label: Option<Label>)
        ensures
            label is Some <==> LabelView::decode(json@) is Some,
            label matches Some(l) ==> LabelView::decode(json@) == Some(l@),
    {
        let column = match json.number("column") {
            Some(column) => column,
            None => { return None; },
        };
        let line = match json.number("line") {
            Some(line) => line,
            None => { return None; },
        };
        let message = match json.text("message") {
            Some(message) => message,
            None => { return None; },
        };
        let span = match json.text("span") {
            Some(span) => span,
            None => { return None; },
        };
        Some(Label { column, line, message, span })
    }
}

/// Decodes an array of graphs.
pub fn decode_graphs(items: &Vec<Json>) -> (graphs: Option<Vec<Graph>>)
    ensures
        graphs is Some <==> graphs_of(array_view(items@)) is Some,
        graphs matches Some(v) ==> graphs_of(array_view(items@)) == Some(graph_names(v@)),
{
    let ghost values = array_view(items@);
    let mut graphs: Vec<Graph> = Vec::new();
    let mut i: usize = 0;
    while i < items.len()
        invariant
            i <= items.len(),
            graphs.len() == i,
            values == array_view(items@),
            forall|j: int| 0 <= j < i ==> graph_of(#[trigger] values[j]) == Some(graphs@[j]@),
        decreases items.len() - i,
    {
        assert(values[i as int] == items@[i as int]@);
        match Graph::decode(&items[i]) {
            Some(graph) => {
                graphs.push(graph);
            },
            None => {
                return None;
            },
        }
        i += 1;
    }
    assert(graphs_of(values)->0 =~= graph_names(graphs@));
    Some(graphs)
}

/// Decodes an array of labels.
pub fn decode_labels(items: &Vec<Json>) -> (labels: Option<Vec<Label>>)
    ensures
        labels is Some <==> labels_of(array_view(items@)) is Some,
        labels matches Some(v) ==> labels_of(array_view(items@)) == Some(label_views(v@)),
{
    let ghost values = array_view(items@);
    let mut labels: Vec<Label> = Vec::new();
    let mut i: usize = 0;
    while i < items.len()
        invariant
            i <= items.len(),
            labels.len() == i,
            values == array_view(items@),
            forall|j: int|
                0 <= j < i ==> LabelView::decode(#[trigger] values[j]) == Some(labels@[j]@),
        decreases items.len() - i,
    {
        assert(values[i as int] == items@[i as int]@);
        match Label::decode(&items[i]) {
            Some(label) => {
                labels.push(label);
            },
            None => {
                return None;
            },
        }
        i += 1;
    }
    assert(labels_of(values)->0 =~= label_views(labels@));
    Some(labels)
}

impl Diagnostic {
    /// Decodes a diagnostic.
    pub fn decode(json: &Json) -> (diagnostic: Option<Diagnostic>)
        ensures
            diagnostic is Some <==> DiagnosticView::decode(json@) is Some,
            diagnostic matches Some(d) ==> DiagnosticView::decode(json@) == Some(d@),
    {
        let code = match json.text("code") {
            Some(code) => code,
            None => { return None; },
        };
        let graphs = match json.array("graphs") {
            Some(items) => match decode_graphs(items) {
                Some(graphs) => graphs,
                None => { return None; },
            },
            None => { return None; },
        };
        let labels = match json.array("labels") {
            Some(items) => match decode_labels(items) {
                Some(labels) => labels,
                None => { return None; },
            },
            None => { return None; },
        };
        let message = match json.text("message") {
            Some(message) => message,
            None => { return None; },
        };
        let severity = match json.text("severity") {
            Some(severity) => severity,
            None => { return None; },
        };
        Some(Diagnostic { code, graphs, labels, message, severity })
    }
}

impl Report {
    /// Decodes a record from a parsed document.
    pub fn decode(json: &Json) -> (record: Option<Report>)
        ensures
            report_view(record) == ReportView::decode(json@),
    {
        let tag = match json.text("type") {
            Some(tag) => tag,
            None => { return None; },
        };
        if tag == "diagnostic".to_owned() {
            match json.get("fields") {
                Some(fields) => match Diagnostic::decode(fields) {
                    Some(diagnostic) => Some(Report::Diagnostic(diagnostic)),
                    None => None,
                },
                None => None,
            }
        } else if tag == "summary".to_owned() {
            match json.get("fields") {
                Some(Json::Object(_)) => Some(Report::Summary),
                _ => None,
            }
        } else {
            None
        }
    }
}

/// Decodes one line of the auditor's error stream.
///
/// A line that is not one JSON document, or whose document encodes no
/// record, yields nothing; there is no partial result.
pub fn decode(line: &str) -> (record: Option<Report>)
    ensures
        report_view(record) == decoded(line@),
{
    match parse(line) {
        Some(json) => Report::decode(&json),
        None => None,
    }
}

/// The value of a record that may be absent.
pub open spec fn report_view(record: Option<Report>) -> Option<ReportView> {
    match record {
        Some(record) => Some(record@),
        None => None,
    }
}

} // verus!

//! The annotation lines that a record is rendered as.

use crate::audit::record::{
    decode, decoded, graph_names, report_view, Diagnostic, DiagnosticView, Graph, Label,
    LabelView, Report, ReportView,
};
use crate::json::{json_document, JsonValue};
use crate::text::{join, join_with, lines, split_lines, texts};
use vstd::prelude::*;
use vstd::string::StringExecFns;

verus! {

/// `names` without repetitions: each name stays at the place of its first
/// occurrence.
pub open spec fn distinct(names: Seq<Seq<char>>) -> Seq<Seq<char>>
    decreases names.len(),
{
    if names.len() == 0 {
        Seq::empty()
    } else {
        let earlier = distinct(names.drop_last());
        if earlier.contains(names.last()) {
            earlier
        } else {
            earlier.push(names.last())
        }
    }
}

/// The first annotation line of a diagnostic: severity, implicated packages
/// and message.
pub open spec fn headline(diagnostic: DiagnosticView) -> Seq<char> {
    "::"@ + diagnostic.severity + "::"@ + join(distinct(diagnostic.graphs), "; "@) + ": "@
        + diagnostic.message
}

/// The annotation line of one label: the lines of its span, joined.
pub open spec fn label_line(severity: Seq<char>, label: LabelView) -> Seq<char> {
    "::"@ + severity + "::"@ + join(lines(label.span), "; "@)
}

impl DiagnosticView {
    /// The annotation lines of a diagnostic: its headline, then one line for
    /// each label, in the order of the labels.
    pub open spec fn annotations(self) -> Seq<Seq<char>> {
        seq![headline(self)] + Seq::new(
            self.labels.len(),
            |i: int| label_line(self.severity, self.labels[i]),
        )
    }
}

impl ReportView {
    /// The annotation lines of a record; a summary has none.
    pub open spec fn annotations(self) -> Seq<Seq<char>> {
        match self {
            ReportView::Diagnostic(diagnostic) => diagnostic.annotations(),
            ReportView::Summary => Seq::empty(),
        }
    }
}

/// `distinct` keeps every name and repeats none.
pub proof fn lemma_distinct(names: Seq<Seq<char>>)
    ensures
        distinct(names).no_duplicates(),
        forall|name: Seq<char>| distinct(names).contains(name) <==> names.contains(name),
        distinct(names).len() <= names.len(),
    decreases names.len(),
{
    if names.len() > 0 {
        let init = names.drop_last();
        let earlier = distinct(init);
        lemma_distinct(init);
        assert forall|name: Seq<char>| distinct(names).contains(name) <==> names.contains(
            name,
        ) by {
            if names.contains(name) {
                let k = choose|k: int| 0 <= k < names.len() && names[k] == name;
                if k < init.len() {
                    assert(init[k] == name);
                    assert(init.contains(name));
                    assert(earlier.contains(name));
                    let e = choose|e: int| 0 <= e < earlier.len() && earlier[e] == name;
                    assert(distinct(names)[e] == name);
                } else {
                    assert(name == names.last());
                    if !earlier.contains(name) {
                        assert(distinct(names)[earlier.len() as int] == name);
                    }
                }
            }
            if distinct(names).contains(name) {
                let e = choose|e: int| 0 <= e < distinct(names).len() && distinct(names)[e] == name;
                if e < earlier.len() {
                    assert(earlier[e] == name);
                    assert(init.contains(name));
                    let k = choose|k: int| 0 <= k < init.len() && init[k] == name;
                    assert(names[k] == name);
                } else {
                    assert(names[names.len() - 1] == name);
                }
            }
        }
    }
}

/// Which names are kept does not depend on the order of the input: two
/// sequences that hold the same names keep the same names, each once, and so
/// equally many.
pub proof fn lemma_distinct_ignores_order(first: Seq<Seq<char>>, second: Seq<Seq<char>>)
    requires
        forall|name: Seq<char>| first.contains(name) <==> second.contains(name),
    ensures
        distinct(first).no_duplicates(),
        distinct(second).no_duplicates(),
        forall|name: Seq<char>| distinct(first).contains(name) <==> distinct(second).contains(name),
        distinct(first).len() == distinct(second).len(),
{
    lemma_distinct(first);
    lemma_distinct(second);
    assert forall|name: Seq<char>| distinct(first).contains(name) <==> distinct(second).contains(
        name,
    ) by {
        assert(distinct(first).contains(name) <==> first.contains(name));
        assert(first.contains(name) <==> second.contains(name));
        assert(distinct(second).contains(name) <==> second.contains(name));
    }
    assert(distinct(first).to_set() =~= distinct(second).to_set());
    distinct(first).unique_seq_to_set();
    distinct(second).unique_seq_to_set();
}

/// Whether `names` holds `name`.
fn holds(names: &Vec<String>, name: &String) -> (found: bool)
    ensures
        found == texts(names@).contains(name@),
{
    let mut i: usize = 0;
    while i < names.len()
        invariant
            i <= names.len(),
            forall|j: int| 0 <= j < i ==> texts(names@)[j] != name@,
        decreases names.len() - i,
    {
        if names[i] == *name {
            assert(texts(names@)[i as int] == name@);
            return true;
        }
        i += 1;
    }
    false
}

/// The names of `graphs` without repetitions, each at the place of its first
/// occurrence.
pub fn distinct_names(graphs: &Vec<Graph>) -> (names: Vec<String>)
    ensures
        texts(names@) == distinct(graph_names(graphs@)),
        texts(names@).no_duplicates(),
        forall|name: Seq<char>|
            texts(names@).contains(name) <==> graph_names(graphs@).contains(name),
{
    let mut names: Vec<String> = Vec::new();
    let mut i: usize = 0;
    while i < graphs.len()
        invariant
            i <= graphs.len(),
            texts(names@) == distinct(graph_names(graphs@).take(i as int)),
        decreases graphs.len() - i,
    {
        let ghost before = texts(names@);
        let ghost upto = graph_names(graphs@).take(i + 1);
        assert(upto.drop_last() == graph_names(graphs@).take(i as int));
        assert(upto.last() == graphs@[i as int].name@);
        if !holds(&names, &graphs[i].name) {
            names.push(graphs[i].name.clone());
            assert(texts(names@) == before.push(graphs@[i as int].name@));
        }
        i += 1;
    }
    assert(graph_names(graphs@).take(graphs.len() as int) == graph_names(graphs@));
    proof {
        lemma_distinct(graph_names(graphs@));
    }
    names
}

/// The first annotation line of `diagnostic`.
pub fn format_headline(diagnostic: &Diagnostic) -> (line: String)
    ensures
        line@ == headline(diagnostic@),
{
    let names = distinct_names(&diagnostic.graphs);
    let joined = join_with(&names, "; ");
    let mut line = "::".to_owned();
    line.append(diagnostic.severity.as_str());
    line.append("::");
    line.append(joined.as_str());
    line.append(": ");
    line.append(diagnostic.message.as_str());
    line
}

/// The annotation line of `label` under `severity`.
pub fn format_label(severity: &str, label: &Label) -> (line: String)
    ensures
        line@ == label_line(severity@, label@),
{
    let segments = split_lines(label.span.as_str());
    let joined = join_with(&segments, "; ");
    let mut line = "::".to_owned();
    line.append(severity);
    line.append("::");
    line.append(joined.as_str());
    line
}

/// Renders a record as annotation lines, in the order in which they are to
/// be written.
pub fn format(record: &Report) -> (output: Vec<String>)
    ensures
        texts(output@) == record@.annotations(),
{
    let mut output: Vec<String> = Vec::new();
    match record {
        Report::Summary => {
            assert(texts(output@) =~= record@.annotations());
        },
        Report::Diagnostic(diagnostic) => {
            output.push(format_headline(diagnostic));
            let mut i: usize = 0;
            while i < diagnostic.labels.len()
                invariant
                    i <= diagnostic.labels.len(),
                    output.len() == i + 1,
                    output@[0]@ == headline(diagnostic@),
                    forall|j: int|
                        0 <= j < i ==> (#[trigger] output@[j + 1])@ == label_line(
                            diagnostic.severity@,
                            diagnostic.labels@[j]@,
                        ),
                decreases diagnostic.labels.len() - i,
            {
                output.push(format_label(diagnostic.severity.as_str(), &diagnostic.labels[i]));
                i += 1;
            }
            let ghost expected = diagnostic@.annotations();
            assert(expected.len() == output.len());
            assert forall|k: int| 0 <= k < expected.len() implies texts(output@)[k]
                == expected[k] by {
                if k > 0 {
                    assert(output@[(k - 1) + 1]@ == label_line(
                        diagnostic.severity@,
                        diagnostic.labels@[k - 1]@,
                    ));
                }
            }
            assert(texts(output@) =~= expected);
        },
    }
    output
}

/// What becomes of one line of the auditor's error stream.
pub enum Rendered {
    /// Annotation lines, for standard output.
    Annotations(Vec<String>),
    /// The line as it came, for the error channel.
    Raw(String),
}

/// The mathematical value of a [`Rendered`].
pub enum RenderedView {
    Annotations(Seq<Seq<char>>),
    Raw(Seq<char>),
}

impl View for Rendered {
    type V = RenderedView;

    open spec fn view(&self) -> RenderedView {
        match self {
            Rendered::Annotations(output) => RenderedView::Annotations(texts(output@)),
            Rendered::Raw(line) => RenderedView::Raw(line@),
        }
    }
}

/// What becomes of `line`, given the record it was decoded to: the record's
/// annotation lines, or the unchanged line where there is no record.
pub open spec fn rendering(record: Option<ReportView>, line: Seq<char>) -> RenderedView {
    match record {
        Some(record) => RenderedView::Annotations(record.annotations()),
        None => RenderedView::Raw(line),
    }
}

/// What becomes of each line of `output`, in order.
pub open spec fn renderings(output: Seq<char>) -> Seq<RenderedView> {
    Seq::new(
        lines(output).len(),
        |i: int| rendering(decoded(lines(output)[i]), lines(output)[i]),
    )
}

/// The values of a sequence of rendered lines.
pub open spec fn rendered_views(rendered: Seq<Rendered>) -> Seq<RenderedView> {
    Seq::new(rendered.len(), |i: int| rendered[i]@)
}

/// Renders `line`, given the record it was decoded to.
pub fn render(record: &Option<Report>, line: &str) -> (rendered: Rendered)
    ensures
        rendered@ == rendering(report_view(*record), line@),
{
    match record {
        Some(record) => Rendered::Annotations(format(record)),
        None => Rendered::Raw(line.to_owned()),
    }
}

/// Decodes and renders one line of the auditor's error stream. A line that
/// encodes no record comes back unchanged.
pub fn render_line(line: &str) -> (rendered: Rendered)
    ensures
        rendered@ == rendering(decoded(line@), line@),
        decoded(line@) is None ==> rendered@ == RenderedView::Raw(line@),
{
    let record = decode(line);
    render(&record, line)
}

/// Decodes and renders the lines of `output`, in order.
pub fn render_output(output: &str) -> (rendered: Vec<Rendered>)
    ensures
        rendered_views(rendered@) == renderings(output@),
{
    let all = split_lines(output);
    let mut rendered: Vec<Rendered> = Vec::new();
    let mut i: usize = 0;
    while i < all.len()
        invariant
            i <= all.len(),
            rendered.len() == i,
            texts(all@) == lines(output@),
            forall|j: int|
                0 <= j < i ==> (#[trigger] rendered@[j])@ == rendering(
                    decoded(lines(output@)[j]),
                    lines(output@)[j],
                ),
        decreases all.len() - i,
    {
        assert(texts(all@)[i as int] == all@[i as int]@);
        rendered.push(render_line(all[i].as_str()));
        i += 1;
    }
    assert(rendered_views(rendered@) =~= renderings(output@));
    rendered
}

/// Decoding a line and formatting its record is a function of the line:
/// whatever two runs decode from the same line, they decode the same record,
/// and its annotation lines are the same.
pub proof fn lemma_decode_then_format_is_deterministic(
    line: Seq<char>,
    first: Option<Report>,
    second: Option<Report>,
)
    requires
        report_view(first) == decoded(line),
        report_view(second) == decoded(line),
    ensures
        report_view(first) == report_view(second),
        rendering(report_view(first), line) == rendering(report_view(second), line),
        first matches Some(a) ==> second matches Some(b) && a@.annotations() == b@.annotations(),
{
}

/// A line that is not one JSON document, or whose document carries neither
/// of the two tags, decodes to nothing and is rendered as itself, character
/// for character.
pub proof fn lemma_untagged_line_passes_through(line: Seq<char>)
    requires
        json_document(line) matches Some(json) ==> json.text("type"@) != Some("diagnostic"@)
            && json.text("type"@) != Some("summary"@),
    ensures
        decoded(line) is None,
        rendering(decoded(line), line) == RenderedView::Raw(line),
{
}

/// A tagged line whose content does not fit its tag decodes to nothing, and
/// is rendered as itself: no record is decoded in part.
pub proof fn lemma_malformed_record_passes_through(line: Seq<char>, json: JsonValue)
    requires
        json_document(line) == Some(json),
        json.text("type"@) == Some("diagnostic"@) ==> !(json.get("fields"@) matches Some(fields)
            && DiagnosticView::decode(fields) is Some),
        json.text("type"@) == Some("summary"@) ==> !(json.get("fields"@) matches Some(fields)
            && fields is Object),
    ensures
        decoded(line) is None,
        rendering(decoded(line), line) == RenderedView::Raw(line),
{
}

} // verus!

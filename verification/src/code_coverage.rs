//! The code coverage report: the programs to run for it, the percentage
//! read out of the report, and the badge that shows it.

use crate::process::{
    extend, extend_flagged, flagged, pairs, plain, push_text, Invocation, InvocationView,
};
use crate::text::{chars_of, text_of, text_view, texts};
use std::marker::PhantomData;
use vstd::prelude::*;
use vstd::string::StringExecFns;

verus! {

/// One step of the work: a message for the user, or a program to run. A
/// program that fails ends the work.
pub enum Step {
    Announce(String),
    Run(Invocation),
}

/// The mathematical value of a [`Step`].
pub enum StepView {
    Announce(Seq<char>),
    Run(InvocationView),
}

impl View for Step {
    type V = StepView;

    open spec fn view(&self) -> StepView {
        match self {
            Step::Announce(message) => StepView::Announce(message@),
            Step::Run(invocation) => StepView::Run(invocation@),
        }
    }
}

/// The values of a sequence of steps.
pub open spec fn steps(list: Seq<Step>) -> Seq<StepView> {
    Seq::new(list.len(), |i: int| list[i]@)
}

/// A program to run with no change to the environment.
pub open spec fn run(program: Seq<char>, args: Seq<Seq<char>>) -> StepView {
    StepView::Run(InvocationView { program, args, env: Seq::empty() })
}

/// The arguments to `cargo` that the default configuration runs the tests
/// with.
pub open spec fn default_cargo_args() -> Seq<Seq<char>> {
    seq!["test"@, "--workspace"@, "--all-features"@, "--all-targets"@]
}

/// The arguments to the test binaries under the default configuration.
pub open spec fn default_cargo_args_last() -> Seq<Seq<char>> {
    seq!["--nocapture"@]
}

/// The arguments to `cargo` under the default configuration.
pub fn default_test_args() -> (args: Vec<String>)
    ensures
        texts(args@) == default_cargo_args(),
{
    let mut args: Vec<String> = Vec::new();
    push_text(&mut args, "test");
    push_text(&mut args, "--workspace");
    push_text(&mut args, "--all-features");
    push_text(&mut args, "--all-targets");
    assert(texts(args@) =~= default_cargo_args());
    args
}

/// The arguments to the test binaries under the default configuration.
pub fn default_test_args_last() -> (args: Vec<String>)
    ensures
        texts(args@) == default_cargo_args_last(),
{
    let mut args: Vec<String> = Vec::new();
    push_text(&mut args, "--nocapture");
    assert(texts(args@) =~= default_cargo_args_last());
    args
}

/// A list that holds nothing.
pub fn none() -> (list: Vec<String>)
    ensures
        texts(list@) == Seq::<Seq<char>>::empty(),
{
    let list: Vec<String> = Vec::new();
    assert(texts(list@) =~= Seq::<Seq<char>>::empty());
    list
}

/// The configuration of the coverage report. Unless a configuration says
/// otherwise, all tests of the workspace run and nothing is ignored.
pub trait Config {
    /// The cargo command after `cargo`.
    fn cargo_args() -> (args: Vec<String>)
        default_ensures
            texts(args@) == default_cargo_args(),
    {
        default_test_args()
    }

    /// The cargo command after `--`.
    fn cargo_args_last() -> (args: Vec<String>)
        default_ensures
            texts(args@) == default_cargo_args_last(),
    {
        default_test_args_last()
    }

    /// The list of paths ignored when calculating code coverage.
    fn ignore_paths() -> (paths: Vec<String>)
        default_ensures
            texts(paths@) == Seq::<Seq<char>>::empty(),
    {
        none()
    }

    /// The list of packages ignored when running tests.
    fn ignore_packages() -> (packages: Vec<String>)
        default_ensures
            texts(packages@) == Seq::<Seq<char>>::empty(),
    {
        none()
    }
}

/// The configuration used where none is given.
pub struct DefaultConfig;

impl Config for DefaultConfig {
    fn cargo_args() -> (args: Vec<String>)
        ensures
            texts(args@) == default_cargo_args(),
    {
        default_test_args()
    }

    fn cargo_args_last() -> (args: Vec<String>)
        ensures
            texts(args@) == default_cargo_args_last(),
    {
        default_test_args_last()
    }

    fn ignore_paths() -> (paths: Vec<String>)
        ensures
            texts(paths@) == Seq::<Seq<char>>::empty(),
    {
        none()
    }

    fn ignore_packages() -> (packages: Vec<String>)
        ensures
            texts(packages@) == Seq::<Seq<char>>::empty(),
    {
        none()
    }
}

/// The compiler flags for an instrumented build: the instrumentation flag,
/// followed by the flags that were already set, if any.
pub open spec fn instrumented_flags(existing: Option<Seq<char>>) -> Seq<char> {
    match existing {
        Some(flags) => "-C instrument-coverage "@ + flags,
        None => "-C instrument-coverage"@,
    }
}

/// The steps that fetch what the report needs.
pub open spec fn install_steps() -> Seq<StepView> {
    seq![
        StepView::Announce(
            "Installing rustup component `llvm-tools-preview` and nightly rust version"@,
        ),
        run("rustup"@, seq!["component"@, "add"@, "llvm-tools-preview"@]),
        StepView::Announce("Downloading pre-built grcov"@),
        run(
            "curl"@,
            seq![
                "-L"@,
                "https://github.com/mozilla/grcov/releases/download/v0.8.6/grcov-v0.8.6-x86_64-unknown-linux-gnu.tar.gz"@,
                "-o"@,
                "grcov.tar.gz"@,
            ],
        ),
        run("tar"@, seq!["-xzf"@, "grcov.tar.gz"@]),
    ]
}

/// The instrumented test run.
pub open spec fn test_run(
    cargo_args: Seq<Seq<char>>,
    ignore_packages: Seq<Seq<char>>,
    cargo_args_last: Seq<Seq<char>>,
    rustflags: Option<Seq<char>>,
) -> InvocationView {
    InvocationView {
        program: "cargo"@,
        args: cargo_args + flagged("--exclude"@, ignore_packages) + seq!["--"@] + cargo_args_last,
        env: seq![
            ("CARGO_INCREMENTAL"@, "0"@),
            ("LLVM_PROFILE_FILE"@, "%m.profraw"@),
            ("RUSTFLAGS"@, instrumented_flags(rustflags)),
        ],
    }
}

/// The arguments of every report run, before the configured paths to ignore.
pub open spec fn report_args() -> Seq<Seq<char>> {
    seq![
        "."@,
        "--binary-path"@,
        "./target/debug/"@,
        "-s"@,
        "."@,
        "-t"@,
        "html"@,
        "--branch"@,
        "--ignore-not-existing"@,
        "--llvm"@,
        "-o"@,
        "coverage/"@,
        "--ignore"@,
        "target/*"@,
        "--ignore"@,
        "xtask/*"@,
    ]
}

/// The run that turns the profiles into a report: the downloaded collector
/// where one was installed, else the one on the search path.
pub open spec fn report_run(install_dependencies: bool, ignore_paths: Seq<Seq<char>>) -> InvocationView {
    InvocationView {
        program: if install_dependencies {
            "./grcov"@
        } else {
            "grcov"@
        },
        args: report_args() + flagged("--ignore"@, ignore_paths),
        env: Seq::empty(),
    }
}

/// The steps from a clean project to a report.
pub open spec fn measure_steps(test: InvocationView, report: InvocationView) -> Seq<StepView> {
    seq![
        StepView::Announce("Cleaning project"@),
        run("cargo"@, seq!["clean"@]),
        StepView::Announce("Running tests"@),
        StepView::Run(test),
        StepView::Announce("Generating coverage report"@),
        StepView::Run(report),
    ]
}

/// The steps that remove the profiles once the report is read.
pub open spec fn cleanup_steps() -> Seq<StepView> {
    seq![
        StepView::Announce("Cleaning up."@),
        run("find"@, seq!["."@, "-name"@, "*.profraw"@, "-exec"@, "rm"@, "{}"@, ";"@]),
    ]
}

/// A step that runs `program` with `args`.
fn run_step(program: &str, args: Vec<String>) -> (step: Step)
    ensures
        step@ == run(program@, texts(args@)),
{
    Step::Run(plain(program, args))
}

/// A step that tells the user `message`.
fn announce(message: &str) -> (step: Step)
    ensures
        step@ == StepView::Announce(message@),
{
    Step::Announce(message.to_owned())
}

/// The steps that fetch what the report needs.
pub fn install_plan() -> (plan: Vec<Step>)
    ensures
        steps(plan@) == install_steps(),
{
    let mut plan: Vec<Step> = Vec::new();
    plan.push(
        announce("Installing rustup component `llvm-tools-preview` and nightly rust version"),
    );
    let mut rustup: Vec<String> = Vec::new();
    push_text(&mut rustup, "component");
    push_text(&mut rustup, "add");
    push_text(&mut rustup, "llvm-tools-preview");
    assert(texts(rustup@) =~= seq!["component"@, "add"@, "llvm-tools-preview"@]);
    plan.push(run_step("rustup", rustup));
    plan.push(announce("Downloading pre-built grcov"));
    let mut curl: Vec<String> = Vec::new();
    push_text(&mut curl, "-L");
    push_text(
        &mut curl,
        "https://github.com/mozilla/grcov/releases/download/v0.8.6/grcov-v0.8.6-x86_64-unknown-linux-gnu.tar.gz",
    );
    push_text(&mut curl, "-o");
    push_text(&mut curl, "grcov.tar.gz");
    assert(texts(curl@) =~= seq![
        "-L"@,
        "https://github.com/mozilla/grcov/releases/download/v0.8.6/grcov-v0.8.6-x86_64-unknown-linux-gnu.tar.gz"@,
        "-o"@,
        "grcov.tar.gz"@,
    ]);
    plan.push(run_step("curl", curl));
    let mut tar: Vec<String> = Vec::new();
    push_text(&mut tar, "-xzf");
    push_text(&mut tar, "grcov.tar.gz");
    assert(texts(tar@) =~= seq!["-xzf"@, "grcov.tar.gz"@]);
    plan.push(run_step("tar", tar));
    assert(steps(plan@) =~= install_steps());
    plan
}

/// The steps that remove the profiles once the report is read.
pub fn cleanup_plan() -> (plan: Vec<Step>)
    ensures
        steps(plan@) == cleanup_steps(),
{
    let mut plan: Vec<Step> = Vec::new();
    plan.push(announce("Cleaning up."));
    let mut find: Vec<String> = Vec::new();
    push_text(&mut find, ".");
    push_text(&mut find, "-name");
    push_text(&mut find, "*.profraw");
    push_text(&mut find, "-exec");
    push_text(&mut find, "rm");
    push_text(&mut find, "{}");
    push_text(&mut find, ";");
    assert(texts(find@) =~= seq!["."@, "-name"@, "*.profraw"@, "-exec"@, "rm"@, "{}"@, ";"@]);
    plan.push(run_step("find", find));
    assert(steps(plan@) =~= cleanup_steps());
    plan
}

/// The compiler flags for an instrumented build.
pub fn instrument(existing: &Option<String>) -> (flags: String)
    ensures
        flags@ == instrumented_flags(text_view(*existing)),
{
    match existing {
        Some(existing) => {
            let mut flags = "-C instrument-coverage ".to_owned();
            flags.append(existing.as_str());
            flags
        },
        None => "-C instrument-coverage".to_owned(),
    }
}

/// The instrumented test run.
pub fn test_invocation(
    cargo_args: &Vec<String>,
    ignore_packages: &Vec<String>,
    cargo_args_last: &Vec<String>,
    rustflags: &Option<String>,
) -> (invocation: Invocation)
    ensures
        invocation@ == test_run(
            texts(cargo_args@),
            texts(ignore_packages@),
            texts(cargo_args_last@),
            text_view(*rustflags),
        ),
{
    let mut args: Vec<String> = Vec::new();
    assert(texts(args@) =~= Seq::<Seq<char>>::empty());
    extend(&mut args, cargo_args);
    assert(texts(args@) =~= texts(cargo_args@));
    extend_flagged(&mut args, "--exclude", ignore_packages);
    push_text(&mut args, "--");
    extend(&mut args, cargo_args_last);
    assert(texts(args@) =~= texts(cargo_args@) + flagged("--exclude"@, texts(ignore_packages@))
        + seq!["--"@] + texts(cargo_args_last@));
    let mut env: Vec<(String, String)> = Vec::new();
    env.push(("CARGO_INCREMENTAL".to_owned(), "0".to_owned()));
    env.push(("LLVM_PROFILE_FILE".to_owned(), "%m.profraw".to_owned()));
    env.push(("RUSTFLAGS".to_owned(), instrument(rustflags)));
    assert(pairs(env@) =~= seq![
        ("CARGO_INCREMENTAL"@, "0"@),
        ("LLVM_PROFILE_FILE"@, "%m.profraw"@),
        ("RUSTFLAGS"@, instrumented_flags(text_view(*rustflags))),
    ]);
    Invocation { program: "cargo".to_owned(), args, env }
}

/// The run that turns the profiles into a report.
pub fn report_invocation(install_dependencies: bool, ignore_paths: &Vec<String>) -> (invocation:
    Invocation)
    ensures
        invocation@ == report_run(install_dependencies, texts(ignore_paths@)),
{
    let mut args: Vec<String> = Vec::new();
    push_text(&mut args, ".");
    push_text(&mut args, "--binary-path");
    push_text(&mut args, "./target/debug/");
    push_text(&mut args, "-s");
    push_text(&mut args, ".");
    push_text(&mut args, "-t");
    push_text(&mut args, "html");
    push_text(&mut args, "--branch");
    push_text(&mut args, "--ignore-not-existing");
    push_text(&mut args, "--llvm");
    push_text(&mut args, "-o");
    push_text(&mut args, "coverage/");
    push_text(&mut args, "--ignore");
    push_text(&mut args, "target/*");
    push_text(&mut args, "--ignore");
    push_text(&mut args, "xtask/*");
    assert(texts(args@) =~= report_args());
    extend_flagged(&mut args, "--ignore", ignore_paths);
    if install_dependencies {
        plain("./grcov", args)
    } else {
        plain("grcov", args)
    }
}

/// What a configuration says.
pub struct Settings {
    pub cargo_args: Vec<String>,
    pub cargo_args_last: Vec<String>,
    pub ignore_paths: Vec<String>,
    pub ignore_packages: Vec<String>,
}

/// The steps up to the written report: fetching what is needed if
/// `install_dependencies`, cleaning the project, the instrumented test run,
/// and the report run.
pub open spec fn steps_to_report(
    install_dependencies: bool,
    settings: Settings,
    rustflags: Option<Seq<char>>,
) -> Seq<StepView> {
    (if install_dependencies {
        install_steps()
    } else {
        Seq::empty()
    }) + measure_steps(
        test_run(
            texts(settings.cargo_args@),
            texts(settings.ignore_packages@),
            texts(settings.cargo_args_last@),
            rustflags,
        ),
        report_run(install_dependencies, texts(settings.ignore_paths@)),
    )
}

/// Plans the work up to the written report. `rustflags` is the value of the
/// compiler flags variable, if it is set.
pub fn plan(install_dependencies: bool, settings: &Settings, rustflags: &Option<String>) -> (plan:
    Vec<Step>)
    ensures
        steps(plan@) == steps_to_report(install_dependencies, *settings, text_view(*rustflags)),
{
    let mut plan: Vec<Step> = if install_dependencies {
        install_plan()
    } else {
        Vec::new()
    };
    let ghost head = steps(plan@);
    assert(head =~= (if install_dependencies {
        install_steps()
    } else {
        Seq::empty()
    }));
    let test = test_invocation(
        &settings.cargo_args,
        &settings.ignore_packages,
        &settings.cargo_args_last,
        rustflags,
    );
    let report = report_invocation(install_dependencies, &settings.ignore_paths);
    let mut clean: Vec<String> = Vec::new();
    push_text(&mut clean, "clean");
    assert(texts(clean@) =~= seq!["clean"@]);
    plan.push(announce("Cleaning project"));
    plan.push(run_step("cargo", clean));
    plan.push(announce("Running tests"));
    plan.push(Step::Run(test));
    plan.push(announce("Generating coverage report"));
    plan.push(Step::Run(report));
    assert(steps(plan@) =~= head + measure_steps(test@, report@));
    plan
}

/// The coverage report, as the steps that its caller carries out.
pub struct CodeCoverage<C: Config> {
    _config: PhantomData<C>,
}

impl<C: Config> CodeCoverage<C> {
    /// Whether `settings` is what the configuration `C` may say.
    pub open spec fn configured(settings: Settings) -> bool {
        &&& call_ensures(C::cargo_args, (), settings.cargo_args)
        &&& call_ensures(C::cargo_args_last, (), settings.cargo_args_last)
        &&& call_ensures(C::ignore_paths, (), settings.ignore_paths)
        &&& call_ensures(C::ignore_packages, (), settings.ignore_packages)
    }

    /// What the configuration `C` says.
    pub fn settings() -> (settings: Settings)
        ensures
            Self::configured(settings),
    {
        Settings {
            cargo_args: C::cargo_args(),
            cargo_args_last: C::cargo_args_last(),
            ignore_paths: C::ignore_paths(),
            ignore_packages: C::ignore_packages(),
        }
    }

    /// Plans the work up to the written report under the configuration `C`.
    /// `rustflags` is the value of the compiler flags variable, if it is set.
    pub fn execute(install_dependencies: bool, rustflags: &Option<String>) -> (plan: Vec<Step>)
        ensures
            exists|settings: Settings| #[trigger]
                Self::configured(settings) && steps(plan@) == steps_to_report(
                    install_dependencies,
                    settings,
                    text_view(*rustflags),
                ),
    {
        let settings = Self::settings();
        plan(install_dependencies, &settings, rustflags)
    }
}

/// Whether a space directly followed by a percent sign starts at position
/// `i` of `text`.
pub open spec fn marker_at(text: Seq<char>, i: int) -> bool {
    0 <= i && i + 1 < text.len() && text[i] == ' ' && text[i + 1] == '%'
}

/// The number of characters of `text` before the first space that is
/// directly followed by a percent sign, or the length of `text` where there
/// is none.
pub open spec fn marker_start(text: Seq<char>) -> nat
    decreases text.len(),
{
    if text.len() < 2 {
        text.len()
    } else if text[0] == ' ' && text[1] == '%' {
        0
    } else {
        1 + marker_start(text.drop_first())
    }
}

/// The position that follows the last `>` of `text`, or 0 where there is
/// none.
pub open spec fn value_start(text: Seq<char>) -> nat
    decreases text.len(),
{
    if text.len() == 0 {
        0
    } else if text.last() == '>' {
        text.len()
    } else {
        value_start(text.drop_last())
    }
}

/// The percentage as the report writes it: what stands between the first
/// `" %"` of the report and the nearest `>` before it. Where the report holds
/// no `" %"`, its end takes that place; where no `>` stands before, its
/// beginning does.
pub open spec fn percent_text(report: Seq<char>) -> Seq<char> {
    let head = report.take(marker_start(report) as int);
    head.skip(value_start(head) as int)
}

/// `marker_start` is the position `k` once no `" %"` starts before `k` and
/// one starts at `k`, or `k` is the end of the text.
pub proof fn lemma_marker_start(text: Seq<char>, k: int)
    requires
        0 <= k <= text.len(),
        forall|i: int| 0 <= i < k ==> !marker_at(text, i),
        k == text.len() || marker_at(text, k),
    ensures
        marker_start(text) == k,
    decreases k,
{
    if k > 0 && text.len() >= 2 {
        let rest = text.drop_first();
        assert(!marker_at(text, 0));
        assert forall|i: int| 0 <= i < k - 1 implies !marker_at(rest, i) by {
            assert(!marker_at(text, i + 1));
            if i + 1 < rest.len() {
                assert(rest[i] == text[i + 1]);
                assert(rest[i + 1] == text[i + 2]);
            }
        }
        lemma_marker_start(rest, k - 1);
    }
}

/// `value_start` is the position `k` once no `>` stands at or after `k` and
/// one stands just before `k`, or `k` is the beginning of the text.
pub proof fn lemma_value_start(text: Seq<char>, k: int)
    requires
        0 <= k <= text.len(),
        forall|i: int| k <= i < text.len() ==> text[i] != '>',
        k == 0 || text[k - 1] == '>',
    ensures
        value_start(text) == k,
    decreases text.len() - k,
{
    if k < text.len() {
        let init = text.drop_last();
        lemma_value_start(init, k);
    }
}

/// Reads the percentage out of the text of a coverage report.
pub fn find_coverage_percent(report: &str) -> (percentage: String)
    ensures
        percentage@ == percent_text(report@),
{
    let chars = chars_of(report);
    let n = chars.len();
    let mut stop: usize = 0;
    while stop < n && !(stop + 1 < n && chars[stop] == ' ' && chars[stop + 1] == '%')
        invariant
            stop <= n == chars.len(),
            forall|i: int| 0 <= i < stop ==> !marker_at(chars@, i),
        decreases n - stop,
    {
        stop += 1;
    }
    proof {
        lemma_marker_start(chars@, stop as int);
    }
    let ghost head = chars@.take(stop as int);
    let mut start: usize = stop;
    while start > 0 && chars[start - 1] != '>'
        invariant
            start <= stop <= chars.len(),
            forall|i: int| start <= i < stop ==> chars@[i] != '>',
        decreases start,
    {
        start -= 1;
    }
    proof {
        lemma_value_start(head, start as int);
        assert(head.skip(start as int) == chars@.subrange(start as int, stop as int));
    }
    text_of(&chars, start, stop)
}

/// The line that reports the percentage `percentage` as a warning
/// annotation.
pub open spec fn summary(percentage: Seq<char>) -> Seq<char> {
    "::warning::Line Coverage Percentage: "@ + percentage
}

/// The line that reports the percentage as a warning annotation.
pub fn summary_line(percentage: &str) -> (line: String)
    ensures
        line@ == summary(percentage@),
{
    let mut line = "::warning::Line Coverage Percentage: ".to_owned();
    line.append(percentage);
    line
}

/// The most bytes that a text on a badge may take.
pub const MAX_BADGE_TEXT: usize = 1048576;

/// The image that the `badge` crate draws for a subject, a status and a
/// colour, as `Badge::to_svg` returns it.
pub uninterp spec fn badge_svg(subject: Seq<char>, status: Seq<char>, color: Seq<char>) -> Seq<char>;

/// Draws a badge with `badge::Badge::new` and `Badge::to_svg`.
///
/// `Badge::new` refuses an empty subject or status with the message stated
/// here, and nothing else. The image is a function of the three texts alone:
/// the font is built into the crate. The crate adds up glyph widths in 32
/// bits, so texts beyond `MAX_BADGE_TEXT` bytes are left out.
#[verifier::external_body]
fn draw_badge(subject: &str, status: &str, color: &str) -> (svg: Result<String, String>)
    requires
        subject.len() <= MAX_BADGE_TEXT,
        status.len() <= MAX_BADGE_TEXT,
    ensures
        svg is Err <==> subject@.len() == 0 || status@.len() == 0,
        svg matches Ok(image) ==> image@ == badge_svg(subject@, status@, color@),
        svg matches Err(message) ==> message@ == "status and subject must not be empty"@,
{
    let options = badge::BadgeOptions {
        subject: subject.to_owned(),
        status: status.to_owned(),
        color: color.to_owned(),
    };
    match badge::Badge::new(options) {
        Ok(badge) => Ok(badge.to_svg()),
        Err(message) => Err(message),
    }
}

/// The coverage badge for the percentage `status`, or the reason why there
/// is none. There is one exactly when `status` is not empty.
pub fn coverage_badge(status: &str) -> (svg: Result<String, String>)
    requires
        status.len() <= MAX_BADGE_TEXT,
    ensures
        svg is Err <==> status@.len() == 0,
        svg matches Ok(image) ==> image@ == badge_svg("coverage"@, status@, "#0366D6"@),
        svg matches Err(message) ==> message@ == "status and subject must not be empty"@,
{
    proof {
        reveal_strlit("coverage");
        vstd::string::is_ascii_spec_bytes("coverage");
    }
    draw_badge("coverage", status, "#0366D6")
}

} // verus!

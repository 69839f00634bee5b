//! The report of `doctor`: verdicts, their layout, and their tally.

use vstd::prelude::*;
use vstd::string::*;

use crate::text;
use crate::ui;
use crate::ui::Palette;

verus! {

/// A check's verdict.
#[derive(Clone, Copy, Debug, PartialEq, Eq, Structural)]
pub enum Status {
    Pass,
    Warn,
    Fail,
}

/// One check's verdict plus optional rendered detail. `inline` appears on the
/// same line after the label (used for short, positive context such as a
/// version string); `detail` is printed on subsequent indented lines (used
/// for warning/failure explanations).
#[derive(Debug)]
pub struct Outcome {
    pub status: Status,
    pub inline: Option<String>,
    pub detail: Option<String>,
}

/// The model of an [`Outcome`].
#[verifier::ext_equal]
pub struct OutcomeView {
    pub status: Status,
    pub inline: Option<Seq<char>>,
    pub detail: Option<Seq<char>>,
}

impl DeepView for Outcome {
    type V = OutcomeView;

    open spec fn deep_view(&self) -> OutcomeView {
        OutcomeView {
            status: self.status,
            inline: self.inline.deep_view(),
            detail: self.detail.deep_view(),
        }
    }
}

/// A check that passed, with nothing to add.
pub open spec fn pass() -> OutcomeView {
    OutcomeView { status: Status::Pass, inline: None, detail: None }
}

/// A check that passed, with a short context.
pub open spec fn pass_with(inline: Seq<char>) -> OutcomeView {
    OutcomeView { status: Status::Pass, inline: Some(inline), detail: None }
}

/// A warning with its explanation.
pub open spec fn warn(detail: Seq<char>) -> OutcomeView {
    OutcomeView { status: Status::Warn, inline: None, detail: Some(detail) }
}

/// A failure with its explanation.
pub open spec fn fail(detail: Seq<char>) -> OutcomeView {
    OutcomeView { status: Status::Fail, inline: None, detail: Some(detail) }
}

impl Outcome {
    /// A check that passed, with nothing to add.
    pub fn pass() -> (r: Outcome)
        ensures
            r.deep_view() == pass(),
    {
        Outcome { status: Status::Pass, inline: None, detail: None }
    }

    /// A check that passed, with a short context.
    pub fn pass_with(inline: &str) -> (r: Outcome)
        ensures
            r.deep_view() == pass_with(inline@),
    {
        Outcome { status: Status::Pass, inline: Some(inline.to_owned()), detail: None }
    }

    /// A warning with its explanation.
    pub fn warn(detail: &str) -> (r: Outcome)
        ensures
            r.deep_view() == warn(detail@),
    {
        Outcome { status: Status::Warn, inline: None, detail: Some(detail.to_owned()) }
    }

    /// A failure with its explanation.
    pub fn fail(detail: &str) -> (r: Outcome)
        ensures
            r.deep_view() == fail(detail@),
    {
        Outcome { status: Status::Fail, inline: None, detail: Some(detail.to_owned()) }
    }
}

/// The checks made so far, and the text of the report that has not been shown
/// yet.
#[derive(Debug)]
pub struct Report {
    pub palette: Palette,
    pub pass: u32,
    pub warn: u32,
    pub fail: u32,
    pub text: String,
}

/// The model of a [`Report`].
#[verifier::ext_equal]
pub struct ReportView {
    pub palette: Palette,
    pub pass: u32,
    pub warn: u32,
    pub fail: u32,
    pub text: Seq<char>,
}

impl DeepView for Report {
    type V = ReportView;

    open spec fn deep_view(&self) -> ReportView {
        ReportView {
            palette: self.palette,
            pass: self.pass,
            warn: self.warn,
            fail: self.fail,
            text: self.text@,
        }
    }
}

/// The number of checks made.
pub open spec fn checks_made(r: ReportView) -> int {
    r.pass + r.warn + r.fail
}

/// The number of checks with a verdict.
pub open spec fn tally(r: ReportView, status: Status) -> u32 {
    match status {
        Status::Pass => r.pass,
        Status::Warn => r.warn,
        Status::Fail => r.fail,
    }
}

/// `n` more checks can be counted, whatever their verdicts.
pub open spec fn has_room(r: ReportView, n: int) -> bool {
    r.pass + n <= u32::MAX && r.warn + n <= u32::MAX && r.fail + n <= u32::MAX
}

/// The glyph of a verdict, in its colour.
pub open spec fn verdict_text(p: Palette, status: Status) -> Seq<char> {
    match status {
        Status::Pass => ui::styled(ui::green_of(p), "✔"@),
        Status::Warn => ui::styled(ui::yellow_of(p), "⚠"@),
        Status::Fail => ui::styled(ui::red_of(p), "✗"@),
    }
}

/// The short context of a check, in dim brackets after its label.
pub open spec fn inline_text(p: Palette, inline: Option<Seq<char>>) -> Seq<char> {
    match inline {
        Some(s) => " "@ + ui::styled(ui::dim_of(p), "("@ + s + ")"@),
        None => seq![],
    }
}

/// The explanation of a check, one indented dim line for each of its lines.
pub open spec fn detail_lines(p: Palette, lines: Seq<Seq<char>>) -> Seq<char>
    decreases lines.len(),
{
    if lines.len() == 0 {
        seq![]
    } else {
        detail_lines(p, lines.drop_last()) + "      "@ + ui::styled(ui::dim_of(p), lines.last())
            + "\n"@
    }
}

/// The explanation of a check, where it has one.
pub open spec fn detail_text(p: Palette, detail: Option<Seq<char>>) -> Seq<char> {
    match detail {
        Some(s) => detail_lines(p, text::line_seq(s)),
        None => seq![],
    }
}

/// The lines of a check.
#[verifier::opaque]
pub open spec fn check_text(p: Palette, label: Seq<char>, o: OutcomeView) -> Seq<char> {
    "  "@ + verdict_text(p, o.status) + " "@ + label + inline_text(p, o.inline) + "\n"@
        + detail_text(p, o.detail)
}

/// The report with one more check: its lines are added, and its verdict is
/// counted.
pub open spec fn checked(r: ReportView, label: Seq<char>, o: OutcomeView) -> ReportView {
    ReportView {
        palette: r.palette,
        pass: if o.status == Status::Pass {
            (r.pass + 1) as u32
        } else {
            r.pass
        },
        warn: if o.status == Status::Warn {
            (r.warn + 1) as u32
        } else {
            r.warn
        },
        fail: if o.status == Status::Fail {
            (r.fail + 1) as u32
        } else {
            r.fail
        },
        text: r.text + check_text(r.palette, label, o),
    }
}

/// The report with a section heading added.
pub open spec fn sectioned(r: ReportView, name: Seq<char>) -> ReportView {
    ReportView { text: r.text + ui::section_text(r.palette, name), ..r }
}

/// The line that sums the report up.
#[verifier::opaque]
pub open spec fn summary_text(r: ReportView) -> Seq<char> {
    ui::styled(ui::bold_of(r.palette), "Summary:"@) + " "@ + ui::styled(
        ui::green_of(r.palette),
        text::decimal(r.pass as nat) + " passed"@,
    ) + ", "@ + ui::styled(
        ui::yellow_of(r.palette),
        text::decimal(r.warn as nat) + " warning(s)"@,
    ) + ", "@ + ui::styled(ui::red_of(r.palette), text::decimal(r.fail as nat) + " failed"@)
        + ".\n"@
}

/// The report with its summary added after a blank line.
pub open spec fn summed_up(r: ReportView) -> ReportView {
    ReportView { text: r.text + "\n"@ + summary_text(r), ..r }
}

impl Report {
    /// An empty report.
    pub fn new(palette: Palette) -> (r: Report)
        ensures
            r.deep_view() == (ReportView { palette, pass: 0, warn: 0, fail: 0, text: seq![] }),
    {
        let r = Report { palette, pass: 0, warn: 0, fail: 0, text: String::new() };
        assert(r.text@ == Seq::<char>::empty());
        r
    }

    /// Adds a section heading.
    pub fn section(&mut self, name: &str)
        ensures
            final(self).deep_view() == sectioned(old(self).deep_view(), name@),
    {
        let mut heading = "\n".to_owned();
        heading.append(self.palette.bold().apply(name).as_str());
        heading.append("\n");
        self.text.append(heading.as_str());
    }

    /// Add the lines of a check and bump the tallies. Returns `true` for Pass so
    /// the caller can gate dependent checks (Warn/Fail returns `false`).
    pub fn check(&mut self, label: &str, outcome: Outcome) -> (r: bool)
        requires
            tally(old(self).deep_view(), outcome.status) < u32::MAX,
        ensures
            final(self).deep_view() == checked(
                old(self).deep_view(),
                label@,
                outcome.deep_view(),
            ),
            r == (outcome.status == Status::Pass),
    {
        proof {
            reveal(check_text);
        }
        let mut lines = "  ".to_owned();
        lines.append(
            match outcome.status {
                Status::Pass => self.palette.green().apply("✔"),
                Status::Warn => self.palette.yellow().apply("⚠"),
                Status::Fail => self.palette.red().apply("✗"),
            }.as_str(),
        );
        lines.append(" ");
        lines.append(label);
        lines.append(self.palette_inline(&outcome.inline).as_str());
        lines.append("\n");
        lines.append(self.palette_detail(&outcome.detail).as_str());
        self.text.append(lines.as_str());
        match outcome.status {
            Status::Pass => {
                self.pass = self.pass + 1;
            },
            Status::Warn => {
                self.warn = self.warn + 1;
            },
            Status::Fail => {
                self.fail = self.fail + 1;
            },
        }
        match outcome.status {
            Status::Pass => true,
            _ => false,
        }
    }

    /// The short context of a check.
    fn palette_inline(&self, inline: &Option<String>) -> (r: String)
        ensures
            r@ == inline_text(self.palette, inline.deep_view()),
    {
        match inline {
            Some(s) => {
                let mut bracketed = "(".to_owned();
                bracketed.append(s.as_str());
                bracketed.append(")");
                let mut r = " ".to_owned();
                r.append(self.palette.dim().apply(bracketed.as_str()).as_str());
                r
            },
            None => String::new(),
        }
    }

    /// The explanation of a check.
    fn palette_detail(&self, detail: &Option<String>) -> (r: String)
        ensures
            r@ == detail_text(self.palette, detail.deep_view()),
    {
        let mut r = String::new();
        if let Some(s) = detail {
            let lines = text::lines(s.as_str());
            let ghost all = lines.deep_view();
            let mut i: usize = 0;
            assert(r@ == detail_lines(self.palette, all.take(0)));
            while i < lines.len()
                invariant
                    i <= lines.len(),
                    all == lines.deep_view(),
                    r@ == detail_lines(self.palette, all.take(i as int)),
                decreases lines.len() - i,
            {
                r.append("      ");
                r.append(self.palette.dim().apply(lines[i].as_str()).as_str());
                r.append("\n");
                assert(all.take(i + 1).drop_last() == all.take(i as int));
                assert(all.take(i + 1).last() == lines@[i as int]@);
                i = i + 1;
            }
            assert(all.take(i as int) == all);
        }
        r
    }

    /// Adds the summary after a blank line.
    pub fn print_summary(&mut self)
        ensures
            final(self).deep_view() == summed_up(old(self).deep_view()),
    {
        proof {
            reveal(summary_text);
        }
        let mut passed = text::decimal_text(self.pass as u64);
        passed.append(" passed");
        let mut warnings = text::decimal_text(self.warn as u64);
        warnings.append(" warning(s)");
        let mut failures = text::decimal_text(self.fail as u64);
        failures.append(" failed");
        let mut line = self.palette.bold().apply("Summary:");
        line.append(" ");
        line.append(self.palette.green().apply(passed.as_str()).as_str());
        line.append(", ");
        line.append(self.palette.yellow().apply(warnings.as_str()).as_str());
        line.append(", ");
        line.append(self.palette.red().apply(failures.as_str()).as_str());
        line.append(".\n");
        self.text.append("\n");
        self.text.append(line.as_str());
    }

    /// Whether any check failed. Warnings are advisory.
    pub fn has_fail(&self) -> (r: bool)
        ensures
            r == (self.deep_view().fail > 0),
    {
        self.fail > 0
    }
}

// --- laws -------------------------------------------------------------------

/// Each check counts once, under its own verdict.
pub proof fn law_each_check_counts_once(r: ReportView, label: Seq<char>, o: OutcomeView)
    requires
        tally(r, o.status) < u32::MAX,
    ensures
        checks_made(checked(r, label, o)) == checks_made(r) + 1,
        forall|status: Status| #[trigger]
            tally(checked(r, label, o), status) == tally(r, status) + (if status == o.status {
                1int
            } else {
                0
            }),
{
}

} // verus!

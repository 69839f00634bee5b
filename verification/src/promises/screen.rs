//! What the user sees: lines, colours, spinners and the report.

use vstd::prelude::*;

use crate::promises::words;
use crate::report;
use crate::stack;
use crate::text;
use crate::ui;

verus! {

// --- colours ----------------------------------------------------------------

/// `shown` is `s` in bold, or as it is where colour is off.
pub open spec fn in_bold(p: ui::Palette, s: Seq<char>, shown: Seq<char>) -> bool {
    shown == if p.enabled {
        "\x1b[1m"@ + s + "\x1b[0m"@
    } else {
        s
    }
}

/// `shown` is `s` dimmed, or as it is where colour is off.
pub open spec fn in_dim(p: ui::Palette, s: Seq<char>, shown: Seq<char>) -> bool {
    shown == if p.enabled {
        "\x1b[2m"@ + s + "\x1b[0m"@
    } else {
        s
    }
}

/// `shown` is `s` in green, or as it is where colour is off.
pub open spec fn in_green(p: ui::Palette, s: Seq<char>, shown: Seq<char>) -> bool {
    shown == if p.enabled {
        "\x1b[32m"@ + s + "\x1b[0m"@
    } else {
        s
    }
}

/// `shown` is `s` in yellow, or as it is where colour is off.
pub open spec fn in_yellow(p: ui::Palette, s: Seq<char>, shown: Seq<char>) -> bool {
    shown == if p.enabled {
        "\x1b[33m"@ + s + "\x1b[0m"@
    } else {
        s
    }
}

/// `shown` is `s` in red, or as it is where colour is off.
pub open spec fn in_red(p: ui::Palette, s: Seq<char>, shown: Seq<char>) -> bool {
    shown == if p.enabled {
        "\x1b[31m"@ + s + "\x1b[0m"@
    } else {
        s
    }
}

/// Each style of the palette is what it is called, and is switched off again
/// behind the text. Without colour no escape code is written at all.
pub proof fn law_palette(p: ui::Palette, s: Seq<char>)
    ensures
        in_bold(p, s, ui::styled(ui::bold_of(p), s)),
        in_dim(p, s, ui::styled(ui::dim_of(p), s)),
        in_green(p, s, ui::styled(ui::green_of(p), s)),
        in_yellow(p, s, ui::styled(ui::yellow_of(p), s)),
        in_red(p, s, ui::styled(ui::red_of(p), s)),
{
    assert(ui::styled(ui::plain(), s) == s);
    if p.enabled {
        assert(ui::style_codes(ui::bold_of(p)) == "\x1b[1m"@);
        assert(ui::style_codes(ui::dim_of(p)) == "\x1b[2m"@);
        assert(ui::style_codes(ui::green_of(p)) == "\x1b[32m"@);
        assert(ui::style_codes(ui::yellow_of(p)) == "\x1b[33m"@);
        assert(ui::style_codes(ui::red_of(p)) == "\x1b[31m"@);
    }
}

// --- when there is colour ---------------------------------------------------

/// Colour is on if and only if the output is a terminal and `NO_COLOR` is not
/// set. Spinners are animated exactly where there is colour, and so a pipe sees
/// none of either.
pub proof fn law_colour_needs_a_terminal(
    is_terminal: bool,
    no_color: bool,
    p: ui::Palette,
    c: ui::Console,
)
    requires
        call_ensures(ui::Palette::detect, (is_terminal, no_color), p),
        call_ensures(ui::Console::detect, (is_terminal, no_color), c),
    ensures
        p.enabled <==> is_terminal && !no_color,
        c.palette == p,
        c.animate <==> c.palette.enabled,
{
}

/// A spinner has a frame at every tick where it is animated, and none otherwise.
pub proof fn law_spinner_is_hidden_without_animation(
    c: ui::Console,
    pending: &str,
    tick: usize,
    r: Option<String>,
)
    requires
        call_ensures(ui::Console::spinner, (&c, pending, tick), r),
    ensures
        r is Some <==> c.animate,
        r matches Some(frame) ==> frame@ == ui::frame_text(c, pending@, tick as nat),
{
}

/// An error line is coloured if and only if the output is a terminal and
/// `NO_COLOR` is not set.
pub proof fn law_error_line_is_plain_in_a_pipe(
    msg: &str,
    is_terminal: bool,
    no_color: bool,
    r: String,
)
    requires
        call_ensures(ui::print_error, (msg, is_terminal, no_color), r),
    ensures
        !(is_terminal && !no_color) ==> r@ == "error: "@ + msg@ + "\n"@,
        is_terminal && !no_color ==> r@ == "\x1b[31m"@ + "✗"@ + "\x1b[0m"@ + " "@ + msg@ + "\n"@,
{
    law_error_line(ui::Palette { enabled: is_terminal && !no_color }, msg@);
}

/// The spinner's line is erased from its start.
pub proof fn law_spinner_is_erased(c: ui::Console, r: &'static str)
    requires
        call_ensures(ui::Console::spinner_erase, (&c,), r),
    ensures
        r@ == "\r\x1b[2K"@,
{
}

/// A new report is empty.
pub proof fn law_new_report_is_empty(p: ui::Palette, r: report::Report)
    requires
        call_ensures(report::Report::new, (p,), r),
    ensures
        r.deep_view().palette == p,
        r.deep_view().pass == 0 && r.deep_view().warn == 0 && r.deep_view().fail == 0,
        r.deep_view().text.len() == 0,
{
}

/// A report has a failure if and only if a check was counted as failed.
pub proof fn law_report_fails_iff_a_check_failed(r: report::Report, failed: bool)
    requires
        call_ensures(report::Report::has_fail, (&r,), failed),
    ensures
        failed <==> r.deep_view().fail > 0,
{
}

// --- lines ------------------------------------------------------------------

/// The lines of the console: the banner, headings, context and completed
/// actions, dim lines, and the headline URL.
pub proof fn law_console_lines(c: ui::Console, s: Seq<char>)
    ensures
        exists|shown: Seq<char>| #[trigger]
            in_bold(c.palette, "stackymcstackface"@, shown) && ui::banner_text(c) == shown
                + "\n"@,
        exists|shown: Seq<char>| #[trigger]
            in_bold(c.palette, s, shown) && ui::section_text(c.palette, s) == "\n"@ + shown
                + "\n"@,
        ui::field_text(s) == "  "@ + s + "\n"@,
        exists|glyph: Seq<char>| #[trigger]
            in_green(c.palette, "✔"@, glyph) && ui::done_text(c, s) == "  "@ + glyph + " "@ + s
                + "\n"@,
        exists|shown: Seq<char>| #[trigger]
            in_dim(c.palette, s, shown) && ui::dim_text(c, s) == "  "@ + shown + "\n"@,
        exists|shown: Seq<char>| #[trigger]
            in_bold(c.palette, s, shown) && ui::url_text(c, s) == "\n  "@ + shown + "\n"@,
{
    law_palette(c.palette, s);
    law_palette(c.palette, "stackymcstackface"@);
    law_palette(c.palette, "✔"@);
}

/// The plan is a headline, with a dim note below it where there is one.
pub proof fn law_plan_lines(c: ui::Console, headline: Seq<char>, note: Seq<char>)
    ensures
        ui::plan_text(c, headline, None) == "  "@ + headline + "\n"@,
        exists|shown: Seq<char>| #[trigger]
            in_dim(c.palette, note, shown) && ui::plan_text(c, headline, Some(note)) == "  "@
                + headline + "\n"@ + "    "@ + shown + "\n"@,
{
    law_palette(c.palette, note);
}

/// Lines with an indent of four blanks.
pub open spec fn indented(lines: Seq<Seq<char>>) -> Seq<char>
    decreases lines.len(),
{
    if lines.len() == 0 {
        seq![]
    } else {
        indented(lines.drop_last()) + "    "@ + lines.last() + "\n"@
    }
}

proof fn lemma_warn_lines(c: ui::Console, first: Seq<char>, rest: Seq<Seq<char>>)
    ensures
        ui::warn_lines(c, seq![first] + rest) == ui::warn_line(c, first) + indented(rest),
    decreases rest.len(),
{
    let lines = seq![first] + rest;
    if rest.len() == 0 {
        assert(lines == seq![first]);
        assert(ui::warn_lines(c, lines) == ui::warn_line(c, first));
    } else {
        lemma_warn_lines(c, first, rest.drop_last());
        assert(lines.drop_last() == seq![first] + rest.drop_last());
        assert(lines.last() == rest.last());
    }
}

/// A warning has a yellow sign before its first line; every further line is
/// kept, with an indent.
pub proof fn law_warning_lines(c: ui::Console, line: Seq<char>, rest: Seq<char>)
    requires
        words::is_line(line),
    ensures
        exists|glyph: Seq<char>| #[trigger]
            in_yellow(c.palette, "⚠"@, glyph) && ui::warn_text(c, line + seq!['\n'] + rest) == "  "@
                + glyph + " "@ + line + "\n"@ + indented(text::line_seq(rest)),
        line.len() > 0 ==> exists|glyph: Seq<char>| #[trigger]
            in_yellow(c.palette, "⚠"@, glyph) && ui::warn_text(c, line) == "  "@ + glyph + " "@
                + line + "\n"@,
        ui::warn_text(c, seq![]).len() == 0,
{
    law_palette(c.palette, "⚠"@);
    words::law_first_line(line, rest);
    words::law_last_line(line);
    words::law_last_line(seq![]);
    lemma_warn_lines(c, line, text::line_seq(rest));
}

/// The error line has a red sign where colour is on, and the word `error` where
/// it is off.
pub proof fn law_error_line(p: ui::Palette, msg: Seq<char>)
    ensures
        p.enabled ==> ui::error_text(p, msg) == "\x1b[31m"@ + "✗"@ + "\x1b[0m"@ + " "@ + msg
            + "\n"@,
        !p.enabled ==> ui::error_text(p, msg) == "error: "@ + msg + "\n"@,
{
    assert(ui::style_codes(ui::coloured(ui::AnsiColor::Red)) == "\x1b[31m"@);
}

/// The spinner's frames: ten glyphs in turn, each dim and followed by what is
/// pending, at the start of the same line.
pub proof fn law_spinner_frames(c: ui::Console, pending: Seq<char>, n: nat)
    ensures
        ({
            let glyphs = seq![
                "⠋"@,
                "⠙"@,
                "⠹"@,
                "⠸"@,
                "⠼"@,
                "⠴"@,
                "⠦"@,
                "⠧"@,
                "⠇"@,
                "⠏"@,
            ];
            exists|shown: Seq<char>| #[trigger]
                in_dim(c.palette, glyphs[n as int % 10], shown) && ui::frame_text(c, pending, n)
                    == "\r  "@ + shown + " "@ + pending + "…"@
        }),
        ui::frame_text(c, pending, n + 10) == ui::frame_text(c, pending, n),
{
    let glyphs = seq!["⠋"@, "⠙"@, "⠹"@, "⠸"@, "⠼"@, "⠴"@, "⠦"@, "⠧"@, "⠇"@, "⠏"@];
    assert(ui::frame_glyph(n) == glyphs[n as int % 10]);
    law_palette(c.palette, glyphs[n as int % 10]);
}

/// A lead-in stands before git's own output, and only where that is shown.
pub proof fn law_lead_in(x: stack::SetupView, lead: Seq<char>)
    ensures
        x.opts.verbose == 0 ==> stack::lead_in(x, lead).len() == 0,
        x.opts.verbose > 0 ==> exists|shown: Seq<char>| #[trigger]
            in_dim(x.console.palette, lead, shown) && stack::lead_in(x, lead) == "  "@ + shown
                + "\n"@,
{
    law_palette(x.console.palette, lead);
}

/// The fetch and the push each begin with their lead-in.
pub proof fn law_git_steps_are_led_in(
    x: stack::SetupView,
    aim: stack::AimView,
    p: stack::PlanView,
    output: Seq<char>,
)
    ensures
        stack::at_fetch(x, aim, output).output == output + stack::lead_in(
            x,
            "fetching "@ + aim.remote,
        ),
        stack::at_push(x, p, output).output == output + stack::lead_in(
            x,
            "pushing "@ + p.aim.here.branch + " → "@ + p.aim.remote,
        ),
{
    reveal(stack::at_fetch);
    reveal(stack::at_push);
}

// --- the report -------------------------------------------------------------

/// The sign of a verdict.
pub open spec fn is_sign(p: ui::Palette, status: report::Status, shown: Seq<char>) -> bool {
    match status {
        report::Status::Pass => in_green(p, "✔"@, shown),
        report::Status::Warn => in_yellow(p, "⚠"@, shown),
        report::Status::Fail => in_red(p, "✗"@, shown),
    }
}

/// A check adds one to the number of its verdict and to no other, and adds its
/// lines to the report and changes none before them.
pub proof fn law_check_counts_under_its_verdict(
    r: report::ReportView,
    label: Seq<char>,
    o: report::OutcomeView,
)
    requires
        r.pass < u32::MAX,
        r.warn < u32::MAX,
        r.fail < u32::MAX,
    ensures
        ({
            let next = report::checked(r, label, o);
            &&& next.palette == r.palette
            &&& r.text.is_prefix_of(next.text)
            &&& next.text == r.text + report::check_text(r.palette, label, o)
            &&& o.status is Pass <==> next.pass == r.pass + 1
            &&& o.status is Warn <==> next.warn == r.warn + 1
            &&& o.status is Fail <==> next.fail == r.fail + 1
            &&& next.pass + next.warn + next.fail == r.pass + r.warn + r.fail + 1
            &&& next.pass >= r.pass && next.warn >= r.warn && next.fail >= r.fail
        }),
{
}

/// The short context of a check, in dim brackets behind a blank; nothing where
/// there is none.
pub open spec fn is_context(p: ui::Palette, inline: Option<Seq<char>>, shown: Seq<char>) -> bool {
    match inline {
        Some(s) => exists|dim: Seq<char>| #[trigger]
            in_dim(p, "("@ + s + ")"@, dim) && shown == " "@ + dim,
        None => shown.len() == 0,
    }
}

/// A check is shown with the sign of its verdict, its label, its short context
/// in dim brackets, and each line of its explanation on a dim line below.
pub proof fn law_check_lines(p: ui::Palette, label: Seq<char>, o: report::OutcomeView)
    ensures
        exists|sign: Seq<char>, context: Seq<char>|
            {
                &&& #[trigger] is_sign(p, o.status, sign)
                &&& #[trigger] is_context(p, o.inline, context)
                &&& report::check_text(p, label, o) == "  "@ + sign + " "@ + label + context + "\n"@
                    + (match o.detail {
                    Some(s) => report::detail_lines(p, text::line_seq(s)),
                    None => seq![],
                })
            },
{
    reveal(report::check_text);
    let glyph = match o.status {
        report::Status::Pass => "✔"@,
        report::Status::Warn => "⚠"@,
        report::Status::Fail => "✗"@,
    };
    law_palette(p, glyph);
    let sign = report::verdict_text(p, o.status);
    let context = report::inline_text(p, o.inline);
    assert(is_sign(p, o.status, sign));
    match o.inline {
        Some(s) => {
            law_palette(p, "("@ + s + ")"@);
        },
        None => {},
    }
    assert(is_context(p, o.inline, context));
}

/// Every line of an explanation is shown, in its order.
pub proof fn law_explanation_lines(p: ui::Palette, lines: Seq<Seq<char>>, line: Seq<char>)
    ensures
        report::detail_lines(p, seq![]).len() == 0,
        exists|shown: Seq<char>| #[trigger]
            in_dim(p, line, shown) && report::detail_lines(p, lines.push(line))
                == report::detail_lines(p, lines) + "      "@ + shown + "\n"@,
{
    law_palette(p, line);
    assert(lines.push(line).drop_last() == lines);
}

/// The summary gives the three numbers, each in the colour of its verdict. It
/// comes behind a blank line, and changes no number.
pub proof fn law_summary_gives_the_numbers(r: report::ReportView)
    ensures
        exists|head: Seq<char>, pass: Seq<char>, warn: Seq<char>, fail: Seq<char>|
            {
                &&& #[trigger] in_bold(r.palette, "Summary:"@, head)
                &&& #[trigger] in_green(
                    r.palette,
                    text::decimal(r.pass as nat) + " passed"@,
                    pass,
                )
                &&& #[trigger] in_yellow(
                    r.palette,
                    text::decimal(r.warn as nat) + " warning(s)"@,
                    warn,
                )
                &&& #[trigger] in_red(r.palette, text::decimal(r.fail as nat) + " failed"@, fail)
                &&& report::summed_up(r).text == r.text + "\n"@ + (head + " "@ + pass + ", "@ + warn
                    + ", "@ + fail + ".\n"@)
            },
        report::summed_up(r).pass == r.pass,
        report::summed_up(r).warn == r.warn,
        report::summed_up(r).fail == r.fail,
        report::summed_up(r).palette == r.palette,
{
    reveal(report::summary_text);
    law_palette(r.palette, "Summary:"@);
    law_palette(r.palette, text::decimal(r.pass as nat) + " passed"@);
    law_palette(r.palette, text::decimal(r.warn as nat) + " warning(s)"@);
    law_palette(r.palette, text::decimal(r.fail as nat) + " failed"@);
}

/// A heading is added to the report, and counts as no check.
pub proof fn law_heading_counts_as_no_check(r: report::ReportView, name: Seq<char>)
    ensures
        ({
            let next = report::sectioned(r, name);
            &&& next.text == r.text + ui::section_text(r.palette, name)
            &&& next.pass == r.pass && next.warn == r.warn && next.fail == r.fail
            &&& next.palette == r.palette
        }),
{
}

/// Of an outcome, the verdict and what is said of it are as they are called.
pub proof fn law_outcomes(s: Seq<char>)
    ensures
        report::pass().status is Pass && report::pass().inline is None && report::pass().detail
            is None,
        report::pass_with(s).status is Pass && report::pass_with(s).inline == Some(s)
            && report::pass_with(s).detail is None,
        report::warn(s).status is Warn && report::warn(s).detail == Some(s) && report::warn(
            s,
        ).inline is None,
        report::fail(s).status is Fail && report::fail(s).detail == Some(s) && report::fail(
            s,
        ).inline is None,
{
}

} // verus!

use stackymcstackface::report::{Outcome, Report, Status};
use stackymcstackface::ui::{print_error, AnsiColor, Console, Palette, Style};

fn coloured() -> Console {
    Console::detect(true, false)
}

fn piped() -> Console {
    Console::detect(false, false)
}

#[test]
fn colour_needs_a_terminal_and_no_veto() {
    assert!(Palette::detect(true, false).enabled);
    assert!(!Palette::detect(true, true).enabled);
    assert!(!Palette::detect(false, false).enabled);
    assert!(!Palette::detect(false, true).enabled);
    assert!(coloured().animate);
    assert!(!piped().animate);
}

#[test]
fn styles_render_escape_codes() {
    let p = Palette::detect(true, false);
    assert_eq!(p.green().render(), "\x1b[32m");
    assert_eq!(p.yellow().render(), "\x1b[33m");
    assert_eq!(p.red().render(), "\x1b[31m");
    assert_eq!(p.bold().render(), "\x1b[1m");
    assert_eq!(p.dim().render(), "\x1b[2m");
    for s in [p.green(), p.yellow(), p.red(), p.bold(), p.dim()] {
        assert_eq!(s.render_reset(), "\x1b[0m");
        assert_eq!(s.apply("x"), format!("{}x\x1b[0m", s.render()));
    }
    let all = Style {
        fg: Some(AnsiColor::Red),
        bold: true,
        dimmed: true,
    };
    assert_eq!(all.apply("x"), "\x1b[1m\x1b[2m\x1b[31mx\x1b[0m");
}

#[test]
fn disabled_styles_render_nothing() {
    let p = Palette::detect(false, false);
    for s in [p.green(), p.yellow(), p.red(), p.bold(), p.dim(), Style::new()] {
        assert_eq!(s.render(), "");
        assert_eq!(s.render_reset(), "");
        assert_eq!(s.apply("x"), "x");
    }
}

#[test]
fn console_lines_in_colour() {
    let c = coloured();
    assert_eq!(c.banner(), "\x1b[1mstackymcstackface\x1b[0m\n");
    assert_eq!(c.section("PLAN"), "\n\x1b[1mPLAN\x1b[0m\n");
    assert_eq!(c.field("x"), "  x\n");
    assert_eq!(c.plan("do it", Some("now")), "  do it\n    \x1b[2mnow\x1b[0m\n");
    assert_eq!(c.done("ok"), "  \x1b[32m✔\x1b[0m ok\n");
    assert_eq!(c.dim_line("x"), "  \x1b[2mx\x1b[0m\n");
    assert_eq!(c.warn("a\nb\n"), "  \x1b[33m⚠\x1b[0m a\n    b\n");
    assert_eq!(c.url("https://x"), "\n  \x1b[1mhttps://x\x1b[0m\n");
}

#[test]
fn console_lines_without_colour() {
    let c = piped();
    assert_eq!(c.banner(), "stackymcstackface\n");
    assert_eq!(c.section("PLAN"), "\nPLAN\n");
    assert_eq!(c.plan("do it", None), "  do it\n");
    assert_eq!(c.plan("do it", Some("now")), "  do it\n    now\n");
    assert_eq!(c.done("ok"), "  ✔ ok\n");
    assert_eq!(c.dim_line("x"), "  x\n");
    assert_eq!(c.warn("a\n\nb"), "  ⚠ a\n    \n    b\n");
    assert_eq!(c.warn(""), "");
    assert_eq!(c.url("https://x"), "\n  https://x\n");
}

#[test]
fn spinner_frames() {
    let c = coloured();
    assert_eq!(
        c.spinner("fetching", 0).as_deref(),
        Some("\r  \x1b[2m⠋\x1b[0m fetching…")
    );
    let glyphs = ["⠋", "⠙", "⠹", "⠸", "⠼", "⠴", "⠦", "⠧", "⠇", "⠏"];
    for tick in 0..25 {
        assert_eq!(
            c.spinner("x", tick),
            Some(format!("\r  \x1b[2m{}\x1b[0m x…", glyphs[tick % 10]))
        );
    }
    assert!(c.spinner("x", usize::MAX).is_some());
    assert_eq!(piped().spinner("fetching", 3), None);
    assert_eq!(c.spinner_erase(), "\r\x1b[2K");
}

#[test]
fn error_lines() {
    assert_eq!(print_error("boom", true, false), "\x1b[31m✗\x1b[0m boom\n");
    assert_eq!(print_error("boom", true, true), "error: boom\n");
    assert_eq!(print_error("boom", false, false), "error: boom\n");
}

#[test]
fn outcomes() {
    let p = Outcome::pass();
    assert_eq!(p.status, Status::Pass);
    assert_eq!((p.inline, p.detail), (None, None));
    let p = Outcome::pass_with("v1");
    assert_eq!(p.status, Status::Pass);
    assert_eq!((p.inline.as_deref(), p.detail), (Some("v1"), None));
    let w = Outcome::warn("why");
    assert_eq!(w.status, Status::Warn);
    assert_eq!((w.inline, w.detail.as_deref()), (None, Some("why")));
    let f = Outcome::fail("why");
    assert_eq!(f.status, Status::Fail);
    assert_eq!((f.inline, f.detail.as_deref()), (None, Some("why")));
}

#[test]
fn report_counts_each_check_once() {
    let mut r = Report::new(Palette::detect(false, false));
    assert!(!r.has_fail());
    r.section("Tools");
    assert!(r.check("a", Outcome::pass()));
    assert!(r.check("b", Outcome::pass_with("1.0")));
    assert!(!r.check("c", Outcome::warn("one\ntwo")));
    assert!(!r.has_fail());
    assert!(!r.check("d", Outcome::fail("three")));
    assert!(r.has_fail());
    assert_eq!((r.pass, r.warn, r.fail), (2, 1, 1));
    r.print_summary();
    assert_eq!(
        r.text,
        "\nTools\n  ✔ a\n  ✔ b (1.0)\n  ⚠ c\n      one\n      two\n  ✗ d\n      three\n\
         \nSummary: 2 passed, 1 warning(s), 1 failed.\n"
    );
}

#[test]
fn report_in_colour() {
    let mut r = Report::new(Palette::detect(true, false));
    r.section("Tools");
    r.check("a", Outcome::pass_with("1.0"));
    r.check("b", Outcome::warn("why"));
    r.check("c", Outcome::fail("no"));
    r.print_summary();
    assert_eq!(
        r.text,
        "\n\x1b[1mTools\x1b[0m\n\
         \x20 \x1b[32m✔\x1b[0m a \x1b[2m(1.0)\x1b[0m\n\
         \x20 \x1b[33m⚠\x1b[0m b\n      \x1b[2mwhy\x1b[0m\n\
         \x20 \x1b[31m✗\x1b[0m c\n      \x1b[2mno\x1b[0m\n\
         \n\x1b[1mSummary:\x1b[0m \x1b[32m1 passed\x1b[0m, \
         \x1b[33m1 warning(s)\x1b[0m, \x1b[31m1 failed\x1b[0m.\n"
    );
}

//! Terminal presentation: colour, sections, status lines, and spinner frames.
//!
//! All escape codes live here, so the rest of the crate words its output by
//! *intent* (a section, the plan, a finished step). Every function returns the
//! text to print; nothing is written here.

use vstd::prelude::*;
use vstd::string::*;

use crate::text;

verus! {

// --- styles -----------------------------------------------------------------

/// The foreground colours in use.
#[derive(Clone, Copy, Debug, PartialEq, Eq, Structural)]
pub enum AnsiColor {
    Green,
    Yellow,
    Red,
}

/// How a text is shown.
#[derive(Clone, Copy, Debug, PartialEq, Eq, Structural)]
pub struct Style {
    pub fg: Option<AnsiColor>,
    pub bold: bool,
    pub dimmed: bool,
}

/// The style that changes nothing.
pub open spec fn plain() -> Style {
    Style { fg: None, bold: false, dimmed: false }
}

/// The style of a foreground colour alone.
pub open spec fn coloured(color: AnsiColor) -> Style {
    Style { fg: Some(color), bold: false, dimmed: false }
}

/// The escape code that switches a foreground colour on.
pub open spec fn color_code(color: AnsiColor) -> Seq<char> {
    match color {
        AnsiColor::Green => "\x1b[32m"@,
        AnsiColor::Yellow => "\x1b[33m"@,
        AnsiColor::Red => "\x1b[31m"@,
    }
}

/// A text that is there only under a condition.
pub open spec fn only_if(condition: bool, s: Seq<char>) -> Seq<char> {
    if condition {
        s
    } else {
        seq![]
    }
}

/// The escape codes that switch a style on: effects first, then the colour.
pub open spec fn style_codes(s: Style) -> Seq<char> {
    only_if(s.bold, "\x1b[1m"@) + only_if(s.dimmed, "\x1b[2m"@) + (match s.fg {
        Some(color) => color_code(color),
        None => seq![],
    })
}

/// The escape code that switches a style off again: none for the plain style.
pub open spec fn reset_codes(s: Style) -> Seq<char> {
    only_if(s != plain(), "\x1b[0m"@)
}

/// Renders the codes that switch a style on, with `anstyle::Style::render`.
/// Nothing is proved of that function: it is taken to write `ESC[1m` for bold,
/// `ESC[2m` for dimmed and then `ESC[31m`, `ESC[32m` or `ESC[33m` for a red,
/// green or yellow foreground, and nothing for what is not set.
#[verifier::external_body]
fn render_style(fg: Option<AnsiColor>, bold: bool, dimmed: bool) -> (r: String)
    ensures
        r@ == style_codes(Style { fg, bold, dimmed }),
{
    let fg = fg.map(|c| match c {
        AnsiColor::Green => anstyle::Color::Ansi(anstyle::AnsiColor::Green),
        AnsiColor::Yellow => anstyle::Color::Ansi(anstyle::AnsiColor::Yellow),
        AnsiColor::Red => anstyle::Color::Ansi(anstyle::AnsiColor::Red),
    });
    let effects = anstyle::Effects::new()
        .set(anstyle::Effects::BOLD, bold)
        .set(anstyle::Effects::DIMMED, dimmed);
    anstyle::Style::new().fg_color(fg).effects(effects).render().to_string()
}

/// Renders the code that switches a style off, with
/// `anstyle::Style::render_reset`. Nothing is proved of that function: it is
/// taken to write `ESC[0m`, and nothing for a style without colour or effect.
#[verifier::external_body]
fn render_style_reset(fg: Option<AnsiColor>, bold: bool, dimmed: bool) -> (r: String)
    ensures
        r@ == reset_codes(Style { fg, bold, dimmed }),
{
    let fg = fg.map(|c| match c {
        AnsiColor::Green => anstyle::Color::Ansi(anstyle::AnsiColor::Green),
        AnsiColor::Yellow => anstyle::Color::Ansi(anstyle::AnsiColor::Yellow),
        AnsiColor::Red => anstyle::Color::Ansi(anstyle::AnsiColor::Red),
    });
    let effects = anstyle::Effects::new()
        .set(anstyle::Effects::BOLD, bold)
        .set(anstyle::Effects::DIMMED, dimmed);
    anstyle::Style::new().fg_color(fg).effects(effects).render_reset().to_string()
}

/// `s` shown in a style.
pub open spec fn styled(style: Style, s: Seq<char>) -> Seq<char> {
    style_codes(style) + s + reset_codes(style)
}

impl Style {
    /// The style that changes nothing.
    pub fn new() -> (r: Style)
        ensures
            r == plain(),
    {
        Style { fg: None, bold: false, dimmed: false }
    }

    /// The codes that switch the style on.
    pub fn render(self) -> (r: String)
        ensures
            r@ == style_codes(self),
    {
        render_style(self.fg, self.bold, self.dimmed)
    }

    /// The code that switches the style off.
    pub fn render_reset(self) -> (r: String)
        ensures
            r@ == reset_codes(self),
    {
        render_style_reset(self.fg, self.bold, self.dimmed)
    }

    /// A text shown in the style.
    pub fn apply(self, s: &str) -> (r: String)
        ensures
            r@ == styled(self, s@),
    {
        let mut r = self.render();
        r.append(s);
        r.append(self.render_reset().as_str());
        r
    }
}

// --- palette ----------------------------------------------------------------

/// A colour switch. When disabled (stdout is not a tty, or `NO_COLOR` is set)
/// every style is plain, so callers never have to branch on whether colour is
/// on.
#[derive(Clone, Copy, Debug, PartialEq, Eq, Structural)]
pub struct Palette {
    pub enabled: bool,
}

/// A style where colour is on; the plain style where it is off.
pub open spec fn if_enabled(p: Palette, s: Style) -> Style {
    if p.enabled {
        s
    } else {
        plain()
    }
}

/// The palette's green.
pub open spec fn green_of(p: Palette) -> Style {
    if_enabled(p, coloured(AnsiColor::Green))
}

/// The palette's yellow.
pub open spec fn yellow_of(p: Palette) -> Style {
    if_enabled(p, coloured(AnsiColor::Yellow))
}

/// The palette's red.
pub open spec fn red_of(p: Palette) -> Style {
    if_enabled(p, coloured(AnsiColor::Red))
}

/// The palette's bold.
pub open spec fn bold_of(p: Palette) -> Style {
    if_enabled(p, Style { fg: None, bold: true, dimmed: false })
}

/// The palette's dim.
pub open spec fn dim_of(p: Palette) -> Style {
    if_enabled(p, Style { fg: None, bold: false, dimmed: true })
}

impl Palette {
    /// Colour is on when the output is a terminal and `NO_COLOR` is not set.
    pub fn detect(is_terminal: bool, no_color: bool) -> (r: Palette)
        ensures
            r.enabled == (is_terminal && !no_color),
    {
        Palette { enabled: is_terminal && !no_color }
    }

    fn maybe(&self, s: Style) -> (r: Style)
        ensures
            r == if_enabled(*self, s),
    {
        if self.enabled {
            s
        } else {
            Style::new()
        }
    }

    fn ansi(&self, color: AnsiColor) -> (r: Style)
        ensures
            r == if_enabled(*self, coloured(color)),
    {
        self.maybe(Style { fg: Some(color), bold: false, dimmed: false })
    }

    pub fn green(&self) -> (r: Style)
        ensures
            r == green_of(*self),
    {
        self.ansi(AnsiColor::Green)
    }

    pub fn yellow(&self) -> (r: Style)
        ensures
            r == yellow_of(*self),
    {
        self.ansi(AnsiColor::Yellow)
    }

    pub fn red(&self) -> (r: Style)
        ensures
            r == red_of(*self),
    {
        self.ansi(AnsiColor::Red)
    }

    pub fn bold(&self) -> (r: Style)
        ensures
            r == bold_of(*self),
    {
        self.maybe(Style { fg: None, bold: true, dimmed: false })
    }

    pub fn dim(&self) -> (r: Style)
        ensures
            r == dim_of(*self),
    {
        self.maybe(Style { fg: None, bold: false, dimmed: true })
    }
}

// --- console ----------------------------------------------------------------

/// High-level console for the `push` command. Groups output into sections and
/// renders status lines and spinner frames.
#[derive(Clone, Copy, Debug, PartialEq, Eq, Structural)]
pub struct Console {
    pub palette: Palette,
    /// Whether to animate spinners. Tied to the palette's colour switch: a
    /// non-tty stdout neither colours nor animates, so piped output stays a
    /// clean sequence of plain status lines.
    pub animate: bool,
}

/// The program banner.
pub open spec fn banner_text(c: Console) -> Seq<char> {
    styled(bold_of(c.palette), "stackymcstackface"@) + "\n"@
}

/// A section heading.
pub open spec fn section_text(p: Palette, title: Seq<char>) -> Seq<char> {
    "\n"@ + styled(bold_of(p), title) + "\n"@
}

/// An indented context line.
pub open spec fn field_text(s: Seq<char>) -> Seq<char> {
    "  "@ + s + "\n"@
}

/// The plan: a headline and an optional dim note.
pub open spec fn plan_text(c: Console, headline: Seq<char>, note: Option<Seq<char>>) -> Seq<char> {
    match note {
        Some(n) => field_text(headline) + "    "@ + styled(dim_of(c.palette), n) + "\n"@,
        None => field_text(headline),
    }
}

/// A completed action.
pub open spec fn done_text(c: Console, s: Seq<char>) -> Seq<char> {
    "  "@ + styled(green_of(c.palette), "✔"@) + " "@ + s + "\n"@
}

/// A dim line.
pub open spec fn dim_text(c: Console, s: Seq<char>) -> Seq<char> {
    "  "@ + styled(dim_of(c.palette), s) + "\n"@
}

/// The first line of a warning.
pub open spec fn warn_line(c: Console, s: Seq<char>) -> Seq<char> {
    "  "@ + styled(yellow_of(c.palette), "⚠"@) + " "@ + s + "\n"@
}

/// The lines of a warning: a glyph stands before the first, and the others are
/// indented.
pub open spec fn warn_lines(c: Console, lines: Seq<Seq<char>>) -> Seq<char>
    decreases lines.len(),
{
    if lines.len() == 0 {
        seq![]
    } else if lines.len() == 1 {
        warn_line(c, lines[0])
    } else {
        warn_lines(c, lines.drop_last()) + "    "@ + lines.last() + "\n"@
    }
}

/// A warning.
pub open spec fn warn_text(c: Console, s: Seq<char>) -> Seq<char> {
    warn_lines(c, text::line_seq(s))
}

/// The headline result, set off by a blank line.
pub open spec fn url_text(c: Console, url: Seq<char>) -> Seq<char> {
    "\n  "@ + styled(bold_of(c.palette), url) + "\n"@
}

/// The glyph of the spinner's `n`-th frame; the frames repeat after ten.
pub open spec fn frame_glyph(n: nat) -> Seq<char> {
    let k = n % 10;
    if k == 0 {
        "⠋"@
    } else if k == 1 {
        "⠙"@
    } else if k == 2 {
        "⠹"@
    } else if k == 3 {
        "⠸"@
    } else if k == 4 {
        "⠼"@
    } else if k == 5 {
        "⠴"@
    } else if k == 6 {
        "⠦"@
    } else if k == 7 {
        "⠧"@
    } else if k == 8 {
        "⠇"@
    } else {
        "⠏"@
    }
}

/// The spinner's `n`-th frame, which overwrites the one before.
pub open spec fn frame_text(c: Console, pending: Seq<char>, n: nat) -> Seq<char> {
    "\r  "@ + styled(dim_of(c.palette), frame_glyph(n)) + " "@ + pending + "…"@
}

/// The glyph of one spinner frame.
fn glyph(n: usize) -> (r: &'static str)
    ensures
        r@ == frame_glyph(n as nat),
{
    match n % 10 {
        0 => "⠋",
        1 => "⠙",
        2 => "⠹",
        3 => "⠸",
        4 => "⠼",
        5 => "⠴",
        6 => "⠦",
        7 => "⠧",
        8 => "⠇",
        _ => "⠏",
    }
}

impl Console {
    /// Colours and animates when stdout is a terminal and `NO_COLOR` is not
    /// set.
    pub fn detect(is_terminal: bool, no_color: bool) -> (r: Console)
        ensures
            r.palette.enabled == (is_terminal && !no_color),
            r.animate == (is_terminal && !no_color),
    {
        let palette = Palette::detect(is_terminal, no_color);
        let animate = palette.enabled;
        Console { palette, animate }
    }

    /// The program banner, shown once, at the very top.
    pub fn banner(&self) -> (r: String)
        ensures
            r@ == banner_text(*self),
    {
        let mut r = self.palette.bold().apply("stackymcstackface");
        r.append("\n");
        r
    }

    /// A bold heading, preceded by a blank line.
    pub fn section(&self, title: &str) -> (r: String)
        ensures
            r@ == section_text(self.palette, title@),
    {
        let mut r = "\n".to_owned();
        r.append(self.palette.bold().apply(title).as_str());
        r.append("\n");
        r
    }

    /// An indented context line, e.g. the merge-target summary.
    pub fn field(&self, s: &str) -> (r: String)
        ensures
            r@ == field_text(s@),
    {
        let mut r = "  ".to_owned();
        r.append(s);
        r.append("\n");
        r
    }

    /// The plan: a headline sentence plus an optional dim follow-on (the
    /// existing PR number, or the stacked-on parent).
    pub fn plan(&self, headline: &str, note: Option<&str>) -> (r: String)
        ensures
            r@ == plan_text(*self, headline@, note.deep_view()),
    {
        let mut r = self.field(headline);
        if let Some(n) = note {
            r.append("    ");
            r.append(self.palette.dim().apply(n).as_str());
            r.append("\n");
        }
        r
    }

    /// A completed action: a green check glyph followed by `s`.
    pub fn done(&self, s: &str) -> (r: String)
        ensures
            r@ == done_text(*self, s@),
    {
        let mut r = "  ".to_owned();
        r.append(self.palette.green().apply("✔").as_str());
        r.append(" ");
        r.append(s);
        r.append("\n");
        r
    }

    /// A dim line: a lead-in before streamed git output, or a secondary note
    /// under a result.
    pub fn dim_line(&self, s: &str) -> (r: String)
        ensures
            r@ == dim_text(*self, s@),
    {
        let mut r = "  ".to_owned();
        r.append(self.palette.dim().apply(s).as_str());
        r.append("\n");
        r
    }

    /// A warning. Multi-line messages keep an indent on continuation lines.
    pub fn warn(&self, s: &str) -> (r: String)
        ensures
            r@ == warn_text(*self, s@),
    {
        let lines = text::lines(s);
        let ghost all = lines.deep_view();
        if lines.len() == 0 {
            return String::new();
        }
        let mut r = "  ".to_owned();
        r.append(self.palette.yellow().apply("⚠").as_str());
        r.append(" ");
        r.append(lines[0].as_str());
        r.append("\n");
        let mut i: usize = 1;
        assert(all.take(1)[0] == lines@[0]@);
        while i < lines.len()
            invariant
                1 <= i <= lines.len(),
                all == lines.deep_view(),
                r@ == warn_lines(*self, all.take(i as int)),
            decreases lines.len() - i,
        {
            r.append("    ");
            r.append(lines[i].as_str());
            r.append("\n");
            assert(all.take(i + 1).drop_last() == all.take(i as int));
            assert(all.take(i + 1).last() == lines@[i as int]@);
            i = i + 1;
        }
        assert(all.take(i as int) == all);
        r
    }

    /// The headline result: a URL on its own line, set off by a blank line and
    /// rendered bold so it is easy to spot and copy.
    pub fn url(&self, url: &str) -> (r: String)
        ensures
            r@ == url_text(*self, url@),
    {
        let mut r = "\n  ".to_owned();
        r.append(self.palette.bold().apply(url).as_str());
        r.append("\n");
        r
    }

    /// The spinner's frame at `tick`, labelled `pending`. With animation
    /// disabled there is none, so that piped output stays clean.
    pub fn spinner(&self, pending: &str, tick: usize) -> (r: Option<String>)
        ensures
            r.deep_view() == (if self.animate {
                Some(frame_text(*self, pending@, tick as nat))
            } else {
                None
            }),
    {
        if !self.animate {
            return None;
        }
        let mut r = "\r  ".to_owned();
        r.append(self.palette.dim().apply(glyph(tick)).as_str());
        r.append(" ");
        r.append(pending);
        r.append("…");
        Some(r)
    }

    /// The text that erases the spinner's line.
    pub fn spinner_erase(&self) -> (r: &'static str)
        ensures
            r@ == "\r\x1b[2K"@,
    {
        "\r\x1b[2K"
    }
}

/// The error line: a red glyph where colour is on, the word `error` where it
/// is off.
pub open spec fn error_text(p: Palette, msg: Seq<char>) -> Seq<char> {
    if p.enabled {
        styled(coloured(AnsiColor::Red), "✗"@) + " "@ + msg + "\n"@
    } else {
        "error: "@ + msg + "\n"@
    }
}

/// The error line for stderr, red when stderr is a terminal and `NO_COLOR` is
/// not set.
pub fn print_error(msg: &str, is_terminal: bool, no_color: bool) -> (r: String)
    ensures
        r@ == error_text(Palette { enabled: is_terminal && !no_color }, msg@),
{
    let palette = Palette::detect(is_terminal, no_color);
    let mut r = if palette.enabled {
        let mut s = palette.red().apply("✗");
        s.append(" ");
        s
    } else {
        "error: ".to_owned()
    };
    r.append(msg);
    r.append("\n");
    r
}

// --- laws -------------------------------------------------------------------

/// With colour off a styled text is the text itself: no escape code is written.
pub proof fn law_disabled_palette_is_plain(p: Palette, s: Seq<char>)
    requires
        !p.enabled,
    ensures
        styled(green_of(p), s) == s,
        styled(yellow_of(p), s) == s,
        styled(red_of(p), s) == s,
        styled(bold_of(p), s) == s,
        styled(dim_of(p), s) == s,
{
    assert(styled(plain(), s) == s);
}

/// Whatever a styled text switches on, it switches off again: a text in a style
/// that changes anything ends with the reset code.
pub proof fn law_styles_are_reset(style: Style, s: Seq<char>)
    requires
        style != plain(),
    ensures
        text::ends(styled(style, s), "\x1b[0m"@),
{
    let shown = styled(style, s);
    let code = "\x1b[0m"@;
    assert(shown == style_codes(style) + s + code);
    assert(shown.skip(shown.len() - code.len()) == code);
}

} // verus!

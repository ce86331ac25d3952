//! The coach's side panel: its size and place, and the lines it shows for
//! a response. Drawing them on the terminal is done by the application.
use crate::coach::{CoachCommand, CoachResponse};
use crate::text::{lines, owned, split_lines};
use vstd::prelude::*;

verus! {

/// Which side of the screen the panel is on.
#[derive(Debug, Clone, Copy)]
pub enum PanelPosition {
    Left,
    Right,
}

impl Default for PanelPosition {
    fn default() -> (r: Self)
        ensures
            r == PanelPosition::Right,
    {
        PanelPosition::Right
    }
}

/// The panel beside the shell.
pub struct SidePanel {
    width: u16,
    position: PanelPosition,
}

impl View for SidePanel {
    /// Width in columns, and side.
    type V = (u16, PanelPosition);

    closed spec fn view(&self) -> (u16, PanelPosition) {
        (self.width, self.position)
    }
}

impl Default for SidePanel {
    /// A panel 40 columns wide on the right.
    fn default() -> (r: Self)
        ensures
            r@ == (40u16, PanelPosition::Right),
    {
        SidePanel { width: 40, position: PanelPosition::Right }
    }
}

/// The colour of a section heading.
#[derive(Debug, Clone, Copy)]
pub enum PanelColor {
    Yellow,
    Blue,
    Green,
    Magenta,
}

/// A line of the panel: a section heading (a coloured icon and bold title)
/// or plain text.
#[derive(Debug, Clone)]
pub enum PanelLine {
    Heading(PanelColor, &'static str, &'static str),
    Text(String),
}

/// A line as plain values: heading colour, icon and title, or text.
pub open spec fn line_view(l: PanelLine) -> (Option<PanelColor>, Seq<char>, Seq<char>) {
    match l {
        PanelLine::Heading(c, icon, title) => (Some(c), icon@, title@),
        PanelLine::Text(t) => (None, seq![], t@),
    }
}

/// The lines as plain values.
pub open spec fn lines_view(ls: Seq<PanelLine>) -> Seq<(Option<PanelColor>, Seq<char>, Seq<char>)> {
    ls.map_values(|l: PanelLine| line_view(l))
}

/// A text line.
pub open spec fn text_line(t: Seq<char>) -> (Option<PanelColor>, Seq<char>, Seq<char>) {
    (None, seq![], t)
}

/// The first three lines of `body`, indented.
pub open spec fn body_lines(body: Seq<char>) -> Seq<(Option<PanelColor>, Seq<char>, Seq<char>)> {
    let ls = lines(body);
    let shown = if ls.len() > 3 {
        ls.take(3)
    } else {
        ls
    };
    shown.map_values(|l: Seq<char>| text_line("   "@ + l))
}

/// A section: its heading, the first lines of its body, and a blank line;
/// nothing when there is no body.
pub open spec fn section(
    color: PanelColor,
    icon: Seq<char>,
    title: Seq<char>,
    body: Option<String>,
) -> Seq<(Option<PanelColor>, Seq<char>, Seq<char>)> {
    match body {
        Some(b) => seq![(Some(color), icon, title)] + body_lines(b@) + seq![text_line(seq![])],
        None => seq![],
    }
}

/// Two lines per command: the command, and what it is for.
pub open spec fn command_lines(cs: Seq<CoachCommand>) -> Seq<(Option<PanelColor>, Seq<char>, Seq<char>)>
    decreases cs.len(),
{
    if cs.len() == 0 {
        seq![]
    } else {
        command_lines(cs.drop_last()) + seq![
            text_line("   $ "@ + cs.last().cmd@),
            text_line("      → "@ + cs.last().purpose@),
        ]
    }
}

/// The commands section: at most four commands; nothing without commands.
pub open spec fn commands_section(cs: Seq<CoachCommand>) -> Seq<(Option<PanelColor>, Seq<char>, Seq<char>)> {
    if cs.len() == 0 {
        seq![]
    } else {
        seq![(Some(PanelColor::Magenta), "📋 "@, "Commands"@)] + command_lines(
            if cs.len() > 4 {
                cs.take(4)
            } else {
                cs
            },
        )
    }
}

/// What the panel shows when a response says nothing.
pub open spec fn idle_lines() -> Seq<(Option<PanelColor>, Seq<char>, Seq<char>)> {
    seq![
        text_line("Ready to help..."@),
        text_line(seq![]),
        text_line("Run a command to see"@),
        text_line("diagnostics here."@),
    ]
}

/// The lines the panel shows for `r`.
pub open spec fn panel_content(r: CoachResponse) -> Seq<(Option<PanelColor>, Seq<char>, Seq<char>)> {
    let c = section(PanelColor::Yellow, "🔧 "@, "Diagnosis"@, r.diagnosis) + section(
        PanelColor::Blue,
        "💡 "@,
        "Explanation"@,
        r.explanation,
    ) + section(PanelColor::Green, "✨ "@, "Best Practice"@, r.best_practice) + commands_section(
        r.commands@,
    );
    if c.len() == 0 {
        idle_lines()
    } else {
        c
    }
}

/// A text line holding `t`.
fn text(t: String) -> (r: PanelLine)
    ensures
        line_view(r) == text_line(t@),
{
    PanelLine::Text(t)
}

/// `prefix` followed by `s`.
fn prefixed(prefix: &str, s: &str) -> (r: String)
    ensures
        r@ == prefix@ + s@,
{
    let mut out = owned(prefix);
    out.append(s);
    out
}

/// Appends the section for `body` to `out`.
fn push_section(
    out: &mut Vec<PanelLine>,
    color: PanelColor,
    icon: &'static str,
    title: &'static str,
    body: &Option<String>,
)
    ensures
        lines_view(final(out)@) == lines_view(old(out)@) + section(color, icon@, title@, *body),
{
    proof {
        reveal_strlit("");
    }
    let ghost start = lines_view(out@);
    match body {
        Some(b) => {
            out.push(PanelLine::Heading(color, icon, title));
            let ls = split_lines(b.as_str());
            let n: usize = if ls.len() > 3 {
                3
            } else {
                ls.len()
            };
            let ghost all = lines(b@);
            let ghost shown = if all.len() > 3 {
                all.take(3)
            } else {
                all
            };
            assert(shown.len() == n);
            let mut i: usize = 0;
            while i < n
                invariant
                    n <= ls@.len(),
                    shown.len() == n,
                    forall|j: int| 0 <= j < n ==> #[trigger] shown[j] == ls@[j]@,
                    i <= n,
                    lines_view(out@) == start + seq![(Some(color), icon@, title@)] + shown.take(
                        i as int,
                    ).map_values(|l: Seq<char>| text_line("   "@ + l)),
                decreases n - i,
            {
                let ghost before = lines_view(out@);
                out.push(text(prefixed("   ", ls[i].as_str())));
                assert(shown.take(i + 1).map_values(|l: Seq<char>| text_line("   "@ + l)) =~= shown.take(
                    i as int,
                ).map_values(|l: Seq<char>| text_line("   "@ + l)).push(text_line("   "@ + shown[i as int])));
                assert(lines_view(out@) =~= before.push(text_line("   "@ + shown[i as int])));
                i = i + 1;
            }
            assert(shown.take(n as int) =~= shown);
            let ghost before = lines_view(out@);
            out.push(text(String::new()));
            assert(lines_view(out@) =~= before.push(text_line(seq![])));
            assert(lines_view(out@) =~= start + section(color, icon@, title@, *body));
        },
        None => {
            assert(start + Seq::<(Option<PanelColor>, Seq<char>, Seq<char>)>::empty() =~= start);
        },
    }
}

/// Appends the commands section for `cs` to `out`.
fn push_commands(out: &mut Vec<PanelLine>, cs: &Vec<CoachCommand>)
    ensures
        lines_view(final(out)@) == lines_view(old(out)@) + commands_section(cs@),
{
    let ghost start = lines_view(out@);
    if cs.len() == 0 {
        assert(start + Seq::<(Option<PanelColor>, Seq<char>, Seq<char>)>::empty() =~= start);
        return;
    }
    out.push(PanelLine::Heading(PanelColor::Magenta, "📋 ", "Commands"));
    let n: usize = if cs.len() > 4 {
        4
    } else {
        cs.len()
    };
    let ghost shown = if cs@.len() > 4 {
        cs@.take(4)
    } else {
        cs@
    };
    let mut i: usize = 0;
    while i < n
        invariant
            n <= cs@.len(),
            shown.len() == n,
            forall|j: int| 0 <= j < n ==> #[trigger] shown[j] == cs@[j],
            i <= n,
            lines_view(out@) == start + seq![(Some(PanelColor::Magenta), "📋 "@, "Commands"@)]
                + command_lines(shown.take(i as int)),
        decreases n - i,
    {
        let ghost before = lines_view(out@);
        assert(shown.take(i + 1).drop_last() =~= shown.take(i as int));
        out.push(text(prefixed("   $ ", cs[i].cmd.as_str())));
        out.push(text(prefixed("      → ", cs[i].purpose.as_str())));
        assert(lines_view(out@) =~= before + seq![
            text_line("   $ "@ + cs@[i as int].cmd@),
            text_line("      → "@ + cs@[i as int].purpose@),
        ]);
        i = i + 1;
    }
    assert(shown.take(n as int) =~= shown);
}

impl SidePanel {
    /// A panel `width` columns wide on the right.
    pub fn new(width: u16) -> (r: Self)
        ensures
            r@ == (width, PanelPosition::Right),
    {
        SidePanel { width, position: PanelPosition::Right }
    }

    /// Moves the panel to `position`.
    pub fn set_position(&mut self, position: PanelPosition)
        ensures
            final(self)@ == (old(self)@.0, position),
    {
        self.position = position;
    }

    /// Sets the panel's width.
    pub fn set_width(&mut self, width: u16)
        ensures
            final(self)@ == (width, old(self)@.1),
    {
        self.width = width;
    }

    /// The panel's width in columns.
    pub fn width(&self) -> (r: u16)
        ensures
            r == self@.0,
    {
        self.width
    }

    /// The side the panel is on.
    pub fn position(&self) -> (r: PanelPosition)
        ensures
            r == self@.1,
    {
        self.position
    }

    /// The lines shown for `response`: a section for each of diagnosis,
    /// explanation and best practice that is present (heading, the first
    /// three lines, a blank line), then up to four commands; a short
    /// greeting when there is nothing to show.
    pub fn build_content(&self, response: &CoachResponse) -> (r: Vec<PanelLine>)
        ensures
            lines_view(r@) == panel_content(*response),
    {
        proof {
            reveal_strlit("");
        }
        let mut out: Vec<PanelLine> = Vec::new();
        assert(lines_view(out@) =~= Seq::<(Option<PanelColor>, Seq<char>, Seq<char>)>::empty());
        push_section(&mut out, PanelColor::Yellow, "🔧 ", "Diagnosis", &response.diagnosis);
        push_section(&mut out, PanelColor::Blue, "💡 ", "Explanation", &response.explanation);
        push_section(&mut out, PanelColor::Green, "✨ ", "Best Practice", &response.best_practice);
        push_commands(&mut out, &response.commands);
        assert(lines_view(out@) =~= panel_content(*response) || out.len() == 0);
        if out.len() == 0 {
            out.push(text(owned("Ready to help...")));
            out.push(text(String::new()));
            out.push(text(owned("Run a command to see")));
            out.push(text(owned("diagnostics here.")));
            assert(lines_view(out@) =~= idle_lines());
        }
        out
    }
}

} // verus!

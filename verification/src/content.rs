//! The fixed text and styling that every frame shows.  The content is
//! compiled into the program and never changes between frames.

use vstd::prelude::*;

verus! {

/// The terminal colors the panels use.  `Inherit` marks text that carries no
/// color of its own and takes the enclosing panel's base style.
#[derive(Clone, Copy, Debug, PartialEq, Eq, Structural)]
pub enum Color {
    Inherit,
    White,
    Black,
    Green,
    Yellow,
}

/// One line of panel text together with its foreground color.
#[derive(Clone, Copy, Debug, PartialEq, Eq)]
pub struct StyledLine {
    pub text: &'static str,
    pub fg: Color,
}

/// The mathematical value of a styled line: its characters and its color.
pub struct LineModel {
    pub text: Seq<char>,
    pub fg: Color,
}

impl View for StyledLine {
    type V = LineModel;

    open spec fn view(&self) -> LineModel {
        LineModel { text: self.text@, fg: self.fg }
    }
}

/// The title of the border drawn around the whole viewport.
pub const MAIN_TITLE: &'static str = "Main block with round corners";

/// The title shared by the four text panels.
pub const PANEL_TITLE: &'static str = "Paragraph";

/// The message shown in the left panel.
pub const LEFT_TEXT: &'static str = "Sussy baka";

/// The first line of each right panel.
pub const RIGHT_LINE_ONE: &'static str = "Sussy text goes in here";

/// The second line of each right panel.
pub const RIGHT_LINE_TWO: &'static str = "Look at me, Hector";

/// The long filler paragraph that ends each right panel.
pub const RIGHT_LINE_THREE: &'static str =
    "he FitnessGram\u{2122} Pacer Test is a multistage aerobic capacity test that progressively gets more difficult as it continues. The 20 meter pacer test will begin in 30 seconds. Line up at the start. The running speed starts slowly, but gets faster each minute after you hear this signal. [beep] A single lap should be completed each time you hear this sound. [ding] Remember to run in a straight line, and run as long as possible. The second time you fail to complete a lap before the sound, your test is over. The test will begin on the word start. On your mark, get ready, start.";

/// The views of a sequence of styled lines.
pub open spec fn line_views(lines: Seq<StyledLine>) -> Seq<LineModel> {
    lines.map_values(|l: StyledLine| l@)
}

/// The single uncolored line of the left panel.
pub open spec fn spec_left_lines() -> Seq<LineModel> {
    seq![LineModel { text: LEFT_TEXT@, fg: Color::Inherit }]
}

/// The three lines of every right panel: two short green lines and the long
/// yellow filler paragraph.
pub open spec fn spec_right_lines() -> Seq<LineModel> {
    seq![
        LineModel { text: RIGHT_LINE_ONE@, fg: Color::Green },
        LineModel { text: RIGHT_LINE_TWO@, fg: Color::Green },
        LineModel { text: RIGHT_LINE_THREE@, fg: Color::Yellow },
    ]
}

/// Build the left panel's text block.
pub fn left_panel_lines() -> (r: Vec<StyledLine>)
    ensures
        line_views(r@) == spec_left_lines(),
{
    let lines = vec![StyledLine { text: LEFT_TEXT, fg: Color::Inherit }];
    proof {
        assert(line_views(lines@) =~= spec_left_lines());
    }
    lines
}

/// Build the text block shared by the three right panels.
pub fn right_panel_lines() -> (r: Vec<StyledLine>)
    ensures
        line_views(r@) == spec_right_lines(),
{
    let lines = vec![
        StyledLine { text: RIGHT_LINE_ONE, fg: Color::Green },
        StyledLine { text: RIGHT_LINE_TWO, fg: Color::Green },
        StyledLine { text: RIGHT_LINE_THREE, fg: Color::Yellow },
    ];
    proof {
        assert(line_views(lines@) =~= spec_right_lines());
    }
    lines
}

} // verus!

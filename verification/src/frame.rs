//! One rendered frame, described as the list of widgets it draws.  A frame is
//! a pure function of the viewport size: the surrounding bordered block, the
//! left paragraph, and the three identical right paragraphs.

use vstd::prelude::*;
use crate::content::{
    line_views, spec_left_lines, spec_right_lines, left_panel_lines, right_panel_lines,
    Color, LineModel, StyledLine, LEFT_TEXT, MAIN_TITLE, PANEL_TITLE, RIGHT_LINE_ONE,
    RIGHT_LINE_TWO, RIGHT_LINE_THREE,
};
use crate::geometry::Rect;
use crate::layout::{compute_layout, spec_layout};

verus! {

/// The style of the border drawn around a widget.
#[derive(Clone, Copy, Debug, PartialEq, Eq, Structural)]
pub enum BorderKind {
    Plain,
    Rounded,
}

/// One draw instruction: a bordered widget with a centered title, a base
/// style, and its text block (empty for the surrounding block).  `wrapped`
/// says whether the text is word-wrapped with trimmed line ends.
#[derive(Debug, PartialEq)]
pub struct Panel {
    pub region: Rect,
    pub title: &'static str,
    pub border: BorderKind,
    pub base_fg: Color,
    pub base_bg: Color,
    pub wrapped: bool,
    pub lines: Vec<StyledLine>,
}

/// The mathematical value of a draw instruction.
pub struct PanelModel {
    pub region: Rect,
    pub title: Seq<char>,
    pub border: BorderKind,
    pub base_fg: Color,
    pub base_bg: Color,
    pub wrapped: bool,
    pub lines: Seq<LineModel>,
}

impl View for Panel {
    type V = PanelModel;

    open spec fn view(&self) -> PanelModel {
        PanelModel {
            region: self.region,
            title: self.title@,
            border: self.border,
            base_fg: self.base_fg,
            base_bg: self.base_bg,
            wrapped: self.wrapped,
            lines: line_views(self.lines@),
        }
    }
}

/// The views of a sequence of draw instructions.
pub open spec fn frame_view(panels: Seq<Panel>) -> Seq<PanelModel> {
    panels.map_values(|p: Panel| p@)
}

/// The surrounding block: a rounded border over the whole viewport, no text.
pub open spec fn spec_main_block(region: Rect) -> PanelModel {
    PanelModel {
        region,
        title: MAIN_TITLE@,
        border: BorderKind::Rounded,
        base_fg: Color::Inherit,
        base_bg: Color::Inherit,
        wrapped: false,
        lines: Seq::empty(),
    }
}

/// A text panel: a plain border, the shared title, white text on a black
/// background, centered and word-wrapped.
pub open spec fn spec_paragraph(region: Rect, lines: Seq<LineModel>) -> PanelModel {
    PanelModel {
        region,
        title: PANEL_TITLE@,
        border: BorderKind::Plain,
        base_fg: Color::White,
        base_bg: Color::Black,
        wrapped: true,
        lines,
    }
}

/// The frame drawn for a viewport: the surrounding block, the left paragraph,
/// and the three right paragraphs in top-to-bottom order.
pub open spec fn spec_frame(width: u16, height: u16) -> Seq<PanelModel> {
    let l = spec_layout(width, height);
    seq![
        spec_main_block(l.full),
        spec_paragraph(l.left, spec_left_lines()),
        spec_paragraph(l.right_top, spec_right_lines()),
        spec_paragraph(l.right_middle, spec_right_lines()),
        spec_paragraph(l.right_bottom, spec_right_lines()),
    ]
}

/// Render one frame: compute the layout for the viewport and emit the five
/// draw instructions of `spec_frame`, in drawing order.
pub fn render_frame(width: u16, height: u16) -> (r: Vec<Panel>)
    ensures
        frame_view(r@) == spec_frame(width, height),
{
    let l = compute_layout(width, height);
    let panels = vec![
        Panel {
            region: l.full,
            title: MAIN_TITLE,
            border: BorderKind::Rounded,
            base_fg: Color::Inherit,
            base_bg: Color::Inherit,
            wrapped: false,
            lines: Vec::new(),
        },
        Panel {
            region: l.left,
            title: PANEL_TITLE,
            border: BorderKind::Plain,
            base_fg: Color::White,
            base_bg: Color::Black,
            wrapped: true,
            lines: left_panel_lines(),
        },
        Panel {
            region: l.right_top,
            title: PANEL_TITLE,
            border: BorderKind::Plain,
            base_fg: Color::White,
            base_bg: Color::Black,
            wrapped: true,
            lines: right_panel_lines(),
        },
        Panel {
            region: l.right_middle,
            title: PANEL_TITLE,
            border: BorderKind::Plain,
            base_fg: Color::White,
            base_bg: Color::Black,
            wrapped: true,
            lines: right_panel_lines(),
        },
        Panel {
            region: l.right_bottom,
            title: PANEL_TITLE,
            border: BorderKind::Plain,
            base_fg: Color::White,
            base_bg: Color::Black,
            wrapped: true,
            lines: right_panel_lines(),
        },
    ];
    proof {
        assert(line_views(panels@[0].lines@) =~= Seq::<LineModel>::empty());
        assert(frame_view(panels@) =~~= spec_frame(width, height));
    }
    panels
}

/// Idempotent rendering: the frame is a function of the viewport size alone,
/// so any two frames computed for the same viewport are identical.
pub proof fn lemma_render_deterministic(
    a: Seq<PanelModel>,
    b: Seq<PanelModel>,
    width: u16,
    height: u16,
)
    requires
        a == spec_frame(width, height),
        b == spec_frame(width, height),
    ensures
        a == b,
{
}

/// Panel content invariance: for every viewport size, the three right panels
/// carry the same text, line for line, with the same colors, and share their
/// title, border, base style and wrapping; only their regions differ.
pub proof fn lemma_right_panels_identical(width: u16, height: u16)
    ensures
        ({
            let f = spec_frame(width, height);
            &&& f.len() == 5
            &&& f[2].lines == f[3].lines
            &&& f[3].lines == f[4].lines
            &&& f[2].title == f[3].title && f[3].title == f[4].title
            &&& f[2].border == f[3].border && f[3].border == f[4].border
            &&& f[2].base_fg == f[3].base_fg && f[3].base_fg == f[4].base_fg
            &&& f[2].base_bg == f[3].base_bg && f[3].base_bg == f[4].base_bg
            &&& f[2].wrapped == f[3].wrapped && f[3].wrapped == f[4].wrapped
        }),
{
}

} // verus!

//! Display lists: the primitives a renderer emits for a board to draw, in
//! order, and the rule that every primitive lies on the panel.

use vstd::prelude::*;

verus! {

/// The monospaced fonts the layouts use.
#[derive(Clone, Copy, Debug, PartialEq, Eq, Structural)]
pub enum Font {
    /// 6x10 regular.
    Small,
    /// 9x15 bold.
    Bold,
    /// 10x20 regular.
    Large,
}

/// One drawing primitive. Text is anchored at its top-left corner.
#[derive(Clone, Debug)]
pub enum DrawCmd<C> {
    /// Fill the whole panel.
    Clear(C),
    /// A filled rectangle.
    Fill { x: i32, y: i32, width: u32, height: u32, color: C },
    /// A rectangle outline of `stroke` pixels.
    Outline { x: i32, y: i32, width: u32, height: u32, color: C, stroke: u32 },
    /// A straight line of `stroke` pixels.
    Line { x0: i32, y0: i32, x1: i32, y1: i32, color: C, stroke: u32 },
    /// One pixel.
    Pixel { x: i32, y: i32, color: C },
    /// A line of text.
    Text { x: i32, y: i32, text: String, font: Font, color: C },
}

/// The primitive lies on a `w` x `h` panel (text by its anchor).
pub open spec fn on_panel<C>(cmd: DrawCmd<C>, w: int, h: int) -> bool {
    match cmd {
        DrawCmd::Clear(_) => true,
        DrawCmd::Fill { x, y, width, height, .. } => 0 <= x && 0 <= y && x + width <= w && y
            + height <= h,
        DrawCmd::Outline { x, y, width, height, .. } => 0 <= x && 0 <= y && x + width <= w && y
            + height <= h,
        DrawCmd::Line { x0, y0, x1, y1, .. } => 0 <= x0 < w && 0 <= x1 < w && 0 <= y0 < h && 0
            <= y1 < h,
        DrawCmd::Pixel { x, y, .. } => 0 <= x < w && 0 <= y < h,
        DrawCmd::Text { x, y, .. } => 0 <= x < w && 0 <= y < h,
    }
}

/// Every primitive of the list lies on the panel.
pub open spec fn all_on_panel<C>(cmds: Seq<DrawCmd<C>>, w: int, h: int) -> bool {
    forall|i: int| 0 <= i < cmds.len() ==> on_panel(#[trigger] cmds[i], w, h)
}

/// Appends one primitive that lies on the panel.
pub fn emit<C>(cmds: &mut Vec<DrawCmd<C>>, cmd: DrawCmd<C>, w: i32, h: i32)
    requires
        on_panel(cmd, w as int, h as int),
    ensures
        final(cmds)@ == old(cmds)@.push(cmd),
        all_on_panel(old(cmds)@, w as int, h as int) ==> all_on_panel(
            final(cmds)@,
            w as int,
            h as int,
        ),
{
    cmds.push(cmd);
    proof {
        if all_on_panel(old(cmds)@, w as int, h as int) {
            assert forall|i: int| 0 <= i < cmds@.len() implies on_panel(
                #[trigger] cmds@[i],
                w as int,
                h as int,
            ) by {
                if i < old(cmds)@.len() {
                    assert(cmds@[i] == old(cmds)@[i]);
                }
            }
        }
    }
}

/// The list only grew: what was there stays in place, and if every
/// primitive was on the `w` x `h` panel, every primitive still is.
pub open spec fn grows<C>(old: Seq<DrawCmd<C>>, new: Seq<DrawCmd<C>>, w: int, h: int) -> bool {
    &&& old.len() <= new.len()
    &&& forall|i: int| 0 <= i < old.len() ==> new[i] == old[i]
    &&& (all_on_panel(old, w, h) ==> all_on_panel(new, w, h))
}

/// Appends a filled rectangle.
pub fn fill_rect<C>(
    cmds: &mut Vec<DrawCmd<C>>,
    x: i32,
    y: i32,
    width: u32,
    height: u32,
    color: C,
    w: i32,
    h: i32,
)
    requires
        0 <= x,
        0 <= y,
        x + width <= w,
        y + height <= h,
    ensures
        final(cmds)@ == old(cmds)@.push((DrawCmd::Fill { x, y, width, height, color })),
        grows(old(cmds)@, final(cmds)@, w as int, h as int),
{
    emit(cmds, DrawCmd::Fill { x, y, width, height, color }, w, h);
}

/// Appends a rectangle outline.
pub fn outline_rect<C>(
    cmds: &mut Vec<DrawCmd<C>>,
    x: i32,
    y: i32,
    width: u32,
    height: u32,
    color: C,
    stroke: u32,
    w: i32,
    h: i32,
)
    requires
        0 <= x,
        0 <= y,
        x + width <= w,
        y + height <= h,
    ensures
        final(cmds)@ == old(cmds)@.push((DrawCmd::Outline { x, y, width, height, color, stroke })),
        grows(old(cmds)@, final(cmds)@, w as int, h as int),
{
    emit(cmds, DrawCmd::Outline { x, y, width, height, color, stroke }, w, h);
}

/// Appends a straight line.
pub fn line_to<C>(
    cmds: &mut Vec<DrawCmd<C>>,
    x0: i32,
    y0: i32,
    x1: i32,
    y1: i32,
    color: C,
    stroke: u32,
    w: i32,
    h: i32,
)
    requires
        0 <= x0 < w,
        0 <= x1 < w,
        0 <= y0 < h,
        0 <= y1 < h,
    ensures
        final(cmds)@ == old(cmds)@.push((DrawCmd::Line { x0, y0, x1, y1, color, stroke })),
        grows(old(cmds)@, final(cmds)@, w as int, h as int),
{
    emit(cmds, DrawCmd::Line { x0, y0, x1, y1, color, stroke }, w, h);
}

/// Appends one pixel.
pub fn pixel_at<C>(cmds: &mut Vec<DrawCmd<C>>, x: i32, y: i32, color: C, w: i32, h: i32)
    requires
        0 <= x < w,
        0 <= y < h,
    ensures
        final(cmds)@ == old(cmds)@.push((DrawCmd::Pixel { x, y, color })),
        grows(old(cmds)@, final(cmds)@, w as int, h as int),
{
    emit(cmds, DrawCmd::Pixel { x, y, color }, w, h);
}

/// Appends a line of text.
pub fn text_at<C>(
    cmds: &mut Vec<DrawCmd<C>>,
    x: i32,
    y: i32,
    text: String,
    font: Font,
    color: C,
    w: i32,
    h: i32,
)
    requires
        0 <= x < w,
        0 <= y < h,
    ensures
        final(cmds)@ == old(cmds)@.push((DrawCmd::Text { x, y, text, font, color })),
        grows(old(cmds)@, final(cmds)@, w as int, h as int),
{
    emit(cmds, DrawCmd::Text { x, y, text, font, color }, w, h);
}

/// What a primitive shows: the primitive with its text taken as
/// characters, so that whole display lists can be stated as values.
pub enum Mark<C> {
    Clear(C),
    Fill { x: int, y: int, width: int, height: int, color: C },
    Outline { x: int, y: int, width: int, height: int, color: C, stroke: int },
    Line { x0: int, y0: int, x1: int, y1: int, color: C, stroke: int },
    Pixel { x: int, y: int, color: C },
    Text { x: int, y: int, text: Seq<char>, font: Font, color: C },
}

/// What one primitive shows.
pub open spec fn mark<C>(cmd: DrawCmd<C>) -> Mark<C> {
    match cmd {
        DrawCmd::Clear(c) => Mark::Clear(c),
        DrawCmd::Fill { x, y, width, height, color } => Mark::Fill {
            x: x as int,
            y: y as int,
            width: width as int,
            height: height as int,
            color,
        },
        DrawCmd::Outline { x, y, width, height, color, stroke } => Mark::Outline {
            x: x as int,
            y: y as int,
            width: width as int,
            height: height as int,
            color,
            stroke: stroke as int,
        },
        DrawCmd::Line { x0, y0, x1, y1, color, stroke } => Mark::Line {
            x0: x0 as int,
            y0: y0 as int,
            x1: x1 as int,
            y1: y1 as int,
            color,
            stroke: stroke as int,
        },
        DrawCmd::Pixel { x, y, color } => Mark::Pixel { x: x as int, y: y as int, color },
        DrawCmd::Text { x, y, text, font, color } => Mark::Text {
            x: x as int,
            y: y as int,
            text: text@,
            font,
            color,
        },
    }
}

/// What a display list shows, primitive by primitive.
pub open spec fn marks<C>(cmds: Seq<DrawCmd<C>>) -> Seq<Mark<C>> {
    Seq::new(cmds.len(), |i: int| mark(cmds[i]))
}

/// Appending a primitive appends what it shows.
pub broadcast proof fn marks_push<C>(cmds: Seq<DrawCmd<C>>, cmd: DrawCmd<C>)
    ensures
        #[trigger] marks(cmds.push(cmd)) == marks(cmds).push(mark(cmd)),
{
    assert(marks(cmds.push(cmd)) =~= marks(cmds).push(mark(cmd)));
}

/// A text mark.
pub open spec fn text_mark<C>(x: int, y: int, text: Seq<char>, font: Font, color: C) -> Mark<C> {
    Mark::Text { x, y, text, font, color }
}

/// A filled-rectangle mark.
pub open spec fn fill_mark<C>(x: int, y: int, width: int, height: int, color: C) -> Mark<C> {
    Mark::Fill { x, y, width, height, color }
}

/// An outlined-rectangle mark.
pub open spec fn outline_mark<C>(
    x: int,
    y: int,
    width: int,
    height: int,
    color: C,
    stroke: int,
) -> Mark<C> {
    Mark::Outline { x, y, width, height, color, stroke }
}

/// A line mark.
pub open spec fn line_mark<C>(x0: int, y0: int, x1: int, y1: int, color: C, stroke: int) -> Mark<C> {
    Mark::Line { x0, y0, x1, y1, color, stroke }
}

} // verus!

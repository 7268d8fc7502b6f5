use vstd::prelude::*;

use crate::canvas::{create_canvas, is_default_paint, DrawOp, SkiaCanvas};
use crate::color::{cyan, Color};
use crate::paint::{Paint, SkiaPaint};

verus! {

/// A ContentScreen represents dynamic content that can be drawn and that
/// may respond to events.
pub trait ContentScreen {
    /// Whether the content has changed since it was last drawn.
    spec fn is_dirty(&self) -> bool;

    /// Indicates if the content has been updated since the last time it was drawn.
    fn needs_update(&self) -> (r: bool)
        ensures
            r == self.is_dirty(),
    ;

    /// Whether `ops` are instructions that one frame of this content may consist of.
    spec fn draws(&self, ops: Seq<DrawOp>) -> bool;

    /// Do any work necessary to draw a new frame with this content.
    ///
    /// It draws on a canvas that holds its paint, leaves the paint there, and only
    /// adds to what was recorded before: a frame of the content as it was.
    fn update(&mut self, canvas: &mut SkiaCanvas)
        requires
            old(canvas).paint() is Some,
        ensures
            final(canvas).paint() is Some,
            old(canvas).ops().is_prefix_of(final(canvas).ops()),
            old(self).draws(final(canvas).ops().skip(old(canvas).ops().len() as int)),
    ;
}

/// The screen of a window that was given no content: always dirty, draws nothing.
#[derive(Clone, Copy, Debug, PartialEq, Eq, Structural)]
pub struct DefaultContentScreen {}

impl ContentScreen for DefaultContentScreen {
    open spec fn is_dirty(&self) -> bool {
        true
    }

    fn needs_update(&self) -> (r: bool) {
        true
    }

    open spec fn draws(&self, ops: Seq<DrawOp>) -> bool {
        ops.len() == 0
    }

    fn update(&mut self, canvas: &mut SkiaCanvas)
        ensures
            *final(canvas) == *old(canvas),
    {
        assert(canvas.ops().is_prefix_of(canvas.ops()));
        assert(canvas.ops().skip(canvas.ops().len() as int) =~= Seq::<DrawOp>::empty());
    }
}

/// Whether `op` fills the shape of `ellipse` (or a rectangle when false) at `pos` of
/// extent `size`, in the color with channels `rgba`.
pub open spec fn is_fill(
    op: DrawOp,
    ellipse: bool,
    pos: (i32, i32),
    size: (i32, i32),
    rgba: (u8, u8, u8, u8),
) -> bool {
    if ellipse {
        op matches DrawOp::Ellipse { pos: p, size: s, paint } && p == pos && s == size
            && paint@@ == rgba
    } else {
        op matches DrawOp::Rect { pos: p, size: s, paint } && p == pos && s == size && paint@@
            == rgba
    }
}

/// The instructions of one frame of the GUI screen: a yellow square, a clipped
/// section at (200, 200) holding a cyan circle, and a yellow ellipse.
pub open spec fn gui_frame(ops: Seq<DrawOp>) -> bool {
    &&& ops.len() == 7
    &&& is_fill(ops[0], false, (10, 10), (100, 100), (255, 255, 0, 255))
    &&& ops[1] == DrawOp::Save
    &&& ops[2] == DrawOp::ClipRect { pos: (200, 200), size: (100, 100) }
    &&& ops[3] == DrawOp::Translate { offset: (200, 200) }
    &&& is_fill(ops[4], true, (0, 0), (150, 150), (0, 255, 255, 255))
    &&& ops[5] == DrawOp::Restore
    &&& is_fill(ops[6], true, (50, 50), (150, 100), (255, 255, 0, 255))
}

/// Turn a paint yellow.
fn paint_yellow(paint: SkiaPaint) -> (q: SkiaPaint)
    ensures
        q@@ == (255u8, 255u8, 0u8, 255u8),
{
    let mut q = paint;
    q.set_color(Color::from_rgba8(255, 255, 0, 255));
    q
}

/// Turn a paint cyan.
fn paint_cyan(paint: SkiaPaint) -> (q: SkiaPaint)
    ensures
        q@@ == (0u8, 255u8, 255u8, 255u8),
{
    let mut q = paint;
    q.set_color(cyan());
    q
}

/// The section of the GUI screen: a cyan circle at its origin.
fn draw_circle_section(inner: SkiaCanvas) -> (done: SkiaCanvas)
    requires
        is_default_paint(inner.paint()),
        inner.ops() == Seq::<DrawOp>::empty(),
    ensures
        done.ops().len() == 1,
        is_fill(done.ops()[0], true, (0, 0), (150, 150), (0, 255, 255, 255)),
{
    let mut c = inner;
    c.alter_paint(paint_cyan);
    c.draw_elipse((0, 0), (150, 150));
    c
}

/// A GUIContentScreen is a special screen that allows for composing a GUI
/// using this GUI module.
#[derive(Clone, Copy, Debug, PartialEq, Eq, Structural)]
pub struct GUIContentScreen {}

impl GUIContentScreen {
    /// A new GUI screen.
    pub fn new() -> (s: GUIContentScreen)
        ensures
            s.is_dirty(),
    {
        GUIContentScreen {}
    }
}

impl ContentScreen for GUIContentScreen {
    open spec fn is_dirty(&self) -> bool {
        true
    }

    open spec fn draws(&self, ops: Seq<DrawOp>) -> bool {
        gui_frame(ops)
    }

    fn needs_update(&self) -> (r: bool) {
        true
    }

    fn update(&mut self, canvas: &mut SkiaCanvas)
        ensures
            final(canvas).paint() matches Some(p) && p@@ == (255u8, 255u8, 0u8, 255u8),
            final(canvas).ops().take(old(canvas).ops().len() as int) == old(canvas).ops(),
            gui_frame(final(canvas).ops().skip(old(canvas).ops().len() as int)),
    {
        let ghost start = canvas.ops();
        canvas.alter_paint(paint_yellow);
        canvas.draw_rect((10, 10), (100, 100));
        canvas.enter_section((200, 200), (100, 100), true, draw_circle_section);
        canvas.draw_elipse((50, 50), (150, 100));
        let ghost added = canvas.ops().skip(start.len() as int);
        assert(canvas.ops().take(start.len() as int) =~= start);
        assert(start.is_prefix_of(canvas.ops()));
        assert(gui_frame(added));
    }
}

/// Redraw a window's screen only if it reports that it needs it: the frame that
/// the screen drew on a fresh canvas, or `None` with the screen left untouched.
pub fn update_window<S: ContentScreen>(screen: &mut S) -> (frame: Option<SkiaCanvas>)
    ensures
        frame is Some <==> old(screen).is_dirty(),
        frame is None ==> *final(screen) == *old(screen),
        frame matches Some(c) ==> c.paint() is Some && old(screen).draws(c.ops()),
{
    if screen.needs_update() {
        let mut canvas = create_canvas();
        screen.update(&mut canvas);
        assert(canvas.ops().skip(0) =~= canvas.ops());
        Some(canvas)
    } else {
        None
    }
}

} // verus!

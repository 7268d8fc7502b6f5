use vstd::prelude::*;

use crate::paint::{default_rgba, SkiaPaint};

verus! {

/// One instruction for the Skia canvas, in the order in which it is to be replayed.
#[derive(Debug, PartialEq, Eq)]
pub enum DrawOp {
    /// Push the transform and clip on the canvas's save stack.
    Save,
    /// Intersect the clip with the rectangle at `pos` of extent `size` (anti-aliased).
    ClipRect { pos: (i32, i32), size: (i32, i32) },
    /// Move the origin by `offset`.
    Translate { offset: (i32, i32) },
    /// Pop the save stack, bringing back the transform and clip of the matching `Save`.
    Restore,
    /// Fill the rectangle at `pos` of extent `size`.
    Rect { pos: (i32, i32), size: (i32, i32), paint: SkiaPaint },
    /// Fill the ellipse inscribed in the rectangle at `pos` of extent `size`.
    Ellipse { pos: (i32, i32), size: (i32, i32), paint: SkiaPaint },
    /// Stroke a line from `start` to `end`.
    Line { start: (i32, i32), end: (i64, i64), paint: SkiaPaint },
    /// Draw `text` with its origin at `pos`.
    Text { pos: (i32, i32), text: String, paint: SkiaPaint },
}

/// The instructions that open a section at `pos` of extent `size`: the state is
/// saved, the clip narrowed only when `clip` asks for it, and the origin moved to `pos`.
pub open spec fn section_prologue(pos: (i32, i32), size: (i32, i32), clip: bool) -> Seq<DrawOp> {
    if clip {
        seq![DrawOp::Save, DrawOp::ClipRect { pos, size }, DrawOp::Translate { offset: pos }]
    } else {
        seq![DrawOp::Save, DrawOp::Translate { offset: pos }]
    }
}

/// Whether `p` is the paint that a fresh canvas or section starts with.
pub open spec fn is_default_paint(p: Option<SkiaPaint>) -> bool {
    p matches Some(q) && q@@ == default_rgba()
}

/// How a replay of `op` changes the depth of the save stack.
pub open spec fn depth_change(op: DrawOp) -> int {
    match op {
        DrawOp::Save => 1,
        DrawOp::Restore => -1,
        _ => 0,
    }
}

/// The depth of the save stack after replaying `ops` from depth `d`.
pub open spec fn depth_after(ops: Seq<DrawOp>, d: int) -> int
    decreases ops.len(),
{
    if ops.len() == 0 {
        d
    } else {
        depth_after(ops.drop_first(), d + depth_change(ops[0]))
    }
}

/// Whether replaying `ops` from depth `d` never restores more than was saved.
pub open spec fn never_below(ops: Seq<DrawOp>, d: int) -> bool
    decreases ops.len(),
{
    ops.len() == 0 || (d + depth_change(ops[0]) >= 0 && never_below(
        ops.drop_first(),
        d + depth_change(ops[0]),
    ))
}

/// Whether every `Restore` of `ops` closes an earlier `Save` and every `Save` is
/// closed: replaying them leaves the transform and clip as they were.
pub open spec fn balanced(ops: Seq<DrawOp>) -> bool {
    never_below(ops, 0) && depth_after(ops, 0) == 0
}

proof fn lemma_concat(a: Seq<DrawOp>, b: Seq<DrawOp>, d: int)
    ensures
        depth_after(a + b, d) == depth_after(b, depth_after(a, d)),
        never_below(a, d) && never_below(b, depth_after(a, d)) ==> never_below(a + b, d),
    decreases a.len(),
{
    if a.len() == 0 {
        assert(a + b =~= b);
    } else {
        assert((a + b).drop_first() =~= a.drop_first() + b);
        assert((a + b)[0] == a[0]);
        lemma_concat(a.drop_first(), b, d + depth_change(a[0]));
    }
}

proof fn lemma_shift(b: Seq<DrawOp>, d: int, e: int)
    requires
        d <= e,
    ensures
        depth_after(b, e) == depth_after(b, d) + (e - d),
        never_below(b, d) ==> never_below(b, e),
    decreases b.len(),
{
    if b.len() > 0 {
        lemma_shift(b.drop_first(), d + depth_change(b[0]), e + depth_change(b[0]));
    }
}

proof fn lemma_single(x: DrawOp, d: int)
    ensures
        depth_after(seq![x], d) == d + depth_change(x),
        never_below(seq![x], d) <== d + depth_change(x) >= 0,
{
    assert(seq![x].drop_first() =~= Seq::<DrawOp>::empty());
    assert(depth_after(Seq::<DrawOp>::empty(), d + depth_change(x)) == d + depth_change(x));
    assert(never_below(Seq::<DrawOp>::empty(), d + depth_change(x)));
}

/// Appending one instruction that is neither `Save` nor `Restore` keeps `ops` balanced.
proof fn lemma_push_shape(ops: Seq<DrawOp>, x: DrawOp)
    requires
        balanced(ops),
        depth_change(x) == 0,
    ensures
        balanced(ops.push(x)),
{
    lemma_single(x, 0);
    lemma_concat(ops, seq![x], 0);
    assert(ops + seq![x] =~= ops.push(x));
}

/// A section does not leak its transform or clip into its parent: when the parent's
/// instructions and those drawn inside the section are balanced, so are the parent's
/// followed by the whole section.
pub proof fn lemma_section_balanced(
    before: Seq<DrawOp>,
    pos: (i32, i32),
    size: (i32, i32),
    clip: bool,
    inside: Seq<DrawOp>,
)
    requires
        balanced(before),
        balanced(inside),
    ensures
        balanced(before + (section_prologue(pos, size, clip) + inside + seq![DrawOp::Restore])),
{
    let pro = section_prologue(pos, size, clip);
    lemma_single(DrawOp::Save, 0);
    lemma_single(DrawOp::ClipRect { pos, size }, 1);
    lemma_single(DrawOp::Translate { offset: pos }, 1);
    if clip {
        lemma_concat(seq![DrawOp::Save], seq![DrawOp::ClipRect { pos, size }], 0);
        lemma_concat(
            seq![DrawOp::Save, DrawOp::ClipRect { pos, size }],
            seq![DrawOp::Translate { offset: pos }],
            0,
        );
        assert(seq![DrawOp::Save] + seq![DrawOp::ClipRect { pos, size }] =~= seq![
            DrawOp::Save,
            DrawOp::ClipRect { pos, size },
        ]);
        assert(seq![DrawOp::Save, DrawOp::ClipRect { pos, size }] + seq![
            DrawOp::Translate { offset: pos },
        ] =~= pro);
    } else {
        lemma_concat(seq![DrawOp::Save], seq![DrawOp::Translate { offset: pos }], 0);
        assert(seq![DrawOp::Save] + seq![DrawOp::Translate { offset: pos }] =~= pro);
    }
    assert(depth_after(pro, 0) == 1 && never_below(pro, 0));
    lemma_shift(inside, 0, 1);
    lemma_concat(pro, inside, 0);
    lemma_single(DrawOp::Restore, 1);
    lemma_concat(pro + inside, seq![DrawOp::Restore], 0);
    lemma_concat(before, pro + inside + seq![DrawOp::Restore], 0);
}

/// A canvas that records what is drawn on it as instructions for a Skia canvas.
///
/// Its paint is absent exactly while it is being altered.
pub struct SkiaCanvas {
    current_paint: Option<SkiaPaint>,
    ops: Vec<DrawOp>,
}

impl SkiaCanvas {
    /// The recorded instructions are always balanced.
    #[verifier::type_invariant]
    spec fn saves_closed(&self) -> bool {
        balanced(self.ops@)
    }

    /// The paint that the next shape is drawn with; `None` while it is being altered.
    pub closed spec fn paint(&self) -> Option<SkiaPaint> {
        self.current_paint
    }

    /// The instructions recorded so far.
    pub closed spec fn ops(&self) -> Seq<DrawOp> {
        self.ops@
    }

    /// The instructions recorded so far.
    pub fn operations(&self) -> (r: &Vec<DrawOp>)
        ensures
            r@ == self.ops(),
            balanced(r@),
    {
        proof {
            use_type_invariant(self);
        }
        &self.ops
    }

    /// Append one instruction that does not touch the save stack.
    fn record(&mut self, op: DrawOp)
        requires
            depth_change(op) == 0,
        ensures
            final(self).ops() == old(self).ops().push(op),
            final(self).paint() == old(self).paint(),
    {
        proof {
            use_type_invariant(&*self);
            lemma_push_shape(self.ops@, op);
        }
        let mut ops = Vec::new();
        std::mem::swap(&mut ops, &mut self.ops);
        ops.push(op);
        self.ops = ops;
    }

    /// Take the paint out of the canvas to alter it. Until it is handed back, the
    /// canvas holds no paint: it can neither draw nor have its paint altered again.
    pub fn take_paint(&mut self) -> (p: SkiaPaint)
        requires
            old(self).paint() is Some,
        ensures
            final(self).ops() == old(self).ops(),
            old(self).paint() == Some(p),
            final(self).paint() is None,
    {
        proof {
            use_type_invariant(&*self);
        }
        let p = self.current_paint.unwrap();
        self.current_paint = None;
        p
    }

    /// Hand an altered paint back to the canvas: later shapes are drawn with it.
    pub fn put_paint(&mut self, paint: SkiaPaint)
        ensures
            final(self).ops() == old(self).ops(),
            final(self).paint() == Some(paint),
    {
        proof {
            use_type_invariant(&*self);
        }
        self.current_paint = Some(paint);
    }

    /// Alter the paint of the canvas (for example, to change the color).
    ///
    /// `alter_fn` receives the current paint and returns the altered one. While it
    /// runs the canvas holds no paint, so the paint cannot be altered again from
    /// within it.
    pub fn alter_paint<F: FnOnce(SkiaPaint) -> SkiaPaint>(&mut self, alter_fn: F)
        requires
            old(self).paint() is Some,
            forall|p: SkiaPaint| alter_fn.requires((p,)),
        ensures
            final(self).ops() == old(self).ops(),
            final(self).paint() matches Some(q) && alter_fn.ensures((old(self).paint()->0,), q),
    {
        let p = self.take_paint();
        let q = alter_fn(p);
        self.put_paint(q);
    }

    /// Run `section_func` on a section of the canvas at `pos` of extent `size`.
    ///
    /// The section starts from the default paint, not the parent's. If `clip` is
    /// true, what is drawn outside the section is not shown. On return the parent's
    /// paint is what it was, and every transform and clip of the section is undone.
    pub fn enter_section<F: FnOnce(SkiaCanvas) -> SkiaCanvas>(
        &mut self,
        pos: (i32, i32),
        size: (i32, i32),
        clip: bool,
        section_func: F,
    )
        requires
            forall|c: SkiaCanvas|
                is_default_paint(c.paint()) && c.ops() == Seq::<DrawOp>::empty()
                    ==> #[trigger] section_func.requires((c,)),
        ensures
            final(self).paint() == old(self).paint(),
            exists|inner: SkiaCanvas, done: SkiaCanvas|
                #[trigger] section_func.ensures((inner,), done) && is_default_paint(inner.paint())
                    && inner.ops() == Seq::<DrawOp>::empty() && final(self).ops() == old(
                    self,
                ).ops() + section_prologue(pos, size, clip) + done.ops() + seq![DrawOp::Restore],
    {
        let inner = create_canvas();
        let ghost inner_view = inner;
        let done = section_func(inner);
        let ghost done_view = done;
        proof {
            use_type_invariant(&done);
            use_type_invariant(&*self);
            lemma_section_balanced(self.ops@, pos, size, clip, done.ops@);
        }
        let ghost before = self.ops@;
        let ghost inside = done.ops@;
        let mut section_ops = done.ops;
        let mut suffix: Vec<DrawOp> = Vec::new();
        suffix.push(DrawOp::Save);
        if clip {
            suffix.push(DrawOp::ClipRect { pos, size });
        }
        suffix.push(DrawOp::Translate { offset: pos });
        assert(suffix@ == section_prologue(pos, size, clip));
        suffix.append(&mut section_ops);
        suffix.push(DrawOp::Restore);
        assert(suffix@ =~= section_prologue(pos, size, clip) + inside + seq![DrawOp::Restore]);
        let mut ops = Vec::new();
        std::mem::swap(&mut ops, &mut self.ops);
        ops.append(&mut suffix);
        assert(ops@ =~= before + (section_prologue(pos, size, clip) + inside + seq![
            DrawOp::Restore,
        ]));
        self.ops = ops;
        assert(section_func.ensures((inner_view,), done_view));
    }

    /// Draw a rectangle at `pos` of extent `size` with the current paint.
    pub fn draw_rect(&mut self, pos: (i32, i32), size: (i32, i32))
        requires
            old(self).paint() is Some,
        ensures
            final(self).paint() == old(self).paint(),
            final(self).ops() == old(self).ops().push(
                DrawOp::Rect { pos, size, paint: old(self).paint()->0 },
            ),
    {
        let paint = self.current_paint.unwrap();
        self.record(DrawOp::Rect { pos, size, paint });
    }

    /// Draw an ellipse inscribed in the rectangle at `pos` of extent `size` with the
    /// current paint.
    pub fn draw_elipse(&mut self, pos: (i32, i32), size: (i32, i32))
        requires
            old(self).paint() is Some,
        ensures
            final(self).paint() == old(self).paint(),
            final(self).ops() == old(self).ops().push(
                DrawOp::Ellipse { pos, size, paint: old(self).paint()->0 },
            ),
    {
        let paint = self.current_paint.unwrap();
        self.record(DrawOp::Ellipse { pos, size, paint });
    }

    /// Draw a line starting at `start` and moving by `mov`, with the current paint.
    pub fn draw_line(&mut self, start: (i32, i32), mov: (i32, i32))
        requires
            old(self).paint() is Some,
        ensures
            final(self).paint() == old(self).paint(),
            final(self).ops() == old(self).ops().push(
                DrawOp::Line {
                    start,
                    end: ((start.0 + mov.0) as i64, (start.1 + mov.1) as i64),
                    paint: old(self).paint()->0,
                },
            ),
    {
        let paint = self.current_paint.unwrap();
        let end = (start.0 as i64 + mov.0 as i64, start.1 as i64 + mov.1 as i64);
        self.record(DrawOp::Line { start, end, paint });
    }

    /// Draw `text` with its origin at `pos`, with the current paint.
    pub fn draw_text(&mut self, pos: (i32, i32), text: &str)
        requires
            old(self).paint() is Some,
        ensures
            final(self).paint() == old(self).paint(),
            final(self).ops().len() == old(self).ops().len() + 1,
            final(self).ops().take(old(self).ops().len() as int) == old(self).ops(),
            final(self).ops().last() matches DrawOp::Text { pos: tp, text: t, paint: tq } && tp
                == pos && t@ == text@ && tq == old(self).paint()->0,
    {
        let paint = self.current_paint.unwrap();
        let text = text.to_string();
        self.record(DrawOp::Text { pos, text, paint });
        assert(self.ops@.take(old(self).ops@.len() as int) =~= old(self).ops@);
    }
}

/// A canvas with nothing drawn on it yet and the default paint.
pub fn create_canvas() -> (c: SkiaCanvas)
    ensures
        is_default_paint(c.paint()),
        c.ops() == Seq::<DrawOp>::empty(),
{
    SkiaCanvas { current_paint: Some(SkiaPaint::new()), ops: Vec::new() }
}

/// A section narrows the clip only when asked to: the instructions that open it hold
/// a clip exactly when `clip` is true, and then the clip is the section's own
/// rectangle.
pub proof fn lemma_clip_only_when_requested(pos: (i32, i32), size: (i32, i32), clip: bool)
    ensures
        (exists|k: int|
            0 <= k < section_prologue(pos, size, clip).len() && #[trigger] section_prologue(
                pos,
                size,
                clip,
            )[k] is ClipRect) <==> clip,
        forall|k: int|
            0 <= k < section_prologue(pos, size, clip).len() && #[trigger] section_prologue(
                pos,
                size,
                clip,
            )[k] is ClipRect ==> section_prologue(pos, size, clip)[k] == (DrawOp::ClipRect {
                pos,
                size,
            }),
{
    if clip {
        assert(section_prologue(pos, size, clip)[1] is ClipRect);
    }
}

} // verus!

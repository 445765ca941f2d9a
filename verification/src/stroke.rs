//! The drawing state machine behind one signature surface. Pointer samples
//! arrive in surface-local integer pixels; the machine decides which line
//! segment, if any, the host must draw, and tracks whether any ink has been
//! applied yet.

use vstd::prelude::*;

verus! {

/// A straight line segment between two consecutive pointer samples, in
/// surface-local pixels; the host draws it on the visible surface.
#[derive(Clone, Copy, PartialEq, Eq, Structural, Debug)]
pub struct Segment {
    pub from_x: i32,
    pub from_y: i32,
    pub to_x: i32,
    pub to_y: i32,
}

/// One signature surface's drawing state: the surface extent, whether a
/// stroke is in progress, the last recorded sample, and whether the surface
/// still holds no ink.
#[derive(Clone, Copy, PartialEq, Eq, Structural, Debug)]
pub struct SignaturePad {
    pub width: u32,
    pub height: u32,
    pub drawing: bool,
    pub last_x: i32,
    pub last_y: i32,
    pub empty: bool,
}

/// A pointer event as the drawing machine sees it: a press, a move, or a
/// release (a pointer leaving the surface is reported as a release).
#[derive(Clone, Copy, PartialEq, Eq, Structural, Debug)]
pub enum PadEvent {
    Down(i32, i32),
    Move(i32, i32),
    Up,
}

/// The state after one pointer event.
pub open spec fn pad_step(p: SignaturePad, e: PadEvent) -> SignaturePad {
    match e {
        PadEvent::Down(x, y) => (SignaturePad { drawing: true, last_x: x, last_y: y, ..p }),
        PadEvent::Move(x, y) => if p.drawing {
            (SignaturePad { last_x: x, last_y: y, empty: false, ..p })
        } else {
            p
        },
        PadEvent::Up => (SignaturePad { drawing: false, ..p }),
    }
}

/// The state after a sequence of pointer events.
pub open spec fn pad_run(p: SignaturePad, evs: Seq<PadEvent>) -> SignaturePad
    decreases evs.len(),
{
    if evs.len() == 0 {
        p
    } else {
        pad_run(pad_step(p, evs[0]), evs.skip(1))
    }
}

impl SignaturePad {
    /// A fresh surface of the given extent: no stroke in progress, no ink.
    pub fn new(width: u32, height: u32) -> (p: Self)
        ensures
            p == (SignaturePad {
                width,
                height,
                drawing: false,
                last_x: 0,
                last_y: 0,
                empty: true,
            }),
    {
        SignaturePad { width, height, drawing: false, last_x: 0, last_y: 0, empty: true }
    }

    /// Pointer press: records the path origin and starts drawing. Draws
    /// nothing yet.
    pub fn pointer_down(&mut self, x: i32, y: i32)
        ensures
            *final(self) == pad_step(*old(self), PadEvent::Down(x, y)),
    {
        self.drawing = true;
        self.last_x = x;
        self.last_y = y;
    }

    /// Pointer move: when a stroke is in progress, advances the last sample,
    /// marks the surface inked, and returns the segment the host must draw
    /// from the previous sample to `(x, y)`; otherwise does nothing.
    pub fn pointer_move(&mut self, x: i32, y: i32) -> (seg: Option<Segment>)
        ensures
            *final(self) == pad_step(*old(self), PadEvent::Move(x, y)),
            old(self).drawing ==> seg == Some(
                Segment { from_x: old(self).last_x, from_y: old(self).last_y, to_x: x, to_y: y },
            ),
            !old(self).drawing ==> seg is None,
    {
        if !self.drawing {
            return None;
        }
        let seg = Segment { from_x: self.last_x, from_y: self.last_y, to_x: x, to_y: y };
        self.last_x = x;
        self.last_y = y;
        self.empty = false;
        Some(seg)
    }

    /// Pointer release (or the pointer leaving the surface): stops drawing.
    /// Without a stroke in progress this changes nothing.
    pub fn pointer_up(&mut self)
        ensures
            *final(self) == pad_step(*old(self), PadEvent::Up),
            !old(self).drawing ==> *final(self) == *old(self),
    {
        self.drawing = false;
    }

    /// Erase the whole surface: the surface is empty again. The in-progress
    /// flag and the last sample are kept.
    pub fn clear(&mut self)
        ensures
            *final(self) == (SignaturePad { empty: true, ..*old(self) }),
    {
        self.empty = true;
    }

    /// Whether nothing has been drawn since creation or the last clear.
    pub fn is_empty(&self) -> (r: bool)
        ensures
            r == self.empty,
    {
        self.empty
    }

    /// The surface width the machine was created with.
    pub fn width(&self) -> (r: u32)
        ensures
            r == self.width,
    {
        self.width
    }

    /// The surface height the machine was created with.
    pub fn height(&self) -> (r: u32)
        ensures
            r == self.height,
    {
        self.height
    }
}

/// Running a concatenation is running the parts in order.
pub proof fn lemma_pad_run_append(p: SignaturePad, a: Seq<PadEvent>, b: Seq<PadEvent>)
    ensures
        pad_run(p, a + b) == pad_run(pad_run(p, a), b),
    decreases a.len(),
{
    if a.len() == 0 {
        assert(a + b =~= b);
    } else {
        assert((a + b).skip(1) =~= a.skip(1) + b);
        lemma_pad_run_append(pad_step(p, a[0]), a.skip(1), b);
    }
}

/// No pointer event puts ink back: once the surface is inked, it stays
/// inked until an explicit clear, which is not a pointer event.
pub proof fn lemma_ink_persists(p: SignaturePad, evs: Seq<PadEvent>)
    requires
        !p.empty,
    ensures
        !pad_run(p, evs).empty,
    decreases evs.len(),
{
    if evs.len() > 0 {
        lemma_ink_persists(pad_step(p, evs[0]), evs.skip(1));
    }
}

/// While no release arrives, a stroke stays in progress.
pub proof fn lemma_drawing_persists(p: SignaturePad, evs: Seq<PadEvent>)
    requires
        p.drawing,
        forall|k: int| 0 <= k < evs.len() ==> !(#[trigger] evs[k] is Up),
    ensures
        pad_run(p, evs).drawing,
    decreases evs.len(),
{
    if evs.len() > 0 {
        assert(forall|k: int|
            0 <= k < evs.skip(1).len() ==> !(#[trigger] evs.skip(1)[k] is Up));
        lemma_drawing_persists(pad_step(p, evs[0]), evs.skip(1));
    }
}

/// Running a single event is stepping it.
pub proof fn lemma_pad_run_one(p: SignaturePad, e: PadEvent)
    ensures
        pad_run(p, seq![e]) == pad_step(p, e),
{
    assert(seq![e].skip(1) =~= Seq::<PadEvent>::empty());
    assert(pad_run(pad_step(p, e), Seq::<PadEvent>::empty()) == pad_step(p, e));
}

/// In any event sequence holding a move after a press with no release in
/// between, the surface becomes inked and stays inked to the end of the
/// sequence.
pub proof fn lemma_stroke_inks(p: SignaturePad, evs: Seq<PadEvent>, i: int, j: int)
    requires
        0 <= i < j < evs.len(),
        evs[i] is Down,
        evs[j] is Move,
        forall|k: int| i < k < j ==> !(#[trigger] evs[k] is Up),
    ensures
        !pad_run(p, evs).empty,
{
    let before = evs.take(i);
    let between = evs.subrange(i + 1, j);
    let after = evs.skip(j + 1);
    let q0 = pad_run(p, before);
    let q1 = pad_step(q0, evs[i]);
    let q2 = pad_run(q1, between);
    let q3 = pad_step(q2, evs[j]);
    assert(q1.drawing);
    assert(forall|k: int| 0 <= k < between.len() ==> !(#[trigger] between[k] is Up));
    lemma_drawing_persists(q1, between);
    assert(!q3.empty);
    lemma_ink_persists(q3, after);
    assert(evs =~= before + seq![evs[i]] + between + seq![evs[j]] + after);
    lemma_pad_run_append(p, before, seq![evs[i]] + between + seq![evs[j]] + after);
    assert(before + seq![evs[i]] + between + seq![evs[j]] + after =~= before + (seq![evs[i]]
        + between + seq![evs[j]] + after));
    lemma_pad_run_append(q0, seq![evs[i]], between + seq![evs[j]] + after);
    assert(seq![evs[i]] + between + seq![evs[j]] + after =~= seq![evs[i]] + (between
        + seq![evs[j]] + after));
    lemma_pad_run_one(q0, evs[i]);
    assert(pad_run(q0, seq![evs[i]]) == q1);
    lemma_pad_run_append(q1, between, seq![evs[j]] + after);
    assert(between + seq![evs[j]] + after =~= between + (seq![evs[j]] + after));
    lemma_pad_run_append(q2, seq![evs[j]], after);
    assert(seq![evs[j]] + after =~= seq![evs[j]] + after);
    lemma_pad_run_one(q2, evs[j]);
    assert(pad_run(q2, seq![evs[j]]) == q3);
    assert(pad_run(p, evs) == pad_run(q3, after));
}

} // verus!

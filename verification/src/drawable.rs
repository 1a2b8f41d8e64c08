//! What can be drawn, and what a draw needs from its surroundings.

use crate::error::Error;
use crate::geometry::{PixelPoint, Point};
use vstd::prelude::*;

verus! {

/// What to hand to the external image renderer for a point.
#[derive(Debug, PartialEq, Eq)]
pub struct ImageOptions {
    /// The markup of the image, as the renderer reads it.
    pub markup: String,
}

impl Clone for ImageOptions {
    fn clone(&self) -> (out: Self)
        ensures
            out == *self,
    {
        ImageOptions { markup: self.markup.clone() }
    }
}

/// The surroundings of a draw: the projection of coordinates of type `T` to
/// pixels, relative to a reference point of type `R`, and the renderer of
/// external images.
///
/// Nothing is assumed of an implementation. What a draw says of its result,
/// it says of whatever these two functions returned.
pub trait Context<T, R> {
    /// An external image, ready to be drawn.
    type Image;

    /// The pixel position of `point` on a canvas centred on `center`.
    fn project(&self, center: &R, point: &Point<T>) -> Result<PixelPoint, Error>;

    /// The image described by `options`, anchored at `anchor`.
    fn image(&self, options: &ImageOptions, anchor: &PixelPoint) -> Result<Self::Image, Error>;
}

/// Something that draws itself onto a canvas centred on a reference point.
pub trait Drawable<C, R> {
    /// Whether a draw may turn the canvas `before` into `after` and end in
    /// `result`. An implementation that does not say is taken to allow
    /// every outcome.
    open spec fn drawn(
        &self,
        context: &C,
        center: &R,
        before: tiny_skia::Pixmap,
        after: tiny_skia::Pixmap,
        result: Result<(), Error>,
    ) -> bool {
        true
    }

    fn draw(&self, context: &C, canvas: &mut tiny_skia::Pixmap, center: &R) -> (result: Result<
        (),
        Error,
    >)
        ensures
            self.drawn(context, center, *old(canvas), *final(canvas), result),
    ;
}

/// What one draw of a sequence may do: whether it may turn the first canvas
/// into the second and end in the result.
pub type Step = spec_fn(tiny_skia::Pixmap, tiny_skia::Pixmap, Result<(), Error>) -> bool;

/// Whether `canvases` are the states of one canvas under the draws of
/// `steps`, made one after the other and given up at the first failure, with
/// `result` as the end of it.
///
/// The first canvas is the one before any draw, and each draw that was made
/// adds the canvas it left. Every draw but the last one made succeeded; the
/// last one made ended in `result`, and is the last of all unless it failed.
pub open spec fn traces(
    steps: Seq<Step>,
    canvases: Seq<tiny_skia::Pixmap>,
    result: Result<(), Error>,
) -> bool {
    let made = canvases.len() - 1;
    &&& 0 <= made <= steps.len()
    &&& forall|i: int|
        #![trigger steps[i]]
        0 <= i < made - 1 ==> (steps[i])(canvases[i], canvases[i + 1], Ok::<(), Error>(()))
    &&& if made == 0 {
        steps.len() == 0 && result == Ok::<(), Error>(())
    } else {
        (steps[made - 1])(canvases[made - 1], canvases[made], result) && (result is Err || made
            == steps.len())
    }
}

/// Whether the draws of `steps`, made one after the other on one canvas and
/// given up at the first failure, may turn the canvas `before` into `after`
/// and end in `result`.
pub open spec fn each_drawn(
    steps: Seq<Step>,
    before: tiny_skia::Pixmap,
    after: tiny_skia::Pixmap,
    result: Result<(), Error>,
) -> bool {
    exists|canvases: Seq<tiny_skia::Pixmap>| #[trigger]
        traces(steps, canvases, result) && canvases.first() == before && canvases.last() == after
}

/// Whether `canvases` are the states of one canvas under the first draws of
/// `steps`, all of which succeeded.
pub open spec fn underway(steps: Seq<Step>, canvases: Seq<tiny_skia::Pixmap>) -> bool {
    &&& 1 <= canvases.len() <= steps.len() + 1
    &&& forall|i: int|
        #![trigger steps[i]]
        0 <= i < canvases.len() - 1 ==> (steps[i])(
            canvases[i],
            canvases[i + 1],
            Ok::<(), Error>(()),
        )
}

/// One more draw of a sequence that is under way: where it succeeds the
/// sequence is under way still, and where it fails the sequence has ended
/// in that failure.
pub proof fn draw_made(
    steps: Seq<Step>,
    canvases: Seq<tiny_skia::Pixmap>,
    after: tiny_skia::Pixmap,
    result: Result<(), Error>,
)
    requires
        underway(steps, canvases),
        canvases.len() <= steps.len(),
        (steps[canvases.len() - 1])(canvases.last(), after, result),
    ensures
        result is Ok ==> underway(steps, canvases.push(after)),
        result is Err ==> traces(steps, canvases.push(after), result),
{
    let longer = canvases.push(after);
    let made = canvases.len() - 1;
    assert forall|i: int| #![trigger steps[i]] 0 <= i < made implies (steps[i])(
        longer[i],
        longer[i + 1],
        Ok::<(), Error>(()),
    ) by {
        assert(longer[i] == canvases[i] && longer[i + 1] == canvases[i + 1]);
    }
    assert(longer[made] == canvases.last() && longer[made + 1] == after);
    if result is Ok {
        assert(result == Ok::<(), Error>(result->Ok_0));
    }
}

/// A sequence whose draws have all been made and have succeeded has ended
/// in success.
pub proof fn all_made(steps: Seq<Step>, canvases: Seq<tiny_skia::Pixmap>)
    requires
        underway(steps, canvases),
        canvases.len() == steps.len() + 1,
    ensures
        traces(steps, canvases, Ok::<(), Error>(())),
{
}

/// Nothing to draw leaves the canvas as it is and succeeds.
pub proof fn none_drawn(before: tiny_skia::Pixmap)
    ensures
        each_drawn(Seq::<Step>::empty(), before, before, Ok::<(), Error>(())),
{
    let canvases = seq![before];
    assert(traces(Seq::<Step>::empty(), canvases, Ok::<(), Error>(())));
}

/// A sequence of one draw does what that draw does.
pub proof fn one_drawn(
    step: Step,
    before: tiny_skia::Pixmap,
    after: tiny_skia::Pixmap,
    result: Result<(), Error>,
)
    ensures
        each_drawn(seq![step], before, after, result) <==> step(before, after, result),
{
    let steps = seq![step];
    if step(before, after, result) {
        let canvases = seq![before, after];
        assert(traces(steps, canvases, result));
    }
    if each_drawn(steps, before, after, result) {
        let canvases = choose|canvases: Seq<tiny_skia::Pixmap>| #[trigger]
            traces(steps, canvases, result) && canvases.first() == before && canvases.last()
                == after;
        assert(canvases.len() == 2);
    }
}

/// Draws made one after the other compose: where the draws of `first`
/// succeed and lead to a canvas from which the draws of `second` lead on,
/// the draws of both in a row do the same.
pub proof fn sequences_compose(
    first: Seq<Step>,
    second: Seq<Step>,
    before: tiny_skia::Pixmap,
    middle: tiny_skia::Pixmap,
    after: tiny_skia::Pixmap,
    result: Result<(), Error>,
)
    requires
        each_drawn(first, before, middle, Ok::<(), Error>(())),
        each_drawn(second, middle, after, result),
    ensures
        each_drawn(first + second, before, after, result),
{
    let head = choose|canvases: Seq<tiny_skia::Pixmap>| #[trigger]
        traces(first, canvases, Ok::<(), Error>(())) && canvases.first() == before
            && canvases.last() == middle;
    let tail = choose|canvases: Seq<tiny_skia::Pixmap>| #[trigger]
        traces(second, canvases, result) && canvases.first() == middle && canvases.last() == after;
    let both = first + second;
    let canvases = head + tail.skip(1);
    let made = head.len() - 1;
    assert(made == first.len());
    assert forall|i: int|
        #![trigger both[i]]
        0 <= i < canvases.len() - 2 implies (both[i])(
        canvases[i],
        canvases[i + 1],
        Ok::<(), Error>(()),
    ) by {
        if i < made {
            assert(both[i] == first[i]);
            assert(canvases[i] == head[i] && canvases[i + 1] == head[i + 1]);
        } else {
            assert(both[i] == second[i - made]);
            assert(canvases[i] == tail[i - made] && canvases[i + 1] == tail[i - made + 1]);
        }
    }
    if tail.len() == 1 {
        assert(second.len() == 0);
        assert(both =~= first);
        assert(canvases =~= head);
    } else {
        let last = canvases.len() - 2;
        assert(both[last] == second[last - made]);
        assert(canvases[last] == tail[last - made] && canvases[last + 1] == tail[last - made + 1]);
        assert(traces(both, canvases, result));
    }
}

/// Sequences whose draws may do the same, one by one, may do the same as a
/// whole.
pub proof fn same_steps_draw_the_same(
    first: Seq<Step>,
    second: Seq<Step>,
    before: tiny_skia::Pixmap,
    after: tiny_skia::Pixmap,
    result: Result<(), Error>,
)
    requires
        first.len() == second.len(),
        forall|i: int, from: tiny_skia::Pixmap, to: tiny_skia::Pixmap, end: Result<(), Error>|
            #![trigger (first[i])(from, to, end)]
            #![trigger (second[i])(from, to, end)]
            0 <= i < first.len() ==> (first[i])(from, to, end) == (second[i])(from, to, end),
    ensures
        each_drawn(first, before, after, result) == each_drawn(second, before, after, result),
{
    assert forall|canvases: Seq<tiny_skia::Pixmap>|
        traces(first, canvases, result) == traces(second, canvases, result) by {
        let made = canvases.len() - 1;
        if 0 < made <= first.len() {
            assert((first[made - 1])(canvases[made - 1], canvases[made], result) == (second[made
                - 1])(canvases[made - 1], canvases[made], result));
        }
        if traces(first, canvases, result) {
            assert forall|i: int| #![trigger second[i]] 0 <= i < made - 1 implies (second[i])(
                canvases[i],
                canvases[i + 1],
                Ok::<(), Error>(()),
            ) by {
                assert((first[i])(canvases[i], canvases[i + 1], Ok::<(), Error>(())));
            }
        }
        if traces(second, canvases, result) {
            assert forall|i: int| #![trigger first[i]] 0 <= i < made - 1 implies (first[i])(
                canvases[i],
                canvases[i + 1],
                Ok::<(), Error>(()),
            ) by {
                assert((second[i])(canvases[i], canvases[i + 1], Ok::<(), Error>(())));
            }
        }
    }
}

} // verus!

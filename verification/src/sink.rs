//! Where pixels go.

use vstd::prelude::*;
use crate::image::Pixel;
use crate::pixels::Pixels;
use crate::source::BinarySource;

verus! {

/// A surface that consumes a stream of pixels.
pub trait DrawSink<C: Copy> {
    /// What the sink reports when it cannot take what it was given.
    type Error;

    /// What the sink says of one call of [`DrawSink::draw_iter`]: how the
    /// sink as it was `before`, the `pixels` that the stream had to give, the
    /// sink as it is `after` and the `result` hang together. A sink that
    /// promises nothing leaves this as it is.
    open spec fn drawn(
        before: &Self,
        pixels: Seq<Pixel<C>>,
        after: &Self,
        result: Result<(), Self::Error>,
    ) -> bool {
        true
    }

    /// Takes pixels from `pixels`, as many as the sink sees fit, and commits
    /// them to the surface.
    fn draw_iter<T: BinarySource>(&mut self, pixels: Pixels<'_, T, C>) -> (result: Result<
        (),
        Self::Error,
    >)
        ensures
            Self::drawn(old(self), pixels@, final(self), result),
    ;
}

/// A vector of pixels takes every pixel of the stream, appends them in the
/// order of the stream to what it holds, and never fails.
impl<C: Copy> DrawSink<C> for Vec<Pixel<C>> {
    type Error = core::convert::Infallible;

    open spec fn drawn(
        before: &Self,
        pixels: Seq<Pixel<C>>,
        after: &Self,
        result: Result<(), core::convert::Infallible>,
    ) -> bool {
        result is Ok && after@ == before@ + pixels
    }

    fn draw_iter<T: BinarySource>(&mut self, pixels: Pixels<'_, T, C>) -> (result: Result<
        (),
        core::convert::Infallible,
    >) {
        let mut rest = pixels;
        loop
            invariant
                self@ + rest@ == old(self)@ + pixels@,
            decreases rest@.len(),
        {
            let ghost ahead = rest@;
            match rest.next() {
                Some(pixel) => {
                    self.push(pixel);
                    assert(self@ + rest@ =~= old(self)@ + pixels@) by {
                        assert(ahead =~= seq![pixel] + rest@);
                    }
                },
                None => {
                    assert(self@ =~= old(self)@ + pixels@);
                    return Ok(());
                },
            }
        }
    }
}

} // verus!

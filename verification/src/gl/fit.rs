//! The arithmetic of the sampling helpers, in exact fractions.
//!
//! A helper of an aspect-correcting mode samples its texture at
//! `.5 + (uv - .5) * scale`. Horizontally the scale is the frame's aspect
//! ratio over the image's, vertically the inverse, and each is bounded
//! against 1: from below in `Contain`, from above in `Cover`. Aspect ratios
//! are ratios of pixel counts, so the scale is a fraction of integers.
use crate::gl::shader::Mode;
use vstd::prelude::*;
use vstd::string::*;

verus! {

/// The shape of an image or of the frame, in pixels.
#[derive(Clone, Copy, Debug, PartialEq, Eq, Structural)]
pub struct Aspect {
    pub width: u32,
    pub height: u32,
}

/// A fraction of two naturals. The scale 1 is always written 1/1.
#[derive(Clone, Copy, Debug, PartialEq, Eq, Structural)]
pub struct Fraction {
    pub numerator: u64,
    pub denominator: u64,
}

/// The factors by which a helper multiplies the centred coordinate.
#[derive(Clone, Copy, Debug, PartialEq, Eq, Structural)]
pub struct Scale {
    pub horizontal: Fraction,
    pub vertical: Fraction,
}

impl Aspect {
    /// The ratio of width to height exists and is not zero.
    pub open spec fn is_shaped(self) -> bool {
        self.width > 0 && self.height > 0
    }
}

/// `numerator / denominator` bounded against 1 as `mode` does it: `Contain`
/// keeps the larger of the two, `Cover` the smaller, `Stretch` always 1.
pub open spec fn bounded(mode: Mode, numerator: int, denominator: int) -> (int, int) {
    match mode {
        Mode::Contain => if numerator > denominator {
            (numerator, denominator)
        } else {
            (1, 1)
        },
        Mode::Stretch => (1, 1),
        Mode::Cover => if numerator < denominator {
            (numerator, denominator)
        } else {
            (1, 1)
        },
    }
}

/// The horizontal scale of `mode` for an image in a frame: the frame's ratio
/// over the image's, bounded.
pub open spec fn horizontal_scale(mode: Mode, frame: Aspect, image: Aspect) -> (int, int) {
    bounded(mode, frame.width * image.height, frame.height * image.width)
}

/// The vertical scale: the image's ratio over the frame's, bounded.
pub open spec fn vertical_scale(mode: Mode, frame: Aspect, image: Aspect) -> (int, int) {
    bounded(mode, frame.height * image.width, frame.width * image.height)
}

fn bound(mode: Mode, numerator: u64, denominator: u64) -> (r: Fraction)
    ensures
        (r.numerator as int, r.denominator as int) == bounded(
            mode,
            numerator as int,
            denominator as int,
        ),
{
    let keep = match mode {
        Mode::Contain => numerator > denominator,
        Mode::Stretch => false,
        Mode::Cover => numerator < denominator,
    };
    if keep {
        Fraction { numerator, denominator }
    } else {
        Fraction { numerator: 1, denominator: 1 }
    }
}

/// The scale that the helpers of `mode` apply to an image of shape `image`
/// in a frame of shape `frame`; `None` where a shape has no ratio.
pub fn scale(mode: Mode, frame: Aspect, image: Aspect) -> (r: Option<Scale>)
    ensures
        r is Some <==> frame.is_shaped() && image.is_shaped(),
        r matches Some(s) ==> {
            &&& (s.horizontal.numerator as int, s.horizontal.denominator as int)
                == horizontal_scale(mode, frame, image)
            &&& (s.vertical.numerator as int, s.vertical.denominator as int) == vertical_scale(
                mode,
                frame,
                image,
            )
            &&& s.horizontal.denominator > 0
            &&& s.vertical.denominator > 0
        },
{
    if frame.width == 0 || frame.height == 0 || image.width == 0 || image.height == 0 {
        return None;
    }
    let frame_width: u64 = frame.width.into();
    let frame_height: u64 = frame.height.into();
    let image_width: u64 = image.width.into();
    let image_height: u64 = image.height.into();
    assert(frame_width * image_height <= 0xffff_ffff * 0xffff_ffff) by (nonlinear_arith)
        requires
            frame_width <= 0xffff_ffff,
            image_height <= 0xffff_ffff,
    ;
    assert(frame_height * image_width <= 0xffff_ffff * 0xffff_ffff) by (nonlinear_arith)
        requires
            frame_height <= 0xffff_ffff,
            image_width <= 0xffff_ffff,
    ;
    assert(frame_width * image_height > 0) by (nonlinear_arith)
        requires
            frame_width > 0,
            image_height > 0,
    ;
    assert(frame_height * image_width > 0) by (nonlinear_arith)
        requires
            frame_height > 0,
            image_width > 0,
    ;
    let across: u64 = frame_width * image_height;
    let along: u64 = frame_height * image_width;
    Some(Scale { horizontal: bound(mode, across, along), vertical: bound(mode, along, across) })
}

/// The arithmetic follows the program text: a mode keeps the larger of a
/// quotient and 1 where its helpers call `max`, the smaller where they call
/// `min`, and 1 itself where they call neither.
pub proof fn lemma_bounded_as_combined(mode: Mode, numerator: int, denominator: int)
    ensures
        mode.combiner() == Some("max"@) ==> bounded(mode, numerator, denominator) == if numerator
            > denominator {
            (numerator, denominator)
        } else {
            (1int, 1int)
        },
        mode.combiner() == Some("min"@) ==> bounded(mode, numerator, denominator) == if numerator
            < denominator {
            (numerator, denominator)
        } else {
            (1int, 1int)
        },
        mode.combiner() is None ==> bounded(mode, numerator, denominator) == (1int, 1int),
{
    reveal_strlit("max");
    reveal_strlit("min");
    assert("max"@[1] == 'a' && "min"@[1] == 'i');
}

/// Where the image has the frame's aspect ratio, `Contain` and `Cover`
/// sample alike: both scale by 1 on both axes, as `Stretch` always does.
pub proof fn lemma_equal_ratios_scale_alike(mode: Mode, frame: Aspect, image: Aspect)
    requires
        frame.is_shaped(),
        image.is_shaped(),
        frame.width * image.height == frame.height * image.width,
    ensures
        horizontal_scale(mode, frame, image) == (1int, 1int),
        vertical_scale(mode, frame, image) == (1int, 1int),
        horizontal_scale(Mode::Contain, frame, image) == horizontal_scale(
            Mode::Cover,
            frame,
            image,
        ),
        vertical_scale(Mode::Contain, frame, image) == vertical_scale(Mode::Cover, frame, image),
{
}

/// Where the frame is wider in proportion than the image, `Contain` scales
/// the horizontal axis by the quotient of the ratios, which is above 1 and
/// shrinks the image, and leaves the vertical at 1; `Cover` leaves the
/// horizontal at 1 and scales the vertical by the inverse quotient, below 1,
/// which crops.
pub proof fn lemma_wider_frame(frame: Aspect, image: Aspect)
    requires
        frame.is_shaped(),
        image.is_shaped(),
        frame.width * image.height > frame.height * image.width,
    ensures
        horizontal_scale(Mode::Contain, frame, image) == (
            frame.width * image.height,
            frame.height * image.width,
        ),
        horizontal_scale(Mode::Contain, frame, image).0 >= horizontal_scale(
            Mode::Contain,
            frame,
            image,
        ).1 > 0,
        vertical_scale(Mode::Contain, frame, image) == (1int, 1int),
        horizontal_scale(Mode::Cover, frame, image) == (1int, 1int),
        horizontal_scale(Mode::Cover, frame, image).0 <= horizontal_scale(
            Mode::Cover,
            frame,
            image,
        ).1,
        vertical_scale(Mode::Cover, frame, image) == (
            frame.height * image.width,
            frame.width * image.height,
        ),
        0 < vertical_scale(Mode::Cover, frame, image).0 < vertical_scale(
            Mode::Cover,
            frame,
            image,
        ).1,
{
    assert(frame.height * image.width > 0) by (nonlinear_arith)
        requires
            frame.height > 0,
            image.width > 0,
    ;
}

} // verus!

//! Rendered page pixels, brought to the RGBA layout that GUI textures take.

use vstd::prelude::*;
use vstd::slice::slice_to_vec;

verus! {

/// Why rendered pixels could not be turned into RGBA.
#[derive(Debug, Clone, Copy, PartialEq, Eq, Structural)]
pub enum PixelError {
    /// The pixmap has this many components per pixel, neither 3 nor 4.
    UnexpectedFormat(u8),
}

impl PixelError {
    /// The number of components per pixel that was found.
    pub fn components(&self) -> (n: u8)
        ensures
            *self == PixelError::UnexpectedFormat(n),
    {
        match self {
            PixelError::UnexpectedFormat(n) => *n,
        }
    }
}

/// The RGBA bytes of the first `count` pixels of packed RGB `samples`:
/// each pixel's three channels followed by a fully opaque alpha.
pub open spec fn rgb_to_rgba_spec(samples: Seq<u8>, count: nat) -> Seq<u8>
    decreases count,
{
    if count == 0 {
        Seq::empty()
    } else {
        let p = (count - 1) as int;
        rgb_to_rgba_spec(samples, (count - 1) as nat) + seq![
            samples[3 * p],
            samples[3 * p + 1],
            samples[3 * p + 2],
            255u8,
        ]
    }
}

/// Add an opaque alpha channel to `count` packed RGB pixels.
pub fn rgb_to_rgba(samples: &[u8], count: usize) -> (rgba: Vec<u8>)
    requires
        3 * count <= samples@.len(),
        4 * count <= usize::MAX,
    ensures
        rgba@ == rgb_to_rgba_spec(samples@, count as nat),
{
    let mut out: Vec<u8> = Vec::new();
    let mut i: usize = 0;
    let mut src: usize = 0;
    while i < count
        invariant
            3 * count <= samples@.len(),
            i <= count,
            src == 3 * i,
            out@ == rgb_to_rgba_spec(samples@, i as nat),
        decreases count - i,
    {
        out.push(samples[src]);
        out.push(samples[src + 1]);
        out.push(samples[src + 2]);
        out.push(255u8);
        proof {
            assert(rgb_to_rgba_spec(samples@, (i + 1) as nat) == rgb_to_rgba_spec(samples@, i as nat)
                + seq![samples@[3 * i], samples@[3 * i + 1], samples@[3 * i + 2], 255u8]);
            assert(out@ =~= rgb_to_rgba_spec(samples@, (i + 1) as nat));
        }
        i = i + 1;
        src = src + 3;
    }
    out
}

/// The RGBA bytes of a rendered pixmap of `width` by `height` pixels with
/// `components` bytes per pixel: four-component samples are taken as they
/// are, three-component samples get an opaque alpha, any other layout is an
/// error.
pub fn pixmap_to_rgba(samples: &[u8], components: u8, width: u32, height: u32) -> (r: Result<Vec<u8>, PixelError>)
    requires
        components == 3 ==> width * height <= u32::MAX,
        components == 3 ==> 3 * (width * height) <= samples@.len(),
        components == 3 ==> 4 * (width * height) <= usize::MAX,
    ensures
        components == 4 ==> (r matches Ok(v) && v@ == samples@),
        components == 3 ==> (r matches Ok(v) && v@ == rgb_to_rgba_spec(samples@, (width * height) as nat)),
        components != 3 && components != 4 ==> r == Err::<Vec<u8>, PixelError>(PixelError::UnexpectedFormat(components)),
{
    if components == 4 {
        Ok(slice_to_vec(samples))
    } else if components == 3 {
        let pixel_count = (width * height) as usize;
        Ok(rgb_to_rgba(samples, pixel_count))
    } else {
        Err(PixelError::UnexpectedFormat(components))
    }
}

/// Adding alpha keeps every pixel: the result has four bytes per pixel, the
/// first three of pixel `p` are the three samples of pixel `p`, and the
/// fourth is 255.
pub proof fn lemma_rgba_pixels(samples: Seq<u8>, count: nat)
    requires
        3 * count <= samples.len(),
    ensures
        rgb_to_rgba_spec(samples, count).len() == 4 * count,
        forall|p: int, k: int|
            0 <= p < count && 0 <= k < 3 ==> #[trigger] rgb_to_rgba_spec(samples, count)[4 * p + k] == samples[3 * p + k],
        forall|p: int| 0 <= p < count ==> #[trigger] rgb_to_rgba_spec(samples, count)[4 * p + 3] == 255u8,
    decreases count,
{
    if count > 0 {
        let c = (count - 1) as nat;
        let ci = c as int;
        lemma_rgba_pixels(samples, c);
        let prev = rgb_to_rgba_spec(samples, c);
        let cur = rgb_to_rgba_spec(samples, count);
        assert(cur == prev + seq![samples[3 * ci], samples[3 * ci + 1], samples[3 * ci + 2], 255u8]);
        assert forall|p: int, k: int| 0 <= p < count && 0 <= k < 3 implies #[trigger] cur[4 * p + k] == samples[3 * p + k] by {
            if p < c {
                assert(prev[4 * p + k] == samples[3 * p + k]);
            }
        }
        assert forall|p: int| 0 <= p < count implies #[trigger] cur[4 * p + 3] == 255u8 by {
            if p < c {
                assert(prev[4 * p + 3] == 255u8);
            }
        }
    }
}

} // verus!

//! A throttled pixel surface: per-channel bytes, packed words, and the
//! file-format selection for image export.

use vstd::prelude::*;
use crate::gate::RateGate;

verus! {

/// One packed 32-bit pixel word: red in bits 16..24, green in 8..16,
/// blue in 0..8.
pub open spec fn packed_word(r: u8, g: u8, b: u8) -> u32 {
    ((r as u32) << 16) | ((g as u32) << 8) | (b as u32)
}

/// `words` is the lossless packed re-encoding of the byte triples in
/// `bytes`: word `i` packs bytes `3i`, `3i + 1`, `3i + 2`.
pub open spec fn packed_matches(bytes: Seq<u8>, words: Seq<u32>) -> bool {
    forall|i: int|
        0 <= i < words.len() ==> #[trigger] words[i] == packed_word(
            bytes[3 * i],
            bytes[3 * i + 1],
            bytes[3 * i + 2],
        )
}

/// A pixel buffer pair presented through a skip throttle.
///
/// `buffer_u8` holds one red, green, blue byte triple per pixel;
/// `buffer_u32` holds one packed word per pixel. A scoped draw lets a
/// caller rewrite the byte buffer, then re-encodes it into the packed
/// buffer, but only when the window backend reports open and the throttle
/// lets the frame through; the host hands the packed buffer to the
/// backend exactly when the draw was admitted.
pub struct PixelSurface {
    pub width: usize,
    pub height: usize,
    pub buffer_u8: Vec<u8>,
    pub buffer_u32: Vec<u32>,
    pub gate: RateGate,
}

impl PixelSurface {
    /// Both buffers have the size the dimensions call for.
    pub open spec fn wf(self) -> bool {
        &&& self.buffer_u32@.len() == self.width * self.height
        &&& self.buffer_u8@.len() == 3 * self.buffer_u32@.len()
    }

    /// The packed buffer is the re-encoding of the byte buffer.
    pub open spec fn coherent(self) -> bool {
        packed_matches(self.buffer_u8@, self.buffer_u32@)
    }

    /// A surface of the given dimensions with both buffers zeroed and a
    /// fresh gate with the given target refresh interval.
    pub fn new(width: usize, height: usize, target_interval: Option<u64>) -> (surface:
        PixelSurface)
        requires
            3 * (width * height) <= usize::MAX,
        ensures
            surface.wf(),
            surface.coherent(),
            surface.width == width,
            surface.height == height,
            surface.gate.target_interval == target_interval,
            surface.gate.last_fire is None,
            forall|i: int| 0 <= i < surface.buffer_u8@.len() ==> surface.buffer_u8@[i] == 0,
    {
        let pixels = width * height;
        let mut buffer_u8: Vec<u8> = Vec::new();
        buffer_u8.resize(3 * pixels, 0u8);
        let mut buffer_u32: Vec<u32> = Vec::new();
        buffer_u32.resize(pixels, 0u32);
        proof {
            assert forall|i: int| 0 <= i < buffer_u8@.len() implies buffer_u8@[i] == 0 by {
                assert(cloned(0u8, buffer_u8@[i]));
            }
            assert forall|i: int| 0 <= i < buffer_u32@.len() implies buffer_u32@[i] == 0 by {
                assert(cloned(0u32, buffer_u32@[i]));
            }
            assert(packed_word(0, 0, 0) == 0) by (bit_vector);
        }
        PixelSurface { width, height, buffer_u8, buffer_u32, gate: RateGate::new(target_interval) }
    }

    /// The unscaled size of the surface in pixels.
    pub fn size(&self) -> (dim: (usize, usize))
        ensures
            dim.0 == self.width,
            dim.1 == self.height,
    {
        (self.width, self.height)
    }

    /// Packs one red, green, blue triple into a single pixel word.
    pub fn from_u8_rgb(r: u8, g: u8, b: u8) -> (word: u32)
        ensures
            word == packed_word(r, g, b),
    {
        ((r as u32) << 16u32) | ((g as u32) << 8u32) | (b as u32)
    }

    /// Packs the first three bytes of a pixel slice into a single word.
    pub fn from_u8arr_rgb(rgb: &[u8]) -> (word: u32)
        requires
            rgb@.len() >= 3,
        ensures
            word == packed_word(rgb@[0], rgb@[1], rgb@[2]),
    {
        PixelSurface::from_u8_rgb(rgb[0], rgb[1], rgb[2])
    }

    /// Re-encodes the whole byte buffer into the packed buffer, one
    /// word per byte triple.
    pub fn pack(&mut self)
        requires
            old(self).wf(),
        ensures
            final(self).wf(),
            final(self).coherent(),
            final(self).buffer_u8 == old(self).buffer_u8,
            final(self).width == old(self).width,
            final(self).height == old(self).height,
            final(self).gate == old(self).gate,
    {
        let pixels = self.buffer_u32.len();
        let mut i: usize = 0;
        while i < pixels
            invariant
                self.wf(),
                self.buffer_u32@.len() == pixels,
                i <= pixels,
                self.buffer_u8 == old(self).buffer_u8,
                self.width == old(self).width,
                self.height == old(self).height,
                self.gate == old(self).gate,
                forall|j: int|
                    0 <= j < i ==> #[trigger] self.buffer_u32@[j] == packed_word(
                        self.buffer_u8@[3 * j],
                        self.buffer_u8@[3 * j + 1],
                        self.buffer_u8@[3 * j + 2],
                    ),
            decreases pixels - i,
        {
            proof {
                assert(self.buffer_u8@.len() == vstd::std_specs::vec::spec_vec_len(
                    &self.buffer_u8,
                ));
            }
            let word = PixelSurface::from_u8_rgb(
                self.buffer_u8[3 * i],
                self.buffer_u8[3 * i + 1],
                self.buffer_u8[3 * i + 2],
            );
            self.buffer_u32.set(i, word);
            i = i + 1;
        }
    }

    /// The scoped drawing operation. When `open` (what the window
    /// backend reports) holds and the throttle admits `now`, the callback
    /// receives the byte buffer, its result replaces it, and the packed
    /// buffer is re-encoded from it; otherwise nothing at all changes
    /// (a closed backend is not even held against the throttle). Returns
    /// whether the frame was drawn, so the host knows to hand the packed
    /// buffer to the backend.
    pub fn scoped_draw<F: FnOnce(Vec<u8>) -> Vec<u8>>(&mut self, open: bool, now: u64, draw_fn: F)
        -> (drawn: bool)
        requires
            old(self).wf(),
            call_requires(draw_fn, (old(self).buffer_u8,)),
            forall|buf: Vec<u8>, out: Vec<u8>|
                #[trigger] call_ensures(draw_fn, (buf,), out) ==> out@.len() == buf@.len(),
        ensures
            drawn == (open && old(self).gate.admits(now)),
            !drawn ==> *final(self) == *old(self),
            open ==> final(self).gate == old(self).gate.after(now),
            drawn ==> call_ensures(draw_fn, (old(self).buffer_u8,), final(self).buffer_u8),
            drawn ==> final(self).coherent(),
            final(self).wf(),
            final(self).width == old(self).width,
            final(self).height == old(self).height,
    {
        if !open {
            return false;
        }
        let fire = self.gate.update(now);
        if !fire {
            return false;
        }
        let mut buf: Vec<u8> = Vec::new();
        core::mem::swap(&mut buf, &mut self.buffer_u8);
        let drawn_buf = draw_fn(buf);
        self.buffer_u8 = drawn_buf;
        self.pack();
        true
    }
}

/// The raster formats the image export recognizes; the encoder is
/// selected by the save path's extension alone.
#[derive(Clone, Copy, PartialEq, Eq, Structural, Debug)]
pub enum SaveFormat {
    Jpeg,
    Png,
    Ico,
    Pnm,
    Bmp,
    Tiff,
}

/// Image-export failure: the save path's extension names no recognized
/// format. Nothing is written in that case.
#[derive(Clone, Copy, PartialEq, Eq, Structural, Debug)]
pub enum SaveError {
    UnsupportedFormat,
}

/// One byte, with an ASCII upper-case letter taken to lower case.
pub open spec fn ascii_lower(c: u8) -> u8 {
    if ('A' as u8) <= c && c <= ('Z' as u8) {
        (c + 32) as u8
    } else {
        c
    }
}

/// The whole byte sequence taken to ASCII lower case.
pub open spec fn lowered(s: Seq<u8>) -> Seq<u8> {
    s.map_values(|c: u8| ascii_lower(c))
}

/// The index of the last dot in `path`, if there is one.
pub open spec fn last_dot(path: Seq<u8>) -> Option<int>
    decreases path.len(),
{
    if path.len() == 0 {
        Option::None
    } else if path[path.len() - 1] == ('.' as u8) {
        Option::Some(path.len() - 1)
    } else {
        last_dot(path.drop_last())
    }
}

/// `e` is exactly the three given bytes.
pub open spec fn ext3(e: Seq<u8>, c0: u8, c1: u8, c2: u8) -> bool {
    e.len() == 3 && e[0] == c0 && e[1] == c1 && e[2] == c2
}

/// `e` is exactly the four given bytes.
pub open spec fn ext4(e: Seq<u8>, c0: u8, c1: u8, c2: u8, c3: u8) -> bool {
    e.len() == 4 && e[0] == c0 && e[1] == c1 && e[2] == c2 && e[3] == c3
}

/// The format a lower-cased extension selects, if any.
pub open spec fn format_for_ext(e: Seq<u8>) -> Option<SaveFormat> {
    if ext3(e, ('j' as u8), ('p' as u8), ('g' as u8)) || ext4(e, ('j' as u8), ('p' as u8), ('e' as u8), ('g' as u8)) {
        Option::Some(SaveFormat::Jpeg)
    } else if ext3(e, ('p' as u8), ('n' as u8), ('g' as u8)) {
        Option::Some(SaveFormat::Png)
    } else if ext3(e, ('i' as u8), ('c' as u8), ('o' as u8)) {
        Option::Some(SaveFormat::Ico)
    } else if ext3(e, ('p' as u8), ('n' as u8), ('m' as u8)) || ext3(e, ('p' as u8), ('a' as u8), ('m' as u8)) || ext3(
        e,
        ('p' as u8),
        ('p' as u8),
        ('m' as u8),
    ) || ext3(e, ('p' as u8), ('g' as u8), ('m' as u8)) || ext3(e, ('p' as u8), ('b' as u8), ('m' as u8)) {
        Option::Some(SaveFormat::Pnm)
    } else if ext3(e, ('b' as u8), ('m' as u8), ('p' as u8)) {
        Option::Some(SaveFormat::Bmp)
    } else if ext3(e, ('t' as u8), ('i' as u8), ('f' as u8)) || ext4(e, ('t' as u8), ('i' as u8), ('f' as u8), ('f' as u8)) {
        Option::Some(SaveFormat::Tiff)
    } else {
        Option::None
    }
}

/// The format the whole path selects: everything after its last dot,
/// case-folded, held against the recognized extensions.
pub open spec fn format_for_path(path: Seq<u8>) -> Option<SaveFormat> {
    match last_dot(path) {
        Option::None => Option::None,
        Option::Some(d) => format_for_ext(lowered(path.subrange(d + 1, path.len() as int))),
    }
}

/// `e` holds exactly the three given bytes.
fn bytes_are3(e: &Vec<u8>, c0: u8, c1: u8, c2: u8) -> (hit: bool)
    ensures
        hit == ext3(e@, c0, c1, c2),
{
    e.len() == 3 && e[0] == c0 && e[1] == c1 && e[2] == c2
}

/// `e` holds exactly the four given bytes.
fn bytes_are4(e: &Vec<u8>, c0: u8, c1: u8, c2: u8, c3: u8) -> (hit: bool)
    ensures
        hit == ext4(e@, c0, c1, c2, c3),
{
    e.len() == 4 && e[0] == c0 && e[1] == c1 && e[2] == c2 && e[3] == c3
}

/// Selects the image format a save path (as bytes) calls for, from the
/// path's extension after its last dot, without regard to letter case.
/// Paths with no dot or an unrecognized extension are rejected, and
/// nothing is written for them.
pub fn save_format_for_path(path: &[u8]) -> (format: Result<SaveFormat, SaveError>)
    ensures
        match format {
            Result::Ok(f) => format_for_path(path@) == Option::Some(f),
            Result::Err(e) => format_for_path(path@) is None && e == SaveError::UnsupportedFormat,
        },
{
    let n = path.len();
    let mut dot: Option<usize> = Option::None;
    let mut i: usize = 0;
    while i < n
        invariant
            n == path@.len(),
            i <= n,
            match dot {
                Option::Some(d) => d < i && last_dot(path@.take(i as int)) == Option::Some(
                    d as int,
                ),
                Option::None => last_dot(path@.take(i as int)) is None,
            },
        decreases n - i,
    {
        if path[i] == ('.' as u8) {
            dot = Option::Some(i);
        }
        proof {
            assert(path@.take(i + 1 as int).drop_last() =~= path@.take(i as int));
            assert(path@.take(i + 1 as int).last() == path@[i as int]);
        }
        i = i + 1;
    }
    proof {
        assert(path@.take(n as int) =~= path@);
    }
    let d = match dot {
        Option::None => {
            return Result::Err(SaveError::UnsupportedFormat);
        },
        Option::Some(d) => d,
    };
    let mut ext: Vec<u8> = Vec::new();
    let mut j: usize = d + 1;
    while j < n
        invariant
            n == path@.len(),
            d < j,
            j <= n,
            ext@ == lowered(path@.subrange(d + 1 as int, j as int)),
        decreases n - j,
    {
        let c = path[j];
        let lc = if c >= ('A' as u8) && c <= ('Z' as u8) {
            c + 32
        } else {
            c
        };
        ext.push(lc);
        proof {
            assert(ext@ =~= lowered(path@.subrange(d + 1 as int, j + 1 as int)));
        }
        j = j + 1;
    }
    let found: Option<SaveFormat> = if bytes_are3(&ext, ('j' as u8), ('p' as u8), ('g' as u8)) || bytes_are4(
        &ext,
        ('j' as u8),
        ('p' as u8),
        ('e' as u8),
        ('g' as u8),
    ) {
        Option::Some(SaveFormat::Jpeg)
    } else if bytes_are3(&ext, ('p' as u8), ('n' as u8), ('g' as u8)) {
        Option::Some(SaveFormat::Png)
    } else if bytes_are3(&ext, ('i' as u8), ('c' as u8), ('o' as u8)) {
        Option::Some(SaveFormat::Ico)
    } else if bytes_are3(&ext, ('p' as u8), ('n' as u8), ('m' as u8)) || bytes_are3(&ext, ('p' as u8), ('a' as u8), ('m' as u8))
        || bytes_are3(&ext, ('p' as u8), ('p' as u8), ('m' as u8)) || bytes_are3(&ext, ('p' as u8), ('g' as u8), ('m' as u8))
        || bytes_are3(&ext, ('p' as u8), ('b' as u8), ('m' as u8)) {
        Option::Some(SaveFormat::Pnm)
    } else if bytes_are3(&ext, ('b' as u8), ('m' as u8), ('p' as u8)) {
        Option::Some(SaveFormat::Bmp)
    } else if bytes_are3(&ext, ('t' as u8), ('i' as u8), ('f' as u8)) || bytes_are4(&ext, ('t' as u8), ('i' as u8), ('f' as u8), ('f' as u8)) {
        Option::Some(SaveFormat::Tiff)
    } else {
        Option::None
    };
    match found {
        Option::Some(f) => Result::Ok(f),
        Option::None => Result::Err(SaveError::UnsupportedFormat),
    }
}

} // verus!

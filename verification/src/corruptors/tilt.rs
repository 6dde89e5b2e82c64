//! Shifting a byte by a signed amount, modulo 256.

use vstd::prelude::*;

verus! {

/// The byte `b` moved by `tilt`, modulo 256: the residue of `b + tilt` in
/// `[0, 256)`.
pub open spec fn tilted(b: u8, tilt: i8) -> u8 {
    ((b as int + tilt as int) % 256) as u8
}

/// The size of `tilt` without its sign; 128 for the most negative value.
pub open spec fn magnitude(tilt: i8) -> int {
    if tilt < 0 {
        -(tilt as int)
    } else {
        tilt as int
    }
}

/// Computes `|tilt|` as a byte.
pub fn tilt_magnitude(tilt: i8) -> (m: u8)
    ensures
        m as int == magnitude(tilt),
{
    if tilt < 0 {
        let wide: i16 = 0 - (tilt as i16);
        wide as u8
    } else {
        tilt as u8
    }
}

/// Moves `b` by `tilt` with 8-bit wrapping: a positive `tilt` is added, a
/// negative one has its magnitude subtracted, zero leaves the byte as it is.
pub fn tilt_byte(b: u8, tilt: i8) -> (r: u8)
    ensures
        r == tilted(b, tilt),
        tilt == 0 ==> r == b,
{
    if tilt > 0 {
        b.wrapping_add(tilt_magnitude(tilt))
    } else if tilt < 0 {
        b.wrapping_sub(tilt_magnitude(tilt))
    } else {
        b
    }
}

} // verus!

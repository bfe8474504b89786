use vstd::prelude::*;

verus! {

/// Scale of the fixed-point offsets: one world unit is `OFFSET_SCALE` steps,
/// so a raw `u32` draw stands for the fraction `raw / OFFSET_SCALE` of one.
pub const OFFSET_SCALE: i64 = 0x1_0000_0000;

/// The fixed-point offset that the raw uniform draw `raw` yields over a span
/// of `span` world units centred on zero: `(raw / OFFSET_SCALE - 1/2) * span`
/// world units, scaled back up by `OFFSET_SCALE`.
pub open spec fn spec_offset(raw: u32, span: u32) -> int {
    (raw - OFFSET_SCALE / 2) * span
}

/// Maps one raw uniform `u32` draw to the fixed-point offset it stands for
/// over a span of `span` world units centred on zero.
pub fn offset_from_raw(raw: u32, span: u32) -> (r: i64)
    ensures
        r == spec_offset(raw, span),
        -(span as int) * (OFFSET_SCALE / 2) <= r <= (span as int) * (OFFSET_SCALE / 2 - 1),
{
    proof {
        let d = raw as int - OFFSET_SCALE / 2;
        let s = span as int;
        assert(-(OFFSET_SCALE / 2) <= d <= OFFSET_SCALE / 2 - 1);
        assert((-0x8000_0000 <= d <= 0x7fff_ffff && 0 <= s <= 0xffff_ffff) ==> {
            &&& -s * 0x8000_0000 <= d * s <= s * 0x7fff_ffff
            &&& -s * 0x8000_0000 >= -0x8000_0000_0000_0000
            &&& s * 0x7fff_ffff <= 0x7fff_ffff_ffff_ffff
        }) by (nonlinear_arith);
    }
    (raw as i64 - OFFSET_SCALE / 2) * (span as i64)
}

/// Relies on `rand::random`: it draws a value from the thread-local
/// generator, so nothing is promised of which value comes back.
pub assume_specification<T>[ rand::random::<T> ]() -> (r: T)
    where
        rand::distributions::Standard: rand::distributions::Distribution<T>,
;

/// Draws the horizontal offset for one spawned cube: a fixed-point value
/// uniform over a span of `span` world units centred on zero.
pub fn random_offset(span: u32) -> (r: i64)
    ensures
        -(span as int) * (OFFSET_SCALE / 2) <= r <= (span as int) * (OFFSET_SCALE / 2 - 1),
        exists|raw: u32| r == spec_offset(raw, span),
{
    let raw: u32 = rand::random::<u32>();
    let r = offset_from_raw(raw, span);
    proof {
        assert(r == spec_offset(raw, span));
    }
    r
}

} // verus!

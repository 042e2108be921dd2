use vstd::prelude::*;

verus! {

/// The largest tag the wire format accepts.
///
/// A wire key packs a tag beside a three-bit wire type inside an unsigned
/// 32-bit integer, so the top three bits of the tag space are reserved.
pub const MAX_TAG: u32 = 536870911;

/// Message reported for the reserved tag zero.
pub const ZERO_TAG_MESSAGE: &'static str = "expected tag to be greater than 0";

/// Message reported for a tag above `MAX_TAG`.
pub const LARGE_TAG_MESSAGE: &'static str = "expected tag to be less than or equal to 536870911";

/// Whether `tag` may identify a field or a variant on the wire.
pub open spec fn is_valid_tag(tag: u32) -> bool {
    1 <= tag && tag <= MAX_TAG
}

/// Checks a tag against the numeric range of the wire format: zero is the
/// reserved sentinel, and tags above `MAX_TAG` collide with the wire type bits.
pub fn validate(tag: u32) -> (r: Result<(), &'static str>)
    ensures
        r is Ok <==> is_valid_tag(tag),
        tag == 0 ==> r == Err::<(), &'static str>(ZERO_TAG_MESSAGE),
        tag > MAX_TAG ==> r == Err::<(), &'static str>(LARGE_TAG_MESSAGE),
{
    if tag == 0 {
        Err(ZERO_TAG_MESSAGE)
    } else if tag > MAX_TAG {
        Err(LARGE_TAG_MESSAGE)
    } else {
        Ok(())
    }
}

} // verus!

//! Relative-timelock codec.
//!
//! A 64-bit `since` value attached to a spent input is partitioned into a
//! relative/absolute flag, a metric tag, a reserved region and a magnitude.
//! Time-gated transitions accept only a relative, timestamp-metric value with
//! all reserved bits clear, and read the magnitude as an elapsed-seconds
//! count.

use vstd::prelude::*;

use crate::config::{
    LOCK_TYPE_FLAG, METRIC_TYPE_FLAG_MASK, REMAIN_FLAGS_BITS, SINCE_FLAGS_MASK,
    SINCE_TYPE_TIMESTAMP, VALUE_MASK,
};
use crate::error::Error;

verus! {

/// The flag region of `since` is acceptable: no reserved bit set, the
/// relative flag set, and the metric tag equal to the timestamp tag exactly.
pub open spec fn since_flags_valid(since: u64) -> bool {
    &&& since & REMAIN_FLAGS_BITS == 0
    &&& since & LOCK_TYPE_FLAG != 0
    &&& since & METRIC_TYPE_FLAG_MASK == SINCE_TYPE_TIMESTAMP
}

/// The magnitude region of `since`: an elapsed-seconds count.
pub open spec fn since_value(since: u64) -> u64 {
    since & VALUE_MASK
}

/// What `decode_since` returns: the magnitude when the flags are acceptable,
/// a timelock rejection otherwise.
pub open spec fn spec_decode_since(since: u64) -> Result<u64, Error> {
    if since_flags_valid(since) {
        Ok(since_value(since))
    } else {
        Err(Error::InputSinceInvalid)
    }
}

/// Decode a relative timelock: reject any reserved bit, a cleared relative
/// flag or a non-timestamp metric tag; on success return the magnitude.
pub fn decode_since(since: u64) -> (r: Result<u64, Error>)
    ensures
        r == spec_decode_since(since),
        r is Ok <==> since_flags_valid(since),
{
    if since & REMAIN_FLAGS_BITS != 0
        || since & LOCK_TYPE_FLAG == 0
        || since & METRIC_TYPE_FLAG_MASK != SINCE_TYPE_TIMESTAMP
    {
        Err(Error::InputSinceInvalid)
    } else {
        Ok(since & VALUE_MASK)
    }
}

/// Any `since` whose flag region is unacceptable is rejected, whatever its
/// magnitude bits hold.
pub proof fn lemma_decode_since_rejects_bad_flags(since: u64)
    requires
        !since_flags_valid(since),
    ensures
        spec_decode_since(since) == Err::<u64, Error>(Error::InputSinceInvalid),
{
}

/// Whether the flag region is acceptable depends on the flag bits alone:
/// two values agreeing outside the magnitude region agree on acceptance.
pub proof fn lemma_since_flags_ignore_value(a: u64, b: u64)
    requires
        a & SINCE_FLAGS_MASK == b & SINCE_FLAGS_MASK,
    ensures
        since_flags_valid(a) == since_flags_valid(b),
{
    assert(since_flags_valid(a) == since_flags_valid(b)) by (bit_vector)
        requires
            a & SINCE_FLAGS_MASK == b & SINCE_FLAGS_MASK,
    ;
}

} // verus!

//! What holds of normalisation on every input.

use vstd::prelude::*;
use vstd::arithmetic::div_mod::{lemma_div_is_ordered, lemma_div_multiples_vanish, lemma_div_pos_is_pos};
use crate::absinfo::{clamped, flattened, in_deadzone, normalized, representable, scaled, trunc_div};

verus! {

/// Division that rounds toward zero keeps the order of its dividends.
proof fn lemma_trunc_div_ordered(a: int, b: int, d: int)
    requires
        a <= b,
        d > 0,
    ensures
        trunc_div(a, d) <= trunc_div(b, d),
{
    if a >= 0 {
        lemma_div_is_ordered(a, b, d);
    } else if b < 0 {
        lemma_div_is_ordered(-b, -a, d);
    } else {
        lemma_div_pos_is_pos(-a, d);
        lemma_div_pos_is_pos(b, d);
    }
}

/// A larger reading never rescales to a smaller value.
pub proof fn lemma_scaled_ordered(low: int, high: int, minimum: int, maximum: int)
    requires
        maximum > minimum,
        low <= high,
    ensures
        scaled(low, minimum, maximum) <= scaled(high, minimum, maximum),
{
    let a = clamped(low, minimum, maximum);
    let b = clamped(high, minimum, maximum);
    assert(a * 65535 <= b * 65535);
    lemma_trunc_div_ordered(a * 65535, b * 65535, maximum - minimum);
}

/// Without a deadzone (`flat == 0`), normalisation is the rescaling alone, and
/// it never decreases as the reading grows.
pub proof fn lemma_normalize_monotone(low: int, high: int, minimum: int, maximum: int)
    requires
        maximum > minimum,
        low <= high,
    ensures
        normalized(low, minimum, maximum, 0) == scaled(low, minimum, maximum),
        normalized(high, minimum, maximum, 0) == scaled(high, minimum, maximum),
        normalized(low, minimum, maximum, 0) <= normalized(high, minimum, maximum, 0),
{
    lemma_scaled_ordered(low, high, minimum, maximum);
}

/// Whether the range maps its two ends onto the two ends of the 16-bit range:
/// 65535 times the lower end, divided by the width, gives the lower end again,
/// and 65535 times the upper end gives the lower end plus 65535.
pub open spec fn range_is_anchored(minimum: int, maximum: int) -> bool {
    trunc_div(minimum * 65535, maximum - minimum) == minimum && trunc_div(
        maximum * 65535,
        maximum - minimum,
    ) == minimum + 65535
}

/// Without a deadzone, the lower end of the range normalises to -32768 and the
/// upper end to 32767 exactly on the anchored ranges.
pub proof fn lemma_normalize_endpoints(minimum: int, maximum: int)
    requires
        maximum > minimum,
    ensures
        range_is_anchored(minimum, maximum) <==> (normalized(minimum, minimum, maximum, 0) == -32768
            && normalized(maximum, minimum, maximum, 0) == 32767),
{
}

/// A range that starts at zero is anchored: its ends normalise to -32768 and
/// to 32767, and every reading can be normalised.
pub proof fn lemma_zero_based_range(value: int, maximum: int)
    requires
        maximum > 0,
    ensures
        range_is_anchored(0, maximum),
        normalized(0, 0, maximum, 0) == -32768,
        normalized(maximum, 0, maximum, 0) == 32767,
        representable(value, 0, maximum),
{
    lemma_div_multiples_vanish(65535, maximum);
    assert(maximum * 65535 / maximum == 65535);
    assert(clamped(0, 0, maximum) == 0);
    assert(clamped(maximum, 0, maximum) == maximum);
    assert(clamped(value, 0, maximum) == clamped(clamped(value, 0, maximum), 0, maximum));
    lemma_scaled_ordered(0, clamped(value, 0, maximum), 0, maximum);
    lemma_scaled_ordered(clamped(value, 0, maximum), maximum, 0, maximum);
}

/// On the full 16-bit range, rescaling changes no reading: the range is
/// anchored, and every reading in it is its own rescaled value.
pub proof fn lemma_full_range_is_identity(value: int)
    requires
        -32768 <= value <= 32767,
    ensures
        range_is_anchored(-32768, 32767),
        scaled(value, -32768, 32767) == value,
{
    lemma_div_multiples_vanish(32768, 65535);
    lemma_div_multiples_vanish(32767, 65535);
    if value >= 0 {
        lemma_div_multiples_vanish(value, 65535);
    } else {
        lemma_div_multiples_vanish(-value, 65535);
    }
}

/// A reading outside the range normalises as the nearest end of the range
/// does: clamping first changes nothing.
pub proof fn lemma_normalize_clamps(value: int, minimum: int, maximum: int, flat: int)
    requires
        maximum > minimum,
    ensures
        normalized(clamped(value, minimum, maximum), minimum, maximum, flat) == normalized(
            value,
            minimum,
            maximum,
            flat,
        ),
        representable(clamped(value, minimum, maximum), minimum, maximum) == representable(
            value,
            minimum,
            maximum,
        ),
        value < minimum ==> normalized(value, minimum, maximum, flat) == normalized(
            minimum,
            minimum,
            maximum,
            flat,
        ),
        value > maximum ==> normalized(value, minimum, maximum, flat) == normalized(
            maximum,
            minimum,
            maximum,
            flat,
        ),
{
    assert(clamped(clamped(value, minimum, maximum), minimum, maximum) == clamped(
        value,
        minimum,
        maximum,
    ));
}

/// With `flat >= 0`, a reading normalises to zero exactly when its rescaled
/// value lies in the deadzone, and the deadzone holds zero.
pub proof fn lemma_zero_iff_in_deadzone(value: int, minimum: int, maximum: int, flat: int)
    requires
        flat >= 0,
    ensures
        in_deadzone(0, flat),
        normalized(value, minimum, maximum, flat) == 0 <==> in_deadzone(
            scaled(value, minimum, maximum),
            flat,
        ),
{
}

/// With `flat >= 0`, the readings that normalise to zero form an interval:
/// a reading between two of them is one of them.
pub proof fn lemma_zero_set_is_contiguous(
    low: int,
    middle: int,
    high: int,
    minimum: int,
    maximum: int,
    flat: int,
)
    requires
        maximum > minimum,
        flat >= 0,
        low <= middle <= high,
        normalized(low, minimum, maximum, flat) == 0,
        normalized(high, minimum, maximum, flat) == 0,
    ensures
        normalized(middle, minimum, maximum, flat) == 0,
{
    lemma_scaled_ordered(low, middle, minimum, maximum);
    lemma_scaled_ordered(middle, high, minimum, maximum);
}

/// A wider deadzone keeps at zero every reading that a narrower one put there.
pub proof fn lemma_wider_flat_keeps_zeroes(
    value: int,
    minimum: int,
    maximum: int,
    narrow: int,
    wide: int,
)
    requires
        0 <= narrow <= wide,
        normalized(value, minimum, maximum, narrow) == 0,
    ensures
        normalized(value, minimum, maximum, wide) == 0,
{
}

/// For an even `flat >= 0` the deadzone is symmetric about zero: it holds a
/// rescaled value exactly when it holds its negation. For an odd `flat` the
/// band reaches one further below zero than above.
pub proof fn lemma_deadzone_is_symmetric(scaled_value: int, flat: int)
    requires
        flat >= 0,
    ensures
        flat % 2 == 0 ==> (in_deadzone(scaled_value, flat) <==> in_deadzone(-scaled_value, flat)),
        flat % 2 == 1 ==> (-flat) / 2 == -(flat / 2) - 1,
        flattened(0, flat) == 0,
{
}

/// A negative `flat` leaves no deadzone: every rescaled value passes unchanged.
pub proof fn lemma_negative_flat_is_identity(scaled_value: int, flat: int)
    requires
        flat < 0,
    ensures
        flattened(scaled_value, flat) == scaled_value,
{
}

} // verus!

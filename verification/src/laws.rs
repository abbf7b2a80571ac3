//! Laws of the engine that relate several transitions to each other.

use vstd::prelude::*;

use crate::engine::CalcError;
use crate::engine::EngineState;
use crate::engine::InputFocus;
use crate::engine::spec_clear_press;
use crate::engine::spec_digit_press;
use crate::engine::spec_display;
use crate::engine::spec_equals_press;

verus! {

/// From an engine whose operands are zero and whose focus is on the first
/// operand, pressing digit `d1` and then digit `d2` succeeds and displays
/// `d1 * 10 + d2`: digits concatenate textually.
pub proof fn lemma_two_digit_concatenation(s: EngineState, d1: int, d2: int)
    requires
        s.a == 0,
        s.b == 0,
        s.focus is First,
        0 <= d1 <= 9,
        0 <= d2 <= 9,
    ensures
        ({
            let r1 = spec_digit_press(s, d1);
            r1 is Ok && {
                let r2 = spec_digit_press(r1->Ok_0, d2);
                r2 is Ok && spec_display(r2->Ok_0) == d1 * 10 + d2
            }
        }),
{
}

/// Pressing equals twice with no input in between is idempotent while the
/// pending operator is `Add` or `Subtract`: once the first press succeeds, the
/// second succeeds and changes nothing (it applies the operator to a second
/// operand of zero).
pub proof fn lemma_equals_idempotent_add_subtract(s: EngineState)
    requires
        s.pending is Add || s.pending is Subtract,
        spec_equals_press(s) is Ok,
    ensures
        spec_equals_press(spec_equals_press(s)->Ok_0) == Ok::<EngineState, CalcError>(
            spec_equals_press(s)->Ok_0,
        ),
{
}

/// Clear always returns to zero operands with focus on the first operand and
/// keeps the pending operator; a digit press right after a clear therefore
/// writes the digit into the first operand.
pub proof fn lemma_clear_then_digit(s: EngineState, d: int)
    requires
        0 <= d <= 9,
    ensures
        spec_clear_press(s).a == 0,
        spec_clear_press(s).b == 0,
        spec_clear_press(s).focus is First,
        spec_clear_press(s).pending == s.pending,
        spec_digit_press(spec_clear_press(s), d) == Ok::<EngineState, CalcError>(
            EngineState { a: d, b: 0, pending: s.pending, focus: InputFocus::First },
        ),
{
}

} // verus!

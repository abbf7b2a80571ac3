//! The calculator state machine: state, events and their transition functions.
//!
//! The mathematical behaviour of every event lives in the `spec_*` functions
//! over [`EngineState`]; each executable method is proved to implement its
//! `spec_*` function exactly, or to leave the state unchanged and report which
//! error occurred.

use vstd::prelude::*;

verus! {

/// The arithmetic operation applied to the two operands when equals is pressed.
///
/// There is always exactly one pending operator; a freshly created engine
/// starts with `Add`, and every operator press overwrites it.
#[derive(Clone, Copy, Debug, PartialEq, Eq, Structural)]
pub enum Operator {
    Add,
    Subtract,
    Multiply,
    Divide,
}

/// Which operand the next digit press appends to.
#[derive(Clone, Copy, Debug, PartialEq, Eq, Structural)]
pub enum InputFocus {
    First,
    Second,
}

/// An error reported by an engine event. Every error leaves the engine
/// state exactly as it was before the event.
#[derive(Clone, Copy, Debug, PartialEq, Eq, Structural)]
pub enum CalcError {
    /// A digit press with a value above nine.
    InvalidDigit,
    /// Equals with `Divide` pending while the second operand is zero.
    DivisionByZero,
    /// The concatenation or the arithmetic result does not fit an `i64`.
    NumericOverflow,
}

/// The display symbol of each operator.
pub open spec fn spec_symbol(op: Operator) -> Seq<char> {
    match op {
        Operator::Add => "+"@,
        Operator::Subtract => "-"@,
        Operator::Multiply => "*"@,
        Operator::Divide => "/"@,
    }
}

impl Operator {
    /// The fixed display symbol: `Add` is "+", `Subtract` is "-",
    /// `Multiply` is "*", `Divide` is "/".
    pub fn symbol(&self) -> (r: &'static str)
        ensures
            r@ == spec_symbol(*self),
    {
        match self {
            Operator::Add => "+",
            Operator::Subtract => "-",
            Operator::Multiply => "*",
            Operator::Divide => "/",
        }
    }

    /// Every operator, in the order a key pad offers them.
    pub fn all() -> (r: Vec<Operator>)
        ensures
            r@ == seq![Operator::Add, Operator::Subtract, Operator::Multiply, Operator::Divide],
    {
        let mut v: Vec<Operator> = Vec::new();
        v.push(Operator::Add);
        v.push(Operator::Subtract);
        v.push(Operator::Multiply);
        v.push(Operator::Divide);
        proof {
            assert(v@ =~= seq![
                Operator::Add,
                Operator::Subtract,
                Operator::Multiply,
                Operator::Divide,
            ]);
        }
        v
    }
}

/// The mathematical state of the engine: both operands as unbounded integers,
/// the pending operator and the input focus.
pub struct EngineState {
    pub a: int,
    pub b: int,
    pub pending: Operator,
    pub focus: InputFocus,
}

/// The state a freshly created engine is in.
pub open spec fn initial_state() -> EngineState {
    EngineState { a: 0, b: 0, pending: Operator::Add, focus: InputFocus::First }
}

/// Whether a value fits the operand width of the engine.
pub open spec fn fits_width(v: int) -> bool {
    i64::MIN <= v <= i64::MAX
}

/// Textual concatenation of a decimal digit onto `target`: the number whose
/// decimal notation is that of `target` followed by the digit `d`.
pub open spec fn concat_digit(target: int, d: int) -> int {
    if target >= 0 {
        target * 10 + d
    } else {
        target * 10 - d
    }
}

/// Integer division truncating toward zero, as the host `/` computes it on
/// signed integers.
pub open spec fn div_trunc(x: int, d: int) -> int
    recommends
        d != 0,
{
    if x == 0 {
        0
    } else if x > 0 && d > 0 {
        x / d
    } else if x < 0 && d < 0 {
        (x * -1) / (d * -1)
    } else if x < 0 {
        ((x * -1) / d) * -1
    } else {
        (x / (d * -1)) * -1
    }
}

/// The value of applying the pending operator to the two operands.
pub open spec fn apply_op(op: Operator, a: int, b: int) -> int
    recommends
        !(op is Divide && b == 0),
{
    match op {
        Operator::Add => a + b,
        Operator::Subtract => a - b,
        Operator::Multiply => a * b,
        Operator::Divide => div_trunc(a, b),
    }
}

/// The digit-press transition: concatenate the digit onto the focused operand.
/// Focus and pending operator never change; a digit above nine or a result
/// outside the operand width is an error and leaves the state unchanged.
pub open spec fn spec_digit_press(s: EngineState, d: int) -> Result<EngineState, CalcError> {
    if !(0 <= d <= 9) {
        Err(CalcError::InvalidDigit)
    } else {
        let target = if s.focus is First {
            s.a
        } else {
            s.b
        };
        let v = concat_digit(target, d);
        if !fits_width(v) {
            Err(CalcError::NumericOverflow)
        } else if s.focus is First {
            Ok(EngineState { a: v, ..s })
        } else {
            Ok(EngineState { b: v, ..s })
        }
    }
}

/// The operator-press transition: record the operator and move focus to the
/// second operand, unconditionally. Neither operand changes.
pub open spec fn spec_operator_press(s: EngineState, op: Operator) -> EngineState {
    EngineState { pending: op, focus: InputFocus::Second, ..s }
}

/// The equals transition: store the applied result into the first operand,
/// zero the second and return focus to the first. Division by zero and a
/// result outside the operand width are errors and leave the state unchanged.
pub open spec fn spec_equals_press(s: EngineState) -> Result<EngineState, CalcError> {
    if s.pending is Divide && s.b == 0 {
        Err(CalcError::DivisionByZero)
    } else {
        let v = apply_op(s.pending, s.a, s.b);
        if !fits_width(v) {
            Err(CalcError::NumericOverflow)
        } else {
            Ok(EngineState { a: v, b: 0, focus: InputFocus::First, ..s })
        }
    }
}

/// The clear transition: zero both operands and return focus to the first
/// operand. The pending operator keeps its last value.
pub open spec fn spec_clear_press(s: EngineState) -> EngineState {
    EngineState { a: 0, b: 0, focus: InputFocus::First, ..s }
}

/// The value the display shows: the operand that currently has focus.
pub open spec fn spec_display(s: EngineState) -> int {
    if s.focus is First {
        s.a
    } else {
        s.b
    }
}

/// The calculator engine. It owns its four-field state privately; collaborators
/// drive it through the event methods and read it through the observe methods.
#[derive(Clone, Copy, Debug, PartialEq, Eq, Structural)]
pub struct CalculatorEngine {
    a: i64,
    b: i64,
    pending: Operator,
    focus: InputFocus,
}

impl View for CalculatorEngine {
    type V = EngineState;

    closed spec fn view(&self) -> EngineState {
        EngineState {
            a: self.a as int,
            b: self.b as int,
            pending: self.pending,
            focus: self.focus,
        }
    }
}

impl CalculatorEngine {
    /// Create an engine in the initial state: both operands zero, `Add`
    /// pending, focus on the first operand.
    pub fn new() -> (r: CalculatorEngine)
        ensures
            r@ == initial_state(),
    {
        CalculatorEngine { a: 0, b: 0, pending: Operator::Add, focus: InputFocus::First }
    }

    /// Concatenate a decimal digit onto the focused operand.
    ///
    /// A digit above nine is rejected as `InvalidDigit`; a concatenation that
    /// leaves the operand width is rejected as `NumericOverflow`. Either way
    /// the state stays as it was. Focus and pending operator never change.
    pub fn digit_press(&mut self, d: u8) -> (r: Result<(), CalcError>)
        ensures
            match spec_digit_press(old(self)@, d as int) {
                Ok(s) => r == Ok::<(), CalcError>(()) && final(self)@ == s,
                Err(e) => r == Err::<(), CalcError>(e) && final(self)@ == old(self)@,
            },
            final(self)@.focus == old(self)@.focus,
            final(self)@.pending == old(self)@.pending,
    {
        if d > 9 {
            return Err(CalcError::InvalidDigit);
        }
        let target: i64 = match self.focus {
            InputFocus::First => self.a,
            InputFocus::Second => self.b,
        };
        let shifted: i64 = match target.checked_mul(10) {
            Some(v) => v,
            None => {
                return Err(CalcError::NumericOverflow);
            },
        };
        let v: i64 = if target >= 0 {
            match shifted.checked_add(d as i64) {
                Some(v) => v,
                None => {
                    return Err(CalcError::NumericOverflow);
                },
            }
        } else {
            match shifted.checked_sub(d as i64) {
                Some(v) => v,
                None => {
                    return Err(CalcError::NumericOverflow);
                },
            }
        };
        match self.focus {
            InputFocus::First => self.a = v,
            InputFocus::Second => self.b = v,
        }
        Ok(())
    }

    /// Record `op` as the pending operator and move focus to the second
    /// operand — unconditionally, whatever the focus was before. Neither
    /// operand changes; a partially entered second operand is kept.
    pub fn operator_press(&mut self, op: Operator)
        ensures
            final(self)@ == spec_operator_press(old(self)@, op),
            final(self)@.focus is Second,
    {
        self.pending = op;
        self.focus = InputFocus::Second;
    }

    /// Apply the pending operator to the operands: the result becomes the
    /// first operand, the second operand becomes zero and focus returns to
    /// the first operand. The pending operator is kept.
    ///
    /// Division by zero is rejected as `DivisionByZero`, a result outside the
    /// operand width as `NumericOverflow`; either error leaves the whole state
    /// untouched so the user can correct the input.
    pub fn equals_press(&mut self) -> (r: Result<(), CalcError>)
        ensures
            match spec_equals_press(old(self)@) {
                Ok(s) => r == Ok::<(), CalcError>(()) && final(self)@ == s,
                Err(e) => r == Err::<(), CalcError>(e) && final(self)@ == old(self)@,
            },
    {
        let v: i64 = match self.pending {
            Operator::Add => match self.a.checked_add(self.b) {
                Some(v) => v,
                None => {
                    return Err(CalcError::NumericOverflow);
                },
            },
            Operator::Subtract => match self.a.checked_sub(self.b) {
                Some(v) => v,
                None => {
                    return Err(CalcError::NumericOverflow);
                },
            },
            Operator::Multiply => match self.a.checked_mul(self.b) {
                Some(v) => v,
                None => {
                    return Err(CalcError::NumericOverflow);
                },
            },
            Operator::Divide => {
                if self.b == 0 {
                    return Err(CalcError::DivisionByZero);
                }
                match self.a.checked_div(self.b) {
                    Some(v) => v,
                    None => {
                        return Err(CalcError::NumericOverflow);
                    },
                }
            },
        };
        self.a = v;
        self.b = 0;
        self.focus = InputFocus::First;
        Ok(())
    }

    /// Zero both operands and return focus to the first operand. The pending
    /// operator explicitly keeps its last value.
    pub fn clear_press(&mut self)
        ensures
            final(self)@ == spec_clear_press(old(self)@),
            final(self)@.a == 0 && final(self)@.b == 0 && final(self)@.focus is First,
            final(self)@.pending == old(self)@.pending,
    {
        self.a = 0;
        self.b = 0;
        self.focus = InputFocus::First;
    }

    /// The value the display shows: the operand that currently has focus.
    pub fn observe_display(&self) -> (r: i64)
        ensures
            r as int == spec_display(self@),
    {
        match self.focus {
            InputFocus::First => self.a,
            InputFocus::Second => self.b,
        }
    }

    /// The operator the next equals press will apply, for a UI indicator.
    pub fn observe_pending_operator(&self) -> (r: Operator)
        ensures
            r == self@.pending,
    {
        self.pending
    }

    /// Which operand the next digit press will append to.
    pub fn observe_focus(&self) -> (r: InputFocus)
        ensures
            r == self@.focus,
    {
        self.focus
    }
}

} // verus!

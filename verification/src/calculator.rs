//! A small calculator over 64-bit signed integers with overflow protection
//! and an operation history: the audit-log pattern the ledgers mirror. Every
//! successful operation is appended to the history, the history can be
//! rendered as text, and past operations can be replayed by index.

use vstd::prelude::*;
use vstd::pervasive::unreached;

verus! {

/// True when `v` fits the 64-bit signed result width.
pub open spec fn fits_i64(v: int) -> bool {
    i64::MIN <= v <= i64::MAX
}

/// The decimal digit character for `d`, a value between 0 and 9.
pub open spec fn digit_char(d: int) -> char {
    if d == 0 {
        '0'
    } else if d == 1 {
        '1'
    } else if d == 2 {
        '2'
    } else if d == 3 {
        '3'
    } else if d == 4 {
        '4'
    } else if d == 5 {
        '5'
    } else if d == 6 {
        '6'
    } else if d == 7 {
        '7'
    } else if d == 8 {
        '8'
    } else {
        '9'
    }
}

/// The decimal rendering of a non-negative integer, most significant digit
/// first, with no leading zeroes (a lone zero for 0).
pub open spec fn dec_nat(n: nat) -> Seq<char>
    decreases n,
{
    if n < 10 {
        seq![digit_char(n as int)]
    } else {
        dec_nat(n / 10).push(digit_char((n % 10) as int))
    }
}

/// The decimal rendering of an integer: a leading minus sign for negative
/// values, the digits of the magnitude otherwise.
pub open spec fn dec_int(v: int) -> Seq<char> {
    if v < 0 {
        seq!['-'] + dec_nat((-v) as nat)
    } else {
        dec_nat(v as nat)
    }
}

/// The three operations the calculator supports.
#[derive(Clone, Copy, Debug, PartialEq, Eq, Structural)]
pub enum OperationType {
    Addition,
    Subtraction,
    Multiplication,
}

impl OperationType {
    /// The operation's sign, as the character sequence `get_sign` returns.
    pub open spec fn sign_seq(self) -> Seq<char> {
        match self {
            OperationType::Addition => seq!['+'],
            OperationType::Subtraction => seq!['-'],
            OperationType::Multiplication => seq!['*'],
        }
    }

    /// The mathematical value of applying the operation, before any width
    /// check.
    pub open spec fn spec_result(self, x: int, y: int) -> int {
        match self {
            OperationType::Addition => x + y,
            OperationType::Subtraction => x - y,
            OperationType::Multiplication => x * y,
        }
    }

    /// The operation's sign: `+`, `-` or `*`.
    pub fn get_sign(&self) -> (s: &'static str)
        ensures
            s@ == self.sign_seq(),
    {
        proof {
            reveal_strlit("+");
            reveal_strlit("-");
            reveal_strlit("*");
        }
        match self {
            OperationType::Addition => "+",
            OperationType::Subtraction => "-",
            OperationType::Multiplication => "*",
        }
    }

    /// Applies the operation to `x` and `y`: the exact mathematical result
    /// when it fits the result width, `None` on overflow — never a wrapped
    /// value.
    pub fn perform(&self, x: i64, y: i64) -> (r: Option<i64>)
        ensures
            fits_i64(self.spec_result(x as int, y as int)) ==> r == Some(
                self.spec_result(x as int, y as int) as i64,
            ),
            !fits_i64(self.spec_result(x as int, y as int)) ==> r == None::<i64>,
    {
        match self {
            OperationType::Addition => x.checked_add(y),
            OperationType::Subtraction => x.checked_sub(y),
            OperationType::Multiplication => x.checked_mul(y),
        }
    }
}

/// One recorded calculation: two operands and the operation applied to them.
#[derive(Clone, Copy, Debug, PartialEq, Eq, Structural)]
pub struct Operation {
    pub first_num: i64,
    pub second_num: i64,
    pub operation_type: OperationType,
}

impl Operation {
    /// The mathematical value of this operation, before any width check.
    pub open spec fn spec_result(self) -> int {
        self.operation_type.spec_result(self.first_num as int, self.second_num as int)
    }

    /// True when the operation's result fits the result width, i.e. when
    /// `perform` succeeds.
    pub open spec fn succeeds(self) -> bool {
        fits_i64(self.spec_result())
    }

    /// Packs two operands and an operation type into a record.
    pub fn new(first_num: i64, second_num: i64, operation_type: OperationType) -> (op: Operation)
        ensures
            op == (Operation { first_num, second_num, operation_type }),
    {
        Operation { first_num, second_num, operation_type }
    }

    /// Applies the recorded operation: the exact result when it fits the
    /// result width, `None` on overflow.
    pub fn perform(&self) -> (r: Option<i64>)
        ensures
            self.succeeds() ==> r == Some(self.spec_result() as i64),
            !self.succeeds() ==> r == None::<i64>,
    {
        self.operation_type.perform(self.first_num, self.second_num)
    }
}

/// One line of the rendered history: `index: first sign second = result`
/// followed by a line break.
pub open spec fn line_text(i: int, op: Operation) -> Seq<char> {
    dec_int(i) + seq![':', ' '] + dec_int(op.first_num as int) + seq![' ']
        + op.operation_type.sign_seq() + seq![' '] + dec_int(op.second_num as int) + seq![
        ' ',
        '=',
        ' ',
    ] + dec_int(op.spec_result()) + seq!['\n']
}

/// The rendered history: one line per recorded operation, in order.
pub open spec fn history_text(h: Seq<Operation>) -> Seq<char>
    decreases h.len(),
{
    if h.len() == 0 {
        Seq::empty()
    } else {
        history_text(h.drop_last()) + line_text(h.len() - 1, h.last())
    }
}

/// A calculator holding the history of its successful operations.
#[derive(Clone, Debug)]
pub struct Calculator {
    pub history: Vec<Operation>,
}

impl Calculator {
    /// The history invariant: only successful operations are recorded, so
    /// every recorded operation can be replayed and rendered.
    pub open spec fn wf(self) -> bool {
        forall|i: int| 0 <= i < self.history@.len() ==> (#[trigger] self.history@[i]).succeeds()
    }

    /// A calculator with an empty history.
    pub fn new() -> (c: Calculator)
        ensures
            c.history@ == Seq::<Operation>::empty(),
            c.wf(),
    {
        Calculator { history: vec![] }
    }

    /// Computes `x + y`. On success the operation is recorded and the exact
    /// sum returned; on overflow nothing is recorded and `None` returned.
    pub fn addition(&mut self, x: i64, y: i64) -> (r: Option<i64>)
        ensures
            old(self).wf() ==> final(self).wf(),
            fits_i64(x + y) ==> r == Some((x + y) as i64) && final(self).history@ == old(
                self,
            ).history@.push(
                Operation { first_num: x, second_num: y, operation_type: OperationType::Addition },
            ),
            !fits_i64(x + y) ==> r == None::<i64> && *final(self) == *old(self),
    {
        let op = Operation::new(x, y, OperationType::Addition);
        let Some(result) = op.perform() else { return None };
        self.history.push(op);
        Some(result)
    }

    /// Computes `x - y`. On success the operation is recorded and the exact
    /// difference returned; on overflow nothing is recorded and `None`
    /// returned.
    pub fn subtraction(&mut self, x: i64, y: i64) -> (r: Option<i64>)
        ensures
            old(self).wf() ==> final(self).wf(),
            fits_i64(x - y) ==> r == Some((x - y) as i64) && final(self).history@ == old(
                self,
            ).history@.push(
                Operation {
                    first_num: x,
                    second_num: y,
                    operation_type: OperationType::Subtraction,
                },
            ),
            !fits_i64(x - y) ==> r == None::<i64> && *final(self) == *old(self),
    {
        let op = Operation::new(x, y, OperationType::Subtraction);
        let Some(result) = op.perform() else { return None };
        self.history.push(op);
        Some(result)
    }

    /// Computes `x * y`. On success the operation is recorded and the exact
    /// product returned; on overflow nothing is recorded and `None` returned.
    pub fn multiplication(&mut self, x: i64, y: i64) -> (r: Option<i64>)
        ensures
            old(self).wf() ==> final(self).wf(),
            fits_i64(x * y) ==> r == Some((x * y) as i64) && final(self).history@ == old(
                self,
            ).history@.push(
                Operation {
                    first_num: x,
                    second_num: y,
                    operation_type: OperationType::Multiplication,
                },
            ),
            !fits_i64(x * y) ==> r == None::<i64> && *final(self) == *old(self),
    {
        let op = Operation::new(x, y, OperationType::Multiplication);
        let Some(result) = op.perform() else { return None };
        self.history.push(op);
        Some(result)
    }

    /// Renders the history, one `index: first sign second = result` line per
    /// recorded operation.
    pub fn show_history(&self) -> (r: String)
        requires
            self.wf(),
        ensures
            r@ == history_text(self.history@),
    {
        let mut result = String::new();
        let mut i: usize = 0;
        while i < self.history.len()
            invariant
                self.wf(),
                i <= self.history@.len(),
                result@ == history_text(self.history@.subrange(0, i as int)),
            decreases self.history@.len() - i,
        {
            let op = self.history[i];
            let index_text = u64_to_dec(i as u64);
            result.append(index_text.as_str());
            result.append(": ");
            let first_text = i64_to_dec(op.first_num);
            result.append(first_text.as_str());
            result.append(" ");
            result.append(op.operation_type.get_sign());
            result.append(" ");
            let second_text = i64_to_dec(op.second_num);
            result.append(second_text.as_str());
            result.append(" = ");
            let value = match op.perform() {
                Some(v) => v,
                None => unreached(),
            };
            let value_text = i64_to_dec(value);
            result.append(value_text.as_str());
            result.append("\n");
            proof {
                reveal_strlit(": ");
                reveal_strlit(" ");
                reveal_strlit(" = ");
                reveal_strlit("\n");
                let prefix = self.history@.subrange(0, i as int);
                let extended = self.history@.subrange(0, i + 1);
                assert(extended.drop_last() =~= prefix);
                assert(extended.last() == self.history@[i as int]);
                assert(result@ =~= history_text(extended));
            }
            i = i + 1;
        }
        proof {
            assert(self.history@.subrange(0, self.history@.len() as int) =~= self.history@);
        }
        result
    }

    /// Replays the recorded operation at `operation_index`: records it again
    /// and returns its result, or returns `None` when the index is out of
    /// range. Recorded operations always fit the result width, so a replay
    /// never overflows.
    pub fn repeat(&mut self, operation_index: usize) -> (r: Option<i64>)
        requires
            old(self).wf(),
        ensures
            final(self).wf(),
            operation_index >= old(self).history@.len() ==> r == None::<i64> && *final(self)
                == *old(self),
            operation_index < old(self).history@.len() ==> r == Some(
                old(self).history@[operation_index as int].spec_result() as i64,
            ) && final(self).history@ == old(self).history@.push(
                old(self).history@[operation_index as int],
            ),
    {
        if operation_index >= self.history.len() {
            return None;
        }
        let op = self.history[operation_index];
        match op.operation_type {
            OperationType::Addition => self.addition(op.first_num, op.second_num),
            OperationType::Subtraction => self.subtraction(op.first_num, op.second_num),
            OperationType::Multiplication => self.multiplication(op.first_num, op.second_num),
        }
    }

    /// Empties the history.
    pub fn clear_history(&mut self)
        ensures
            final(self).history@ == Seq::<Operation>::empty(),
            final(self).wf(),
    {
        self.history.clear();
    }
}

/// A single decimal digit as text.
fn digit_str(d: u64) -> (s: &'static str)
    requires
        d < 10,
    ensures
        s@ == seq![digit_char(d as int)],
{
    proof {
        reveal_strlit("0");
        reveal_strlit("1");
        reveal_strlit("2");
        reveal_strlit("3");
        reveal_strlit("4");
        reveal_strlit("5");
        reveal_strlit("6");
        reveal_strlit("7");
        reveal_strlit("8");
        reveal_strlit("9");
    }
    if d == 0 {
        "0"
    } else if d == 1 {
        "1"
    } else if d == 2 {
        "2"
    } else if d == 3 {
        "3"
    } else if d == 4 {
        "4"
    } else if d == 5 {
        "5"
    } else if d == 6 {
        "6"
    } else if d == 7 {
        "7"
    } else if d == 8 {
        "8"
    } else {
        "9"
    }
}

/// Renders a non-negative number in decimal, most significant digit first.
pub fn u64_to_dec(n: u64) -> (s: String)
    ensures
        s@ == dec_nat(n as nat),
    decreases n,
{
    if n < 10 {
        let mut s = String::new();
        s.append(digit_str(n));
        proof {
            assert(s@ =~= dec_nat(n as nat));
        }
        s
    } else {
        let mut s = u64_to_dec(n / 10);
        s.append(digit_str(n % 10));
        proof {
            assert(s@ =~= dec_nat(n as nat));
        }
        s
    }
}

/// Renders a signed number in decimal, with a leading minus sign when it is
/// negative.
pub fn i64_to_dec(v: i64) -> (s: String)
    ensures
        s@ == dec_int(v as int),
{
    if v >= 0 {
        u64_to_dec(v as u64)
    } else {
        let magnitude: u64 = (-(v as i128)) as u64;
        let mut s = String::new();
        s.append("-");
        let digits = u64_to_dec(magnitude);
        s.append(digits.as_str());
        proof {
            reveal_strlit("-");
            assert(s@ =~= dec_int(v as int));
        }
        s
    }
}

} // verus!

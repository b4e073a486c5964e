//! Transport-level SQL assembly: a buffer of SQL text plus trailing 64-bit
//! bind parameters, with `$n` placeholders numbered after those the wrapped
//! query already carries.

use vstd::prelude::*;
use vstd::string::StrSliceExecFns;
use vstd::string::StringExecFns;

verus! {

/// The decimal digit character for `d`.
pub open spec fn dec_digit(d: nat) -> char {
    if d == 0 {
        '0'
    } else if d == 1 {
        '1'
    } else if d == 2 {
        '2'
    } else if d == 3 {
        '3'
    } else if d == 4 {
        '4'
    } else if d == 5 {
        '5'
    } else if d == 6 {
        '6'
    } else if d == 7 {
        '7'
    } else if d == 8 {
        '8'
    } else {
        '9'
    }
}

/// The decimal rendering of `n`, most significant digit first.
pub open spec fn dec_str(n: nat) -> Seq<char>
    decreases n,
{
    if n < 10 {
        seq![dec_digit(n)]
    } else {
        dec_str(n / 10) + seq![dec_digit(n % 10)]
    }
}

/// A `$n` bind-parameter placeholder.
pub open spec fn placeholder(n: nat) -> Seq<char> {
    seq!['$'] + dec_str(n)
}

fn digit_str(d: u64) -> (s: &'static str)
    requires
        d < 10,
    ensures
        s@ == seq![dec_digit(d as nat)],
{
    proof {
        reveal_strlit("0");
        reveal_strlit("1");
        reveal_strlit("2");
        reveal_strlit("3");
        reveal_strlit("4");
        reveal_strlit("5");
        reveal_strlit("6");
        reveal_strlit("7");
        reveal_strlit("8");
        reveal_strlit("9");
    }
    match d {
        0 => "0",
        1 => "1",
        2 => "2",
        3 => "3",
        4 => "4",
        5 => "5",
        6 => "6",
        7 => "7",
        8 => "8",
        _ => "9",
    }
}

fn dec_string(n: u64) -> (s: String)
    ensures
        s@ == dec_str(n as nat),
    decreases n,
{
    if n < 10 {
        String::from_str(digit_str(n))
    } else {
        let mut s = dec_string(n / 10);
        s.append(digit_str(n % 10));
        s
    }
}

/// SQL text under assembly, together with the 64-bit parameters this layer
/// binds. `param_base` counts the placeholders the wrapped query already
/// uses, so fresh placeholders continue its numbering.
pub struct SqlBuffer {
    /// The SQL text assembled so far.
    pub text: String,
    /// The 64-bit bind parameters appended by this layer, in placeholder
    /// order.
    pub params: Vec<i64>,
    /// Placeholders already taken by the wrapped query.
    pub param_base: usize,
}

impl SqlBuffer {
    /// An empty buffer whose first fresh placeholder is `$param_base + 1`.
    pub fn new(param_base: usize) -> (r: SqlBuffer)
        ensures
            r.text@ == Seq::<char>::empty(),
            r.params@ == Seq::<i64>::empty(),
            r.param_base == param_base,
    {
        SqlBuffer { text: String::new(), params: Vec::new(), param_base }
    }

    /// Appends literal SQL text.
    pub fn push_sql(&mut self, sql: &str)
        ensures
            final(self).text@ == old(self).text@ + sql@,
            final(self).params@ == old(self).params@,
            final(self).param_base == old(self).param_base,
    {
        self.text.append(sql);
    }

    /// Appends the next `$n` placeholder to the text and records `value` as
    /// its bind parameter.
    pub fn push_bind_param(&mut self, value: i64)
        requires
            old(self).param_base + old(self).params@.len() < usize::MAX,
        ensures
            final(self).text@ == old(self).text@ + placeholder(
                (old(self).param_base + old(self).params@.len() + 1) as nat,
            ),
            final(self).params@ == old(self).params@.push(value),
            final(self).param_base == old(self).param_base,
    {
        proof {
            reveal_strlit("$");
        }
        let n: u64 = self.param_base as u64 + self.params.len() as u64 + 1;
        self.text.append("$");
        let digits = dec_string(n);
        self.text.append(digits.as_str());
        self.params.push(value);
    }
}

} // verus!

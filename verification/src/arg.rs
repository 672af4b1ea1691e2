//! Conversion of plain Rust values into statement arguments.

use vstd::prelude::*;

verus! {

/// The decimal digit character for a value below ten.
pub open spec fn dec_digit(d: nat) -> char {
    if d == 0 {
        '0'
    } else if d == 1 {
        '1'
    } else if d == 2 {
        '2'
    } else if d == 3 {
        '3'
    } else if d == 4 {
        '4'
    } else if d == 5 {
        '5'
    } else if d == 6 {
        '6'
    } else if d == 7 {
        '7'
    } else if d == 8 {
        '8'
    } else {
        '9'
    }
}

/// The decimal representation of a natural number, most significant digit
/// first, with no leading zeros (zero itself is `"0"`).
pub open spec fn dec_rep(n: nat) -> Seq<char>
    decreases n,
{
    if n < 10 {
        seq![dec_digit(n)]
    } else {
        dec_rep(n / 10).push(dec_digit(n % 10))
    }
}

/// The decimal representation of an integer: a leading `-` for negative
/// values, then the digits of the absolute value.
pub open spec fn int_rep(n: int) -> Seq<char> {
    if n >= 0 {
        dec_rep(n as nat)
    } else {
        seq!['-'] + dec_rep((-n) as nat)
    }
}

/// The digit character for `d`, which must be below ten.
fn digit_char(d: u128) -> (c: char)
    requires
        d < 10,
    ensures
        c == dec_digit(d as nat),
{
    if d == 0 {
        '0'
    } else if d == 1 {
        '1'
    } else if d == 2 {
        '2'
    } else if d == 3 {
        '3'
    } else if d == 4 {
        '4'
    } else if d == 5 {
        '5'
    } else if d == 6 {
        '6'
    } else if d == 7 {
        '7'
    } else if d == 8 {
        '8'
    } else {
        '9'
    }
}

/// Append the decimal representation of `n` to `out`.
fn push_decimal(out: &mut String, n: u128)
    ensures
        final(out)@ == old(out)@ + dec_rep(n as nat),
    decreases n,
{
    if n < 10 {
        out.push(digit_char(n));
        proof {
            assert(final(out)@ =~= old(out)@ + dec_rep(n as nat));
        }
    } else {
        proof {
            assert(n / 10 < n) by (nonlinear_arith)
                requires
                    n >= 10,
            ;
        }
        push_decimal(out, n / 10);
        out.push(digit_char(n % 10));
        proof {
            assert(final(out)@ =~= old(out)@ + dec_rep(n as nat));
        }
    }
}

/// The decimal string of an unsigned value.
pub fn decimal_string(n: u128) -> (r: String)
    ensures
        r@ == dec_rep(n as nat),
{
    let mut out = String::new();
    push_decimal(&mut out, n);
    proof {
        assert(Seq::<char>::empty() + dec_rep(n as nat) =~= dec_rep(n as nat));
    }
    out
}

/// Conversion of a value into the text that stands for it in a statement.
///
/// `arg_model` is the mathematical form of that text, and `to_arg`
/// produces exactly it.
pub trait ToArg {
    /// The character sequence this value converts to.
    spec fn arg_model(&self) -> Seq<char>;

    /// Convert the value to argument text.
    fn to_arg(&self) -> (r: String)
        ensures
            r@ == self.arg_model(),
    ;
}

/// The views of a list of strings, in order.
pub open spec fn string_models(s: Seq<String>) -> Seq<Seq<char>> {
    Seq::new(s.len(), |i: int| s[i]@)
}

/// The argument texts of a list of convertible values, in order.
pub open spec fn arg_models<T: ToArg>(s: Seq<T>) -> Seq<Seq<char>> {
    Seq::new(s.len(), |i: int| s[i].arg_model())
}

/// Convert every element of a list to its argument text, in order.
pub fn to_arg_strings<T: ToArg>(items: &Vec<T>) -> (r: Vec<String>)
    ensures
        string_models(r@) == arg_models(items@),
{
    let mut r: Vec<String> = Vec::new();
    let mut i: usize = 0;
    while i < items.len()
        invariant
            i <= items@.len(),
            r@.len() == i,
            forall|j: int| 0 <= j < i ==> r@[j]@ == items@[j].arg_model(),
        decreases items@.len() - i,
    {
        r.push(items[i].to_arg());
        i = i + 1;
    }
    proof {
        assert(string_models(r@) =~= arg_models(items@));
    }
    r
}

impl ToArg for String {
    open spec fn arg_model(&self) -> Seq<char> {
        self@
    }

    fn to_arg(&self) -> (r: String) {
        self.clone()
    }
}

impl ToArg for &str {
    open spec fn arg_model(&self) -> Seq<char> {
        self@
    }

    fn to_arg(&self) -> (r: String) {
        String::from_str(self)
    }
}

impl ToArg for bool {
    open spec fn arg_model(&self) -> Seq<char> {
        if *self {
            "true"@
        } else {
            "false"@
        }
    }

    fn to_arg(&self) -> (r: String) {
        if *self {
            String::from_str("true")
        } else {
            String::from_str("false")
        }
    }
}

impl ToArg for u8 {
    open spec fn arg_model(&self) -> Seq<char> {
        dec_rep(*self as nat)
    }

    fn to_arg(&self) -> (r: String) {
        decimal_string(*self as u128)
    }
}

impl ToArg for u16 {
    open spec fn arg_model(&self) -> Seq<char> {
        dec_rep(*self as nat)
    }

    fn to_arg(&self) -> (r: String) {
        decimal_string(*self as u128)
    }
}

impl ToArg for u32 {
    open spec fn arg_model(&self) -> Seq<char> {
        dec_rep(*self as nat)
    }

    fn to_arg(&self) -> (r: String) {
        decimal_string(*self as u128)
    }
}

impl ToArg for u64 {
    open spec fn arg_model(&self) -> Seq<char> {
        dec_rep(*self as nat)
    }

    fn to_arg(&self) -> (r: String) {
        decimal_string(*self as u128)
    }
}

impl ToArg for u128 {
    open spec fn arg_model(&self) -> Seq<char> {
        dec_rep(*self as nat)
    }

    fn to_arg(&self) -> (r: String) {
        decimal_string(*self)
    }
}

impl ToArg for usize {
    open spec fn arg_model(&self) -> Seq<char> {
        dec_rep(*self as nat)
    }

    fn to_arg(&self) -> (r: String) {
        decimal_string(*self as u128)
    }
}

/// The decimal string of a signed value, given as an `i128`.
fn signed_decimal_string(n: i128) -> (r: String)
    ensures
        r@ == int_rep(n as int),
{
    if n >= 0 {
        decimal_string(n as u128)
    } else {
        let mut out = String::new();
        out.push('-');
        let m: u128 = ((-(n + 1)) as u128) + 1;
        proof {
            assert(m == -(n as int));
            assert(Seq::<char>::empty().push('-') =~= seq!['-']);
        }
        push_decimal(&mut out, m);
        out
    }
}

impl ToArg for i8 {
    open spec fn arg_model(&self) -> Seq<char> {
        int_rep(*self as int)
    }

    fn to_arg(&self) -> (r: String) {
        signed_decimal_string(*self as i128)
    }
}

impl ToArg for i16 {
    open spec fn arg_model(&self) -> Seq<char> {
        int_rep(*self as int)
    }

    fn to_arg(&self) -> (r: String) {
        signed_decimal_string(*self as i128)
    }
}

impl ToArg for i32 {
    open spec fn arg_model(&self) -> Seq<char> {
        int_rep(*self as int)
    }

    fn to_arg(&self) -> (r: String) {
        signed_decimal_string(*self as i128)
    }
}

impl ToArg for i64 {
    open spec fn arg_model(&self) -> Seq<char> {
        int_rep(*self as int)
    }

    fn to_arg(&self) -> (r: String) {
        signed_decimal_string(*self as i128)
    }
}

impl ToArg for i128 {
    open spec fn arg_model(&self) -> Seq<char> {
        int_rep(*self as int)
    }

    fn to_arg(&self) -> (r: String) {
        signed_decimal_string(*self)
    }
}

impl ToArg for isize {
    open spec fn arg_model(&self) -> Seq<char> {
        int_rep(*self as int)
    }

    fn to_arg(&self) -> (r: String) {
        signed_decimal_string(*self as i128)
    }
}

} // verus!

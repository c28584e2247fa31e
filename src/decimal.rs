use vstd::prelude::*;

verus! {

/// The ASCII digit for `d`, which is below ten.
pub open spec fn digit_char(d: nat) -> char {
    if d == 0 { '0' }
    else if d == 1 { '1' }
    else if d == 2 { '2' }
    else if d == 3 { '3' }
    else if d == 4 { '4' }
    else if d == 5 { '5' }
    else if d == 6 { '6' }
    else if d == 7 { '7' }
    else if d == 8 { '8' }
    else { '9' }
}

/// The decimal text of `n`: most significant digit first, no leading zeros,
/// and `"0"` for zero.
pub open spec fn decimal_digits(n: nat) -> Seq<char>
    decreases n,
{
    if n < 10 {
        seq![digit_char(n)]
    } else {
        decimal_digits(n / 10).push(digit_char(n % 10))
    }
}

/// Relies on itoa::Buffer::format: the decimal text of an unsigned integer.
#[verifier::external_body]
pub(crate) fn decimal_text(v: u16) -> (r: String)
    ensures
        r@ == decimal_digits(v as nat),
{
    let mut buffer = itoa::Buffer::new();
    String::from(buffer.format(v))
}

} // verus!

use vstd::prelude::*;
use vstd::string::StringExecFns;
use rand::Rng;

verus! {

/// The character of a decimal digit.
pub open spec fn digit_char(d: nat) -> char {
    if d == 0 { '0' }
    else if d == 1 { '1' }
    else if d == 2 { '2' }
    else if d == 3 { '3' }
    else if d == 4 { '4' }
    else if d == 5 { '5' }
    else if d == 6 { '6' }
    else if d == 7 { '7' }
    else if d == 8 { '8' }
    else { '9' }
}

/// `n` written in decimal, without sign or leading zeros.
pub open spec fn decimal(n: nat) -> Seq<char>
    decreases n,
{
    if n < 10 {
        seq![digit_char(n)]
    } else {
        decimal(n / 10).push(digit_char(n % 10))
    }
}

/// The label of the `n`-th spawned entity: the prefix followed by `n` in decimal.
pub open spec fn spawn_label(prefix: Seq<char>, n: nat) -> Seq<char> {
    prefix + decimal(n)
}

/// Relies on `ToString` for `u32` (through its `Display`), which writes the
/// number in decimal digits with no sign and no padding.
#[verifier::external_body]
fn decimal_string(n: u32) -> (r: String)
    ensures
        r@ == decimal(n as nat),
{
    n.to_string()
}

/// Relies on `rand::Rng::random_range` on the thread-local generator
/// (`rand::rng`): a value of the half-open range `lo..hi`, which must not be
/// empty (it panics on an empty one).
#[verifier::external_body]
fn random_between(lo: i64, hi: i64) -> (r: i64)
    requires
        lo < hi,
    ensures
        lo <= r < hi,
{
    rand::rng().random_range(lo..hi)
}

/// The label `prefix` followed by `n` in decimal.
pub fn make_label(prefix: &String, n: u32) -> (r: String)
    ensures
        r@ == spawn_label(prefix@, n as nat),
{
    let digits = decimal_string(n);
    let mut label = prefix.clone();
    label.append(digits.as_str());
    label
}

/// A point drawn uniformly from `-half_width..half_width` by `-half_height..half_height`.
pub fn random_point(half_width: i64, half_height: i64) -> (r: (i64, i64))
    requires
        half_width > 0,
        half_height > 0,
    ensures
        -half_width <= r.0 < half_width,
        -half_height <= r.1 < half_height,
{
    let x = random_between(-half_width, half_width);
    let y = random_between(-half_height, half_height);
    (x, y)
}

} // verus!

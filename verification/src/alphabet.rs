//! The 62-symbol identifier alphabet and the random identifier generator.

use vstd::prelude::*;

verus! {

/// A character of the identifier alphabet: lowercase letters, uppercase
/// letters, or decimal digits.
pub open spec fn is_symbol(c: char) -> bool {
    ('a' as int <= c as int && c as int <= 'z' as int)
        || ('A' as int <= c as int && c as int <= 'Z' as int)
        || ('0' as int <= c as int && c as int <= '9' as int)
}

/// Maps a value below 62 to its alphabet character: 0..=25 to `a`..=`z`,
/// 26..=51 to `A`..=`Z`, 52..=61 to `0`..=`9`.
pub fn symbol_char(num: u8) -> (c: char)
    requires
        num < 62,
    ensures
        num < 26 ==> c as int == 'a' as int + num,
        26 <= num < 52 ==> c as int == 'A' as int + (num - 26),
        52 <= num ==> c as int == '0' as int + (num - 52),
        is_symbol(c),
{
    if num < 26 {
        (97 + num) as char
    } else if num < 52 {
        (65 + (num - 26)) as char
    } else {
        (48 + (num - 52)) as char
    }
}

/// Relies on rand's `RngExt::random_range` over the thread-local generator:
/// the result is drawn from `0..62`, so it is below 62; nothing further is
/// assumed of it.
#[verifier::external_body]
fn random_symbol_value() -> (r: u8)
    ensures
        r < 62,
{
    rand::RngExt::random_range(&mut rand::rng(), 0..62)
}

/// Relies on `String::push`: appends the given character to the end of the
/// string.
#[verifier::external_body]
pub(crate) fn push_char(s: &mut String, c: char)
    ensures
        final(s)@ == old(s)@.push(c),
{
    s.push(c)
}

/// Produces a fresh random identifier of exactly `length` characters, each
/// drawn from the 62-symbol alphabet. A length of zero yields the empty
/// string.
pub fn generate(length: usize) -> (r: String)
    ensures
        r@.len() == length as int,
        forall|i: int| 0 <= i < r@.len() ==> is_symbol(#[trigger] r@[i]),
{
    let mut r = String::new();
    let mut k: usize = 0;
    while k < length
        invariant
            k <= length,
            r@.len() == k as int,
            forall|i: int| 0 <= i < r@.len() ==> is_symbol(#[trigger] r@[i]),
        decreases length - k,
    {
        let value: u8 = random_symbol_value();
        let c = symbol_char(value);
        push_char(&mut r, c);
        k = k + 1;
    }
    r
}

} // verus!

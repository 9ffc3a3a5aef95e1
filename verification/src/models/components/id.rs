use vstd::prelude::*;

use crate::text::push_char;

verus! {

/// The characters of generated identifiers: digits, then lowercase, then
/// uppercase letters.
pub open spec fn charset() -> Seq<char> {
    Seq::new(62, |i: int| charset_char(i))
}

pub open spec fn charset_char(i: int) -> char {
    if i < 10 {
        (('0' as int) + i) as char
    } else if i < 36 {
        (('a' as int) + i - 10) as char
    } else {
        (('A' as int) + i - 36) as char
    }
}

fn charset_at(i: usize) -> (r: char)
    requires
        i < 62,
    ensures
        r == charset_char(i as int),
{
    let i: u8 = i as u8;
    if i < 10 {
        (48u8 + i) as char
    } else if i < 36 {
        (97u8 + i - 10) as char
    } else {
        (65u8 + i - 36) as char
    }
}

/// A uniform draw from `0..bound` with `rand::random_range`.
///
/// Trusted: rand documents that the value lies in the range; `random_range`
/// panics only on an empty range, which `requires` leaves out.
#[verifier::external_body]
fn random_below(bound: usize) -> (r: usize)
    requires
        bound > 0,
    ensures
        r < bound,
{
    rand::random_range(0..bound)
}

/// A random byte with `rand::random`. Nothing is stated of it.
#[verifier::external_body]
fn random_byte() -> u8 {
    rand::random::<u8>()
}

/// Makes random identifiers for components.
pub struct ComponentIdGenerator;

impl ComponentIdGenerator {
    pub fn new() -> Self {
        ComponentIdGenerator
    }

    /// A random identifier of four characters of the charset.
    pub fn next(&self) -> (r: String)
        ensures
            r@.len() == 4,
            forall|i: int| 0 <= i < 4 ==> charset().contains(#[trigger] r@[i]),
    {
        let mut s = String::new();
        let mut k: usize = 0;
        while k < 4
            invariant
                k <= 4,
                s@.len() == k,
                forall|i: int| 0 <= i < k ==> charset().contains(#[trigger] s@[i]),
            decreases 4 - k,
        {
            let idx = random_below(62);
            let c = charset_at(idx);
            assert(charset()[idx as int] == c);
            push_char(&mut s, c);
            k = k + 1;
        }
        s
    }

    /// A random numeric identifier: a byte.
    pub fn next_i32(&self) -> (r: i32)
        ensures
            0 <= r < 256,
    {
        random_byte() as i32
    }
}

} // verus!

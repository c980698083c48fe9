//! Text and byte helpers: comparison, search and decimal notation.

use vstd::prelude::*;
use vstd::string::*;
use vstd::utf8::*;

verus! {

/// The UTF-8 bytes of a text.
pub open spec fn text_bytes(text: Seq<char>) -> Seq<u8> {
    encode_utf8(text)
}

/// The decimal digit of a number below ten.
pub open spec fn digit(d: nat) -> char {
    (('0' as u32) + d) as char
}

/// A number in decimal notation, without leading zeros.
pub open spec fn decimal(n: nat) -> Seq<char>
    decreases n,
{
    if n < 10 {
        seq![digit(n)]
    } else {
        decimal(n / 10).push(digit(n % 10))
    }
}

/// `pattern` stands in `bytes` at position `at`.
pub open spec fn occurs_at(bytes: Seq<u8>, pattern: Seq<u8>, at: int) -> bool {
    &&& 0 <= at
    &&& at + pattern.len() <= bytes.len()
    &&& bytes.subrange(at, at + pattern.len()) == pattern
}

/// `pattern` stands somewhere in `bytes`.
pub open spec fn is_part_of(pattern: Seq<u8>, bytes: Seq<u8>) -> bool {
    exists|at: int| #[trigger] occurs_at(bytes, pattern, at)
}

/// Tells whether two byte strings are the same.
pub fn bytes_equal(a: &[u8], b: &[u8]) -> (r: bool)
    ensures
        r == (a@ == b@),
{
    if a.len() != b.len() {
        return false;
    }
    let mut i: usize = 0;
    while i < a.len()
        invariant
            i <= a@.len(),
            a@.len() == b@.len(),
            forall|j: int| 0 <= j < i ==> a@[j] == b@[j],
        decreases a@.len() - i,
    {
        if a[i] != b[i] {
            return false;
        }
        i = i + 1;
    }
    assert(a@ =~= b@);
    true
}

/// Tells whether two texts are the same.
pub fn text_equal(a: &str, b: &str) -> (r: bool)
    ensures
        r == (a@ == b@),
{
    proof {
        encode_utf8_decode_utf8(a@);
        encode_utf8_decode_utf8(b@);
    }
    bytes_equal(a.as_bytes(), b.as_bytes())
}

/// Tells whether `pattern` stands in `bytes` at position `at`.
pub fn occurs(bytes: &[u8], pattern: &[u8], at: usize) -> (r: bool)
    ensures
        r == occurs_at(bytes@, pattern@, at as int),
{
    if pattern.len() > bytes.len() || at > bytes.len() - pattern.len() {
        return false;
    }
    let count: usize = bytes.len();
    let mut i: usize = 0;
    while i < pattern.len()
        invariant
            i <= pattern@.len(),
            count == bytes@.len(),
            at + pattern@.len() <= count,
            forall|j: int| 0 <= j < i ==> bytes@[at + j] == pattern@[j],
        decreases pattern@.len() - i,
    {
        if bytes[at + i] != pattern[i] {
            assert(bytes@.subrange(at as int, at + pattern@.len())[i as int] != pattern@[i as int]);
            return false;
        }
        i = i + 1;
    }
    assert(bytes@.subrange(at as int, at + pattern@.len()) =~= pattern@);
    true
}

/// The first position at which `pattern` stands in `bytes`.
pub fn find(bytes: &[u8], pattern: &[u8]) -> (r: Option<usize>)
    ensures
        match r {
            Some(at) => {
                &&& occurs_at(bytes@, pattern@, at as int)
                &&& forall|j: int| 0 <= j < at ==> !occurs_at(bytes@, pattern@, j)
            },
            None => {
                &&& !occurs_at(bytes@, pattern@, 0)
                &&& forall|j: int| !occurs_at(bytes@, pattern@, j)
            },
        },
{
    if pattern.len() > bytes.len() {
        return None;
    }
    let mut at: usize = 0;
    while at <= bytes.len() - pattern.len()
        invariant
            pattern@.len() <= bytes@.len(),
            at <= bytes@.len() - pattern@.len() + 1,
            forall|j: int| 0 <= j < at ==> !occurs_at(bytes@, pattern@, j),
        decreases bytes@.len() + 1 - at,
    {
        if occurs(bytes, pattern, at) {
            return Some(at);
        }
        if at == bytes.len() - pattern.len() {
            assert(forall|j: int| !occurs_at(bytes@, pattern@, j));
            return None;
        }
        at = at + 1;
    }
    None
}

fn digit_text(d: u64) -> (r: &'static str)
    requires
        d < 10,
    ensures
        r@ == seq![digit(d as nat)],
{
    proof {
        reveal_strlit("0");
        reveal_strlit("1");
        reveal_strlit("2");
        reveal_strlit("3");
        reveal_strlit("4");
        reveal_strlit("5");
        reveal_strlit("6");
        reveal_strlit("7");
        reveal_strlit("8");
        reveal_strlit("9");
    }
    if d == 0 {
        "0"
    } else if d == 1 {
        "1"
    } else if d == 2 {
        "2"
    } else if d == 3 {
        "3"
    } else if d == 4 {
        "4"
    } else if d == 5 {
        "5"
    } else if d == 6 {
        "6"
    } else if d == 7 {
        "7"
    } else if d == 8 {
        "8"
    } else {
        "9"
    }
}

/// Writes a number in decimal notation.
pub fn decimal_text(n: u64) -> (r: String)
    ensures
        r@ == decimal(n as nat),
    decreases n,
{
    if n < 10 {
        digit_text(n).to_owned()
    } else {
        let mut r: String = decimal_text(n / 10);
        r.append(digit_text(n % 10));
        assert(decimal((n / 10) as nat) + seq![digit((n % 10) as nat)] =~= decimal(
            (n / 10) as nat,
        ).push(digit((n % 10) as nat)));
        r
    }
}

} // verus!

use vstd::prelude::*;
use vstd::string::*;

verus! {

/// The decimal text of a natural number, most significant digit first.
pub open spec fn decimal(n: nat) -> Seq<char>
    decreases n,
{
    if n < 10 {
        seq![digit_char(n)]
    } else {
        decimal(n / 10).push(digit_char(n % 10))
    }
}

pub open spec fn digit_char(d: nat) -> char {
    if d == 0 { '0' }
    else if d == 1 { '1' }
    else if d == 2 { '2' }
    else if d == 3 { '3' }
    else if d == 4 { '4' }
    else if d == 5 { '5' }
    else if d == 6 { '6' }
    else if d == 7 { '7' }
    else if d == 8 { '8' }
    else { '9' }
}

/// `needle` occurs in `hay` at position `i`.
pub open spec fn occurs_at(hay: Seq<char>, needle: Seq<char>, i: int) -> bool {
    0 <= i && i + needle.len() <= hay.len() && hay.subrange(i, i + needle.len()) == needle
}

/// `needle` occurs somewhere in `hay` (as `str::contains` answers).
pub open spec fn contains_text(hay: Seq<char>, needle: Seq<char>) -> bool {
    exists|i: int| occurs_at(hay, needle, i)
}

/// Compares two strings by their characters: `str`'s `==`.
#[verifier::external_body]
pub(crate) fn str_eq(a: &str, b: &str) -> (r: bool)
    ensures
        r == (a@ == b@),
{
    a == b
}

/// Appends one character: `String::push`.
#[verifier::external_body]
pub(crate) fn push_char(s: &mut String, c: char)
    ensures
        final(s)@ == old(s)@.push(c),
{
    s.push(c)
}

/// The decimal text of an unsigned integer: `u128`'s `Display`, which writes
/// the value in base ten with no sign, padding or leading zeros.
#[verifier::external_body]
pub(crate) fn u128_decimal(n: u128) -> (r: String)
    ensures
        r@ == decimal(n as nat),
{
    n.to_string()
}

/// The characters of a string, in order.
pub fn chars_of(s: &str) -> (r: Vec<char>)
    ensures
        r@ == s@,
{
    let n = s.unicode_len();
    let mut out: Vec<char> = Vec::new();
    for i in 0..n
        invariant
            n == s@.len(),
            out@ == s@.subrange(0, i as int),
    {
        let c = s.get_char(i);
        out.push(c);
        assert(out@ =~= s@.subrange(0, i + 1));
    }
    assert(out@ =~= s@);
    out
}

/// A new string made of `a` followed by `b`.
pub fn concat2(a: &str, b: &str) -> (r: String)
    ensures
        r@ == a@ + b@,
{
    let mut out = String::from_str(a);
    out.append(b);
    out
}

/// A new string made of `a`, `b` and `c` in turn.
pub fn concat3(a: &str, b: &str, c: &str) -> (r: String)
    ensures
        r@ == a@ + b@ + c@,
{
    let mut out = String::from_str(a);
    out.append(b);
    out.append(c);
    out
}

/// Whether `needle` occurs in `hay`: `str::contains` with a string pattern.
pub fn contains(hay: &str, needle: &str) -> (r: bool)
    ensures
        r == contains_text(hay@, needle@),
{
    let h = chars_of(hay);
    let p = chars_of(needle);
    let hl = h.len();
    let pl = p.len();
    if pl > hl {
        assert forall|i: int| !occurs_at(hay@, needle@, i) by {}
        return false;
    }
    let mut i: usize = 0;
    while i <= hl - pl
        invariant
            h@ == hay@,
            p@ == needle@,
            hl == h@.len(),
            pl == p@.len(),
            pl <= hl,
            i <= hl - pl + 1,
            forall|k: int| 0 <= k < i ==> !occurs_at(hay@, needle@, k),
        decreases hl - i,
    {
        let mut j: usize = 0;
        let mut same = true;
        while j < pl
            invariant
                h@ == hay@,
                p@ == needle@,
                hl == h@.len(),
                pl == p@.len(),
                i + pl <= hl,
                j <= pl,
                same == (forall|k: int| 0 <= k < j ==> h@[i + k] == p@[k]),
            decreases pl - j,
        {
            if h[i + j] != p[j] {
                same = false;
            }
            j = j + 1;
        }
        if same {
            assert(hay@.subrange(i as int, i + pl) =~= needle@);
            assert(occurs_at(hay@, needle@, i as int));
            return true;
        }
        assert(!occurs_at(hay@, needle@, i as int)) by {
            if hay@.subrange(i as int, i + pl) == needle@ {
                assert forall|k: int| 0 <= k < pl implies h@[i + k] == p@[k] by {
                    assert(hay@.subrange(i as int, i + pl)[k] == hay@[i + k]);
                }
            }
        }
        i = i + 1;
    }
    assert forall|k: int| !occurs_at(hay@, needle@, k) by {
        if 0 <= k < i {
        }
    }
    false
}

} // verus!

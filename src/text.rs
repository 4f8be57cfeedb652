//! Small verified helpers on strings.
use vstd::prelude::*;
use vstd::string::*;
use vstd::utf8::*;

verus! {

broadcast use vstd::utf8::group_utf8_lib;

/// Whether two strings hold the same characters.
pub fn str_eq(a: &str, b: &str) -> (r: bool)
    ensures
        r == (a@ == b@),
{
    let x = a.as_bytes();
    let y = b.as_bytes();
    proof {
        encode_utf8_decode_utf8(a@);
        encode_utf8_decode_utf8(b@);
    }
    if x.len() != y.len() {
        return false;
    }
    let mut i: usize = 0;
    while i < x.len()
        invariant
            x@ == encode_utf8(a@),
            y@ == encode_utf8(b@),
            x@.len() == y@.len(),
            i <= x@.len(),
            forall|j: int| 0 <= j < i ==> x@[j] == y@[j],
        decreases x@.len() - i,
    {
        if x[i] != y[i] {
            return false;
        }
        i += 1;
    }
    assert(x@ =~= y@);
    true
}

/// The position of the last `.` byte.
pub open spec fn last_dot(b: Seq<u8>) -> Option<int>
    decreases b.len(),
{
    if b.len() == 0 {
        None
    } else if b.last() == 46u8 {
        Some(b.len() - 1)
    } else {
        last_dot(b.drop_last())
    }
}

proof fn lemma_last_dot(b: Seq<u8>)
    ensures
        last_dot(b) is Some ==> 0 <= last_dot(b)->0 < b.len() && b[last_dot(b)->0] == 46u8,
        last_dot(b) is Some ==> forall|j: int| last_dot(b)->0 < j < b.len() ==> b[j] != 46u8,
        last_dot(b) is None ==> forall|j: int| 0 <= j < b.len() ==> b[j] != 46u8,
    decreases b.len(),
{
    if b.len() > 0 && b.last() != 46u8 {
        lemma_last_dot(b.drop_last());
        assert forall|j: int| 0 <= j < b.len() - 1 implies b[j] == b.drop_last()[j] by {}
    }
}

/// Splits `s` around its last `.`: the text before it and the text after it.
pub fn split_last_dot(s: &str) -> (r: Option<(&str, &str)>)
    ensures
        last_dot(s.spec_bytes()) is None ==> r is None,
        last_dot(s.spec_bytes()) matches Some(k) ==> 0 <= k < s.spec_bytes().len() && (r matches Some(p) && p.0.spec_bytes()
            == s.spec_bytes().subrange(0, k) && p.1.spec_bytes() == s.spec_bytes().subrange(
            k + 1,
            s.spec_bytes().len() as int,
        )),
{
    let b = s.as_bytes();
    let ghost bytes = s.spec_bytes();
    proof {
        lemma_last_dot(bytes);
    }
    assert(last_dot(bytes) matches Some(k) ==> 0 <= k < bytes.len());
    let mut i: usize = b.len();
    while i > 0
        invariant
            b@ == bytes,
            bytes == s.spec_bytes(),
            i <= bytes.len(),
            forall|j: int| i <= j < bytes.len() ==> bytes[j] != 46u8,
        decreases i,
    {
        if b[i - 1] == 46u8 {
            let k = i - 1;
            proof {
                lemma_last_dot(bytes);
                match last_dot(bytes) {
                    Some(m) => {
                        if m < k {
                            assert(bytes[k as int] != 46u8);
                        }
                        if m > k {
                            assert(bytes[m] != 46u8);
                        }
                    },
                    None => {
                        assert(bytes[k as int] != 46u8);
                    },
                }
                assert(last_dot(bytes) == Some(k as int));
                encode_utf8_valid_utf8(s@);
                assert(bytes == encode_utf8(s@));
                assert(valid_utf8(bytes));
                is_char_boundary_iff_is_leading_byte(bytes, k as int);
            }
            let (before, rest) = s.split_at(k);
            proof {
                let rb = rest.spec_bytes();
                assert(rb =~= bytes.subrange(k as int, bytes.len() as int));
                encode_utf8_valid_utf8(rest@);
                assert(rb[0] == 46u8);
                assert(valid_utf8(rb));
                assert(is_leading_byte_width_1(rb[0]));
                assert(length_of_first_scalar(rb) == 1);
                assert(is_char_boundary(pop_first_scalar(rb), 0));
                reveal_with_fuel(is_char_boundary, 2);
                assert(is_char_boundary(rb, 1));
            }
            let (_dot, after) = rest.split_at(1);
            proof {
                assert(after.spec_bytes() =~= bytes.subrange(k + 1, bytes.len() as int));
            }
            return Some((before, after));
        }
        i -= 1;
    }
    None
}

/// The position of the first `c` in `s`.
pub open spec fn first_index(s: Seq<char>, c: char) -> Option<int>
    decreases s.len(),
{
    if s.len() == 0 {
        None
    } else if s[0] == c {
        Some(0)
    } else {
        match first_index(s.drop_first(), c) {
            Some(k) => Some(k + 1),
            None => None,
        }
    }
}

pub proof fn lemma_first_index(s: Seq<char>, c: char, j: int)
    requires
        0 <= j <= s.len(),
        forall|i: int| 0 <= i < j ==> s[i] != c,
        j == s.len() || s[j] == c,
    ensures
        first_index(s, c) == (if j < s.len() {
            Some(j)
        } else {
            None
        }),
    decreases s.len(),
{
    if s.len() > 0 && s[0] != c {
        assert forall|i: int| 0 <= i < j - 1 implies s.drop_first()[i] != c by {
            assert(s.drop_first()[i] == s[i + 1]);
        }
        lemma_first_index(s.drop_first(), c, j - 1);
    }
}

/// The characters of a string.
pub fn chars_of(s: &str) -> (r: Vec<char>)
    ensures
        r@ == s@,
{
    let mut r: Vec<char> = Vec::new();
    for c in it: s.chars()
        invariant
            it.seq() == s@,
            r@ == s@.subrange(0, it.index() as int),
    {
        r.push(c);
        assert(r@ =~= s@.subrange(0, it.index() + 1));
    }
    assert(r@ =~= s@);
    r
}

/// Lexicographic order of character sequences (code point by code point,
/// which is also the byte order of their UTF-8 encodings).
pub open spec fn seq_less(a: Seq<char>, b: Seq<char>) -> bool
    decreases a.len(),
{
    if a.len() == 0 {
        b.len() > 0
    } else if b.len() == 0 {
        false
    } else if a[0] != b[0] {
        a[0] < b[0]
    } else {
        seq_less(a.drop_first(), b.drop_first())
    }
}

/// Whether `a` comes strictly before `b`.
pub fn str_less(a: &str, b: &str) -> (r: bool)
    ensures
        r == seq_less(a@, b@),
{
    let x = chars_of(a);
    let y = chars_of(b);
    assert(x@.subrange(0, x.len() as int) =~= a@);
    assert(y@.subrange(0, y.len() as int) =~= b@);
    let mut i: usize = 0;
    while i < x.len() && i < y.len() && x[i] == y[i]
        invariant
            x@ == a@,
            y@ == b@,
            i <= x.len(),
            i <= y.len(),
            seq_less(x@.subrange(i as int, x.len() as int), y@.subrange(i as int, y.len() as int))
                == seq_less(a@, b@),
        decreases x.len() - i,
    {
        proof {
            let xs = x@.subrange(i as int, x.len() as int);
            let ys = y@.subrange(i as int, y.len() as int);
            assert(xs.drop_first() =~= x@.subrange(i + 1, x.len() as int));
            assert(ys.drop_first() =~= y@.subrange(i + 1, y.len() as int));
        }
        i += 1;
    }
    proof {
        let xs = x@.subrange(i as int, x.len() as int);
        let ys = y@.subrange(i as int, y.len() as int);
        if i < x.len() {
            assert(xs[0] == x@[i as int]);
        }
        if i < y.len() {
            assert(ys[0] == y@[i as int]);
        }
    }
    if i == x.len() {
        i < y.len()
    } else if i == y.len() {
        false
    } else {
        x[i] < y[i]
    }
}

} // verus!

//! The protocol a client used, as proxies report it.
use vstd::prelude::*;
use vstd::string::*;

use crate::classify::is_blank;
use crate::text::{chars_of, first_index, lemma_first_index};

verus! {

/// `s` without leading and trailing whitespace.
pub open spec fn trim_blank(s: Seq<char>) -> Seq<char>
    decreases s.len(),
{
    if s.len() > 0 && is_blank(s[0]) {
        trim_blank(s.drop_first())
    } else if s.len() > 0 && is_blank(s.last()) {
        trim_blank(s.drop_last())
    } else {
        s
    }
}

/// `s` without leading and trailing double quotes.
pub open spec fn trim_quotes(s: Seq<char>) -> Seq<char>
    decreases s.len(),
{
    if s.len() > 0 && s[0] == '"' {
        trim_quotes(s.drop_first())
    } else if s.len() > 0 && s.last() == '"' {
        trim_quotes(s.drop_last())
    } else {
        s
    }
}

/// `proto`, in any ASCII case.
pub open spec fn is_proto_key(k: Seq<char>) -> bool {
    k.len() == 5 && (k[0] == 'p' || k[0] == 'P') && (k[1] == 'r' || k[1] == 'R') && (k[2] == 'o'
        || k[2] == 'O') && (k[3] == 't' || k[3] == 'T') && (k[4] == 'o' || k[4] == 'O')
}

/// The protocol that one `key=value` pair gives, if its key is `proto`.
pub open spec fn pair_proto(p: Seq<char>) -> Option<Seq<char>> {
    match first_index(p, '=') {
        Some(k) => if is_proto_key(trim_blank(p.subrange(0, k))) {
            Some(trim_quotes(trim_blank(p.subrange(k + 1, p.len() as int))))
        } else {
            None
        },
        None => None,
    }
}

/// The protocol of the first `proto` pair among `;`-separated pairs.
pub open spec fn find_proto(s: Seq<char>) -> Option<Seq<char>>
    decreases s.len(),
{
    let end = match first_index(s, ';') {
        Some(k) => k,
        None => s.len() as int,
    };
    match pair_proto(s.subrange(0, end)) {
        Some(v) => Some(v),
        None => if 0 <= end < s.len() {
            find_proto(s.subrange(end + 1, s.len() as int))
        } else {
            None
        },
    }
}

/// The protocol that a `Forwarded` header value reports in its first element.
pub open spec fn proto_of_forwarded(s: Seq<char>) -> Option<Seq<char>> {
    let end = match first_index(s, ',') {
        Some(k) => k,
        None => s.len() as int,
    };
    find_proto(s.subrange(0, end))
}

/// The position of the first `c` in `v[from..to]`, or `to`.
fn scan(v: &Vec<char>, from: usize, to: usize, c: char) -> (r: usize)
    requires
        from <= to <= v.len(),
    ensures
        from <= r <= to,
        first_index(v@.subrange(from as int, to as int), c) == (if r < to {
            Some(r - from)
        } else {
            None
        }),
{
    let mut i = from;
    while i < to && v[i] != c
        invariant
            from <= i <= to <= v.len(),
            forall|j: int| from <= j < i ==> v@[j] != c,
        decreases to - i,
    {
        i += 1;
    }
    proof {
        let s = v@.subrange(from as int, to as int);
        assert forall|j: int| 0 <= j < i - from implies s[j] != c by {
            assert(s[j] == v@[from + j]);
        }
        lemma_first_index(s, c, i - from);
    }
    i
}

/// Trims whitespace from both ends of `v[from..to]`.
fn trim_range(v: &Vec<char>, from: usize, to: usize) -> (r: (usize, usize))
    requires
        from <= to <= v.len(),
    ensures
        from <= r.0 <= r.1 <= to,
        v@.subrange(r.0 as int, r.1 as int) == trim_blank(v@.subrange(from as int, to as int)),
{
    let mut a = from;
    let mut b = to;
    while a < b && crate::classify::is_blank_char(v[a])
        invariant
            from <= a <= b <= to <= v.len(),
            trim_blank(v@.subrange(a as int, b as int)) == trim_blank(
                v@.subrange(from as int, to as int),
            ),
        decreases b - a,
    {
        assert(v@.subrange(a as int, b as int).drop_first() =~= v@.subrange(a + 1, b as int));
        a += 1;
    }
    while a < b && crate::classify::is_blank_char(v[b - 1])
        invariant
            from <= a <= b <= to <= v.len(),
            a < b ==> !is_blank(v@[a as int]),
            trim_blank(v@.subrange(a as int, b as int)) == trim_blank(
                v@.subrange(from as int, to as int),
            ),
        decreases b - a,
    {
        assert(v@.subrange(a as int, b as int).drop_last() =~= v@.subrange(a as int, b - 1));
        b -= 1;
    }
    proof {
        let t = v@.subrange(a as int, b as int);
        if a < b {
            assert(t[0] == v@[a as int]);
            assert(t.last() == v@[b - 1]);
        }
    }
    (a, b)
}

/// Trims double quotes from both ends of `v[from..to]`.
fn trim_quote_range(v: &Vec<char>, from: usize, to: usize) -> (r: (usize, usize))
    requires
        from <= to <= v.len(),
    ensures
        from <= r.0 <= r.1 <= to,
        v@.subrange(r.0 as int, r.1 as int) == trim_quotes(v@.subrange(from as int, to as int)),
{
    let mut a = from;
    let mut b = to;
    while a < b && v[a] == '"'
        invariant
            from <= a <= b <= to <= v.len(),
            trim_quotes(v@.subrange(a as int, b as int)) == trim_quotes(
                v@.subrange(from as int, to as int),
            ),
        decreases b - a,
    {
        assert(v@.subrange(a as int, b as int).drop_first() =~= v@.subrange(a + 1, b as int));
        a += 1;
    }
    while a < b && v[b - 1] == '"'
        invariant
            from <= a <= b <= to <= v.len(),
            a < b ==> v@[a as int] != '"',
            trim_quotes(v@.subrange(a as int, b as int)) == trim_quotes(
                v@.subrange(from as int, to as int),
            ),
        decreases b - a,
    {
        assert(v@.subrange(a as int, b as int).drop_last() =~= v@.subrange(a as int, b - 1));
        b -= 1;
    }
    proof {
        let t = v@.subrange(a as int, b as int);
        if a < b {
            assert(t[0] == v@[a as int]);
            assert(t.last() == v@[b - 1]);
        }
    }
    (a, b)
}

fn is_proto_range(v: &Vec<char>, a: usize, b: usize) -> (r: bool)
    requires
        a <= b <= v.len(),
    ensures
        r == is_proto_key(v@.subrange(a as int, b as int)),
{
    if b - a != 5 {
        return false;
    }
    let k0 = v[a];
    let k1 = v[a + 1];
    let k2 = v[a + 2];
    let k3 = v[a + 3];
    let k4 = v[a + 4];
    (k0 == 'p' || k0 == 'P') && (k1 == 'r' || k1 == 'R') && (k2 == 'o' || k2 == 'O') && (k3 == 't'
        || k3 == 'T') && (k4 == 'o' || k4 == 'O')
}

/// The protocol that a `Forwarded` header value reports: the value of the
/// first `proto` pair (key in any ASCII case) of its first element, trimmed
/// of whitespace and double quotes.
pub fn parse_forwarded_for_protocol(value: &str) -> (r: Option<String>)
    ensures
        r matches Some(p) ==> proto_of_forwarded(value@) == Some(p@),
        r is None ==> proto_of_forwarded(value@) is None,
{
    let v = chars_of(value);
    let n = v.len();
    let e = scan(&v, 0, n, ',');
    let ghost first = v@.subrange(0, e as int);
    assert(v@.subrange(0, n as int) =~= v@);
    assert(proto_of_forwarded(value@) == find_proto(first));
    let mut start: usize = 0;
    loop
        invariant
            v@ == value@,
            n == v.len(),
            e <= n,
            first == v@.subrange(0, e as int),
            proto_of_forwarded(value@) == find_proto(first),
            start <= e,
            find_proto(first) == find_proto(v@.subrange(start as int, e as int)),
        decreases e - start,
    {
        let j = scan(&v, start, e, ';');
        let ghost seg = v@.subrange(start as int, e as int);
        let ghost pair = v@.subrange(start as int, j as int);
        assert(seg.subrange(0, j - start) =~= pair);
        assert(find_proto(seg) == match pair_proto(pair) {
            Some(p) => Some(p),
            None => if j < e {
                find_proto(seg.subrange(j - start + 1, seg.len() as int))
            } else {
                None
            },
        });
        let k = scan(&v, start, j, '=');
        if k < j {
            let (ka, kb) = trim_range(&v, start, k);
            assert(pair.subrange(0, k - start) =~= v@.subrange(start as int, k as int));
            if is_proto_range(&v, ka, kb) {
                let (va, vb) = trim_range(&v, k + 1, j);
                let (qa, qb) = trim_quote_range(&v, va, vb);
                assert(pair.subrange(k - start + 1, pair.len() as int) =~= v@.subrange(k + 1, j as int));
                let out = value.substring_char(qa, qb).to_owned();
                assert(pair_proto(pair) == Some(v@.subrange(qa as int, qb as int)));
                return Some(out);
            }
            assert(pair_proto(pair) is None);
        }
        if j == e {
            return None;
        }
        assert(seg.subrange(j - start + 1, seg.len() as int) =~= v@.subrange(j + 1, e as int));
        start = j + 1;
    }
}

/// The protocol a client used, as proxies report it.
pub struct Protocol(pub String);

impl Protocol {
    /// Picks the protocol: the `Forwarded` header's, else the
    /// `X-Forwarded-Proto` header's, else the request URI's scheme, else
    /// `http`.
    pub fn from_parts(
        forwarded: Option<&str>,
        forwarded_proto: Option<&str>,
        scheme: Option<&str>,
    ) -> (r: Protocol)
        ensures
            forwarded is Some && proto_of_forwarded(forwarded->0@) is Some ==> r.0@ == proto_of_forwarded(
                forwarded->0@,
            )->0,
            !(forwarded is Some && proto_of_forwarded(forwarded->0@) is Some) ==> match forwarded_proto {
                Some(x) => r.0@ == x@,
                None => match scheme {
                    Some(s) => r.0@ == s@,
                    None => r.0@ == "http"@,
                },
            },
    {
        match forwarded {
            Some(f) => match parse_forwarded_for_protocol(f) {
                Some(p) => return Protocol(p),
                None => {},
            },
            None => {},
        }
        match forwarded_proto {
            Some(x) => return Protocol(x.to_owned()),
            None => {},
        }
        match scheme {
            Some(s) => Protocol(s.to_owned()),
            None => Protocol(String::from_str("http")),
        }
    }
}

} // verus!

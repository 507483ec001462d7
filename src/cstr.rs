use vstd::prelude::*;
use vstd::string::{StrSliceExecFns, StringExecFns, StringSliceAdditionalSpecFns};

verus! {

/// The bytes handed to a C function for a string: its bytes and a closing
/// NUL, provided that it holds no NUL of its own.
pub open spec fn c_string_of(b: Seq<u8>) -> Option<Seq<u8>> {
    if b.contains(0u8) {
        None
    } else {
        Some(b.push(0u8))
    }
}

/// Encodes a string for a C function; `None` where it holds a NUL byte.
pub fn c_string(s: &str) -> (r: Option<Vec<u8>>)
    ensures
        r matches Some(v) ==> c_string_of(s.spec_bytes()) == Some(v@),
        r is None ==> c_string_of(s.spec_bytes()) is None,
{
    let b = s.as_bytes();
    let mut out: Vec<u8> = Vec::new();
    let mut i: usize = 0;
    while i < b.len()
        invariant
            b@ == s.spec_bytes(),
            i <= b@.len(),
            out@ == b@.take(i as int),
            !out@.contains(0u8),
        decreases b@.len() - i,
    {
        if b[i] == 0 {
            assert(b@[i as int] == 0u8);
            assert(b@.contains(0u8));
            return None;
        }
        out.push(b[i]);
        assert(out@ =~= b@.take(i as int + 1));
        assert(!out@.contains(0u8)) by {
            if out@.contains(0u8) {
                let k = choose|k: int| 0 <= k < out@.len() && out@[k] == 0u8;
                if k < i {
                    assert(b@.take(i as int)[k] == 0u8);
                }
            }
        }
        i = i + 1;
    }
    assert(out@ =~= b@);
    out.push(0u8);
    Some(out)
}

/// A C-side optional string: the encoded string, or the null pointer where
/// there is none. `None` where a given string holds a NUL byte.
pub fn c_string_opt(s: Option<&str>) -> (r: Option<Option<Vec<u8>>>)
    ensures
        match s {
            None => r == Some(None::<Vec<u8>>),
            Some(t) => match c_string_of(t.spec_bytes()) {
                None => r is None,
                Some(b) => r matches Some(Some(v)) && v@ == b,
            },
        },
{
    match s {
        None => Some(None),
        Some(t) => match c_string(t) {
            None => None,
            Some(v) => Some(Some(v)),
        },
    }
}

/// The pieces of `s` between the separators, as `str::split` gives them:
/// an empty string gives one empty piece.
pub open spec fn split_on(s: Seq<char>, sep: char) -> Seq<Seq<char>>
    decreases s.len(),
{
    if s.len() == 0 {
        seq![Seq::empty()]
    } else {
        let r = split_on(s.drop_last(), sep);
        if s.last() == sep {
            r.push(Seq::empty())
        } else {
            r.update(r.len() - 1, r.last().push(s.last()))
        }
    }
}

proof fn lemma_split_nonempty(s: Seq<char>, sep: char)
    ensures
        split_on(s, sep).len() >= 1,
    decreases s.len(),
{
    if s.len() > 0 {
        lemma_split_nonempty(s.drop_last(), sep);
    }
}

/// Splits `s` at every `sep`.
pub fn split_string(s: &str, sep: char) -> (r: Vec<String>)
    ensures
        r@.map_values(|p: String| p@) == split_on(s@, sep),
{
    let n = s.unicode_len();
    let mut pieces: Vec<String> = Vec::new();
    let mut start: usize = 0;
    let mut i: usize = 0;
    proof {
        assert(s@.take(0) =~= Seq::<char>::empty());
        assert(pieces@.map_values(|p: String| p@).push(s@.subrange(0, 0)) =~= seq![Seq::<char>::empty()]);
    }
    while i < n
        invariant
            n == s@.len(),
            start <= i <= n,
            pieces@.map_values(|p: String| p@).push(s@.subrange(start as int, i as int)) == split_on(
                s@.take(i as int),
                sep,
            ),
        decreases n - i,
    {
        let c = s.get_char(i);
        let ghost before = pieces@.map_values(|p: String| p@);
        proof {
            assert(s@.take(i as int + 1).drop_last() =~= s@.take(i as int));
            assert(s@.take(i as int + 1).last() == c);
            lemma_split_nonempty(s@.take(i as int), sep);
        }
        if c == sep {
            let piece = String::from_str(s.substring_char(start, i));
            pieces.push(piece);
            proof {
                assert(pieces@.map_values(|p: String| p@) =~= before.push(s@.subrange(start as int, i as int)));
                assert(s@.subrange(i as int + 1, i as int + 1) =~= Seq::<char>::empty());
            }
            start = i + 1;
        } else {
            proof {
                let r = split_on(s@.take(i as int), sep);
                assert(s@.subrange(start as int, i as int + 1) =~= s@.subrange(start as int, i as int).push(c));
                assert(before.push(s@.subrange(start as int, i as int + 1)) =~= r.update(
                    r.len() - 1,
                    r.last().push(c),
                ));
            }
        }
        i = i + 1;
    }
    let last = String::from_str(s.substring_char(start, n));
    let ghost before = pieces@.map_values(|p: String| p@);
    pieces.push(last);
    proof {
        assert(s@.take(n as int) =~= s@);
        assert(pieces@.map_values(|p: String| p@) =~= before.push(s@.subrange(start as int, n as int)));
    }
    pieces
}

} // verus!

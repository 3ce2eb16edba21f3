//! Small verified string utilities: ASCII case folding for header-name
//! comparison and prefix tests for URL schemes.

use vstd::prelude::*;

verus! {

/// ASCII lowercase of one character; other characters are unchanged.
pub open spec fn lower_char(c: char) -> char {
    if 65 <= c as u32 && c as u32 <= 90 {
        ((c as u32 + 32) as char)
    } else {
        c
    }
}

/// ASCII lowercase of a character sequence.
pub open spec fn lower_seq(s: Seq<char>) -> Seq<char> {
    s.map_values(|c: char| lower_char(c))
}

/// True iff `name` equals `lowered` up to ASCII case. The second argument is
/// expected to be already lowercase; the result says exactly that folding
/// `name` yields `lowered`.
pub fn eq_ignore_ascii_case(name: &str, lowered: &str) -> (r: bool)
    ensures
        r <==> lower_seq(name@) == lowered@,
{
    let n = name.unicode_len();
    let m = lowered.unicode_len();
    if n != m {
        proof {
            assert(lower_seq(name@).len() == name@.len());
            assert(lower_seq(name@) != lowered@);
        }
        return false;
    }
    let mut i: usize = 0;
    while i < n
        invariant
            n == name@.len(),
            m == lowered@.len(),
            n == m,
            i <= n,
            forall|j: int| 0 <= j < i ==> lower_seq(name@)[j] == lowered@[j],
        decreases n - i,
    {
        let c = name.get_char(i);
        let d = lowered.get_char(i);
        let cu = c as u32;
        let lu: u32 = if 65 <= cu && cu <= 90 {
            cu + 32
        } else {
            cu
        };
        if lu != d as u32 {
            proof {
                assert(lower_seq(name@)[i as int] == lower_char(name@[i as int]));
                assert(lower_char(c) as u32 == lu);
                assert(lower_seq(name@) != lowered@);
            }
            return false;
        }
        proof {
            assert(lower_char(c) as u32 == lu && lu == d as u32);
            assert(lower_seq(name@)[i as int] == lowered@[i as int]);
        }
        i += 1;
    }
    proof {
        assert(lower_seq(name@) =~= lowered@);
    }
    true
}

/// True iff `p` is a prefix of `s`.
pub open spec fn has_prefix(s: Seq<char>, p: Seq<char>) -> bool {
    s.len() >= p.len() && s.subrange(0, p.len() as int) == p
}

/// Prefix test over characters.
pub fn str_starts_with(s: &str, prefix: &str) -> (r: bool)
    ensures
        r <==> has_prefix(s@, prefix@),
{
    let n = s.unicode_len();
    let m = prefix.unicode_len();
    if n < m {
        return false;
    }
    let mut i: usize = 0;
    while i < m
        invariant
            n == s@.len(),
            m == prefix@.len(),
            m <= n,
            i <= m,
            forall|j: int| 0 <= j < i ==> s@[j] == prefix@[j],
        decreases m - i,
    {
        let c = s.get_char(i);
        let d = prefix.get_char(i);
        if c != d {
            proof {
                assert(s@.subrange(0, prefix@.len() as int)[i as int] == s@[i as int]);
                assert(s@.subrange(0, prefix@.len() as int) != prefix@);
            }
            return false;
        }
        i += 1;
    }
    proof {
        assert(s@.subrange(0, prefix@.len() as int) =~= prefix@);
    }
    true
}

} // verus!

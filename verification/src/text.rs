//! Character-level matching for the `no_proxy` setting: splitting its value
//! into tokens at commas and spaces, and suffix comparison against a host.

use vstd::prelude::*;
use vstd::string::StrSliceExecFns;

verus! {

/// A separator between `no_proxy` tokens: a comma or a space.
pub open spec fn is_sep(c: char) -> bool {
    c == ',' || c == ' '
}

/// `t` is a suffix of `h`.
pub open spec fn is_suffix(h: Seq<char>, t: Seq<char>) -> bool {
    t.len() <= h.len() && h.subrange(h.len() - t.len(), h.len() as int) == t
}

/// The characters `s[i..j]` form one token of `s`: a run free of separators,
/// bounded on each side by an end of `s` or by a separator.
pub open spec fn is_token(s: Seq<char>, i: int, j: int) -> bool {
    &&& 0 <= i <= j <= s.len()
    &&& (i == 0 || is_sep(s[i - 1]))
    &&& (j == s.len() || is_sep(s[j]))
    &&& forall|k: int| i <= k < j ==> !is_sep(#[trigger] s[k])
}

/// Some nonempty token of `np` is a suffix of `host`. Empty tokens never
/// match: a list such as `"a,,b"` yields an empty token between the commas,
/// and that token excludes nothing.
pub open spec fn host_blocked(host: Seq<char>, np: Seq<char>) -> bool {
    exists|i: int, j: int| #[trigger] is_token(np, i, j) && i < j && is_suffix(host, np.subrange(i, j))
}

/// A token is determined by where it ends: two tokens of `s` that end at the
/// same place start at the same place.
proof fn lemma_token_start_unique(s: Seq<char>, i: int, a: int, j: int)
    requires
        0 <= i <= j <= s.len(),
        i == 0 || is_sep(s[i - 1]),
        forall|m: int| i <= m < j ==> !is_sep(#[trigger] s[m]),
        is_token(s, a, j),
    ensures
        a == i,
{
    if a < i {
        assert(!is_sep(s[i - 1]));
        assert(false);
    }
    if a > i {
        assert(is_sep(s[a - 1]));
        assert(false);
    }
}

/// Whether the characters `np[i..j]` are a suffix of `host`.
fn range_is_suffix(host: &str, np: &str, i: usize, j: usize) -> (r: bool)
    requires
        i <= j <= np@.len(),
    ensures
        r == is_suffix(host@, np@.subrange(i as int, j as int)),
{
    let hn = host.unicode_len();
    let tlen = j - i;
    if tlen > hn {
        return false;
    }
    let off = hn - tlen;
    let mut m: usize = 0;
    while m < tlen
        invariant
            i <= j <= np@.len(),
            tlen == j - i,
            hn == host@.len(),
            tlen <= hn,
            off == hn - tlen,
            m <= tlen,
            forall|p: int| 0 <= p < m ==> host@[off + p] == #[trigger] np@[i + p],
        decreases tlen - m,
    {
        if host.get_char(off + m) != np.get_char(i + m) {
            proof {
                let t = np@.subrange(i as int, j as int);
                if is_suffix(host@, t) {
                    assert(host@.subrange(hn - tlen, hn as int) == t);
                    assert(host@[off + m] == t[m as int]);
                    assert(t[m as int] == np@[i + m]);
                }
            }
            return false;
        }
        m += 1;
    }
    proof {
        assert forall|p: int| 0 <= p < tlen implies host@.subrange(off as int, hn as int)[p]
            == np@.subrange(i as int, j as int)[p] by {
            assert(host@[off + p] == np@[i + p]);
        }
        assert(host@.subrange(off as int, hn as int) =~= np@.subrange(i as int, j as int));
    }
    true
}

/// Whether some nonempty comma- or space-separated token of `np` is a suffix
/// of `host`.
pub fn host_matches_no_proxy(host: &str, np: &str) -> (r: bool)
    ensures
        r == host_blocked(host@, np@),
{
    let n = np.unicode_len();
    let mut i: usize = 0;
    let mut k: usize = 0;
    while k < n
        invariant
            n == np@.len(),
            i <= k <= n,
            i == 0 || is_sep(np@[i - 1]),
            forall|m: int| i <= m < k ==> !is_sep(#[trigger] np@[m]),
            forall|a: int, j: int|
                #[trigger] is_token(np@, a, j) && a < j && j < k ==> !is_suffix(
                    host@,
                    np@.subrange(a, j),
                ),
        decreases n - k,
    {
        let c = np.get_char(k);
        if c == ',' || c == ' ' {
            if k > i && range_is_suffix(host, np, i, k) {
                proof {
                    assert(is_token(np@, i as int, k as int));
                }
                return true;
            }
            proof {
                assert forall|a: int, j: int|
                    #[trigger] is_token(np@, a, j) && a < j && j < k + 1 implies !is_suffix(
                    host@,
                    np@.subrange(a, j),
                ) by {
                    if j == k {
                        lemma_token_start_unique(np@, i as int, a, k as int);
                    }
                }
            }
            i = k + 1;
        }
        k += 1;
    }
    if n > i && range_is_suffix(host, np, i, n) {
        proof {
            assert(is_token(np@, i as int, n as int));
        }
        return true;
    }
    proof {
        assert forall|a: int, j: int|
            #[trigger] is_token(np@, a, j) && a < j implies !is_suffix(
            host@,
            np@.subrange(a, j),
        ) by {
            if j == n {
                if i < n {
                    lemma_token_start_unique(np@, i as int, a, n as int);
                } else {
                    assert(is_sep(np@[n - 1]));
                    assert(!is_sep(np@[n - 1]));
                }
            }
        }
    }
    false
}

} // verus!

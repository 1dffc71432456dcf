//! Parsing of `key=value` pairs from command-line arguments.

use vstd::prelude::*;
use vstd::string::StrSliceExecFns;

verus! {

/// A `key=value` pair: the text before the first `=` and the text between
/// the first and the second `=`.
#[derive(Clone, Debug)]
pub struct KvPair {
    pub k: String,
    pub v: String,
}

/// Why a pair could not be parsed.
#[derive(Clone, Copy, Debug, PartialEq, Eq, Structural)]
pub enum KvError {
    /// The text holds no `=` separator.
    MissingSeparator,
}

/// The position of the first `=` at or after `from`, or `s.len()` if there
/// is none.
pub open spec fn eq_pos(s: Seq<char>, from: int) -> int
    decreases s.len() - from,
{
    if from < s.len() {
        if s[from] == '=' {
            from
        } else {
            eq_pos(s, from + 1)
        }
    } else {
        s.len() as int
    }
}

/// Where no `=` stands in `from..to`, the first `=` at or after `from` is
/// the first at or after `to`.
proof fn lemma_eq_pos_skip(s: Seq<char>, from: int, to: int)
    requires
        0 <= from <= to <= s.len(),
        forall|j: int| from <= j < to ==> s[j] != '=',
    ensures
        eq_pos(s, from) == eq_pos(s, to),
    decreases to - from,
{
    if from < to {
        lemma_eq_pos_skip(s, from + 1, to);
    }
}

/// Splits `key=value` text at its `=` separators: the key is the text
/// before the first `=`, the value the text between the first and the
/// second. Fails exactly where the text holds no `=` at all.
pub fn parse_kv_pair(s: &str) -> (r: Result<KvPair, KvError>)
    ensures
        (match r {
            Ok(kv) => {
                let i = eq_pos(s@, 0);
                &&& i < s@.len()
                &&& kv.k@ == s@.subrange(0, i)
                &&& kv.v@ == s@.subrange(i + 1, eq_pos(s@, i + 1))
            },
            Err(e) => eq_pos(s@, 0) == s@.len() && e == KvError::MissingSeparator,
        }),
{
    let n = s.unicode_len();
    let mut i: usize = 0;
    while i < n && s.get_char(i) != '='
        invariant
            n == s@.len(),
            i <= n,
            forall|j: int| 0 <= j < i ==> s@[j] != '=',
        decreases n - i,
    {
        i = i + 1;
    }
    proof {
        lemma_eq_pos_skip(s@, 0, i as int);
    }
    if i == n {
        return Err(KvError::MissingSeparator);
    }
    let mut j: usize = i + 1;
    while j < n && s.get_char(j) != '='
        invariant
            n == s@.len(),
            i < n,
            i + 1 <= j <= n,
            forall|m: int| i + 1 <= m < j ==> s@[m] != '=',
        decreases n - j,
    {
        j = j + 1;
    }
    proof {
        lemma_eq_pos_skip(s@, i + 1 as int, j as int);
    }
    let k = s.substring_char(0, i).to_owned();
    let v = s.substring_char(i + 1, j).to_owned();
    Ok(KvPair { k, v })
}

} // verus!

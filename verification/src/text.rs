//! Plain-text helpers the views rely on: literal substring search (the
//! filter keyword test), the loadable-plugin file-name test, and the decimal
//! rendering of a load priority.
use vstd::prelude::*;
use vstd::string::StrSliceExecFns;

verus! {

/// `k` occurs in `s` starting exactly at position `i`.
pub open spec fn is_match_at(s: Seq<char>, k: Seq<char>, i: int) -> bool {
    0 <= i && i + k.len() <= s.len() && s.subrange(i, i + k.len() as int) == k
}

/// `k` occurs somewhere in `s` as a contiguous run of characters.
pub open spec fn has_substring(s: Seq<char>, k: Seq<char>) -> bool {
    exists|i: int| is_match_at(s, k, i)
}

/// Does `k` occur at position `i` of `s`? Character-by-character check.
fn match_at(s: &str, k: &str, i: usize, sl: usize, kl: usize) -> (r: bool)
    requires
        sl == s@.len(),
        kl == k@.len(),
        i + kl <= sl,
    ensures
        r == is_match_at(s@, k@, i as int),
{
    let mut j: usize = 0;
    while j < kl
        invariant
            sl == s@.len(),
            kl == k@.len(),
            i + kl <= sl,
            j <= kl,
            forall|t: int| 0 <= t < j ==> s@[i + t] == k@[t],
        decreases kl - j,
    {
        if s.get_char(i + j) != k.get_char(j) {
            proof {
                assert(!is_match_at(s@, k@, i as int)) by {
                    if is_match_at(s@, k@, i as int) {
                        assert(s@.subrange(i as int, i + kl as int)[j as int] == s@[i + j]);
                    }
                }
            }
            return false;
        }
        j += 1;
    }
    proof {
        assert(s@.subrange(i as int, i + kl as int) =~= k@);
    }
    true
}

/// Literal, case-sensitive substring test: does `keyword` occur in `s`?
pub fn contains_keyword(s: &str, keyword: &str) -> (r: bool)
    ensures
        r == has_substring(s@, keyword@),
{
    let sl = s.unicode_len();
    let kl = keyword.unicode_len();
    if kl > sl {
        proof {
            assert(forall|i: int| !is_match_at(s@, keyword@, i));
        }
        return false;
    }
    let bound = sl - kl;
    let mut i: usize = 0;
    loop
        invariant
            sl == s@.len(),
            kl == keyword@.len(),
            kl <= sl,
            bound == sl - kl,
            i <= bound,
            forall|t: int| 0 <= t < i ==> !is_match_at(s@, keyword@, t),
        decreases bound - i,
    {
        if match_at(s, keyword, i, sl, kl) {
            return true;
        }
        if i == bound {
            proof {
                assert(forall|t: int| is_match_at(s@, keyword@, t) ==> 0 <= t <= bound);
            }
            return false;
        }
        i += 1;
    }
}

/// A file name whose `Path::extension` is exactly `dll`: it ends in `.dll`
/// and the dot there is not the first character of the name.
pub open spec fn is_dll_name(s: Seq<char>) -> bool {
    s.len() >= 5 && s.subrange(s.len() - 4, s.len() as int) == seq!['.', 'd', 'l', 'l']
}

/// Does this file name denote a loadable binary plugin?
pub fn dll_file_name(s: &str) -> (r: bool)
    ensures
        r == is_dll_name(s@),
{
    let n = s.unicode_len();
    if n < 5 {
        return false;
    }
    let r = s.get_char(n - 4) == '.' && s.get_char(n - 3) == 'd' && s.get_char(n - 2) == 'l'
        && s.get_char(n - 1) == 'l';
    proof {
        let tail = s@.subrange(s@.len() - 4, s@.len() as int);
        let want = seq!['.', 'd', 'l', 'l'];
        if r {
            assert(tail =~= want);
        } else {
            if tail == want {
                assert(s@[s@.len() - 4] == tail[0]);
                assert(s@[s@.len() - 3] == tail[1]);
                assert(s@[s@.len() - 2] == tail[2]);
                assert(s@[s@.len() - 1] == tail[3]);
            }
        }
    }
    r
}

/// The decimal digits of `n`, most significant first.
pub open spec fn dec_digits(n: nat) -> Seq<char>
    decreases n,
{
    let digits = seq!['0', '1', '2', '3', '4', '5', '6', '7', '8', '9'];
    if n < 10 {
        seq![digits[n as int]]
    } else {
        dec_digits(n / 10).push(digits[(n % 10) as int])
    }
}

/// The decimal rendering of an integer: a minus sign for negative values,
/// then the digits.
pub open spec fn dec_string(n: int) -> Seq<char> {
    if n < 0 {
        seq!['-'] + dec_digits((-n) as nat)
    } else {
        dec_digits(n as nat)
    }
}

/// Relies on `i32::to_string`: the decimal digits of the value, with a
/// leading minus sign when it is negative.
#[verifier::external_body]
pub fn priority_to_string(n: i32) -> (r: String)
    ensures
        r@ == dec_string(n as int),
{
    n.to_string()
}

} // verus!

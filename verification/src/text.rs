//! Verified character-level string utilities: equality and newline
//! splitting. Splitting keeps empty segments, which is the contract the
//! output stage depends on to reproduce blank lines.

use vstd::prelude::*;
use vstd::string::StrSliceExecFns;

verus! {

/// The lines of `cur + s` split on the newline character, appended to `acc`:
/// accumulator form, consuming `s` from the front while `cur` holds the
/// segment read since the last newline.
pub open spec fn split_rest(s: Seq<char>, cur: Seq<char>, acc: Seq<Seq<char>>) -> Seq<Seq<char>>
    decreases s.len(),
{
    if s.len() == 0 {
        acc.push(cur)
    } else if s[0] == '\n' {
        split_rest(s.drop_first(), Seq::empty(), acc.push(cur))
    } else {
        split_rest(s.drop_first(), cur.push(s[0]), acc)
    }
}

/// What splitting on the newline character means: one segment more than
/// there are newlines, in order, empty segments kept.
pub open spec fn split_lines_spec(s: Seq<char>) -> Seq<Seq<char>> {
    split_rest(s, Seq::empty(), Seq::empty())
}

/// Character-for-character string equality, decided without assuming
/// anything about either argument's content.
pub fn str_eq(a: &str, b: &str) -> (r: bool)
    ensures
        r == (a@ == b@),
{
    let la: usize = a.unicode_len();
    let lb: usize = b.unicode_len();
    if la != lb {
        return false;
    }
    let mut i: usize = 0;
    while i < la
        invariant
            i <= la,
            la as nat == a@.len(),
            la as nat == b@.len(),
            forall|j: int| 0 <= j < i ==> a@[j] == b@[j],
        decreases la - i,
    {
        let ca = a.get_char(i);
        let cb = b.get_char(i);
        if ca != cb {
            return false;
        }
        i += 1;
    }
    proof {
        assert(a@ =~= b@);
    }
    true
}

/// Splits on the newline character, keeping empty segments, so that a
/// content of "X\n\nY" yields the three lines "X", "" and "Y".
pub fn split_lines(s: &str) -> (r: Vec<String>)
    ensures
        r.deep_view() == split_lines_spec(s@),
{
    let n: usize = s.unicode_len();
    let mut acc: Vec<String> = Vec::new();
    let mut start: usize = 0;
    let mut i: usize = 0;
    proof {
        assert(s@.skip(0) =~= s@);
        assert(s@.subrange(0, 0) =~= Seq::<char>::empty());
        assert(acc.deep_view() =~= Seq::<Seq<char>>::empty());
    }
    while i < n
        invariant
            start <= i <= n,
            n as nat == s@.len(),
            split_rest(
                s@.skip(i as int),
                s@.subrange(start as int, i as int),
                acc.deep_view(),
            ) == split_lines_spec(s@),
        decreases n - i,
    {
        let c = s.get_char(i);
        if c == '\n' {
            let piece = s.substring_char(start, i).to_owned();
            proof {
                assert(s@.skip(i as int)[0] == s@[i as int]);
                assert(s@.skip(i as int).drop_first() =~= s@.skip(i as int + 1));
            }
            let ghost old_dv = acc.deep_view();
            acc.push(piece);
            proof {
                assert(acc.deep_view() =~= old_dv.push(s@.subrange(start as int, i as int)));
                assert(s@.subrange(i as int + 1, i as int + 1) =~= Seq::<char>::empty());
            }
            start = i + 1;
        } else {
            proof {
                assert(s@.skip(i as int)[0] == s@[i as int]);
                assert(s@.skip(i as int).drop_first() =~= s@.skip(i as int + 1));
                assert(s@.subrange(start as int, i as int).push(s@[i as int]) =~= s@.subrange(
                    start as int,
                    i as int + 1,
                ));
            }
        }
        i += 1;
    }
    let piece = s.substring_char(start, n).to_owned();
    let ghost old_dv = acc.deep_view();
    acc.push(piece);
    proof {
        assert(acc.deep_view() =~= old_dv.push(s@.subrange(start as int, n as int)));
    }
    acc
}

} // verus!

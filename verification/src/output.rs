//! The output stage: which lines a response yields, and in what order.
//!
//! Each choice is consumed exactly once, in the order the response lists
//! them. A choice finished with `Stop` contributes its content split on
//! newlines, empty segments included; a choice finished any other way is
//! skipped whole, never partially emitted.

use vstd::prelude::*;
use crate::model::{ChatCompletion, Choice, FinishReason};
use crate::text::{split_lines, split_lines_spec};

verus! {

/// The lines one choice contributes to the printed output.
pub open spec fn choice_output(c: Choice) -> Seq<Seq<char>> {
    if c.finish_reason == FinishReason::Stop {
        split_lines_spec(c.message.content@)
    } else {
        Seq::empty()
    }
}

/// The printed output of a whole response: each choice's contribution, in
/// choice order.
pub open spec fn output_of(cs: Seq<Choice>) -> Seq<Seq<char>>
    decreases cs.len(),
{
    if cs.len() == 0 {
        Seq::empty()
    } else {
        output_of(cs.drop_last()) + choice_output(cs.last())
    }
}

/// Extracts the lines to print from a decoded response.
pub fn extract_lines(chat: &ChatCompletion) -> (r: Vec<String>)
    ensures
        r.deep_view() == output_of(chat.choices@),
{
    let mut out: Vec<String> = Vec::new();
    let mut i: usize = 0;
    proof {
        assert(chat.choices@.take(0) =~= Seq::<Choice>::empty());
        assert(out.deep_view() =~= Seq::<Seq<char>>::empty());
    }
    while i < chat.choices.len()
        invariant
            i <= chat.choices@.len(),
            out.deep_view() == output_of(chat.choices@.take(i as int)),
        decreases chat.choices@.len() - i,
    {
        let ghost pre = out.deep_view();
        let c = &chat.choices[i];
        if c.finish_reason == FinishReason::Stop {
            let lines = split_lines(c.message.content.as_str());
            let mut j: usize = 0;
            proof {
                assert(lines.deep_view().take(0) =~= Seq::<Seq<char>>::empty());
                assert(pre + lines.deep_view().take(0) =~= pre);
            }
            while j < lines.len()
                invariant
                    j <= lines@.len(),
                    i < chat.choices@.len(),
                    lines.deep_view() == choice_output(chat.choices@[i as int]),
                    pre == output_of(chat.choices@.take(i as int)),
                    out.deep_view() == pre + lines.deep_view().take(j as int),
                decreases lines@.len() - j,
            {
                let ghost odv = out.deep_view();
                let s = lines[j].clone();
                out.push(s);
                proof {
                    assert(out.deep_view() =~= odv.push(lines.deep_view()[j as int]));
                    assert(out.deep_view() =~= pre + lines.deep_view().take(j as int + 1));
                }
                j += 1;
            }
            proof {
                assert(lines.deep_view().take(lines@.len() as int) =~= lines.deep_view());
            }
        }
        proof {
            let cs = chat.choices@.take(i as int + 1);
            assert(cs.drop_last() =~= chat.choices@.take(i as int));
            assert(cs.last() == chat.choices@[i as int]);
            assert(out.deep_view() =~= output_of(cs));
        }
        i += 1;
    }
    proof {
        assert(chat.choices@.take(chat.choices@.len() as int) =~= chat.choices@);
    }
    out
}

} // verus!

use vstd::prelude::*;
use crate::app::{COMPLETION_TEXT, MessageStyle, message_style_of, message_text_of};
use crate::steps::{after_advance, after_advances};

verus! {

/// `n` advances drop the first `n` steps, as long as that many are left.
pub proof fn lemma_after_advances_skips(r: Seq<Seq<char>>, n: nat)
    requires
        n <= r.len(),
    ensures
        after_advances(r, n) == r.skip(n as int),
    decreases n,
{
    if n == 0 {
        assert(r.skip(0) =~= r);
    } else {
        lemma_after_advances_skips(r, (n - 1) as nat);
        assert(r.skip(n as int) =~= r.skip(n - 1).drop_first());
    }
}

/// Presenting a non-empty sequence of steps and advancing once per step
/// reaches completion, whose message is the completion text in affirmative
/// style; one more advance leaves it there.
pub proof fn lemma_advancing_through_all_steps_completes(s: Seq<Seq<char>>)
    requires
        s.len() > 0,
    ensures
        after_advances(s, s.len()).len() == 0,
        message_text_of(after_advances(s, s.len())) == COMPLETION_TEXT@,
        message_style_of(after_advances(s, s.len())) == MessageStyle::Affirmative,
        after_advances(s, s.len() + 1) == after_advances(s, s.len()),
{
    lemma_after_advances_skips(s, s.len());
}

/// Advancing once every step is passed changes neither the remaining steps
/// nor the message.
pub proof fn lemma_advance_past_complete(r: Seq<Seq<char>>)
    requires
        r.len() == 0,
    ensures
        after_advance(r) == r,
        message_text_of(after_advance(r)) == message_text_of(r),
        message_style_of(after_advance(r)) == message_style_of(r),
{
}

} // verus!

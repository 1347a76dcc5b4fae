//! Trimming a conversation history while keeping its system messages.

use vstd::prelude::*;
use crate::messages::{ConversationMessage, MessageView, history_view, is_system};

verus! {

/// The system messages of a history, in their order.
pub open spec fn system_part(h: Seq<MessageView>) -> Seq<MessageView>
    decreases h.len(),
{
    if h.len() == 0 {
        Seq::empty()
    } else if is_system(h.last()) {
        system_part(h.drop_last()).push(h.last())
    } else {
        system_part(h.drop_last())
    }
}

/// The messages of a history that are not system messages, in their order.
pub open spec fn dialogue_part(h: Seq<MessageView>) -> Seq<MessageView>
    decreases h.len(),
{
    if h.len() == 0 {
        Seq::empty()
    } else if is_system(h.last()) {
        dialogue_part(h.drop_last())
    } else {
        dialogue_part(h.drop_last()).push(h.last())
    }
}

/// The last `n` elements of `s`, or all of `s` when it has at most `n`.
pub open spec fn keep_last<A>(s: Seq<A>, n: nat) -> Seq<A> {
    if s.len() > n {
        s.skip(s.len() - n)
    } else {
        s
    }
}

/// A history trimmed to `max` messages: a history of at most `max` messages
/// is left as it is; a longer one keeps all its system messages, followed by
/// the last `max` of its other messages.
pub open spec fn trimmed(h: Seq<MessageView>, max: nat) -> Seq<MessageView> {
    if h.len() <= max {
        h
    } else {
        system_part(h) + keep_last(dialogue_part(h), max)
    }
}

pub proof fn lemma_parts_len(h: Seq<MessageView>)
    ensures
        system_part(h).len() + dialogue_part(h).len() == h.len(),
    decreases h.len(),
{
    if h.len() > 0 {
        lemma_parts_len(h.drop_last());
    }
}

pub proof fn lemma_parts_concat(a: Seq<MessageView>, b: Seq<MessageView>)
    ensures
        system_part(a + b) == system_part(a) + system_part(b),
        dialogue_part(a + b) == dialogue_part(a) + dialogue_part(b),
    decreases b.len(),
{
    if b.len() == 0 {
        assert(a + b =~= a);
        assert(system_part(a) + system_part(b) =~= system_part(a));
        assert(dialogue_part(a) + dialogue_part(b) =~= dialogue_part(a));
    } else {
        lemma_parts_concat(a, b.drop_last());
        assert((a + b).drop_last() =~= a + b.drop_last());
        assert((a + b).last() == b.last());
        assert(system_part(a) + system_part(b.drop_last()).push(b.last())
            =~= (system_part(a) + system_part(b.drop_last())).push(b.last()));
        assert(dialogue_part(a) + dialogue_part(b.drop_last()).push(b.last())
            =~= (dialogue_part(a) + dialogue_part(b.drop_last())).push(b.last()));
    }
}

/// Every element of `system_part(h)` is a system message.
pub proof fn lemma_system_part_all_system(h: Seq<MessageView>)
    ensures
        forall|i: int| 0 <= i < system_part(h).len() ==> is_system(#[trigger] system_part(h)[i]),
        forall|i: int| 0 <= i < dialogue_part(h).len() ==> !is_system(#[trigger] dialogue_part(h)[i]),
    decreases h.len(),
{
    if h.len() > 0 {
        lemma_system_part_all_system(h.drop_last());
        let sp = system_part(h.drop_last());
        let dp = dialogue_part(h.drop_last());
        assert forall|i: int| 0 <= i < system_part(h).len() implies is_system(
            #[trigger] system_part(h)[i],
        ) by {
            if i < sp.len() {
                assert(system_part(h)[i] == sp[i]);
            }
        }
        assert forall|i: int| 0 <= i < dialogue_part(h).len() implies !is_system(
            #[trigger] dialogue_part(h)[i],
        ) by {
            if i < dp.len() {
                assert(dialogue_part(h)[i] == dp[i]);
            }
        }
    }
}

/// A sequence of system messages is its own system part, and has no dialogue.
pub proof fn lemma_all_system_parts(s: Seq<MessageView>)
    requires
        forall|i: int| 0 <= i < s.len() ==> is_system(#[trigger] s[i]),
    ensures
        system_part(s) == s,
        dialogue_part(s) == Seq::<MessageView>::empty(),
    decreases s.len(),
{
    if s.len() > 0 {
        lemma_all_system_parts(s.drop_last());
        assert(s.drop_last().push(s.last()) =~= s);
    } else {
        assert(s =~= Seq::<MessageView>::empty());
    }
}

/// A sequence of non-system messages has no system part, and is its own dialogue.
pub proof fn lemma_no_system_parts(s: Seq<MessageView>)
    requires
        forall|i: int| 0 <= i < s.len() ==> !is_system(#[trigger] s[i]),
    ensures
        system_part(s) == Seq::<MessageView>::empty(),
        dialogue_part(s) == s,
    decreases s.len(),
{
    if s.len() > 0 {
        lemma_no_system_parts(s.drop_last());
        assert(s.drop_last().push(s.last()) =~= s);
    } else {
        assert(s =~= Seq::<MessageView>::empty());
    }
}

/// The parts of a trimmed history: trimming keeps every system message and,
/// of the other messages, those it keeps are the last ones.
pub proof fn lemma_trimmed_parts(h: Seq<MessageView>, max: nat)
    ensures
        system_part(trimmed(h, max)) == system_part(h),
        dialogue_part(trimmed(h, max)) == (if h.len() <= max {
            dialogue_part(h)
        } else {
            keep_last(dialogue_part(h), max)
        }),
{
    if h.len() > max {
        let s = system_part(h);
        let d = keep_last(dialogue_part(h), max);
        lemma_system_part_all_system(h);
        lemma_all_system_parts(s);
        assert forall|i: int| 0 <= i < d.len() implies !is_system(#[trigger] d[i]) by {
            if dialogue_part(h).len() > max {
                assert(d[i] == dialogue_part(h)[i + (dialogue_part(h).len() - max)]);
            }
        }
        lemma_no_system_parts(d);
        lemma_parts_concat(s, d);
        assert(s + Seq::<MessageView>::empty() =~= s);
        assert(Seq::<MessageView>::empty() + d =~= d);
    }
}

/// Law: trimming keeps every system message, in order, and keeps no more
/// than `max` of the other messages; a longer history shrinks to its system
/// messages plus `max` others (or all others, when there are fewer).
pub proof fn law_trim_keeps_system_and_bounds_dialogue(h: Seq<MessageView>, max: nat)
    ensures
        system_part(trimmed(h, max)) == system_part(h),
        h.len() > max ==> dialogue_part(trimmed(h, max)).len() <= max,
        h.len() > max ==> trimmed(h, max).len() == system_part(h).len() + (if dialogue_part(
            h,
        ).len() > max {
            max
        } else {
            dialogue_part(h).len()
        }),
        trimmed(h, max).len() <= h.len(),
{
    lemma_trimmed_parts(h, max);
    lemma_parts_len(h);
    lemma_parts_len(trimmed(h, max));
}

/// Law: trimming an already trimmed history changes nothing.
pub proof fn law_trim_idempotent(h: Seq<MessageView>, max: nat)
    ensures
        trimmed(trimmed(h, max), max) == trimmed(h, max),
{
    let t = trimmed(h, max);
    if h.len() > max && t.len() > max {
        lemma_trimmed_parts(h, max);
        lemma_trimmed_parts(t, max);
        lemma_parts_len(h);
        assert(keep_last(dialogue_part(t), max) == dialogue_part(t));
    }
}

/// Trims `history` to `max` messages, as `trimmed` states: a longer history
/// keeps its system messages, followed by its last `max` other messages.
pub fn trim_history(history: &mut Vec<ConversationMessage>, max: usize)
    ensures
        history_view(final(history)@) == trimmed(history_view(old(history)@), max as nat),
{
    if history.len() <= max {
        return;
    }
    let mut all: Vec<ConversationMessage> = Vec::new();
    std::mem::swap(&mut all, history);
    let ghost hv = history_view(all@);
    let mut system_messages: Vec<ConversationMessage> = Vec::new();
    let mut other_messages: Vec<ConversationMessage> = Vec::new();
    for msg in it: all.into_iter()
        invariant
            it.seq() == all@,
            hv == history_view(all@),
            history_view(system_messages@) == system_part(hv.take(it.index() as int)),
            history_view(other_messages@) == dialogue_part(hv.take(it.index() as int)),
    {
        let ghost i = it.index() as int;
        proof {
            assert(hv.take(i + 1).drop_last() =~= hv.take(i));
            assert(hv.take(i + 1).last() == msg@);
        }
        if msg.is_system_message() {
            system_messages.push(msg);
            assert(history_view(system_messages@) =~= system_part(hv.take(i)).push(msg@));
        } else {
            other_messages.push(msg);
            assert(history_view(other_messages@) =~= dialogue_part(hv.take(i)).push(msg@));
        }
    }
    assert(hv.take(hv.len() as int) =~= hv);
    if other_messages.len() > max {
        let drop_count = other_messages.len() - max;
        let mut kept = other_messages.split_off(drop_count);
        assert(history_view(kept@) =~= dialogue_part(hv).skip(drop_count as int));
        other_messages = kept;
    }
    system_messages.append(&mut other_messages);
    *history = system_messages;
    assert(history_view(history@) =~= trimmed(hv, max as nat));
}

} // verus!

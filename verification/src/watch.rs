//! The hook watcher: it remembers the signature it saw last and fires when a
//! later one differs.
//!
//! The caller polls; this module decides. The first signature a watcher reads
//! is its baseline and never fires.

use vstd::prelude::*;
use crate::hooks::{poll_fault_message, poll_outcome, Hook, HookView, PollError, PollFault};
use crate::text::{append_str, str_eq, string_of};

verus! {

/// The state of one watcher: the signature seen last, empty while none has
/// been read.
#[derive(Debug, Clone)]
pub struct HookWatch {
    pub last_seen: String,
}

/// What the caller does after a poll.
#[derive(Debug, Clone)]
pub enum WatchAction {
    /// Nothing but to wait for the next poll.
    Wait,
    /// Run the hook's command for the change from `previous` to `current`.
    Fire { previous: String, current: String },
    /// Report a failed poll on the error stream.
    Report { text: String },
}

/// What a `WatchAction` holds, as plain values.
pub enum WatchEffect {
    Wait,
    Fire { previous: Seq<char>, current: Seq<char> },
    Report { text: Seq<char> },
}

impl View for WatchAction {
    type V = WatchEffect;

    open spec fn view(&self) -> WatchEffect {
        match self {
            WatchAction::Wait => WatchEffect::Wait,
            WatchAction::Fire { previous, current } => WatchEffect::Fire {
                previous: previous@,
                current: current@,
            },
            WatchAction::Report { text } => WatchEffect::Report { text: text@ },
        }
    }
}

/// The signature a watcher remembers after a poll: the one just read, or the
/// one it had if the poll failed.
pub open spec fn next_seen(last: Seq<char>, poll: Result<Seq<char>, PollFault>) -> Seq<char> {
    match poll {
        Ok(current) => current,
        Err(_) => last,
    }
}

/// The change a poll makes known: a signature was read, one was known
/// before, and the two differ.
pub open spec fn change_at(last: Seq<char>, poll: Result<Seq<char>, PollFault>) -> Option<
    (Seq<char>, Seq<char>),
> {
    match poll {
        Ok(current) => if last.len() > 0 && current != last {
            Some((last, current))
        } else {
            None
        },
        Err(_) => None,
    }
}

/// The report of a failed poll; the very first poll is named as such.
pub open spec fn poll_report(hook: HookView, fault: PollFault, first: bool) -> Seq<char> {
    "Hook "@ + hook.id + " ("@ + hook.name + (if first {
        ") initial poll failed: "@
    } else {
        ") poll failed: "@
    }) + poll_fault_message(fault)
}

/// What the caller does after a poll.
pub open spec fn effect_of(
    hook: HookView,
    last: Seq<char>,
    poll: Result<Seq<char>, PollFault>,
    first: bool,
) -> WatchEffect {
    match poll {
        Err(fault) => WatchEffect::Report { text: poll_report(hook, fault, first) },
        Ok(current) => match change_at(last, poll) {
            Some((previous, current)) => WatchEffect::Fire { previous, current },
            None => WatchEffect::Wait,
        },
    }
}

impl HookWatch {
    /// A watcher that has read no signature yet.
    pub fn new() -> (watch: HookWatch)
        ensures
            watch.last_seen@.len() == 0,
    {
        HookWatch { last_seen: String::new() }
    }

    /// Takes in the result of a poll; `first` says that it is the poll made at
    /// startup.
    ///
    /// A failed poll is reported and changes nothing. A signature read while
    /// none is known becomes the baseline. A signature that differs from the
    /// known one fires, with the known one as previous and the new one as
    /// current. In both cases the signature read is the one known from now
    /// on.
    pub fn observe(&mut self, hook: &Hook, poll: &Result<String, PollError>, first: bool) -> (action:
        WatchAction)
        ensures
            final(self).last_seen@ == next_seen(old(self).last_seen@, poll_outcome(*poll)),
            action@ == effect_of(hook@, old(self).last_seen@, poll_outcome(*poll), first),
    {
        match poll {
            Err(error) => {
                let mut text: Vec<char> = Vec::new();
                append_str(&mut text, "Hook ");
                append_str(&mut text, hook.id.as_str());
                append_str(&mut text, " (");
                append_str(&mut text, hook.name.as_str());
                if first {
                    append_str(&mut text, ") initial poll failed: ");
                } else {
                    append_str(&mut text, ") poll failed: ");
                }
                append_str(&mut text, error.message().as_str());
                assert(text@ =~= poll_report(hook@, error@, first));
                WatchAction::Report { text: string_of(&text) }
            },
            Ok(current) => {
                let known: bool = !str_eq(self.last_seen.as_str(), "");
                proof {
                    reveal_strlit("");
                    assert(known == (self.last_seen@.len() > 0)) by {
                        if self.last_seen@.len() == 0 {
                            assert(self.last_seen@ =~= ""@);
                        }
                    }
                }
                let changed: bool = known && !str_eq(current.as_str(), self.last_seen.as_str());
                let previous = self.last_seen.clone();
                self.last_seen = current.clone();
                if changed {
                    WatchAction::Fire { previous, current: current.clone() }
                } else {
                    WatchAction::Wait
                }
            },
        }
    }
}

// ---------------------------------------------------------------------------
// A watcher over a run of polls
// ---------------------------------------------------------------------------

/// The signature a fresh watcher remembers after a run of polls.
pub open spec fn seen_after(polls: Seq<Result<Seq<char>, PollFault>>) -> Seq<char>
    decreases polls.len(),
{
    if polls.len() == 0 {
        Seq::empty()
    } else {
        next_seen(seen_after(polls.drop_last()), polls.last())
    }
}

/// The changes a fresh watcher fires for over a run of polls, in order.
pub open spec fn fired_over(polls: Seq<Result<Seq<char>, PollFault>>) -> Seq<
    (Seq<char>, Seq<char>),
>
    decreases polls.len(),
{
    if polls.len() == 0 {
        Seq::empty()
    } else {
        let before = fired_over(polls.drop_last());
        match change_at(seen_after(polls.drop_last()), polls.last()) {
            Some(change) => before.push(change),
            None => before,
        }
    }
}

/// The signatures that a run of polls read, in order.
pub open spec fn signatures_read(polls: Seq<Result<Seq<char>, PollFault>>) -> Seq<Seq<char>>
    decreases polls.len(),
{
    if polls.len() == 0 {
        Seq::empty()
    } else {
        match polls.last() {
            Ok(signature) => signatures_read(polls.drop_last()).push(signature),
            Err(_) => signatures_read(polls.drop_last()),
        }
    }
}

/// Each signature but the first, paired with the one read before it.
pub open spec fn adjacent_pairs(seen: Seq<Seq<char>>) -> Seq<(Seq<char>, Seq<char>)> {
    Seq::new(
        if seen.len() == 0 {
            0
        } else {
            (seen.len() - 1) as nat
        },
        |i: int| (seen[i], seen[i + 1]),
    )
}

/// The two signatures of a pair differ.
pub open spec fn differs(pair: (Seq<char>, Seq<char>)) -> bool {
    pair.0 != pair.1
}

/// The changes in a run of signatures: each signature that differs from the
/// one read before it, paired with that one.
pub open spec fn changes(seen: Seq<Seq<char>>) -> Seq<(Seq<char>, Seq<char>)> {
    adjacent_pairs(seen).filter(|pair: (Seq<char>, Seq<char>)| differs(pair))
}

/// Every signature that the polls read is not empty.
pub open spec fn reads_signatures(polls: Seq<Result<Seq<char>, PollFault>>) -> bool {
    forall|i: int| 0 <= i < polls.len() && (#[trigger] polls[i]) is Ok ==> polls[i]->Ok_0.len() > 0
}

/// A watcher never fires on the first signature it reads, and it fires
/// exactly once for each later signature that differs from the one read
/// before it, with exactly those two as previous and current. Failed polls
/// change nothing.
pub proof fn lemma_fires_once_per_change(polls: Seq<Result<Seq<char>, PollFault>>)
    requires
        reads_signatures(polls),
    ensures
        fired_over(polls) == changes(signatures_read(polls)),
        seen_after(polls) == if signatures_read(polls).len() == 0 {
            Seq::<char>::empty()
        } else {
            signatures_read(polls).last()
        },
        forall|i: int| 0 <= i < signatures_read(polls).len() ==> (#[trigger] signatures_read(
            polls,
        )[i]).len() > 0,
    decreases polls.len(),
{
    reveal(Seq::filter);
    if polls.len() == 0 {
        assert(adjacent_pairs(signatures_read(polls)) =~= Seq::empty());
    } else {
        let init = polls.drop_last();
        assert forall|i: int| 0 <= i < init.len() && (#[trigger] init[i]) is Ok implies init[i]->Ok_0.len()
            > 0 by {
            assert(init[i] == polls[i]);
        }
        lemma_fires_once_per_change(init);
        let read = signatures_read(init);
        let last = polls.last();
        assert(last == polls[polls.len() - 1]);
        match last {
            Err(_) => {},
            Ok(signature) => {
                let now = read.push(signature);
                assert(signature.len() > 0);
                if read.len() == 0 {
                    assert(adjacent_pairs(now) =~= Seq::empty());
                    assert(adjacent_pairs(read) =~= Seq::empty());
                } else {
                    let pair = (read.last(), signature);
                    assert(adjacent_pairs(now) =~= adjacent_pairs(read).push(pair));
                    assert(adjacent_pairs(now).drop_last() =~= adjacent_pairs(read));
                    assert(adjacent_pairs(now).last() == pair);
                    assert(read.last() == read[read.len() - 1]);
                }
            },
        }
    }
}

/// The first signature read never fires: up to and including the first
/// successful poll, nothing is fired.
pub proof fn lemma_first_read_never_fires(polls: Seq<Result<Seq<char>, PollFault>>)
    requires
        reads_signatures(polls),
        signatures_read(polls).len() <= 1,
    ensures
        fired_over(polls).len() == 0,
{
    lemma_fires_once_per_change(polls);
    reveal(Seq::filter);
    assert(adjacent_pairs(signatures_read(polls)) =~= Seq::empty());
}

} // verus!

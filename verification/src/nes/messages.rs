//! Short notices shown over the picture for a few seconds.

use vstd::prelude::*;

verus! {

/// How long a message stays on screen, in milliseconds.
pub const MESSAGE_LIFETIME_MS: u64 = 3000;

/// A message and the time at which it was added, in milliseconds on the
/// host's clock.
#[derive(Debug)]
pub struct Message {
    pub text: String,
    pub created_ms: u64,
}

/// The messages on screen, oldest first.
#[derive(Debug)]
pub struct Messages {
    pub entries: Vec<Message>,
}

/// Whether a message added at `created_ms` is still shown at `now_ms`.
pub open spec fn spec_fresh(created_ms: u64, now_ms: u64) -> bool {
    now_ms < created_ms + MESSAGE_LIFETIME_MS
}

/// The messages of `entries` that are still shown at `now_ms`, in order.
pub open spec fn spec_live(entries: Seq<Message>, now_ms: u64) -> Seq<Message>
    decreases entries.len(),
{
    if entries.len() == 0 {
        entries
    } else if spec_fresh(entries.last().created_ms, now_ms) {
        spec_live(entries.drop_last(), now_ms).push(entries.last())
    } else {
        spec_live(entries.drop_last(), now_ms)
    }
}

/// `entries` with every message dropped that repeats the text of the one
/// just before it.
pub open spec fn spec_dedup(entries: Seq<Message>) -> Seq<Message>
    decreases entries.len(),
{
    if entries.len() == 0 {
        entries
    } else if entries.len() >= 2 && entries[entries.len() - 2].text@ == entries.last().text@ {
        spec_dedup(entries.drop_last())
    } else {
        spec_dedup(entries.drop_last()).push(entries.last())
    }
}

/// The messages that a frame at `now_ms` shows.
pub open spec fn spec_shown(entries: Seq<Message>, now_ms: u64) -> Seq<Message> {
    spec_dedup(spec_live(entries, now_ms))
}

/// Whether the message is still shown at `now_ms`.
pub fn fresh(created_ms: u64, now_ms: u64) -> (yes: bool)
    ensures
        yes == spec_fresh(created_ms, now_ms),
{
    let elapsed: u64 = if now_ms >= created_ms {
        now_ms - created_ms
    } else {
        0
    };
    elapsed < MESSAGE_LIFETIME_MS
}

impl Messages {
    pub fn new() -> (m: Self)
        ensures
            m.entries@ == Seq::<Message>::empty(),
    {
        Messages { entries: Vec::new() }
    }

    /// Adds a message at time `now_ms`.
    pub fn add_message(&mut self, text: String, now_ms: u64)
        ensures
            final(self).entries@ == old(self).entries@.push(Message { text, created_ms: now_ms }),
    {
        self.entries.push(Message { text, created_ms: now_ms });
    }

    /// Drops the messages that have been on screen for their lifetime and
    /// those that repeat the one before them, and returns the texts of
    /// the rest for drawing, oldest first.
    pub fn render_messages(&mut self, now_ms: u64) -> (texts: Vec<String>)
        ensures
            final(self).entries@ == spec_shown(old(self).entries@, now_ms),
            texts@.len() == final(self).entries@.len(),
            forall|i: int| 0 <= i < texts@.len() ==> (#[trigger] texts@[i])@ == final(self).entries@[i].text@,
    {
        let mut live: Vec<Message> = Vec::new();
        let mut i: usize = 0;
        while i < self.entries.len()
            invariant
                i <= self.entries@.len(),
                self.entries@ == old(self).entries@,
                live@ == spec_live(self.entries@.take(i as int), now_ms),
            decreases self.entries@.len() - i,
        {
            proof {
                assert(self.entries@.take(i + 1).drop_last() =~= self.entries@.take(i as int));
            }
            if fresh(self.entries[i].created_ms, now_ms) {
                live.push(
                    Message { text: self.entries[i].text.clone(), created_ms: self.entries[i].created_ms },
                );
            }
            i += 1;
        }
        proof {
            assert(self.entries@.take(i as int) =~= self.entries@);
        }
        let mut kept: Vec<Message> = Vec::new();
        let mut texts: Vec<String> = Vec::new();
        let mut j: usize = 0;
        while j < live.len()
            invariant
                j <= live@.len(),
                kept@ == spec_dedup(live@.take(j as int)),
                texts@.len() == kept@.len(),
                forall|k: int| 0 <= k < texts@.len() ==> (#[trigger] texts@[k])@ == kept@[k].text@,
            decreases live@.len() - j,
        {
            proof {
                assert(live@.take(j + 1).drop_last() =~= live@.take(j as int));
            }
            if j == 0 || live[j - 1].text != live[j].text {
                kept.push(Message { text: live[j].text.clone(), created_ms: live[j].created_ms });
                texts.push(live[j].text.clone());
            }
            j += 1;
        }
        proof {
            assert(live@.take(j as int) =~= live@);
        }
        self.entries = kept;
        texts
    }
}

/// Every message that is kept is still within its lifetime, and no more
/// are kept than there were.
pub proof fn lemma_live_are_fresh(entries: Seq<Message>, now_ms: u64, i: int)
    requires
        0 <= i < spec_live(entries, now_ms).len(),
    ensures
        spec_fresh(spec_live(entries, now_ms)[i].created_ms, now_ms),
        spec_live(entries, now_ms).len() <= entries.len(),
    decreases entries.len(),
{
    if entries.len() > 0 {
        let rest = spec_live(entries.drop_last(), now_ms);
        lemma_live_len(entries.drop_last(), now_ms);
        if i < rest.len() {
            lemma_live_are_fresh(entries.drop_last(), now_ms, i);
        }
    }
}

proof fn lemma_live_len(entries: Seq<Message>, now_ms: u64)
    ensures
        spec_live(entries, now_ms).len() <= entries.len(),
    decreases entries.len(),
{
    if entries.len() > 0 {
        lemma_live_len(entries.drop_last(), now_ms);
    }
}

/// After repeats are dropped, no message has the text of the one shown
/// just before it.
pub proof fn lemma_dedup_has_no_repeats(entries: Seq<Message>, i: int)
    requires
        0 < i < spec_dedup(entries).len(),
    ensures
        spec_dedup(entries)[i - 1].text@ != spec_dedup(entries)[i].text@,
    decreases entries.len(),
{
    lemma_dedup_last(entries);
    if entries.len() > 0 {
        let rest = spec_dedup(entries.drop_last());
        lemma_dedup_last(entries.drop_last());
        if entries.len() >= 2 && entries[entries.len() - 2].text@ == entries.last().text@ {
            lemma_dedup_has_no_repeats(entries.drop_last(), i);
        } else if i < rest.len() {
            lemma_dedup_has_no_repeats(entries.drop_last(), i);
        }
    }
}

/// Dropping repeats keeps the text that the sequence ends with.
proof fn lemma_dedup_last(entries: Seq<Message>)
    ensures
        entries.len() > 0 ==> spec_dedup(entries).len() > 0 && spec_dedup(entries).last().text@
            == entries.last().text@,
        entries.len() == 0 ==> spec_dedup(entries).len() == 0,
    decreases entries.len(),
{
    if entries.len() > 0 {
        lemma_dedup_last(entries.drop_last());
    }
}

} // verus!

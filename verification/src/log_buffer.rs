//! A bounded log of recent messages, shown in the interface and optionally
//! echoed to the terminal.
use vstd::prelude::*;
use std::collections::VecDeque;
use crate::text::{owned, strings_view};

verus! {

/// The entries after recording `message`: when the log already holds
/// `capacity` entries (and `capacity` is not zero) the oldest one leaves.
pub open spec fn ring_push(entries: Seq<Seq<char>>, capacity: nat, message: Seq<char>) -> Seq<
    Seq<char>,
> {
    if capacity > 0 && entries.len() == capacity {
        entries.drop_first().push(message)
    } else {
        entries.push(message)
    }
}

/// The entries of a new log of `capacity` after recording `messages` in order.
pub open spec fn ring_after(capacity: nat, messages: Seq<Seq<char>>) -> Seq<Seq<char>>
    decreases messages.len(),
{
    if messages.len() == 0 {
        seq![]
    } else {
        ring_push(ring_after(capacity, messages.drop_last()), capacity, messages.last())
    }
}

/// A log of at most `capacity` recent messages, oldest first, with a flag
/// that asks for recorded messages to be echoed to the terminal.
pub struct LogBuffer {
    entries: VecDeque<String>,
    capacity: usize,
    terminal_logging_enabled: bool,
}

impl LogBuffer {
    /// The recorded messages, oldest first.
    pub closed spec fn entry_texts(&self) -> Seq<Seq<char>> {
        strings_view(self.entries@)
    }

    /// The number of messages the log keeps.
    pub closed spec fn capacity_limit(&self) -> nat {
        self.capacity as nat
    }

    /// The log holds no more messages than it keeps, when it keeps any.
    pub open spec fn within_capacity(&self) -> bool {
        self.capacity_limit() > 0 ==> self.entry_texts().len() <= self.capacity_limit()
    }

    /// Whether recorded messages are echoed to the terminal.
    pub closed spec fn echoes(&self) -> bool {
        self.terminal_logging_enabled
    }

    /// An empty log that keeps `capacity` messages and does not echo.
    pub fn new(capacity: usize) -> (logs: LogBuffer)
        ensures
            logs.entry_texts() == Seq::<Seq<char>>::empty(),
            logs.capacity_limit() == capacity,
            !logs.echoes(),
            logs.within_capacity(),
    {
        LogBuffer {
            entries: VecDeque::with_capacity(capacity),
            capacity,
            terminal_logging_enabled: false,
        }
    }

    fn push_entry(&mut self, message: &str) -> (echo: bool)
        ensures
            final(self).entry_texts() == ring_push(
                old(self).entry_texts(),
                old(self).capacity_limit(),
                message@,
            ),
            final(self).capacity_limit() == old(self).capacity_limit(),
            final(self).echoes() == old(self).echoes(),
            echo == old(self).echoes(),
    {
        if self.entries.len() == self.capacity {
            let _ = self.entries.pop_front();
        }
        self.entries.push_back(owned(message));
        self.terminal_logging_enabled
    }

    /// Records `message`; the result says whether it is to be echoed to the
    /// terminal as well.
    pub fn record(&mut self, message: &str) -> (echo: bool)
        ensures
            final(self).entry_texts() == ring_push(
                old(self).entry_texts(),
                old(self).capacity_limit(),
                message@,
            ),
            final(self).capacity_limit() == old(self).capacity_limit(),
            final(self).echoes() == old(self).echoes(),
            echo == old(self).echoes(),
            old(self).within_capacity() ==> final(self).within_capacity(),
    {
        self.push_entry(message)
    }

    /// Records `message`, which is echoed to the terminal in any case.
    pub fn record_stderr(&mut self, message: &str)
        ensures
            final(self).entry_texts() == ring_push(
                old(self).entry_texts(),
                old(self).capacity_limit(),
                message@,
            ),
            final(self).capacity_limit() == old(self).capacity_limit(),
            final(self).echoes() == old(self).echoes(),
            old(self).within_capacity() ==> final(self).within_capacity(),
    {
        let _ = self.push_entry(message);
    }

    /// Turns echoing to the terminal on or off.
    pub fn set_terminal_logging_enabled(&mut self, enabled: bool)
        ensures
            final(self).echoes() == enabled,
            final(self).entry_texts() == old(self).entry_texts(),
            final(self).capacity_limit() == old(self).capacity_limit(),
    {
        self.terminal_logging_enabled = enabled;
    }

    /// Whether recorded messages are echoed to the terminal.
    pub fn terminal_logging_enabled(&self) -> (enabled: bool)
        ensures
            enabled == self.echoes(),
    {
        self.terminal_logging_enabled
    }

    /// The recorded messages, oldest first.
    pub fn entries(&self) -> (entries: Vec<String>)
        ensures
            strings_view(entries@) == self.entry_texts(),
    {
        let mut out: Vec<String> = Vec::new();
        let n = self.entries.len();
        let mut i: usize = 0;
        while i < n
            invariant
                n == self.entries@.len(),
                i <= n,
                strings_view(out@) == self.entry_texts().take(i as int),
            decreases n - i,
        {
            let item: &String = &self.entries[i];
            let copy = item.clone();
            out.push(copy);
            proof {
                assert(self.entry_texts().take(i + 1) =~= self.entry_texts().take(i as int).push(
                    self.entries@[i as int]@,
                ));
            }
            i += 1;
        }
        out
    }
}

/// A log with room for at least one message keeps the latest messages: after
/// recording `messages` into a new log, it holds the last `capacity` of them
/// (all of them when there are fewer), oldest first.
pub proof fn lemma_log_keeps_latest(capacity: nat, messages: Seq<Seq<char>>)
    requires
        capacity > 0,
    ensures
        ring_after(capacity, messages) == messages.skip(
            if messages.len() > capacity {
                messages.len() - capacity
            } else {
                0
            },
        ),
    decreases messages.len(),
{
    if messages.len() > 0 {
        let prefix = messages.drop_last();
        lemma_log_keeps_latest(capacity, prefix);
        let before = ring_after(capacity, prefix);
        if prefix.len() >= capacity {
            assert(before.drop_first().push(messages.last()) =~= messages.skip(
                messages.len() - capacity,
            ));
        }
    }
}

/// A log with room for at least one message never holds more than its
/// capacity: recording into a log within its capacity leaves it within it.
pub proof fn lemma_log_stays_within_capacity(entries: Seq<Seq<char>>, capacity: nat, message: Seq<char>)
    requires
        capacity > 0,
        entries.len() <= capacity,
    ensures
        ring_push(entries, capacity, message).len() <= capacity,
        ring_push(entries, capacity, message).last() == message,
{
}

} // verus!

//! Leveled log entries and the append-only store they live in.
//!
//! The store keeps every entry for the whole session, in append order; the
//! display only ever asks for the most recent few through [`LogStore::visible`].

use vstd::prelude::*;

verus! {

/// One immutable log line: a short level tag (`INFO`, `ERROR`, `DOCKER`, ...)
/// and a message.
pub struct LogEntry {
    pub level: String,
    pub message: String,
}

impl View for LogEntry {
    type V = (Seq<char>, Seq<char>);

    open spec fn view(&self) -> (Seq<char>, Seq<char>) {
        (self.level@, self.message@)
    }
}

impl LogEntry {
    /// Builds an entry from a level tag and a message.
    pub fn new(level: &str, message: &str) -> (e: LogEntry)
        ensures
            e@ == (level@, message@),
    {
        LogEntry { level: level.to_owned(), message: message.to_owned() }
    }

    /// A copy of this entry with the same level and message.
    pub fn duplicate(&self) -> (e: LogEntry)
        ensures
            e@ == self@,
    {
        LogEntry { level: self.level.clone(), message: self.message.clone() }
    }
}

/// An ordered, append-only store of log entries. Entries are never mutated or
/// removed; readers see them in the order they were appended.
pub struct LogStore {
    entries: Vec<LogEntry>,
}

impl View for LogStore {
    type V = Seq<(Seq<char>, Seq<char>)>;

    closed spec fn view(&self) -> Seq<(Seq<char>, Seq<char>)> {
        self.entries@.map_values(|e: LogEntry| e@)
    }
}

/// The last `min(n, s.len())` elements of `s`, in their original order.
pub open spec fn last_n<T>(s: Seq<T>, n: int) -> Seq<T> {
    if n >= s.len() {
        s
    } else {
        s.subrange(s.len() - n, s.len() as int)
    }
}

/// For any store contents, the visible window holds exactly the last
/// `min(n, total)` entries, in their original chronological order.
pub proof fn lemma_last_n_window<T>(s: Seq<T>, n: int)
    requires
        n >= 0,
    ensures
        last_n(s, n).len() == if n <= s.len() {
            n
        } else {
            s.len() as int
        },
        forall|i: int|
            0 <= i < last_n(s, n).len() ==> last_n(s, n)[i] == s[s.len() - last_n(s, n).len() + i],
{
}

impl LogStore {
    /// An empty store.
    pub fn new() -> (s: LogStore)
        ensures
            s@ == Seq::<(Seq<char>, Seq<char>)>::empty(),
    {
        let s = LogStore { entries: Vec::new() };
        proof {
            assert(s@ =~= Seq::<(Seq<char>, Seq<char>)>::empty());
        }
        s
    }

    /// How many entries have ever been appended.
    pub fn len(&self) -> (n: usize)
        ensures
            n == self@.len(),
    {
        self.entries.len()
    }

    /// Appends one entry at the end. Entries already stored are untouched.
    pub fn append(&mut self, e: LogEntry)
        ensures
            final(self)@ == old(self)@.push(e@),
    {
        self.entries.push(e);
        proof {
            assert(self@ =~= old(self)@.push(self.entries@.last()@));
        }
    }

    /// The last `min(n, len)` entries in chronological (append) order,
    /// copied out for display.
    pub fn visible(&self, n: usize) -> (r: Vec<LogEntry>)
        ensures
            r@.len() == last_n(self@, n as int).len(),
            r@.map_values(|e: LogEntry| e@) == last_n(self@, n as int),
    {
        let len = self.entries.len();
        let start = if n >= len { 0 } else { len - n };
        let mut r: Vec<LogEntry> = Vec::new();
        let mut i = start;
        while i < len
            invariant
                start <= i <= len,
                len == self.entries@.len(),
                r@.len() == i - start,
                forall|j: int| 0 <= j < r@.len() ==> r@[j]@ == self@[start + j],
            decreases len - i,
        {
            r.push(self.entries[i].duplicate());
            i = i + 1;
        }
        proof {
            let mapped = r@.map_values(|e: LogEntry| e@);
            assert forall|j: int| 0 <= j < mapped.len() implies mapped[j] == last_n(
                self@,
                n as int,
            )[j] by {
                assert(mapped[j] == r@[j]@);
            }
            assert(mapped =~= last_n(self@, n as int));
        }
        r
    }
}

} // verus!

//! Captured log records: a bounded buffer that keeps the most recent
//! records in arrival order, and the reading of a formatted log line.

use vstd::prelude::*;
use crate::tabs::Level;
use crate::text::{
    char_at, char_count, contains, contains_str, find_str, is_first_occurrence, owned, substring, trim, trimmed, upper,
};
use crate::config::opt_view;

verus! {

/// Maximum number of log entries retained in the buffer.
pub const RING_CAPACITY: usize = 500;

/// A single captured log entry.
#[derive(Debug)]
pub struct LogEntry {
    /// Capture time, milliseconds since the Unix epoch.
    pub timestamp: i64,
    pub level: Level,
    pub target: String,
    pub message: String,
}

impl LogEntry {
    /// A copy of the entry.
    pub fn duplicate(&self) -> (r: LogEntry)
        ensures
            r == *self,
    {
        LogEntry {
            timestamp: self.timestamp,
            level: self.level,
            target: self.target.clone(),
            message: self.message.clone(),
        }
    }
}

/// The records kept after `all` arrived in order: the last `RING_CAPACITY`.
pub open spec fn kept(all: Seq<LogEntry>) -> Seq<LogEntry> {
    if all.len() <= RING_CAPACITY {
        all
    } else {
        all.skip(all.len() - RING_CAPACITY)
    }
}

/// Recent log entries, oldest first, at most `RING_CAPACITY` of them.
#[derive(Debug)]
pub struct LogRingBuffer {
    entries: Vec<LogEntry>,
}

impl View for LogRingBuffer {
    type V = Seq<LogEntry>;

    closed spec fn view(&self) -> Seq<LogEntry> {
        self.entries@
    }
}

impl LogRingBuffer {
    /// The buffer never holds more than its capacity.
    #[verifier::type_invariant]
    spec fn within_capacity(&self) -> bool {
        self.entries@.len() <= RING_CAPACITY
    }

    pub fn new() -> (r: Self)
        ensures
            r@ == Seq::<LogEntry>::empty(),
    {
        LogRingBuffer { entries: Vec::new() }
    }

    /// Push a new log entry, evicting the oldest if at capacity.
    pub fn push(&mut self, entry: LogEntry)
        ensures
            final(self)@ == kept(old(self)@.push(entry)),
    {
        proof {
            use_type_invariant(&*self);
        }
        let mut entries: Vec<LogEntry> = Vec::new();
        std::mem::swap(&mut entries, &mut self.entries);
        let ghost before = entries@;
        if entries.len() >= RING_CAPACITY {
            entries.remove(0);
        }
        entries.push(entry);
        proof {
            if before.len() >= RING_CAPACITY {
                assert(entries@ =~= before.push(entry).skip(before.push(entry).len() - RING_CAPACITY));
            }
        }
        self.entries = entries;
    }

    /// All entries, oldest first.
    pub fn snapshot(&self) -> (r: Vec<LogEntry>)
        ensures
            r@ == self@,
    {
        let mut out: Vec<LogEntry> = Vec::new();
        let mut i: usize = 0;
        while i < self.entries.len()
            invariant
                i <= self.entries@.len(),
                out@ == self.entries@.take(i as int),
            decreases self.entries@.len() - i,
        {
            out.push(self.entries[i].duplicate());
            i = i + 1;
            assert(out@ =~= self.entries@.take(i as int));
        }
        assert(self.entries@.take(i as int) =~= self.entries@);
        out
    }

    /// The most recent entry, if any.
    pub fn latest(&self) -> (r: Option<LogEntry>)
        ensures
            r == (if self@.len() == 0 { None } else { Some(self@.last()) }),
    {
        let n = self.entries.len();
        if n == 0 {
            None
        } else {
            Some(self.entries[n - 1].duplicate())
        }
    }

    /// The entry at position `i` (oldest first).
    pub fn get(&self, i: usize) -> (r: &LogEntry)
        requires
            i < self@.len(),
        ensures
            *r == self@[i as int],
    {
        &self.entries[i]
    }

    /// Number of entries currently stored.
    pub fn len(&self) -> (r: usize)
        ensures
            r == self@.len(),
            r <= RING_CAPACITY,
    {
        proof {
            use_type_invariant(self);
        }
        self.entries.len()
    }
}

/// After any sequence of pushes into an empty buffer, the buffer holds
/// exactly the last `RING_CAPACITY` entries pushed, in push order; pushing
/// one more onto any buffer contents keeps that property.
pub proof fn ring_keeps_latest(all: Seq<LogEntry>, e: LogEntry)
    ensures
        kept(kept(all).push(e)) == kept(all.push(e)),
        kept(all).len() <= RING_CAPACITY,
        kept(all).len() == (if all.len() <= RING_CAPACITY { all.len() } else { RING_CAPACITY as nat }),
        kept(all).len() > 0 ==> kept(all).last() == all.last(),
{
    if all.len() > RING_CAPACITY {
        assert(kept(all).push(e) =~= all.push(e).skip(all.len() - RING_CAPACITY));
        assert(kept(kept(all).push(e)) =~= kept(all.push(e)));
    } else {
        assert(kept(kept(all).push(e)) =~= kept(all.push(e)));
    }
}

/// The level a formatted log line names: the first of ERROR, WARN, DEBUG,
/// TRACE found in its upper-cased text, else INFO.
pub open spec fn level_in_text(text: Seq<char>) -> Level {
    let u = upper(text);
    if contains(u, "ERROR"@) {
        Level::ERROR
    } else if contains(u, "WARN"@) {
        Level::WARN
    } else if contains(u, "DEBUG"@) {
        Level::DEBUG
    } else if contains(u, "TRACE"@) {
        Level::TRACE
    } else {
        Level::INFO
    }
}

fn to_upper(s: &str) -> (r: String)
    ensures
        r@ == upper(s@),
{
    let n = char_count(s);
    let mut out = String::new();
    let mut i: usize = 0;
    while i < n
        invariant
            i <= n,
            n == s@.len(),
            out@ == upper(s@.take(i as int)),
        decreases n - i,
    {
        let c = char_at(s, i);
        let u: char = if 'a' <= c && c <= 'z' {
            (((c as u32) - 32) as u8) as char
        } else {
            c
        };
        crate::text::push_char(&mut out, u);
        i = i + 1;
        assert(upper(s@.take(i as int)) =~= upper(s@.take((i - 1) as int)).push(crate::text::upper_char(c)));
    }
    assert(s@.take(n as int) =~= s@);
    out
}

/// Parse the tracing level from formatted output.
pub fn parse_level_from_text(text: &str) -> (r: Level)
    ensures
        r == level_in_text(text@),
{
    let u = to_upper(text);
    if contains_str(u.as_str(), "ERROR") {
        Level::ERROR
    } else if contains_str(u.as_str(), "WARN") {
        Level::WARN
    } else if contains_str(u.as_str(), "DEBUG") {
        Level::DEBUG
    } else if contains_str(u.as_str(), "TRACE") {
        Level::TRACE
    } else {
        Level::INFO
    }
}


/// `s` without its leading colons.
pub open spec fn skip_colons(s: Seq<char>) -> Seq<char>
    decreases s.len(),
{
    if s.len() > 0 && s[0] == ':' {
        skip_colons(s.skip(1))
    } else {
        s
    }
}

/// The message after the first `keyword` of `t`: what follows it, without
/// leading colons and surrounding white space, when that is not empty.
pub open spec fn message_after(t: Seq<char>, keyword: Seq<char>) -> Option<Seq<char>> {
    if exists|i: int| is_first_occurrence(t, keyword, i) {
        let i = choose|i: int| is_first_occurrence(t, keyword, i);
        let m = trimmed(skip_colons(t.skip(i + keyword.len())));
        if m.len() > 0 {
            Some(m)
        } else {
            None
        }
    } else {
        None
    }
}

/// The message of a formatted log line: the text after the first level
/// keyword found (ERROR, WARN, INFO, DEBUG, TRACE tried in that order) that
/// leaves a message, else the whole trimmed line.
pub open spec fn stripped(text: Seq<char>) -> Seq<char> {
    let t = trimmed(text);
    match message_after(t, "ERROR"@) {
        Some(m) => m,
        None => match message_after(t, "WARN"@) {
            Some(m) => m,
            None => match message_after(t, "INFO"@) {
                Some(m) => m,
                None => match message_after(t, "DEBUG"@) {
                    Some(m) => m,
                    None => match message_after(t, "TRACE"@) {
                        Some(m) => m,
                        None => t,
                    },
                },
            },
        },
    }
}

fn after_keyword(t: &str, keyword: &str) -> (r: Option<String>)
    ensures
        opt_view(r) == message_after(t@, keyword@),
{
    match find_str(t, keyword) {
        None => {
            assert(!exists|i: int| is_first_occurrence(t@, keyword@, i));
            None
        },
        Some(pos) => {
            let ghost chosen = choose|i: int| is_first_occurrence(t@, keyword@, i);
            assert(chosen == pos as int) by {
                if chosen < pos as int {
                } else if chosen > pos as int {
                }
            }
            let n = char_count(t);
            let mut k: usize = pos + char_count(keyword);
            let ghost rest = t@.skip(k as int);
            assert(rest.skip(0) =~= rest);
            while k < n && char_at(t, k) == ':'
                invariant
                    pos + keyword@.len() <= k <= n,
                    n == t@.len(),
                    rest == t@.skip(pos + keyword@.len()),
                    skip_colons(rest) == skip_colons(t@.skip(k as int)),
                decreases n - k,
            {
                assert(t@.skip(k as int).skip(1) =~= t@.skip(k + 1));
                k = k + 1;
            }
            let tail = substring(t, k, n);
            assert(tail@ =~= t@.skip(k as int));
            let m = trim(tail.as_str());
            if char_count(m.as_str()) > 0 {
                Some(m)
            } else {
                None
            }
        },
    }
}

/// The message of a formatted log line, without the level and timestamp
/// the formatter puts before it.
pub fn strip_prefix(text: &str) -> (r: String)
    ensures
        r@ == stripped(text@),
{
    let t = trim(text);
    match after_keyword(t.as_str(), "ERROR") {
        Some(m) => return m,
        None => {},
    }
    match after_keyword(t.as_str(), "WARN") {
        Some(m) => return m,
        None => {},
    }
    match after_keyword(t.as_str(), "INFO") {
        Some(m) => return m,
        None => {},
    }
    match after_keyword(t.as_str(), "DEBUG") {
        Some(m) => return m,
        None => {},
    }
    match after_keyword(t.as_str(), "TRACE") {
        Some(m) => return m,
        None => {},
    }
    t
}

/// The entry recorded for one formatted line: the level the logger gave,
/// else the one the text names; the logger's target, else empty; and the
/// stripped message. A line with no message records nothing.
pub fn capture_line(text: &str, level_hint: Option<Level>, target_hint: &Option<String>, timestamp: i64) -> (r: Option<
    LogEntry,
>)
    ensures
        match r {
            Some(e) => {
                &&& stripped(text@).len() > 0
                &&& e.message@ == stripped(text@)
                &&& e.level == match level_hint {
                    Some(l) => l,
                    None => level_in_text(text@),
                }
                &&& e.target@ == match target_hint {
                    Some(t) => t@,
                    None => Seq::<char>::empty(),
                }
                &&& e.timestamp == timestamp
            },
            None => stripped(text@).len() == 0,
        },
{
    let message = strip_prefix(text);
    if char_count(message.as_str()) == 0 {
        return None;
    }
    let level = match level_hint {
        Some(l) => l,
        None => parse_level_from_text(text),
    };
    let target = match target_hint {
        Some(t) => t.clone(),
        None => String::new(),
    };
    Some(LogEntry { timestamp, level, target, message })
}

} // verus!

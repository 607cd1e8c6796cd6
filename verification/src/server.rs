//! The development server's request log and its in-memory log of client messages.
use vstd::prelude::*;

verus! {

/// How many client log messages the server keeps.
pub const MAX_LOG_ENTRIES: usize = 1000;

/// The most recent client log messages, oldest first.
pub struct LogBuffer {
    entries: Vec<String>,
}

/// What stays of `s` once only the last `MAX_LOG_ENTRIES` are kept.
pub open spec fn kept_entries(s: Seq<String>) -> Seq<String> {
    if s.len() > MAX_LOG_ENTRIES {
        s.skip(s.len() - MAX_LOG_ENTRIES)
    } else {
        s
    }
}

/// A log line: the timestamp in brackets, a space, then the message.
pub open spec fn log_entry_text(timestamp: Seq<char>, body: Seq<char>) -> Seq<char> {
    "["@ + timestamp + "] "@ + body
}

impl LogBuffer {
    /// The kept messages, oldest first.
    pub closed spec fn view_entries(self) -> Seq<String> {
        self.entries@
    }

    /// An empty log.
    pub fn new() -> (r: Self)
        ensures
            r.view_entries() == Seq::<String>::empty(),
    {
        LogBuffer { entries: Vec::new() }
    }

    /// The kept messages, oldest first.
    pub fn entries(&self) -> (r: &Vec<String>)
        ensures
            r@ == self.view_entries(),
    {
        &self.entries
    }

    /// Appends `entry`, dropping the oldest messages beyond `MAX_LOG_ENTRIES`.
    pub fn push(&mut self, entry: String)
        ensures
            final(self).view_entries() == kept_entries(old(self).view_entries().push(entry)),
    {
        self.entries.push(entry);
        let n = self.entries.len();
        if n > MAX_LOG_ENTRIES {
            let excess = n - MAX_LOG_ENTRIES;
            let mut kept: Vec<String> = Vec::new();
            let mut i: usize = excess;
            while i < n
                invariant
                    excess <= i <= n,
                    n == self.entries.len(),
                    kept@ =~= self.entries@.subrange(excess as int, i as int),
                decreases n - i,
            {
                kept.push(self.entries[i].clone());
                i += 1;
            }
            self.entries = kept;
        }
    }

    /// Records a client message received at `timestamp`.
    pub fn record(&mut self, timestamp: &str, body: &str)
        ensures
            final(self).view_entries().len() > 0,
            final(self).view_entries().last()@ == log_entry_text(timestamp@, body@),
            final(self).view_entries() == kept_entries(
                old(self).view_entries().push(final(self).view_entries().last()),
            ),
    {
        let mut e = "[".to_string();
        e.append(timestamp);
        e.append("] ");
        e.append(body);
        proof {
            reveal_strlit("[");
            reveal_strlit("] ");
        }
        assert(e@ =~= log_entry_text(timestamp@, body@));
        self.push(e);
    }
}

/// The log never holds more than `MAX_LOG_ENTRIES` messages, the newest is
/// the last, and those kept are the most recent in their order.
pub proof fn law_log_keeps_latest(s: Seq<String>, e: String)
    ensures
        kept_entries(s.push(e)).len() <= MAX_LOG_ENTRIES,
        kept_entries(s.push(e)).last() == e,
        s.len() < MAX_LOG_ENTRIES ==> kept_entries(s.push(e)) == s.push(e),
        forall|i: int|
            0 <= i < kept_entries(s.push(e)).len() ==> #[trigger] kept_entries(s.push(e))[i]
                == s.push(e)[s.push(e).len() - kept_entries(s.push(e)).len() + i],
{
}

/// The class of an HTTP status code, as `http::StatusCode` tells them apart.
#[derive(PartialEq, Eq, Structural, Clone, Copy, Debug)]
pub enum StatusClass {
    Success,
    ClientError,
    ServerError,
    Other,
}

/// 2xx is success, 4xx a client error, 5xx a server error.
pub open spec fn class_of_status(code: u16) -> StatusClass {
    if 200 <= code <= 299 {
        StatusClass::Success
    } else if 400 <= code <= 499 {
        StatusClass::ClientError
    } else if 500 <= code <= 599 {
        StatusClass::ServerError
    } else {
        StatusClass::Other
    }
}

/// The class of a response status, which picks its colour in the request log.
pub fn status_class(code: u16) -> (r: StatusClass)
    ensures
        r == class_of_status(code),
{
    if 200 <= code && code <= 299 {
        StatusClass::Success
    } else if 400 <= code && code <= 499 {
        StatusClass::ClientError
    } else if 500 <= code && code <= 599 {
        StatusClass::ServerError
    } else {
        StatusClass::Other
    }
}

} // verus!

//! The structured shape of a log event.
//!
//! Rendering against a live subscriber, timestamps and JSON encoding happen
//! outside this crate; what is verified here is how an entry is assembled
//! from an event's metadata and fields.

use vstd::prelude::*;

verus! {

/// A struct that formats log events as JSON.
///
/// The formatter assembles a [`LogEntry`] from each event and serializes it;
/// the wiring against a subscriber lives outside this crate.
pub struct JsonFormatter;

/// Represents a single log entry in a structured format: fixed metadata plus
/// the event's key-value fields, with the field named `message` routed to a
/// slot of its own.
pub struct LogEntry {
    pub timestamp: String,
    pub level: String,
    pub target: String,
    pub message: String,
    pub fields: Vec<(String, String)>,
}

impl LogEntry {
    /// Creates an entry with the event's metadata, an empty message and no
    /// fields.
    pub fn new(timestamp: String, level: String, target: String) -> (r: Self)
        ensures
            r.timestamp == timestamp,
            r.level == level,
            r.target == target,
            r.message@ == Seq::<char>::empty(),
            r.fields@ == Seq::<(String, String)>::empty(),
    {
        LogEntry { timestamp, level, target, message: String::new(), fields: Vec::new() }
    }

    /// Records one key-value field of an event: a field named `message`
    /// becomes the entry's message, every other field is appended to the
    /// field list in the order recorded.
    pub fn record_field(&mut self, name: String, value: String)
        ensures
            final(self).timestamp == old(self).timestamp,
            final(self).level == old(self).level,
            final(self).target == old(self).target,
            name@ == "message"@ ==> {
                &&& final(self).message == value
                &&& final(self).fields == old(self).fields
            },
            name@ != "message"@ ==> {
                &&& final(self).message == old(self).message
                &&& final(self).fields@ == old(self).fields@.push((name, value))
            },
    {
        if name == "message".to_owned() {
            self.message = value;
        } else {
            self.fields.push((name, value));
        }
    }
}

} // verus!

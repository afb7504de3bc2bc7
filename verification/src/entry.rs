//! The in-memory model of one log record: a timestamp, an optional logger
//! name, a severity and a message. Messages below the inline capacity live in
//! a fixed stack buffer; longer ones fall back to the heap, never truncated.

use vstd::prelude::*;
use crate::level::Level;
use crate::Timestamp;
use arrayvec::ArrayString;

verus! {

/// Byte capacity of the inline message buffer.
pub const INLINE_MSG_CAP: usize = 256;

#[verifier::external_type_specification]
#[verifier::external_body]
pub struct ExArrayString<const CAP: usize>(ArrayString<CAP>);

/// The characters held by an inline message buffer.
pub uninterp spec fn inline_chars(a: ArrayString<256>) -> Seq<char>;

/// Relies on arrayvec::ArrayString::new: a fresh buffer holds the empty string.
#[verifier::external_body]
fn inline_new() -> (a: ArrayString<256>)
    ensures
        inline_chars(a) == Seq::<char>::empty(),
{
    ArrayString::new()
}

/// Relies on arrayvec::ArrayString::try_push_str: appends the whole string
/// exactly when it fits in the remaining byte (UTF-8) capacity, and otherwise
/// reports failure leaving the buffer unchanged.
#[verifier::external_body]
fn inline_try_push_str(a: &mut ArrayString<256>, s: &str) -> (ok: bool)
    ensures
        ok == (vstd::utf8::encode_utf8(inline_chars(*old(a))).len() + vstd::utf8::encode_utf8(
            s@,
        ).len() <= INLINE_MSG_CAP),
        ok ==> inline_chars(*final(a)) == inline_chars(*old(a)) + s@,
        !ok ==> *final(a) == *old(a),
{
    a.try_push_str(s).is_ok()
}

/// Relies on arrayvec::ArrayString::as_str: a view of the held characters.
#[verifier::external_body]
fn inline_as_str(a: &ArrayString<256>) -> (s: &str)
    ensures
        s@ == inline_chars(*a),
{
    a.as_str()
}

/// A log message: either held inline in a fixed-capacity stack buffer, or on
/// the heap when it does not fit. Both shapes expose the same content.
pub enum LogMessage {
    Inline(ArrayString<256>),
    Heap(String),
}

impl View for LogMessage {
    type V = Seq<char>;

    closed spec fn view(&self) -> Seq<char> {
        match self {
            LogMessage::Inline(a) => inline_chars(*a),
            LogMessage::Heap(s) => s@,
        }
    }
}

impl LogMessage {
    /// Whether the message lives in the inline buffer.
    pub open spec fn spec_is_inline(&self) -> bool {
        self is Inline
    }

    /// Capture a message: inline exactly when its UTF-8 length fits the
    /// inline capacity, on the heap otherwise. The content is carried over
    /// whole in either case: no truncation.
    pub fn new(s: &str) -> (m: LogMessage)
        ensures
            m@ == s@,
            m.spec_is_inline() == (vstd::utf8::encode_utf8(s@).len() <= INLINE_MSG_CAP),
    {
        let mut a = inline_new();
        proof {
            assert(vstd::utf8::encode_utf8(Seq::<char>::empty()) == Seq::<u8>::empty());
        }
        if inline_try_push_str(&mut a, s) {
            LogMessage::Inline(a)
        } else {
            LogMessage::Heap(s.to_owned())
        }
    }

    /// Read access to the message content, identical for both shapes.
    pub fn as_str(&self) -> (r: &str)
        ensures
            r@ == self@,
    {
        match self {
            LogMessage::Inline(a) => inline_as_str(a),
            LogMessage::Heap(s) => s.as_str(),
        }
    }

    /// Whether this message took the inline path.
    pub fn is_inline(&self) -> (r: bool)
        ensures
            r == self.spec_is_inline(),
    {
        match self {
            LogMessage::Inline(_) => true,
            LogMessage::Heap(_) => false,
        }
    }
}

/// One structured log record, immutable after construction.
pub struct LogEntry {
    pub ts: Timestamp,
    pub name: Option<String>,
    pub level: Level,
    pub msg: LogMessage,
}

impl LogEntry {
    /// The logger name as an abstract optional character sequence.
    pub open spec fn name_view(&self) -> Option<Seq<char>> {
        match self.name {
            Some(ref s) => Some(s@),
            None => None,
        }
    }

    /// A well-formed entry carries a well-formed timestamp.
    pub open spec fn wf(&self) -> bool {
        self.ts.wf()
    }

    /// Assemble an entry from its parts.
    pub fn new(ts: Timestamp, name: Option<String>, level: Level, msg: LogMessage) -> (e:
        LogEntry)
        ensures
            e.ts == ts,
            e.name_view() == (match name {
                Some(ref s) => Some::<Seq<char>>(s@),
                None => None::<Seq<char>>,
            }),
            e.level == level,
            e.msg@ == msg@,
            e.msg.spec_is_inline() == msg.spec_is_inline(),
    {
        LogEntry { ts, name, level, msg }
    }

    /// The entry's timestamp.
    pub fn ts(&self) -> (t: Timestamp)
        ensures
            t == self.ts,
    {
        self.ts
    }

    /// The logger name attached to the entry, if any.
    pub fn name(&self) -> (n: Option<&str>)
        ensures
            match n {
                Some(s) => self.name_view() == Some(s@),
                None => self.name_view() is None,
            },
    {
        match &self.name {
            Some(s) => Some(s.as_str()),
            None => None,
        }
    }

    /// The entry's severity.
    pub fn level(&self) -> (l: Level)
        ensures
            l == self.level,
    {
        self.level
    }

    /// The message content.
    pub fn msg(&self) -> (m: &str)
        ensures
            m@ == self.msg@,
    {
        self.msg.as_str()
    }
}

} // verus!

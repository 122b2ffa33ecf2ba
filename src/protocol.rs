//! What the operations and their driver say to each other: the commands an
//! operation hands out, the replies it is fed, the records kept in the
//! backend, and a model of the backend's own behaviour.
use vstd::prelude::*;

verus! {

/// Why an operation failed.
#[derive(Clone, Copy, Debug, PartialEq, Eq, Structural)]
pub enum KvError {
    /// A zero (or otherwise meaningless) expiry, a cost that does not fit in
    /// an `i64`, or a tenant name that could alias other keyspaces.
    InvalidArgument,
    /// No record under the key.
    NotFound,
    /// The stored record could not be decoded.
    Malformed,
    /// The backend, the overflow store or the random source failed, or
    /// answered out of turn.
    BackendUnavailable,
    /// The lock was held on every attempt, or another caller won the race.
    LockContention,
    /// The token does not match the one that holds the lock.
    LockOwnershipMismatch,
}

/// What a record holds: the value itself, or a reference to it in the
/// overflow store.
#[derive(Clone, Debug)]
pub enum Content {
    Inline(String),
    Overflowed(String),
}

pub enum ContentView {
    Inline(Seq<char>),
    Overflowed(Seq<char>),
}

impl View for Content {
    type V = ContentView;

    open spec fn view(&self) -> ContentView {
        match self {
            Content::Inline(v) => ContentView::Inline(v@),
            Content::Overflowed(r) => ContentView::Overflowed(r@),
        }
    }
}

/// The record kept in the backend under a namespaced key.
#[derive(Clone, Debug)]
pub struct Record {
    pub content: Content,
    /// Milliseconds since the Unix epoch at the last write.
    pub modified: i64,
}

pub struct RecordView {
    pub content: ContentView,
    pub modified: i64,
}

impl View for Record {
    type V = RecordView;

    open spec fn view(&self) -> RecordView {
        RecordView { content: self.content@, modified: self.modified }
    }
}

/// One piece of outside work that an operation asks its driver to do.
#[derive(Debug)]
#[allow(inconsistent_fields)]
pub enum Command {
    /// `GET key`; answered by `Reply::Text`.
    Get { key: String },
    /// `GET key` of a lock key; answered by `Reply::Raw`.
    GetRaw { key: String },
    /// `SET key value PX expiry_ms`; answered by `Reply::Done`.
    SetWithExpiry { key: String, value: String, expiry_ms: u64 },
    /// `SET key value XX GET KEEPTTL`; answered by `Reply::Text` with the
    /// previous value.
    SetIfExistsKeepTtl { key: String, value: String },
    /// `SET key value NX PX expiry_ms`; answered by `Reply::Flag`, true when
    /// the value was written.
    SetIfAbsentWithExpiry { key: String, value: Vec<u8>, expiry_ms: u64 },
    /// `DEL key`; answered by `Reply::Done`.
    Delete { key: String },
    /// `EXISTS key`; answered by `Reply::Flag`.
    Exists { key: String },
    /// `SCAN cursor MATCH pattern COUNT count`; answered by `Reply::Page`.
    Scan { cursor: u64, pattern: String, count: u64 },
    /// Serialise a record; answered by `Reply::Text` with the encoding.
    Encode { record: Record },
    /// Deserialise a record; answered by `Reply::Decoded`.
    Decode { text: String },
    /// Push a value to the overflow store; answered by `Reply::Text` with
    /// the reference.
    OverflowAdd { data: String },
    /// Fetch a value from the overflow store; answered by `Reply::Text`.
    OverflowGet { reference: String },
    /// Remove a value from the overflow store; answered by `Reply::Done`.
    OverflowDelete { reference: String },
    /// Suspend for `ms` milliseconds; answered by `Reply::Done`.
    Pause { ms: u64 },
    /// Draw fresh bytes from a cryptographically strong source; answered by
    /// `Reply::Raw`.
    RandomToken,
}

#[allow(inconsistent_fields)]
pub enum CommandView {
    Get { key: Seq<char> },
    GetRaw { key: Seq<char> },
    SetWithExpiry { key: Seq<char>, value: Seq<char>, expiry_ms: u64 },
    SetIfExistsKeepTtl { key: Seq<char>, value: Seq<char> },
    SetIfAbsentWithExpiry { key: Seq<char>, value: Seq<u8>, expiry_ms: u64 },
    Delete { key: Seq<char> },
    Exists { key: Seq<char> },
    Scan { cursor: u64, pattern: Seq<char>, count: u64 },
    Encode { record: RecordView },
    Decode { text: Seq<char> },
    OverflowAdd { data: Seq<char> },
    OverflowGet { reference: Seq<char> },
    OverflowDelete { reference: Seq<char> },
    Pause { ms: u64 },
    RandomToken,
}

impl View for Command {
    type V = CommandView;

    open spec fn view(&self) -> CommandView {
        match self {
            Command::Get { key } => CommandView::Get { key: key@ },
            Command::GetRaw { key } => CommandView::GetRaw { key: key@ },
            Command::SetWithExpiry { key, value, expiry_ms } => CommandView::SetWithExpiry {
                key: key@,
                value: value@,
                expiry_ms: *expiry_ms,
            },
            Command::SetIfExistsKeepTtl { key, value } => CommandView::SetIfExistsKeepTtl {
                key: key@,
                value: value@,
            },
            Command::SetIfAbsentWithExpiry { key, value, expiry_ms } =>
                CommandView::SetIfAbsentWithExpiry {
                    key: key@,
                    value: value@,
                    expiry_ms: *expiry_ms,
                },
            Command::Delete { key } => CommandView::Delete { key: key@ },
            Command::Exists { key } => CommandView::Exists { key: key@ },
            Command::Scan { cursor, pattern, count } => CommandView::Scan {
                cursor: *cursor,
                pattern: pattern@,
                count: *count,
            },
            Command::Encode { record } => CommandView::Encode { record: record@ },
            Command::Decode { text } => CommandView::Decode { text: text@ },
            Command::OverflowAdd { data } => CommandView::OverflowAdd { data: data@ },
            Command::OverflowGet { reference } => CommandView::OverflowGet {
                reference: reference@,
            },
            Command::OverflowDelete { reference } => CommandView::OverflowDelete {
                reference: reference@,
            },
            Command::Pause { ms } => CommandView::Pause { ms: *ms },
            Command::RandomToken => CommandView::RandomToken,
        }
    }
}

/// What the driver hands back after doing a command.
#[derive(Debug)]
pub enum Reply {
    Done,
    Flag(bool),
    Text(Option<String>),
    Raw(Option<Vec<u8>>),
    Page { cursor: u64, keys: Vec<String> },
    Decoded(Option<Record>),
    /// The backend or the overflow store could not be reached, or failed.
    Unavailable,
}

pub enum ReplyView {
    Done,
    Flag(bool),
    Text(Option<Seq<char>>),
    Raw(Option<Seq<u8>>),
    Page { cursor: u64, keys: Seq<Seq<char>> },
    Decoded(Option<RecordView>),
    Unavailable,
}

/// The views of a list of strings.
pub open spec fn texts(v: Seq<String>) -> Seq<Seq<char>> {
    v.map_values(|s: String| s@)
}

impl View for Reply {
    type V = ReplyView;

    open spec fn view(&self) -> ReplyView {
        match self {
            Reply::Done => ReplyView::Done,
            Reply::Flag(b) => ReplyView::Flag(*b),
            Reply::Text(t) => ReplyView::Text(
                match t {
                    Some(s) => Some(s@),
                    None => None,
                },
            ),
            Reply::Raw(r) => ReplyView::Raw(
                match r {
                    Some(b) => Some(b@),
                    None => None,
                },
            ),
            Reply::Page { cursor, keys } => ReplyView::Page { cursor: *cursor, keys: texts(keys@) },
            Reply::Decoded(d) => ReplyView::Decoded(
                match d {
                    Some(r) => Some(r@),
                    None => None,
                },
            ),
            Reply::Unavailable => ReplyView::Unavailable,
        }
    }
}

/// What an operation does next: hand out a command, or finish.
#[derive(Debug)]
pub enum Step<T> {
    Next(Command),
    Finished(Result<T, KvError>),
}

pub enum StepView<T> {
    Next(CommandView),
    Finished(Result<T, KvError>),
}

impl<T: View> View for Step<T> {
    type V = StepView<T::V>;

    open spec fn view(&self) -> StepView<T::V> {
        match self {
            Step::Next(c) => StepView::Next(c@),
            Step::Finished(Ok(v)) => StepView::Finished(Ok(v@)),
            Step::Finished(Err(e)) => StepView::Finished(Err(*e)),
        }
    }
}

/// The number of bytes in the UTF-8 encoding of `s`, as `str::len` gives it
/// (a string in memory never holds more than `usize::MAX` bytes).
pub open spec fn byte_len(s: Seq<char>) -> usize {
    vstd::utf8::encode_utf8(s).len() as usize
}

/// A value held by the backend: text under data keys, raw bytes under lock
/// keys.
pub enum Stored {
    Text(Seq<char>),
    Raw(Seq<u8>),
}

/// The backend's keys and values between two expiries.
pub type Db = Map<Seq<char>, Stored>;

/// How a command changes the backend. Commands that do not reach the
/// backend leave it as it is.
pub open spec fn backend_apply(db: Db, c: CommandView) -> Db {
    match c {
        CommandView::SetWithExpiry { key, value, .. } => db.insert(key, Stored::Text(value)),
        CommandView::SetIfExistsKeepTtl { key, value } => if db.contains_key(key) {
            db.insert(key, Stored::Text(value))
        } else {
            db
        },
        CommandView::SetIfAbsentWithExpiry { key, value, .. } => if db.contains_key(key) {
            db
        } else {
            db.insert(key, Stored::Raw(value))
        },
        CommandView::Delete { key } => db.remove(key),
        _ => db,
    }
}

/// What the backend answers to a command that reaches it; what a driver
/// answers to a pause (`Done`) and to a draw of random bytes (`token`).
pub open spec fn backend_reply(db: Db, c: CommandView, token: Seq<u8>) -> ReplyView {
    match c {
        CommandView::Get { key } => if !db.contains_key(key) {
            ReplyView::Text(None)
        } else {
            match db[key] {
                Stored::Text(t) => ReplyView::Text(Some(t)),
                Stored::Raw(_) => ReplyView::Unavailable,
            }
        },
        CommandView::GetRaw { key } => if !db.contains_key(key) {
            ReplyView::Raw(None)
        } else {
            match db[key] {
                Stored::Raw(b) => ReplyView::Raw(Some(b)),
                Stored::Text(_) => ReplyView::Unavailable,
            }
        },
        CommandView::SetWithExpiry { .. } => ReplyView::Done,
        CommandView::SetIfExistsKeepTtl { key, .. } => if !db.contains_key(key) {
            ReplyView::Text(None)
        } else {
            match db[key] {
                Stored::Text(t) => ReplyView::Text(Some(t)),
                Stored::Raw(_) => ReplyView::Unavailable,
            }
        },
        CommandView::SetIfAbsentWithExpiry { key, .. } => ReplyView::Flag(!db.contains_key(key)),
        CommandView::Delete { .. } => ReplyView::Done,
        CommandView::Exists { key } => ReplyView::Flag(db.contains_key(key)),
        CommandView::Pause { .. } => ReplyView::Done,
        CommandView::RandomToken => ReplyView::Raw(Some(token)),
        _ => ReplyView::Unavailable,
    }
}

} // verus!

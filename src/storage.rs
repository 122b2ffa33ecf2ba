//! The storage operations: store, load, delete, exists and stat.
use vstd::prelude::*;
use crate::config::Config;
use crate::cost::{checked_store_cost, store_cost};
use crate::keys::{get_namespaced_key, is_valid_tenant, namespaced, valid_tenant};
use crate::protocol::{
    byte_len, Command, CommandView, Content, ContentView, KvError, Record, RecordView, Reply,
    ReplyView, Step, StepView,
};

verus! {

/// Relies on chrono's `Utc::now().timestamp_millis()`: the current time in
/// milliseconds since the Unix epoch. Nothing is known of its value.
#[verifier::external_body]
fn now_millis() -> (r: i64) {
    chrono::Utc::now().timestamp_millis()
}

/// Where a store stands.
#[derive(Clone, Copy, Debug, PartialEq, Eq, Structural)]
pub enum StorePhase {
    /// The value was pushed to the overflow store; its reference is due.
    AwaitReference,
    /// The record was handed out for encoding.
    AwaitEncoded,
    /// The write was handed out; `cost` is owed once it is done.
    AwaitWritten { cost: i64, encoded: usize },
    Over,
}

/// A store of one value under one key.
#[derive(Debug)]
pub struct StoreOp {
    /// The namespaced backend key.
    pub key: String,
    pub expiry: i64,
    pub modified: i64,
    pub memory_cost: i64,
    pub fixed_cost: i64,
    pub phase: StorePhase,
}

pub struct StoreOpView {
    pub key: Seq<char>,
    pub expiry: i64,
    pub modified: i64,
    pub memory_cost: i64,
    pub fixed_cost: i64,
    pub phase: StorePhase,
}

impl View for StoreOp {
    type V = StoreOpView;

    open spec fn view(&self) -> StoreOpView {
        StoreOpView {
            key: self.key@,
            expiry: self.expiry,
            modified: self.modified,
            memory_cost: self.memory_cost,
            fixed_cost: self.fixed_cost,
            phase: self.phase,
        }
    }
}

/// An expiry that a store accepts: a positive number of milliseconds, or
/// `-1` for a refresh that keeps the remaining lifetime.
pub open spec fn valid_expiry(expiry: i64) -> bool {
    expiry > 0 || expiry == -1
}

/// What a store keeps of a value: the value itself up to the threshold, the
/// overflow store's reference to it beyond.
pub open spec fn stored_content(threshold: usize, value: Seq<char>, reference: Seq<char>) -> ContentView {
    if byte_len(value) > threshold {
        ContentView::Overflowed(reference)
    } else {
        ContentView::Inline(value)
    }
}

/// How a store begins.
pub open spec fn store_start(
    config: Config,
    tenant: Seq<char>,
    key: Seq<char>,
    expiry: i64,
    value: Seq<char>,
    now: i64,
) -> (StoreOpView, StepView<i64>) {
    let op = StoreOpView {
        key: namespaced(tenant, key),
        expiry,
        modified: now,
        memory_cost: config.memory_cost,
        fixed_cost: config.operation_c_cost,
        phase: StorePhase::Over,
    };
    if !valid_expiry(expiry) || !valid_tenant(tenant) {
        (op, StepView::Finished(Err(KvError::InvalidArgument)))
    } else if byte_len(value) > config.mem_threshold {
        (
            StoreOpView { phase: StorePhase::AwaitReference, ..op },
            StepView::Next(CommandView::OverflowAdd { data: value }),
        )
    } else {
        (
            StoreOpView { phase: StorePhase::AwaitEncoded, ..op },
            StepView::Next(
                CommandView::Encode {
                    record: RecordView { content: ContentView::Inline(value), modified: now },
                },
            ),
        )
    }
}

/// The write that a store hands out once its record is encoded as `text`:
/// with the expiry where one is given, and only over an existing record,
/// keeping its lifetime, for a refresh.
pub open spec fn store_write(op: StoreOpView, text: Seq<char>) -> CommandView {
    if op.expiry > 0 {
        CommandView::SetWithExpiry { key: op.key, value: text, expiry_ms: op.expiry as u64 }
    } else {
        CommandView::SetIfExistsKeepTtl { key: op.key, value: text }
    }
}

/// The cost of a write with an expiry: the encoded record's bytes, kept for
/// the expiry's whole seconds.
pub open spec fn set_cost(op: StoreOpView, text: Seq<char>) -> int {
    store_cost(byte_len(text) as int, op.expiry as int, op.memory_cost as int, op.fixed_cost as int)
}

/// The cost of a refresh: the bytes that the record grew by, kept for no
/// whole second, which leaves the fixed cost.
pub open spec fn refresh_cost(op: StoreOpView, encoded: int, previous: Option<Seq<char>>) -> int {
    let before: int = match previous {
        Some(p) => byte_len(p) as int,
        None => 0,
    };
    let grown: int = if encoded - before > 0 {
        encoded - before
    } else {
        0
    };
    store_cost(grown, -1, op.memory_cost as int, op.fixed_cost as int)
}

/// How a store goes on from a reply.
pub open spec fn store_next(op: StoreOpView, reply: ReplyView) -> (StoreOpView, StepView<i64>) {
    let over = StoreOpView { phase: StorePhase::Over, ..op };
    let unavailable = (over, StepView::Finished(Err(KvError::BackendUnavailable)));
    match op.phase {
        StorePhase::AwaitReference => match reply {
            ReplyView::Text(Some(r)) => (
                StoreOpView { phase: StorePhase::AwaitEncoded, ..op },
                StepView::Next(
                    CommandView::Encode {
                        record: RecordView {
                            content: ContentView::Overflowed(r),
                            modified: op.modified,
                        },
                    },
                ),
            ),
            _ => unavailable,
        },
        StorePhase::AwaitEncoded => match reply {
            ReplyView::Text(Some(text)) => {
                let fits = op.expiry <= 0 || i64::MIN <= set_cost(op, text) <= i64::MAX;
                let cost: i64 = if op.expiry > 0 {
                    set_cost(op, text) as i64
                } else {
                    op.fixed_cost
                };
                if fits {
                    (
                        StoreOpView {
                            phase: StorePhase::AwaitWritten {
                                cost,
                                encoded: byte_len(text),
                            },
                            ..op
                        },
                        StepView::Next(store_write(op, text)),
                    )
                } else {
                    (over, StepView::Finished(Err(KvError::InvalidArgument)))
                }
            },
            _ => unavailable,
        },
        StorePhase::AwaitWritten { cost, encoded } => if op.expiry > 0 {
            match reply {
                ReplyView::Done => (over, StepView::Finished(Ok(cost))),
                _ => unavailable,
            }
        } else {
            match reply {
                ReplyView::Text(previous) => (
                    over,
                    StepView::Finished(Ok(refresh_cost(op, encoded as int, previous) as i64)),
                ),
                _ => unavailable,
            }
        },
        StorePhase::Over => unavailable,
    }
}

/// Begins a store of `value` under `key` for tenant `pcr`, with the current
/// time as its modification time; whatever the time, the store goes as
/// `store_start` says.
pub fn store(pcr: &String, key: &String, exp: i64, value: &String, config: &Config) -> (r: (
    StoreOp,
    Step<i64>,
))
    ensures
        exists|now: i64| (r.0@, r.1@) == store_start(*config, pcr@, key@, exp, value@, now),
{
    let now = now_millis();
    store_at(pcr, key, exp, value, config, now)
}

/// Begins a store whose record carries the modification time `now`.
pub fn store_at(pcr: &String, key: &String, exp: i64, value: &String, config: &Config, now: i64) -> (r: (
    StoreOp,
    Step<i64>,
))
    ensures
        (r.0@, r.1@) == store_start(*config, pcr@, key@, exp, value@, now),
{
    let mut op = StoreOp {
        key: get_namespaced_key(pcr, key),
        expiry: exp,
        modified: now,
        memory_cost: config.memory_cost,
        fixed_cost: config.operation_c_cost,
        phase: StorePhase::Over,
    };
    if !(exp > 0 || exp == -1) || !is_valid_tenant(pcr) {
        return (op, Step::Finished(Err(KvError::InvalidArgument)));
    }
    if value.as_str().len() > config.mem_threshold {
        op.phase = StorePhase::AwaitReference;
        (op, Step::Next(Command::OverflowAdd { data: value.clone() }))
    } else {
        op.phase = StorePhase::AwaitEncoded;
        let record = Record { content: Content::Inline(value.clone()), modified: now };
        (op, Step::Next(Command::Encode { record }))
    }
}

impl StoreOp {
    /// Goes on from the driver's reply to the last command.
    pub fn resume(self, reply: Reply) -> (r: (StoreOp, Step<i64>))
        ensures
            (r.0@, r.1@) == store_next(self@, reply@),
    {
        let mut op = self;
        let phase = op.phase;
        op.phase = StorePhase::Over;
        match phase {
            StorePhase::AwaitReference => match reply {
                Reply::Text(Some(reference)) => {
                    op.phase = StorePhase::AwaitEncoded;
                    let record = Record {
                        content: Content::Overflowed(reference),
                        modified: op.modified,
                    };
                    (op, Step::Next(Command::Encode { record }))
                },
                _ => (op, Step::Finished(Err(KvError::BackendUnavailable))),
            },
            StorePhase::AwaitEncoded => match reply {
                Reply::Text(Some(text)) => {
                    let encoded = text.as_str().len();
                    if op.expiry > 0 {
                        match checked_store_cost(encoded as u64, op.expiry, op.memory_cost, op.fixed_cost) {
                            Some(cost) => {
                                op.phase = StorePhase::AwaitWritten { cost, encoded };
                                let expiry_ms = op.expiry as u64;
                                let key = op.key.clone();
                                (op, Step::Next(Command::SetWithExpiry { key, value: text, expiry_ms }))
                            },
                            None => (op, Step::Finished(Err(KvError::InvalidArgument))),
                        }
                    } else {
                        op.phase = StorePhase::AwaitWritten { cost: op.fixed_cost, encoded };
                        let key = op.key.clone();
                        (op, Step::Next(Command::SetIfExistsKeepTtl { key, value: text }))
                    }
                },
                _ => (op, Step::Finished(Err(KvError::BackendUnavailable))),
            },
            StorePhase::AwaitWritten { cost, encoded } => {
                if op.expiry > 0 {
                    match reply {
                        Reply::Done => (op, Step::Finished(Ok(cost))),
                        _ => (op, Step::Finished(Err(KvError::BackendUnavailable))),
                    }
                } else {
                    match reply {
                        Reply::Text(previous) => {
                            proof {
                                let p: Option<Seq<char>> = match previous {
                                    Some(s) => Some(s@),
                                    None => None,
                                };
                                lemma_refresh_cost_is_fixed(self@, encoded as int, p);
                            }
                            let fixed = op.fixed_cost;
                            (op, Step::Finished(Ok(fixed)))
                        },
                        _ => (op, Step::Finished(Err(KvError::BackendUnavailable))),
                    }
                }
            },
            StorePhase::Over => (op, Step::Finished(Err(KvError::BackendUnavailable))),
        }
    }
}

/// A refresh keeps its record for no whole second, so it costs the fixed
/// cost alone.
pub proof fn lemma_refresh_cost_is_fixed(op: StoreOpView, encoded: int, previous: Option<Seq<char>>)
    ensures
        refresh_cost(op, encoded, previous) == op.fixed_cost,
{
    let before: int = match previous {
        Some(p) => byte_len(p) as int,
        None => 0,
    };
    let grown: int = if encoded - before > 0 {
        encoded - before
    } else {
        0
    };
    assert(grown * 0 * op.memory_cost == 0) by (nonlinear_arith);
}

/// Where a read of one record (load, delete, stat) stands.
#[derive(Clone, Copy, Debug, PartialEq, Eq, Structural)]
pub enum ReadPhase {
    /// The backend `GET` was handed out.
    AwaitRecord,
    /// The stored text was handed out for decoding.
    AwaitDecoded,
    /// The overflow store was asked for the value (load, stat) or to drop it
    /// (delete).
    AwaitOverflow,
    /// The backend `DEL` was handed out (delete).
    AwaitDeleted,
    Over,
}

/// A load of one value.
#[derive(Debug)]
pub struct LoadOp {
    pub cost: i64,
    pub phase: ReadPhase,
}

/// How a load begins: it reads the namespaced key.
pub open spec fn load_start(config: Config, tenant: Seq<char>, key: Seq<char>) -> (LoadOp, StepView<(Seq<char>, i64)>) {
    let op = LoadOp { cost: config.operation_c_cost, phase: ReadPhase::AwaitRecord };
    if valid_tenant(tenant) {
        (op, StepView::Next(CommandView::Get { key: namespaced(tenant, key) }))
    } else {
        (LoadOp { phase: ReadPhase::Over, ..op }, StepView::Finished(Err(KvError::InvalidArgument)))
    }
}

/// What a load returns for a stored record whose value, where it went to
/// the overflow store, came back from there as `fetched`.
pub open spec fn loaded_value(content: ContentView, fetched: Seq<char>) -> Seq<char> {
    match content {
        ContentView::Inline(v) => v,
        ContentView::Overflowed(_) => fetched,
    }
}

/// How a load goes on from a reply: an absent key is `NotFound`, a record
/// that does not decode is `Malformed`, an overflowed value is fetched.
pub open spec fn load_next(op: LoadOp, reply: ReplyView) -> (LoadOp, StepView<(Seq<char>, i64)>) {
    let over = LoadOp { phase: ReadPhase::Over, ..op };
    let unavailable = (over, StepView::Finished(Err(KvError::BackendUnavailable)));
    match op.phase {
        ReadPhase::AwaitRecord => match reply {
            ReplyView::Text(Some(text)) => (
                LoadOp { phase: ReadPhase::AwaitDecoded, ..op },
                StepView::Next(CommandView::Decode { text }),
            ),
            ReplyView::Text(None) => (over, StepView::Finished(Err(KvError::NotFound))),
            _ => unavailable,
        },
        ReadPhase::AwaitDecoded => match reply {
            ReplyView::Decoded(Some(record)) => match record.content {
                ContentView::Inline(v) => (over, StepView::Finished(Ok((v, op.cost)))),
                ContentView::Overflowed(r) => (
                    LoadOp { phase: ReadPhase::AwaitOverflow, ..op },
                    StepView::Next(CommandView::OverflowGet { reference: r }),
                ),
            },
            ReplyView::Decoded(None) => (over, StepView::Finished(Err(KvError::Malformed))),
            _ => unavailable,
        },
        ReadPhase::AwaitOverflow => match reply {
            ReplyView::Text(Some(v)) => (over, StepView::Finished(Ok((v, op.cost)))),
            _ => unavailable,
        },
        _ => unavailable,
    }
}

/// Begins a load of `key` for tenant `pcr`.
pub fn load(pcr: &String, key: &String, config: &Config) -> (r: (LoadOp, Step<(String, i64)>))
    ensures
        (r.0, r.1@) == load_start(*config, pcr@, key@),
{
    let op = LoadOp { cost: config.operation_c_cost, phase: ReadPhase::AwaitRecord };
    if is_valid_tenant(pcr) {
        (op, Step::Next(Command::Get { key: get_namespaced_key(pcr, key) }))
    } else {
        (LoadOp { phase: ReadPhase::Over, ..op }, Step::Finished(Err(KvError::InvalidArgument)))
    }
}

impl LoadOp {
    /// Goes on from the driver's reply to the last command.
    pub fn resume(self, reply: Reply) -> (r: (LoadOp, Step<(String, i64)>))
        ensures
            (r.0, r.1@) == load_next(self, reply@),
    {
        let over = LoadOp { phase: ReadPhase::Over, ..self };
        match self.phase {
            ReadPhase::AwaitRecord => match reply {
                Reply::Text(Some(text)) => (
                    LoadOp { phase: ReadPhase::AwaitDecoded, ..self },
                    Step::Next(Command::Decode { text }),
                ),
                Reply::Text(None) => (over, Step::Finished(Err(KvError::NotFound))),
                _ => (over, Step::Finished(Err(KvError::BackendUnavailable))),
            },
            ReadPhase::AwaitDecoded => match reply {
                Reply::Decoded(Some(record)) => match record.content {
                    Content::Inline(v) => (over, Step::Finished(Ok((v, self.cost)))),
                    Content::Overflowed(reference) => (
                        LoadOp { phase: ReadPhase::AwaitOverflow, ..self },
                        Step::Next(Command::OverflowGet { reference }),
                    ),
                },
                Reply::Decoded(None) => (over, Step::Finished(Err(KvError::Malformed))),
                _ => (over, Step::Finished(Err(KvError::BackendUnavailable))),
            },
            ReadPhase::AwaitOverflow => match reply {
                Reply::Text(Some(v)) => (over, Step::Finished(Ok((v, self.cost)))),
                _ => (over, Step::Finished(Err(KvError::BackendUnavailable))),
            },
            _ => (over, Step::Finished(Err(KvError::BackendUnavailable))),
        }
    }
}

/// A delete of one key, with the overflowed value it refers to.
#[derive(Debug)]
pub struct DeleteOp {
    /// The namespaced backend key.
    pub key: String,
    pub cost: i64,
    pub phase: ReadPhase,
}

pub struct DeleteOpView {
    pub key: Seq<char>,
    pub cost: i64,
    pub phase: ReadPhase,
}

impl View for DeleteOp {
    type V = DeleteOpView;

    open spec fn view(&self) -> DeleteOpView {
        DeleteOpView { key: self.key@, cost: self.cost, phase: self.phase }
    }
}

/// How a delete begins: it reads the record first.
pub open spec fn delete_start(config: Config, tenant: Seq<char>, key: Seq<char>) -> (DeleteOpView, StepView<i64>) {
    let op = DeleteOpView {
        key: namespaced(tenant, key),
        cost: config.operation_c_cost,
        phase: ReadPhase::AwaitRecord,
    };
    if valid_tenant(tenant) {
        (op, StepView::Next(CommandView::Get { key: op.key }))
    } else {
        (DeleteOpView { phase: ReadPhase::Over, ..op }, StepView::Finished(Err(KvError::InvalidArgument)))
    }
}

/// How a delete goes on from a reply: an overflowed value is dropped from
/// the overflow store before the key, and a failure there fails the whole
/// delete; an absent key is deleted all the same.
pub open spec fn delete_next(op: DeleteOpView, reply: ReplyView) -> (DeleteOpView, StepView<i64>) {
    let over = DeleteOpView { phase: ReadPhase::Over, ..op };
    let unavailable = (over, StepView::Finished(Err(KvError::BackendUnavailable)));
    let remove = (
        DeleteOpView { phase: ReadPhase::AwaitDeleted, ..op },
        StepView::Next(CommandView::Delete { key: op.key }),
    );
    match op.phase {
        ReadPhase::AwaitRecord => match reply {
            ReplyView::Text(Some(text)) => if text.len() > 0 {
                (
                    DeleteOpView { phase: ReadPhase::AwaitDecoded, ..op },
                    StepView::Next(CommandView::Decode { text }),
                )
            } else {
                remove
            },
            ReplyView::Text(None) => remove,
            _ => unavailable,
        },
        ReadPhase::AwaitDecoded => match reply {
            ReplyView::Decoded(Some(record)) => match record.content {
                ContentView::Inline(_) => remove,
                ContentView::Overflowed(r) => (
                    DeleteOpView { phase: ReadPhase::AwaitOverflow, ..op },
                    StepView::Next(CommandView::OverflowDelete { reference: r }),
                ),
            },
            ReplyView::Decoded(None) => (over, StepView::Finished(Err(KvError::Malformed))),
            _ => unavailable,
        },
        ReadPhase::AwaitOverflow => match reply {
            ReplyView::Done => remove,
            _ => unavailable,
        },
        ReadPhase::AwaitDeleted => match reply {
            ReplyView::Done => (over, StepView::Finished(Ok(op.cost))),
            _ => unavailable,
        },
        ReadPhase::Over => unavailable,
    }
}

/// Begins a delete of `key` for tenant `pcr`.
pub fn delete(pcr: &String, key: &String, config: &Config) -> (r: (DeleteOp, Step<i64>))
    ensures
        (r.0@, r.1@) == delete_start(*config, pcr@, key@),
{
    let op = DeleteOp {
        key: get_namespaced_key(pcr, key),
        cost: config.operation_c_cost,
        phase: ReadPhase::AwaitRecord,
    };
    if is_valid_tenant(pcr) {
        let key = op.key.clone();
        (op, Step::Next(Command::Get { key }))
    } else {
        (DeleteOp { phase: ReadPhase::Over, ..op }, Step::Finished(Err(KvError::InvalidArgument)))
    }
}

impl DeleteOp {
    /// Goes on from the driver's reply to the last command.
    pub fn resume(self, reply: Reply) -> (r: (DeleteOp, Step<i64>))
        ensures
            (r.0@, r.1@) == delete_next(self@, reply@),
    {
        let phase = self.phase;
        let mut op = self;
        op.phase = ReadPhase::Over;
        match phase {
            ReadPhase::AwaitRecord => match reply {
                Reply::Text(Some(text)) => {
                    if text.as_str().unicode_len() > 0 {
                        op.phase = ReadPhase::AwaitDecoded;
                        (op, Step::Next(Command::Decode { text }))
                    } else {
                        op.remove_key()
                    }
                },
                Reply::Text(None) => op.remove_key(),
                _ => (op, Step::Finished(Err(KvError::BackendUnavailable))),
            },
            ReadPhase::AwaitDecoded => match reply {
                Reply::Decoded(Some(record)) => match record.content {
                    Content::Inline(_) => op.remove_key(),
                    Content::Overflowed(reference) => {
                        op.phase = ReadPhase::AwaitOverflow;
                        (op, Step::Next(Command::OverflowDelete { reference }))
                    },
                },
                Reply::Decoded(None) => (op, Step::Finished(Err(KvError::Malformed))),
                _ => (op, Step::Finished(Err(KvError::BackendUnavailable))),
            },
            ReadPhase::AwaitOverflow => match reply {
                Reply::Done => op.remove_key(),
                _ => (op, Step::Finished(Err(KvError::BackendUnavailable))),
            },
            ReadPhase::AwaitDeleted => match reply {
                Reply::Done => {
                    let cost = op.cost;
                    (op, Step::Finished(Ok(cost)))
                },
                _ => (op, Step::Finished(Err(KvError::BackendUnavailable))),
            },
            ReadPhase::Over => (op, Step::Finished(Err(KvError::BackendUnavailable))),
        }
    }

    fn remove_key(self) -> (r: (DeleteOp, Step<i64>))
        ensures
            r.0@ == (DeleteOpView { phase: ReadPhase::AwaitDeleted, ..self@ }),
            r.1@ == StepView::<i64>::Next(CommandView::Delete { key: self.key@ }),
    {
        let key = self.key.clone();
        (DeleteOp { phase: ReadPhase::AwaitDeleted, ..self }, Step::Next(Command::Delete { key }))
    }
}

/// An existence probe of one key.
#[derive(Debug)]
pub struct ExistsOp {
    pub cost: i64,
    pub over: bool,
}

/// How a probe begins: one `EXISTS` on the namespaced key.
pub open spec fn exists_start(config: Config, tenant: Seq<char>, key: Seq<char>) -> (ExistsOp, StepView<(bool, i64)>) {
    if valid_tenant(tenant) {
        (
            ExistsOp { cost: config.operation_c_cost, over: false },
            StepView::Next(CommandView::Exists { key: namespaced(tenant, key) }),
        )
    } else {
        (
            ExistsOp { cost: config.operation_c_cost, over: true },
            StepView::Finished(Err(KvError::InvalidArgument)),
        )
    }
}

/// How a probe ends: with the backend's answer.
pub open spec fn exists_next(op: ExistsOp, reply: ReplyView) -> (ExistsOp, StepView<(bool, i64)>) {
    let over = ExistsOp { over: true, ..op };
    match reply {
        ReplyView::Flag(b) if !op.over => (over, StepView::Finished(Ok((b, op.cost)))),
        _ => (over, StepView::Finished(Err(KvError::BackendUnavailable))),
    }
}

/// Begins a probe of `key` for tenant `pcr`.
pub fn key_exists(pcr: &String, key: &String, config: &Config) -> (r: (ExistsOp, Step<(bool, i64)>))
    ensures
        (r.0, r.1@) == exists_start(*config, pcr@, key@),
{
    if is_valid_tenant(pcr) {
        (
            ExistsOp { cost: config.operation_c_cost, over: false },
            Step::Next(Command::Exists { key: get_namespaced_key(pcr, key) }),
        )
    } else {
        (
            ExistsOp { cost: config.operation_c_cost, over: true },
            Step::Finished(Err(KvError::InvalidArgument)),
        )
    }
}

impl ExistsOp {
    /// Goes on from the driver's reply to the last command.
    pub fn resume(self, reply: Reply) -> (r: (ExistsOp, Step<(bool, i64)>))
        ensures
            (r.0, r.1@) == exists_next(self, reply@),
    {
        let over = ExistsOp { over: true, ..self };
        match reply {
            Reply::Flag(b) if !self.over => (over, Step::Finished(Ok((b, self.cost)))),
            _ => (over, Step::Finished(Err(KvError::BackendUnavailable))),
        }
    }
}

/// What `stat` tells of a key.
#[derive(Clone, Debug)]
pub struct KeyInfo {
    /// The logical key, as the caller gave it.
    pub key: String,
    pub modified: i64,
    /// The value's size in bytes, wherever it is kept.
    pub size: usize,
    /// The key does not end with the path separator `/`.
    pub is_terminal: bool,
}

pub struct KeyInfoView {
    pub key: Seq<char>,
    pub modified: i64,
    pub size: usize,
    pub is_terminal: bool,
}

impl View for KeyInfo {
    type V = KeyInfoView;

    open spec fn view(&self) -> KeyInfoView {
        KeyInfoView {
            key: self.key@,
            modified: self.modified,
            size: self.size,
            is_terminal: self.is_terminal,
        }
    }
}

/// Whether `key` names a leaf rather than a directory.
pub open spec fn is_terminal_key(key: Seq<char>) -> bool {
    !(key.len() > 0 && key.last() == '/')
}

/// The information on `key` whose record was modified at `modified` and
/// whose value is `value`.
pub open spec fn key_info(key: Seq<char>, modified: i64, value: Seq<char>) -> KeyInfoView {
    KeyInfoView { key, modified, size: byte_len(value), is_terminal: is_terminal_key(key) }
}

/// A stat of one key.
#[derive(Debug)]
pub struct StatOp {
    /// The logical key.
    pub key: String,
    pub cost: i64,
    pub modified: i64,
    pub phase: ReadPhase,
}

pub struct StatOpView {
    pub key: Seq<char>,
    pub cost: i64,
    pub modified: i64,
    pub phase: ReadPhase,
}

impl View for StatOp {
    type V = StatOpView;

    open spec fn view(&self) -> StatOpView {
        StatOpView { key: self.key@, cost: self.cost, modified: self.modified, phase: self.phase }
    }
}

/// How a stat begins: it reads the namespaced key.
pub open spec fn stat_start(config: Config, tenant: Seq<char>, key: Seq<char>) -> (StatOpView, StepView<(KeyInfoView, i64)>) {
    let op = StatOpView {
        key,
        cost: config.operation_c_cost,
        modified: 0,
        phase: ReadPhase::AwaitRecord,
    };
    if valid_tenant(tenant) {
        (op, StepView::Next(CommandView::Get { key: namespaced(tenant, key) }))
    } else {
        (StatOpView { phase: ReadPhase::Over, ..op }, StepView::Finished(Err(KvError::InvalidArgument)))
    }
}

/// How a stat goes on from a reply: the size is the value's, fetched from
/// the overflow store where it went there, not the record's.
pub open spec fn stat_next(op: StatOpView, reply: ReplyView) -> (StatOpView, StepView<(KeyInfoView, i64)>) {
    let over = StatOpView { phase: ReadPhase::Over, ..op };
    let unavailable = (over, StepView::Finished(Err(KvError::BackendUnavailable)));
    match op.phase {
        ReadPhase::AwaitRecord => match reply {
            ReplyView::Text(Some(text)) => (
                StatOpView { phase: ReadPhase::AwaitDecoded, ..op },
                StepView::Next(CommandView::Decode { text }),
            ),
            ReplyView::Text(None) => (over, StepView::Finished(Err(KvError::NotFound))),
            _ => unavailable,
        },
        ReadPhase::AwaitDecoded => match reply {
            ReplyView::Decoded(Some(record)) => match record.content {
                ContentView::Inline(v) => (
                    over,
                    StepView::Finished(Ok((key_info(op.key, record.modified, v), op.cost))),
                ),
                ContentView::Overflowed(r) => (
                    StatOpView { phase: ReadPhase::AwaitOverflow, modified: record.modified, ..op },
                    StepView::Next(CommandView::OverflowGet { reference: r }),
                ),
            },
            ReplyView::Decoded(None) => (over, StepView::Finished(Err(KvError::Malformed))),
            _ => unavailable,
        },
        ReadPhase::AwaitOverflow => match reply {
            ReplyView::Text(Some(v)) => (
                over,
                StepView::Finished(Ok((key_info(op.key, op.modified, v), op.cost))),
            ),
            _ => unavailable,
        },
        _ => unavailable,
    }
}

/// Begins a stat of `key` for tenant `pcr`.
pub fn stat(pcr: &String, key: &String, config: &Config) -> (r: (StatOp, Step<(KeyInfo, i64)>))
    ensures
        (r.0@, r.1@) == stat_start(*config, pcr@, key@),
{
    let op = StatOp {
        key: key.clone(),
        cost: config.operation_c_cost,
        modified: 0,
        phase: ReadPhase::AwaitRecord,
    };
    if is_valid_tenant(pcr) {
        (op, Step::Next(Command::Get { key: get_namespaced_key(pcr, key) }))
    } else {
        (StatOp { phase: ReadPhase::Over, ..op }, Step::Finished(Err(KvError::InvalidArgument)))
    }
}

/// Whether `key` does not end with `/`.
fn terminal(key: &String) -> (r: bool)
    ensures
        r == is_terminal_key(key@),
{
    let s = key.as_str();
    let n = s.unicode_len();
    n == 0 || s.get_char(n - 1) != '/'
}

impl StatOp {
    fn info(&self, modified: i64, value: &String) -> (r: KeyInfo)
        ensures
            r@ == key_info(self.key@, modified, value@),
    {
        KeyInfo {
            key: self.key.clone(),
            modified,
            size: value.as_str().len(),
            is_terminal: terminal(&self.key),
        }
    }

    /// Goes on from the driver's reply to the last command.
    pub fn resume(self, reply: Reply) -> (r: (StatOp, Step<(KeyInfo, i64)>))
        ensures
            (r.0@, r.1@) == stat_next(self@, reply@),
    {
        let phase = self.phase;
        let mut op = self;
        op.phase = ReadPhase::Over;
        match phase {
            ReadPhase::AwaitRecord => match reply {
                Reply::Text(Some(text)) => {
                    op.phase = ReadPhase::AwaitDecoded;
                    (op, Step::Next(Command::Decode { text }))
                },
                Reply::Text(None) => (op, Step::Finished(Err(KvError::NotFound))),
                _ => (op, Step::Finished(Err(KvError::BackendUnavailable))),
            },
            ReadPhase::AwaitDecoded => match reply {
                Reply::Decoded(Some(record)) => match record.content {
                    Content::Inline(v) => {
                        let info = op.info(record.modified, &v);
                        let cost = op.cost;
                        (op, Step::Finished(Ok((info, cost))))
                    },
                    Content::Overflowed(reference) => {
                        op.phase = ReadPhase::AwaitOverflow;
                        op.modified = record.modified;
                        (op, Step::Next(Command::OverflowGet { reference }))
                    },
                },
                Reply::Decoded(None) => (op, Step::Finished(Err(KvError::Malformed))),
                _ => (op, Step::Finished(Err(KvError::BackendUnavailable))),
            },
            ReadPhase::AwaitOverflow => match reply {
                Reply::Text(Some(v)) => {
                    let info = op.info(op.modified, &v);
                    let cost = op.cost;
                    (op, Step::Finished(Ok((info, cost))))
                },
                _ => (op, Step::Finished(Err(KvError::BackendUnavailable))),
            },
            _ => (op, Step::Finished(Err(KvError::BackendUnavailable))),
        }
    }
}

} // verus!

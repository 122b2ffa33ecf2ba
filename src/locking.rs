//! The lock manager: leases on keys, held in the backend under the lock
//! keyspace and proved by a random token.
use vstd::prelude::*;
use crate::config::Config;
use crate::keys::{get_locked_key, is_valid_tenant, locked, valid_tenant};
use crate::protocol::{Command, CommandView, KvError, Reply, ReplyView, Step, StepView};

verus! {

/// Bytes in a lock token.
pub const LOCK_ID_LEN: usize = 20;

/// Asks whether the lock on `key` is held.
pub fn exists_locked(pcr: &String, key: &String) -> (r: Command)
    ensures
        r@ == (CommandView::Exists { key: locked(pcr@, key@) }),
{
    Command::Exists { key: get_locked_key(pcr, key) }
}

/// Reads the token that holds the lock on `key`.
pub fn load_locked(pcr: &String, key: &String) -> (r: Command)
    ensures
        r@ == (CommandView::GetRaw { key: locked(pcr@, key@) }),
{
    Command::GetRaw { key: get_locked_key(pcr, key) }
}

/// Claims the lock on `key` with `value`, unless it is held, for the
/// configured lease.
pub fn store_locked(pcr: &String, key: &String, value: &Vec<u8>, config: &Config) -> (r: Command)
    ensures
        r@ == (CommandView::SetIfAbsentWithExpiry {
            key: locked(pcr@, key@),
            value: value@,
            expiry_ms: config.lock_expiry,
        }),
{
    Command::SetIfAbsentWithExpiry {
        key: get_locked_key(pcr, key),
        value: value.clone(),
        expiry_ms: config.lock_expiry,
    }
}

/// Drops the lock on `key`.
pub fn delete_locked(pcr: &String, key: &String) -> (r: Command)
    ensures
        r@ == (CommandView::Delete { key: locked(pcr@, key@) }),
{
    Command::Delete { key: get_locked_key(pcr, key) }
}

/// Where an acquisition stands.
#[derive(Clone, Copy, Debug, PartialEq, Eq, Structural)]
pub enum LockPhase {
    /// Asked whether the lock is held.
    Probing,
    /// Waiting before the next attempt.
    Pausing,
    /// Asked for a fresh token.
    AwaitToken,
    /// Tried to claim the lock with the token.
    AwaitClaim,
    Over,
}

/// An acquisition of the lock on one key, with a bounded number of
/// attempts.
#[derive(Debug)]
pub struct LockOp {
    pub tenant: String,
    pub key: String,
    /// Attempts made so far, the current one not counted.
    pub attempt: u64,
    pub config: Config,
    pub token: Vec<u8>,
    pub phase: LockPhase,
}

pub struct LockOpView {
    pub tenant: Seq<char>,
    pub key: Seq<char>,
    pub attempt: u64,
    pub config: Config,
    pub token: Seq<u8>,
    pub phase: LockPhase,
}

impl View for LockOp {
    type V = LockOpView;

    open spec fn view(&self) -> LockOpView {
        LockOpView {
            tenant: self.tenant@,
            key: self.key@,
            attempt: self.attempt,
            config: self.config,
            token: self.token@,
            phase: self.phase,
        }
    }
}

/// How an acquisition begins: it asks whether the lock is held, unless no
/// attempt is allowed at all.
pub open spec fn lock_start(config: Config, tenant: Seq<char>, key: Seq<char>) -> (LockOpView, StepView<(Seq<u8>, i64)>) {
    let op = LockOpView { tenant, key, attempt: 0, config, token: seq![], phase: LockPhase::Probing };
    let over = LockOpView { phase: LockPhase::Over, ..op };
    if !valid_tenant(tenant) {
        (over, StepView::Finished(Err(KvError::InvalidArgument)))
    } else if config.retry_count == 0 {
        (over, StepView::Finished(Err(KvError::LockContention)))
    } else {
        (op, StepView::Next(CommandView::Exists { key: locked(tenant, key) }))
    }
}

/// How an acquisition goes on from a reply. A held lock is waited for and
/// probed again, up to the configured number of attempts; a free one is
/// claimed with a fresh token of `LOCK_ID_LEN` bytes, atomically and only
/// if still free. A lost race fails at once.
pub open spec fn lock_next(op: LockOpView, reply: ReplyView) -> (LockOpView, StepView<(Seq<u8>, i64)>) {
    let over = LockOpView { phase: LockPhase::Over, ..op };
    let unavailable = (over, StepView::Finished(Err(KvError::BackendUnavailable)));
    let lock_key = locked(op.tenant, op.key);
    match op.phase {
        LockPhase::Probing => match reply {
            ReplyView::Flag(true) => (
                LockOpView { phase: LockPhase::Pausing, ..op },
                StepView::Next(CommandView::Pause { ms: op.config.retry_delay }),
            ),
            ReplyView::Flag(false) => (
                LockOpView { phase: LockPhase::AwaitToken, ..op },
                StepView::Next(CommandView::RandomToken),
            ),
            _ => unavailable,
        },
        LockPhase::Pausing => match reply {
            ReplyView::Done => if op.attempt + 1 < op.config.retry_count {
                (
                    LockOpView { attempt: (op.attempt + 1) as u64, phase: LockPhase::Probing, ..op },
                    StepView::Next(CommandView::Exists { key: lock_key }),
                )
            } else {
                (over, StepView::Finished(Err(KvError::LockContention)))
            },
            _ => unavailable,
        },
        LockPhase::AwaitToken => match reply {
            ReplyView::Raw(Some(t)) if t.len() == LOCK_ID_LEN => (
                LockOpView { token: t, phase: LockPhase::AwaitClaim, ..op },
                StepView::Next(
                    CommandView::SetIfAbsentWithExpiry {
                        key: lock_key,
                        value: t,
                        expiry_ms: op.config.lock_expiry,
                    },
                ),
            ),
            _ => unavailable,
        },
        LockPhase::AwaitClaim => match reply {
            ReplyView::Flag(true) => (
                over,
                StepView::Finished(Ok((op.token, op.config.operation_b_cost))),
            ),
            ReplyView::Flag(false) => (over, StepView::Finished(Err(KvError::LockContention))),
            _ => unavailable,
        },
        LockPhase::Over => unavailable,
    }
}

/// Begins an acquisition of the lock on `key` for tenant `pcr`.
pub fn lock(pcr: &String, key: &String, config: &Config) -> (r: (LockOp, Step<(Vec<u8>, i64)>))
    ensures
        (r.0@, r.1@) == lock_start(*config, pcr@, key@),
{
    let mut op = LockOp {
        tenant: pcr.clone(),
        key: key.clone(),
        attempt: 0,
        config: copy_config(config),
        token: Vec::new(),
        phase: LockPhase::Probing,
    };
    if !is_valid_tenant(pcr) {
        op.phase = LockPhase::Over;
        (op, Step::Finished(Err(KvError::InvalidArgument)))
    } else if config.retry_count == 0 {
        op.phase = LockPhase::Over;
        (op, Step::Finished(Err(KvError::LockContention)))
    } else {
        (op, Step::Next(exists_locked(pcr, key)))
    }
}

/// A field-by-field copy of `config`.
fn copy_config(config: &Config) -> (r: Config)
    ensures
        r == *config,
{
    Config {
        retry_delay: config.retry_delay,
        retry_count: config.retry_count,
        lock_expiry: config.lock_expiry,
        operation_a_cost: config.operation_a_cost,
        operation_b_cost: config.operation_b_cost,
        operation_c_cost: config.operation_c_cost,
        memory_cost: config.memory_cost,
        ipfs_url: config.ipfs_url.clone(),
        mem_threshold: config.mem_threshold,
        ipfs_key: config.ipfs_key.clone(),
        ipfs_secret: config.ipfs_secret.clone(),
    }
}

impl LockOp {
    /// Goes on from the driver's reply to the last command.
    pub fn resume(self, reply: Reply) -> (r: (LockOp, Step<(Vec<u8>, i64)>))
        ensures
            (r.0@, r.1@) == lock_next(self@, reply@),
    {
        let phase = self.phase;
        let mut op = self;
        op.phase = LockPhase::Over;
        match phase {
            LockPhase::Probing => match reply {
                Reply::Flag(held) => {
                    if held {
                        op.phase = LockPhase::Pausing;
                        let ms = op.config.retry_delay;
                        (op, Step::Next(Command::Pause { ms }))
                    } else {
                        op.phase = LockPhase::AwaitToken;
                        (op, Step::Next(Command::RandomToken))
                    }
                },
                _ => (op, Step::Finished(Err(KvError::BackendUnavailable))),
            },
            LockPhase::Pausing => match reply {
                Reply::Done => {
                    if op.config.retry_count > 0 && op.attempt < op.config.retry_count - 1 {
                        op.attempt = op.attempt + 1;
                        op.phase = LockPhase::Probing;
                        let c = exists_locked(&op.tenant, &op.key);
                        (op, Step::Next(c))
                    } else {
                        (op, Step::Finished(Err(KvError::LockContention)))
                    }
                },
                _ => (op, Step::Finished(Err(KvError::BackendUnavailable))),
            },
            LockPhase::AwaitToken => match reply {
                Reply::Raw(Some(t)) => {
                    if t.len() == LOCK_ID_LEN {
                        let c = store_locked(&op.tenant, &op.key, &t, &op.config);
                        op.token = t;
                        op.phase = LockPhase::AwaitClaim;
                        (op, Step::Next(c))
                    } else {
                        (op, Step::Finished(Err(KvError::BackendUnavailable)))
                    }
                },
                _ => (op, Step::Finished(Err(KvError::BackendUnavailable))),
            },
            LockPhase::AwaitClaim => match reply {
                Reply::Flag(claimed) => {
                    if claimed {
                        let token = op.token.clone();
                        let cost = op.config.operation_b_cost;
                        (op, Step::Finished(Ok((token, cost))))
                    } else {
                        (op, Step::Finished(Err(KvError::LockContention)))
                    }
                },
                _ => (op, Step::Finished(Err(KvError::BackendUnavailable))),
            },
            LockPhase::Over => (op, Step::Finished(Err(KvError::BackendUnavailable))),
        }
    }
}

/// Whether two byte strings are equal.
fn same_bytes(a: &Vec<u8>, b: &Vec<u8>) -> (r: bool)
    ensures
        r == (a@ == b@),
{
    if a.len() != b.len() {
        return false;
    }
    let mut i: usize = 0;
    while i < a.len()
        invariant
            a@.len() == b@.len(),
            i <= a@.len(),
            forall|j: int| 0 <= j < i ==> a@[j] == b@[j],
        decreases a@.len() - i,
    {
        if a[i] != b[i] {
            return false;
        }
        i = i + 1;
    }
    assert(a@ =~= b@);
    true
}

/// Where a release stands.
#[derive(Clone, Copy, Debug, PartialEq, Eq, Structural)]
pub enum UnlockPhase {
    /// Read the token that holds the lock.
    AwaitHolder,
    /// Dropped the lock.
    AwaitDeleted,
    Over,
}

/// A release of the lock on one key by the holder of a token.
#[derive(Debug)]
pub struct UnlockOp {
    pub tenant: String,
    pub key: String,
    pub token: Vec<u8>,
    pub cost: i64,
    pub phase: UnlockPhase,
}

pub struct UnlockOpView {
    pub tenant: Seq<char>,
    pub key: Seq<char>,
    pub token: Seq<u8>,
    pub cost: i64,
    pub phase: UnlockPhase,
}

impl View for UnlockOp {
    type V = UnlockOpView;

    open spec fn view(&self) -> UnlockOpView {
        UnlockOpView {
            tenant: self.tenant@,
            key: self.key@,
            token: self.token@,
            cost: self.cost,
            phase: self.phase,
        }
    }
}

/// How a release begins: it reads the token that holds the lock.
pub open spec fn unlock_start(config: Config, tenant: Seq<char>, key: Seq<char>, token: Seq<u8>) -> (UnlockOpView, StepView<i64>) {
    let op = UnlockOpView {
        tenant,
        key,
        token,
        cost: config.operation_b_cost,
        phase: UnlockPhase::AwaitHolder,
    };
    if valid_tenant(tenant) {
        (op, StepView::Next(CommandView::GetRaw { key: locked(tenant, key) }))
    } else {
        (UnlockOpView { phase: UnlockPhase::Over, ..op }, StepView::Finished(Err(KvError::InvalidArgument)))
    }
}

/// How a release goes on from a reply: only the exact holding token drops
/// the lock; any other leaves it untouched.
pub open spec fn unlock_next(op: UnlockOpView, reply: ReplyView) -> (UnlockOpView, StepView<i64>) {
    let over = UnlockOpView { phase: UnlockPhase::Over, ..op };
    let unavailable = (over, StepView::Finished(Err(KvError::BackendUnavailable)));
    let mismatch = (over, StepView::Finished(Err(KvError::LockOwnershipMismatch)));
    match op.phase {
        UnlockPhase::AwaitHolder => match reply {
            ReplyView::Raw(Some(held)) => if held == op.token {
                (
                    UnlockOpView { phase: UnlockPhase::AwaitDeleted, ..op },
                    StepView::Next(CommandView::Delete { key: locked(op.tenant, op.key) }),
                )
            } else {
                mismatch
            },
            ReplyView::Raw(None) => mismatch,
            _ => unavailable,
        },
        UnlockPhase::AwaitDeleted => match reply {
            ReplyView::Done => (over, StepView::Finished(Ok(op.cost))),
            _ => unavailable,
        },
        UnlockPhase::Over => unavailable,
    }
}

/// Begins a release of the lock on `key` for tenant `pcr` by the holder of
/// `lock_id`.
pub fn unlock(pcr: &String, key: &String, lock_id: &Vec<u8>, config: &Config) -> (r: (UnlockOp, Step<i64>))
    ensures
        (r.0@, r.1@) == unlock_start(*config, pcr@, key@, lock_id@),
{
    let op = UnlockOp {
        tenant: pcr.clone(),
        key: key.clone(),
        token: lock_id.clone(),
        cost: config.operation_b_cost,
        phase: UnlockPhase::AwaitHolder,
    };
    if is_valid_tenant(pcr) {
        (op, Step::Next(load_locked(pcr, key)))
    } else {
        (UnlockOp { phase: UnlockPhase::Over, ..op }, Step::Finished(Err(KvError::InvalidArgument)))
    }
}

impl UnlockOp {
    /// Goes on from the driver's reply to the last command.
    pub fn resume(self, reply: Reply) -> (r: (UnlockOp, Step<i64>))
        ensures
            (r.0@, r.1@) == unlock_next(self@, reply@),
    {
        let phase = self.phase;
        let mut op = self;
        op.phase = UnlockPhase::Over;
        match phase {
            UnlockPhase::AwaitHolder => match reply {
                Reply::Raw(Some(held)) => {
                    if same_bytes(&held, &op.token) {
                        op.phase = UnlockPhase::AwaitDeleted;
                        let c = delete_locked(&op.tenant, &op.key);
                        (op, Step::Next(c))
                    } else {
                        (op, Step::Finished(Err(KvError::LockOwnershipMismatch)))
                    }
                },
                Reply::Raw(None) => (op, Step::Finished(Err(KvError::LockOwnershipMismatch))),
                _ => (op, Step::Finished(Err(KvError::BackendUnavailable))),
            },
            UnlockPhase::AwaitDeleted => match reply {
                Reply::Done => {
                    let cost = op.cost;
                    (op, Step::Finished(Ok(cost)))
                },
                _ => (op, Step::Finished(Err(KvError::BackendUnavailable))),
            },
            UnlockPhase::Over => (op, Step::Finished(Err(KvError::BackendUnavailable))),
        }
    }
}

} // verus!

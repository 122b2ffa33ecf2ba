//! Properties of the operations taken together, proved over their step
//! functions and the model of the backend.
use vstd::prelude::*;
use crate::config::Config;
use crate::keys::{lemma_data_lock_disjoint, lemma_tenants_disjoint, locked, namespaced, valid_tenant};
use crate::locking::{lock_next, lock_start, unlock_next, unlock_start, LockOpView, LockPhase, UnlockOpView, LOCK_ID_LEN};
use crate::protocol::{backend_apply, backend_reply, CommandView, ContentView, Db, KvError, RecordView, ReplyView, StepView, Stored};
use crate::storage::{
    delete_next, delete_start, exists_next, exists_start, load_next, load_start, store_next,
    store_start, store_write, stored_content, valid_expiry, StoreOpView,
};

verus! {

/// Runs an acquisition against the backend `db` for at most `fuel` commands,
/// answering a pause with `Done` and a draw of random bytes with `token`.
pub open spec fn drive_lock(op: LockOpView, step: StepView<(Seq<u8>, i64)>, db: Db, token: Seq<u8>, fuel: nat) -> (Db, StepView<(Seq<u8>, i64)>)
    decreases fuel,
{
    match step {
        StepView::Next(c) => if fuel == 0 {
            (db, step)
        } else {
            let next = lock_next(op, backend_reply(db, c, token));
            drive_lock(next.0, next.1, backend_apply(db, c), token, (fuel - 1) as nat)
        },
        _ => (db, step),
    }
}

/// Runs a release against the backend `db` for at most `fuel` commands.
pub open spec fn drive_unlock(op: UnlockOpView, step: StepView<i64>, db: Db, fuel: nat) -> (Db, StepView<i64>)
    decreases fuel,
{
    match step {
        StepView::Next(c) => if fuel == 0 {
            (db, step)
        } else {
            let next = unlock_next(op, backend_reply(db, c, seq![]));
            drive_unlock(next.0, next.1, backend_apply(db, c), (fuel - 1) as nat)
        },
        _ => (db, step),
    }
}

/// Namespace isolation: for two different tenants, a store of one under
/// some key writes, through all its steps, where a load of the other under
/// the same key never reads, so whatever the store writes leaves that load's
/// answer as it was.
pub proof fn law_namespace_isolation(
    config: Config,
    t1: Seq<char>,
    t2: Seq<char>,
    key: Seq<char>,
    expiry: i64,
    value: Seq<char>,
    now: i64,
    text: Seq<char>,
    db: Db,
)
    requires
        t1 != t2,
    ensures
        ({
            let op = store_start(config, t1, key, expiry, value, now).0;
            let read = CommandView::Get { key: namespaced(t2, key) };
            &&& op.key == namespaced(t1, key)
            &&& forall|o: StoreOpView, reply: ReplyView| #[trigger] store_next(o, reply).0.key == o.key
            &&& load_start(config, t2, key).1 is Next ==> load_start(config, t2, key).1
                == StepView::<(Seq<char>, i64)>::Next(read)
            &&& backend_reply(backend_apply(db, store_write(op, text)), read, seq![])
                == backend_reply(db, read, seq![])
        }),
{
    let k1 = namespaced(t1, key);
    let k2 = namespaced(t2, key);
    assert(k1.len() == t1.len() + 1 + key.len());
    assert(k2.len() == t2.len() + 1 + key.len());
    if k1 == k2 {
        assert(t1.len() == t2.len());
        assert(t1 =~= k1.subrange(0, t1.len() as int));
        assert(t2 =~= k2.subrange(0, t2.len() as int));
    }
    let op = store_start(config, t1, key, expiry, value, now).0;
    let after = backend_apply(db, store_write(op, text));
    assert(after.contains_key(k2) == db.contains_key(k2));
    if db.contains_key(k2) {
        assert(after[k2] == db[k2]);
    }
}

/// Round trip: the record that a store hands out for encoding holds the
/// value inline up to the threshold and, beyond it, the reference that the
/// overflow store gave for the value; a load that reads that record back,
/// and gets from the overflow store what was put there, returns the value
/// exactly.
pub proof fn law_round_trip(
    config: Config,
    tenant: Seq<char>,
    key: Seq<char>,
    expiry: i64,
    value: Seq<char>,
    now: i64,
    reference: Seq<char>,
    text: Seq<char>,
)
    requires
        valid_tenant(tenant),
        valid_expiry(expiry),
    ensures
        ({
            let record = RecordView {
                content: stored_content(config.mem_threshold, value, reference),
                modified: now,
            };
            let (s0, step0) = store_start(config, tenant, key, expiry, value, now);
            let encode = StepView::<i64>::Next(CommandView::Encode { record });
            let handed = match record.content {
                ContentView::Inline(_) => step0 == encode,
                ContentView::Overflowed(_) => step0 == StepView::<i64>::Next(
                    CommandView::OverflowAdd { data: value },
                ) && store_next(s0, ReplyView::Text(Some(reference))).1 == encode,
            };
            let l0 = load_start(config, tenant, key).0;
            let l1 = load_next(l0, ReplyView::Text(Some(text))).0;
            let (l2, step2) = load_next(l1, ReplyView::Decoded(Some(record)));
            let done = StepView::Finished(Ok((value, config.operation_c_cost)));
            let loaded = match record.content {
                ContentView::Inline(_) => step2 == done,
                ContentView::Overflowed(r) => step2 == StepView::<(Seq<char>, i64)>::Next(
                    CommandView::OverflowGet { reference: r },
                ) && load_next(l2, ReplyView::Text(Some(value))).1 == done,
            };
            handed && loaded
        }),
{
}

/// A store with a positive expiry hands the backend a write with exactly
/// that lifetime in milliseconds; the backend lets the record expire.
pub proof fn law_store_sets_lifetime(
    config: Config,
    tenant: Seq<char>,
    key: Seq<char>,
    expiry: i64,
    value: Seq<char>,
    now: i64,
    text: Seq<char>,
)
    requires
        expiry > 0,
    ensures
        store_write(store_start(config, tenant, key, expiry, value, now).0, text)
            == (CommandView::SetWithExpiry {
            key: namespaced(tenant, key),
            value: text,
            expiry_ms: expiry as u64,
        }),
{
}

/// A refresh over an existing record replaces its value and keeps its
/// remaining lifetime: it writes only over an existing key, with the
/// keep-lifetime modifier.
pub proof fn law_refresh_replaces(
    config: Config,
    tenant: Seq<char>,
    key: Seq<char>,
    value: Seq<char>,
    now: i64,
    text: Seq<char>,
    db: Db,
)
    requires
        db.contains_key(namespaced(tenant, key)),
    ensures
        ({
            let op = store_start(config, tenant, key, -1i64, value, now).0;
            &&& store_write(op, text) == (CommandView::SetIfExistsKeepTtl {
                key: namespaced(tenant, key),
                value: text,
            })
            &&& backend_apply(db, store_write(op, text)) == db.insert(
                namespaced(tenant, key),
                Stored::Text(text),
            )
        }),
{
}

/// A refresh of a key that does not exist creates nothing: the backend is
/// left as it was, and a probe of the key still finds it absent.
pub proof fn law_refresh_absent_noop(
    config: Config,
    tenant: Seq<char>,
    key: Seq<char>,
    value: Seq<char>,
    now: i64,
    text: Seq<char>,
    db: Db,
)
    requires
        valid_tenant(tenant),
        !db.contains_key(namespaced(tenant, key)),
    ensures
        ({
            let op = store_start(config, tenant, key, -1i64, value, now).0;
            let after = backend_apply(db, store_write(op, text));
            let (e0, probe) = exists_start(config, tenant, key);
            &&& after == db
            &&& probe == StepView::<(bool, i64)>::Next(CommandView::Exists { key: namespaced(tenant, key) })
            &&& exists_next(e0, backend_reply(after, CommandView::Exists { key: namespaced(tenant, key) }, seq![])).1
                == StepView::Finished(Ok((false, config.operation_c_cost)))
        }),
{
}

/// A zero expiry is always rejected, before any command is handed out.
pub proof fn law_zero_expiry_rejected(config: Config, tenant: Seq<char>, key: Seq<char>, value: Seq<char>, now: i64)
    ensures
        store_start(config, tenant, key, 0, value, now).1 == StepView::<i64>::Finished(Err(KvError::InvalidArgument)),
{
}

/// Deleting an absent key succeeds, and leaves it absent.
pub proof fn law_delete_idempotent(config: Config, tenant: Seq<char>, key: Seq<char>, db: Db)
    requires
        valid_tenant(tenant),
        !db.contains_key(namespaced(tenant, key)),
    ensures
        ({
            let k = namespaced(tenant, key);
            let (d0, s0) = delete_start(config, tenant, key);
            let (d1, s1) = delete_next(d0, backend_reply(db, CommandView::Get { key: k }, seq![]));
            let (d2, s2) = delete_next(d1, backend_reply(db, CommandView::Delete { key: k }, seq![]));
            &&& s0 == StepView::<i64>::Next(CommandView::Get { key: k })
            &&& s1 == StepView::<i64>::Next(CommandView::Delete { key: k })
            &&& s2 == StepView::<i64>::Finished(Ok(config.operation_c_cost))
            &&& !backend_apply(db, CommandView::Delete { key: k }).contains_key(k)
        }),
{
}

/// While the lock key is held, each remaining attempt probes, finds it
/// held, and waits; once the attempts run out the acquisition fails with
/// contention, and nothing was written.
proof fn lemma_held_attempts(op: LockOpView, db: Db, token: Seq<u8>, n: nat)
    requires
        op.phase == LockPhase::Probing,
        n >= 1,
        op.attempt + n == op.config.retry_count,
        db.contains_key(locked(op.tenant, op.key)),
    ensures
        drive_lock(op, StepView::Next(CommandView::Exists { key: locked(op.tenant, op.key) }), db, token, 2 * n)
            == (db, StepView::<(Seq<u8>, i64)>::Finished(Err(KvError::LockContention))),
    decreases n,
{
    let lk = locked(op.tenant, op.key);
    let probe = lock_next(op, ReplyView::Flag(true));
    assert(backend_reply(db, CommandView::Exists { key: lk }, token) == ReplyView::Flag(true));
    assert(backend_apply(db, CommandView::Exists { key: lk }) == db);
    let pause = CommandView::Pause { ms: op.config.retry_delay };
    assert(probe.1 == StepView::<(Seq<u8>, i64)>::Next(pause));
    assert(backend_reply(db, pause, token) == ReplyView::Done);
    assert(backend_apply(db, pause) == db);
    let wake = lock_next(probe.0, ReplyView::Done);
    assert(drive_lock(op, StepView::Next(CommandView::Exists { key: lk }), db, token, 2 * n)
        == drive_lock(probe.0, probe.1, db, token, (2 * n - 1) as nat));
    assert(drive_lock(probe.0, probe.1, db, token, (2 * n - 1) as nat)
        == drive_lock(wake.0, wake.1, db, token, (2 * n - 2) as nat));
    if n > 1 {
        lemma_held_attempts(wake.0, db, token, (n - 1) as nat);
        assert((2 * n - 2) as nat == 2 * ((n - 1) as nat));
    }
}

/// Mutual exclusion: while the lock on a key is held, a second acquisition
/// for it fails with contention, having written nothing.
pub proof fn law_lock_exclusive(config: Config, tenant: Seq<char>, key: Seq<char>, db: Db, token: Seq<u8>)
    requires
        db.contains_key(locked(tenant, key)),
    ensures
        ({
            let (op, step) = lock_start(config, tenant, key);
            !valid_tenant(tenant) || drive_lock(op, step, db, token, 2 * config.retry_count as nat)
                == (db, StepView::<(Seq<u8>, i64)>::Finished(Err(KvError::LockContention)))
        }),
{
    let (op, step) = lock_start(config, tenant, key);
    if valid_tenant(tenant) && config.retry_count > 0 {
        lemma_held_attempts(op, db, token, config.retry_count as nat);
    }
}

/// An acquisition of a free lock, with a fresh token of the right length,
/// takes it in three commands and returns that token.
proof fn lemma_acquire_free(config: Config, tenant: Seq<char>, key: Seq<char>, db: Db, token: Seq<u8>)
    requires
        valid_tenant(tenant),
        config.retry_count > 0,
        token.len() == LOCK_ID_LEN,
        !db.contains_key(locked(tenant, key)),
    ensures
        ({
            let (op, step) = lock_start(config, tenant, key);
            drive_lock(op, step, db, token, 3) == (
                db.insert(locked(tenant, key), Stored::Raw(token)),
                StepView::Finished(Ok((token, config.operation_b_cost))),
            )
        }),
{
    let lk = locked(tenant, key);
    let (op, step) = lock_start(config, tenant, key);
    let a = lock_next(op, backend_reply(db, CommandView::Exists { key: lk }, token));
    assert(a.1 == StepView::<(Seq<u8>, i64)>::Next(CommandView::RandomToken));
    let b = lock_next(a.0, backend_reply(db, CommandView::RandomToken, token));
    let claim = CommandView::SetIfAbsentWithExpiry { key: lk, value: token, expiry_ms: config.lock_expiry };
    assert(b.1 == StepView::<(Seq<u8>, i64)>::Next(claim));
    let c = lock_next(b.0, backend_reply(db, claim, token));
    assert(c.1 == StepView::Finished(Ok((token, config.operation_b_cost))));
    assert(backend_apply(db, CommandView::Exists { key: lk }) == db);
    assert(backend_apply(db, CommandView::RandomToken) == db);
    assert(drive_lock(op, step, db, token, 3) == drive_lock(a.0, a.1, db, token, 2));
    assert(drive_lock(a.0, a.1, db, token, 2) == drive_lock(b.0, b.1, db, token, 1));
    assert(drive_lock(b.0, b.1, db, token, 1) == drive_lock(c.0, c.1, backend_apply(db, claim), token, 0));
}

/// Lock cycle: a free lock is acquired with a fresh token, released with
/// that token, which frees it again, and acquired once more.
pub proof fn law_lock_cycle(config: Config, tenant: Seq<char>, key: Seq<char>, db: Db, token: Seq<u8>, token2: Seq<u8>)
    requires
        valid_tenant(tenant),
        config.retry_count > 0,
        token.len() == LOCK_ID_LEN,
        token2.len() == LOCK_ID_LEN,
        !db.contains_key(locked(tenant, key)),
    ensures
        ({
            let lk = locked(tenant, key);
            let (a0, s0) = lock_start(config, tenant, key);
            let (db1, first) = drive_lock(a0, s0, db, token, 3);
            let (u0, r0) = unlock_start(config, tenant, key, token);
            let (db2, released) = drive_unlock(u0, r0, db1, 2);
            let (db3, second) = drive_lock(a0, s0, db2, token2, 3);
            &&& first == StepView::Finished(Ok((token, config.operation_b_cost)))
            &&& released == StepView::<i64>::Finished(Ok(config.operation_b_cost))
            &&& !db2.contains_key(lk)
            &&& second == StepView::Finished(Ok((token2, config.operation_b_cost)))
        }),
{
    let lk = locked(tenant, key);
    lemma_acquire_free(config, tenant, key, db, token);
    let db1 = db.insert(lk, Stored::Raw(token));
    let (u0, r0) = unlock_start(config, tenant, key, token);
    let a = unlock_next(u0, backend_reply(db1, CommandView::GetRaw { key: lk }, seq![]));
    assert(a.1 == StepView::<i64>::Next(CommandView::Delete { key: lk }));
    let b = unlock_next(a.0, backend_reply(db1, CommandView::Delete { key: lk }, seq![]));
    let db2 = db1.remove(lk);
    assert(backend_apply(db1, CommandView::GetRaw { key: lk }) == db1);
    assert(drive_unlock(u0, r0, db1, 2) == drive_unlock(a.0, a.1, db1, 1));
    assert(drive_unlock(a.0, a.1, db1, 1) == drive_unlock(b.0, b.1, db2, 0));
    assert(!db2.contains_key(lk));
    lemma_acquire_free(config, tenant, key, db2, token2);
}

/// Wrong-token release: a release with any token but the holding one fails
/// with an ownership mismatch and leaves the lock held.
pub proof fn law_wrong_token_release(config: Config, tenant: Seq<char>, key: Seq<char>, db: Db, held: Seq<u8>, token: Seq<u8>)
    requires
        valid_tenant(tenant),
        db.contains_key(locked(tenant, key)),
        db[locked(tenant, key)] == Stored::Raw(held),
        token != held,
    ensures
        ({
            let (u0, r0) = unlock_start(config, tenant, key, token);
            drive_unlock(u0, r0, db, 2) == (db, StepView::<i64>::Finished(Err(KvError::LockOwnershipMismatch)))
        }),
{
    let lk = locked(tenant, key);
    let (u0, r0) = unlock_start(config, tenant, key, token);
    let a = unlock_next(u0, backend_reply(db, CommandView::GetRaw { key: lk }, seq![]));
    assert(a.1 == StepView::<i64>::Finished(Err(KvError::LockOwnershipMismatch)));
    assert(backend_apply(db, CommandView::GetRaw { key: lk }) == db);
    assert(drive_unlock(u0, r0, db, 2) == drive_unlock(a.0, a.1, db, 1));
}

/// The data keyspace and the lock keyspace never meet: no store or delete
/// of a record touches a lock, and no lock command touches a record.
pub proof fn law_keyspaces_disjoint(t1: Seq<char>, k1: Seq<char>, t2: Seq<char>, k2: Seq<char>)
    requires
        valid_tenant(t1),
        valid_tenant(t2),
    ensures
        namespaced(t1, k1) != locked(t2, k2),
        t1 != t2 ==> namespaced(t1, k1) != namespaced(t2, k2) && locked(t1, k1) != locked(t2, k2),
{
    lemma_data_lock_disjoint(t1, k1, t2, k2);
    if t1 != t2 {
        lemma_tenants_disjoint(t1, k1, t2, k2);
    }
}

} // verus!

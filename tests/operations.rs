use std::collections::HashMap;

use tenant_kv::config::Config;
use tenant_kv::listing::{collapse_keys, list, ListOp};
use tenant_kv::locking::{lock, unlock, LockOp, UnlockOp};
use tenant_kv::protocol::{Command, Content, KvError, Record, Reply, Step};
use tenant_kv::storage::{
    delete, key_exists, load, stat, store, store_at, DeleteOp, ExistsOp, KeyInfo, LoadOp, StatOp,
    StoreOp,
};

enum Val {
    Text(String),
    Raw(Vec<u8>),
}

/// An in-memory backend and overflow store with a manual clock.
struct Fake {
    clock: u64,
    data: HashMap<String, (Val, Option<u64>)>,
    blobs: HashMap<String, String>,
    next_ref: u64,
    next_token: u8,
    commands: Vec<String>,
}

fn encode(record: &Record) -> String {
    match &record.content {
        Content::Inline(v) => format!("I|{}|{}", record.modified, v),
        Content::Overflowed(r) => format!("O|{}|{}", record.modified, r),
    }
}

fn decode(text: &str) -> Option<Record> {
    let mut parts = text.splitn(3, '|');
    let tag = parts.next()?;
    let modified: i64 = parts.next()?.parse().ok()?;
    let rest = parts.next()?.to_string();
    let content = match tag {
        "I" => Content::Inline(rest),
        "O" => Content::Overflowed(rest),
        _ => return None,
    };
    Some(Record { content, modified })
}

impl Fake {
    fn new() -> Fake {
        Fake {
            clock: 0,
            data: HashMap::new(),
            blobs: HashMap::new(),
            next_ref: 0,
            next_token: 1,
            commands: Vec::new(),
        }
    }

    fn wait(&mut self, ms: u64) {
        self.clock += ms;
    }

    fn purge(&mut self) {
        let now = self.clock;
        self.data.retain(|_, (_, exp)| exp.map_or(true, |e| e > now));
    }

    fn put_text(&mut self, key: &str, text: &str) {
        self.data.insert(key.to_string(), (Val::Text(text.to_string()), None));
    }

    fn perform(&mut self, c: Command) -> Reply {
        self.purge();
        self.commands.push(format!("{:?}", c));
        match c {
            Command::Get { key } => match self.data.get(&key) {
                Some((Val::Text(t), _)) => Reply::Text(Some(t.clone())),
                Some(_) => Reply::Unavailable,
                None => Reply::Text(None),
            },
            Command::GetRaw { key } => match self.data.get(&key) {
                Some((Val::Raw(b), _)) => Reply::Raw(Some(b.clone())),
                Some(_) => Reply::Unavailable,
                None => Reply::Raw(None),
            },
            Command::SetWithExpiry { key, value, expiry_ms } => {
                self.data.insert(key, (Val::Text(value), Some(self.clock + expiry_ms)));
                Reply::Done
            }
            Command::SetIfExistsKeepTtl { key, value } => match self.data.get_mut(&key) {
                Some((v, _)) => {
                    let prev = match v {
                        Val::Text(t) => Some(t.clone()),
                        Val::Raw(_) => None,
                    };
                    *v = Val::Text(value);
                    Reply::Text(prev)
                }
                None => Reply::Text(None),
            },
            Command::SetIfAbsentWithExpiry { key, value, expiry_ms } => {
                if self.data.contains_key(&key) {
                    Reply::Flag(false)
                } else {
                    self.data.insert(key, (Val::Raw(value), Some(self.clock + expiry_ms)));
                    Reply::Flag(true)
                }
            }
            Command::Delete { key } => {
                self.data.remove(&key);
                Reply::Done
            }
            Command::Exists { key } => Reply::Flag(self.data.contains_key(&key)),
            Command::Scan { cursor, pattern, count } => {
                assert_eq!(count, 1);
                let stem = pattern.strip_suffix('*').unwrap_or(&pattern).to_string();
                let mut keys: Vec<String> =
                    self.data.keys().filter(|k| k.starts_with(&stem)).cloned().collect();
                keys.sort();
                let i = cursor as usize;
                let page: Vec<String> = keys.get(i).cloned().into_iter().collect();
                let next = if i + 1 >= keys.len() { 0 } else { (i + 1) as u64 };
                Reply::Page { cursor: next, keys: page }
            }
            Command::Encode { record } => Reply::Text(Some(encode(&record))),
            Command::Decode { text } => Reply::Decoded(decode(&text)),
            Command::OverflowAdd { data } => {
                self.next_ref += 1;
                let r = format!("ref{}", self.next_ref);
                self.blobs.insert(r.clone(), data);
                Reply::Text(Some(r))
            }
            Command::OverflowGet { reference } => Reply::Text(self.blobs.get(&reference).cloned()),
            Command::OverflowDelete { reference } => {
                self.blobs.remove(&reference);
                Reply::Done
            }
            Command::Pause { ms } => {
                self.wait(ms);
                Reply::Done
            }
            Command::RandomToken => {
                let t = vec![self.next_token; 20];
                self.next_token += 1;
                Reply::Raw(Some(t))
            }
        }
    }
}

trait Op: Sized {
    type Out;
    fn step(self, reply: Reply) -> (Self, Step<Self::Out>);
}

impl Op for StoreOp {
    type Out = i64;
    fn step(self, reply: Reply) -> (Self, Step<i64>) {
        self.resume(reply)
    }
}

impl Op for LoadOp {
    type Out = (String, i64);
    fn step(self, reply: Reply) -> (Self, Step<(String, i64)>) {
        self.resume(reply)
    }
}

impl Op for DeleteOp {
    type Out = i64;
    fn step(self, reply: Reply) -> (Self, Step<i64>) {
        self.resume(reply)
    }
}

impl Op for ExistsOp {
    type Out = (bool, i64);
    fn step(self, reply: Reply) -> (Self, Step<(bool, i64)>) {
        self.resume(reply)
    }
}

impl Op for StatOp {
    type Out = (KeyInfo, i64);
    fn step(self, reply: Reply) -> (Self, Step<(KeyInfo, i64)>) {
        self.resume(reply)
    }
}

impl Op for ListOp {
    type Out = (Vec<String>, i64);
    fn step(self, reply: Reply) -> (Self, Step<(Vec<String>, i64)>) {
        self.resume(reply)
    }
}

impl Op for LockOp {
    type Out = (Vec<u8>, i64);
    fn step(self, reply: Reply) -> (Self, Step<(Vec<u8>, i64)>) {
        self.resume(reply)
    }
}

impl Op for UnlockOp {
    type Out = i64;
    fn step(self, reply: Reply) -> (Self, Step<i64>) {
        self.resume(reply)
    }
}

fn run<O: Op>(fake: &mut Fake, start: (O, Step<O::Out>)) -> Result<O::Out, KvError> {
    let (mut op, mut step) = start;
    loop {
        match step {
            Step::Finished(r) => return r,
            Step::Next(c) => {
                let reply = fake.perform(c);
                let (o, s) = op.step(reply);
                op = o;
                step = s;
            }
        }
    }
}

fn s(x: &str) -> String {
    x.to_string()
}

fn do_store(f: &mut Fake, c: &Config, t: &str, k: &str, exp: i64, v: &str) -> Result<i64, KvError> {
    run(f, store(&s(t), &s(k), exp, &s(v), c))
}

fn do_load(f: &mut Fake, c: &Config, t: &str, k: &str) -> Result<(String, i64), KvError> {
    run(f, load(&s(t), &s(k), c))
}

fn do_exists(f: &mut Fake, c: &Config, t: &str, k: &str) -> Result<(bool, i64), KvError> {
    run(f, key_exists(&s(t), &s(k), c))
}

#[test]
fn test_store() {
    let config = Config::default();
    let mut f = Fake::new();
    do_store(&mut f, &config, "pcr", "test_store", 1000, "This is a test value").unwrap();
}

#[test]
fn test_load() {
    let config = Config::default();
    let mut f = Fake::new();
    do_store(&mut f, &config, "pcr", "test_load", 1000, "This is a test value").unwrap();
    let val = do_load(&mut f, &config, "pcr", "test_load").unwrap();
    assert_eq!(val.0, String::from("This is a test value"));
}

#[test]
fn test_store_expiry() {
    let config = Config::default();
    let mut f = Fake::new();
    do_store(&mut f, &config, "pcr", "test_store_expiry", 1000, "This is a test value").unwrap();
    f.wait(1000);
    assert_eq!(do_load(&mut f, &config, "pcr", "test_store_expiry").unwrap_err(), KvError::NotFound);
}

#[test]
fn test_store_keepttl() {
    let config = Config::default();
    let mut f = Fake::new();
    do_store(&mut f, &config, "pcr", "test_store_keepttl", 1000, "This is a test value").unwrap();
    f.wait(400);
    do_store(&mut f, &config, "pcr", "test_store_keepttl", -1, "This is a test value").unwrap();
    f.wait(400);
    do_load(&mut f, &config, "pcr", "test_store_keepttl").unwrap();
    f.wait(400);
    assert_eq!(do_load(&mut f, &config, "pcr", "test_store_keepttl").unwrap_err(), KvError::NotFound);
}

#[test]
fn refresh_replaces_value_and_keeps_lifetime() {
    let config = Config::default();
    let mut f = Fake::new();
    do_store(&mut f, &config, "pcr", "k", 1000, "first").unwrap();
    f.wait(400);
    assert_eq!(do_store(&mut f, &config, "pcr", "k", -1, "second"), Ok(config.operation_c_cost));
    f.wait(400);
    assert_eq!(do_load(&mut f, &config, "pcr", "k").unwrap().0, "second");
    f.wait(400);
    assert_eq!(do_load(&mut f, &config, "pcr", "k").unwrap_err(), KvError::NotFound);
}

#[test]
fn test_store_zeroexpiry() {
    let config = Config::default();
    let mut f = Fake::new();
    let r = do_store(&mut f, &config, "pcr", "test_store_zeroexpiry", 0, "This is a test value");
    assert_eq!(r, Err(KvError::InvalidArgument));
    assert!(f.commands.is_empty());
    assert!(f.data.is_empty());
}

#[test]
fn other_negative_expiry_rejected() {
    let config = Config::default();
    let mut f = Fake::new();
    assert_eq!(do_store(&mut f, &config, "pcr", "k", -2, "v"), Err(KvError::InvalidArgument));
    assert!(f.commands.is_empty());
}

#[test]
fn test_exists() {
    let config = Config::default();
    let mut f = Fake::new();
    do_store(&mut f, &config, "pcr", "test_exists", 1000, "This is a test value").unwrap();
    let check = do_exists(&mut f, &config, "pcr", "test_exists").unwrap();
    assert_eq!(true, check.0);
    let check = do_exists(&mut f, &config, "pcr", "not_in_db").unwrap();
    assert_eq!(false, check.0);
    assert_eq!(check.1, config.operation_c_cost);
}

#[test]
fn refresh_of_absent_key_creates_nothing() {
    let config = Config::default();
    let mut f = Fake::new();
    assert!(do_store(&mut f, &config, "pcr", "never", -1, "v").is_ok());
    assert_eq!(do_exists(&mut f, &config, "pcr", "never").unwrap().0, false);
}

#[test]
fn test_delete() {
    let config = Config::default();
    let mut f = Fake::new();
    do_store(&mut f, &config, "pcr", "test_delete", 1000, "This is a test value").unwrap();
    run(&mut f, delete(&s("pcr"), &s("test_delete"), &config)).unwrap();
    let check = do_exists(&mut f, &config, "pcr", "test_delete").unwrap();
    assert_eq!(false, check.0);
}

#[test]
fn delete_absent_key_succeeds() {
    let config = Config::default();
    let mut f = Fake::new();
    assert_eq!(run(&mut f, delete(&s("pcr"), &s("nothing"), &config)), Ok(config.operation_c_cost));
}

#[test]
fn delete_removes_overflowed_value() {
    let mut config = Config::default();
    config.mem_threshold = 4;
    let mut f = Fake::new();
    do_store(&mut f, &config, "pcr", "big", 1000, "more than four").unwrap();
    assert_eq!(f.blobs.len(), 1);
    run(&mut f, delete(&s("pcr"), &s("big"), &config)).unwrap();
    assert!(f.blobs.is_empty());
    assert!(f.data.is_empty());
}

#[test]
fn delete_of_malformed_record_fails_and_keeps_it() {
    let config = Config::default();
    let mut f = Fake::new();
    f.put_text("pcr/bad", "garbage");
    assert_eq!(run(&mut f, delete(&s("pcr"), &s("bad"), &config)), Err(KvError::Malformed));
    assert!(f.data.contains_key("pcr/bad"));
}

#[test]
fn load_of_malformed_record_fails() {
    let config = Config::default();
    let mut f = Fake::new();
    f.put_text("pcr/bad", "garbage");
    assert_eq!(do_load(&mut f, &config, "pcr", "bad").unwrap_err(), KvError::Malformed);
}

#[test]
fn load_when_backend_down_fails() {
    let config = Config::default();
    let (op, step) = load(&s("pcr"), &s("k"), &config);
    assert!(matches!(step, Step::Next(Command::Get { .. })));
    let (_, step) = op.resume(Reply::Unavailable);
    assert!(matches!(step, Step::Finished(Err(KvError::BackendUnavailable))));
}

#[test]
fn test_stat() {
    let config = Config::default();
    let mut f = Fake::new();
    do_store(&mut f, &config, "pcr", "test_stat", 1000, "This is a test value").unwrap();
    let info = run(&mut f, stat(&s("pcr"), &s("test_stat"), &config)).unwrap();
    assert_eq!("test_stat", info.0.key);
    assert_eq!("This is a test value".len(), info.0.size);
    assert_eq!(true, info.0.is_terminal);
}

#[test]
fn stat_reports_logical_size_of_overflowed_value() {
    let mut config = Config::default();
    config.mem_threshold = 4;
    let mut f = Fake::new();
    run(&mut f, store_at(&s("pcr"), &s("dir/"), 1000, &s("0123456789"), &config, 77)).unwrap();
    let (info, cost) = run(&mut f, stat(&s("pcr"), &s("dir/"), &config)).unwrap();
    assert_eq!(info.size, 10);
    assert_eq!(info.modified, 77);
    assert_eq!(info.is_terminal, false);
    assert_eq!(cost, config.operation_c_cost);
}

#[test]
fn stat_of_absent_key_is_not_found() {
    let config = Config::default();
    let mut f = Fake::new();
    assert_eq!(run(&mut f, stat(&s("pcr"), &s("none"), &config)).unwrap_err(), KvError::NotFound);
}

#[test]
fn round_trip_inline_and_overflowed() {
    let mut config = Config::default();
    config.mem_threshold = 8;
    let mut f = Fake::new();
    do_store(&mut f, &config, "pcr", "small", 5000, "12345678").unwrap();
    do_store(&mut f, &config, "pcr", "large", 5000, "123456789").unwrap();
    assert_eq!(f.blobs.len(), 1);
    assert_eq!(do_load(&mut f, &config, "pcr", "small").unwrap(), (s("12345678"), config.operation_c_cost));
    assert_eq!(do_load(&mut f, &config, "pcr", "large").unwrap(), (s("123456789"), config.operation_c_cost));
}

#[test]
fn tenants_are_isolated() {
    let config = Config::default();
    let mut f = Fake::new();
    do_store(&mut f, &config, "t1", "k", 1000, "one").unwrap();
    assert_eq!(do_load(&mut f, &config, "t2", "k").unwrap_err(), KvError::NotFound);
    assert_eq!(do_exists(&mut f, &config, "t2", "k").unwrap().0, false);
}

#[test]
fn aliasing_tenants_are_rejected() {
    let config = Config::default();
    let mut f = Fake::new();
    assert_eq!(do_store(&mut f, &config, "a/b", "k", 1000, "v"), Err(KvError::InvalidArgument));
    assert_eq!(do_store(&mut f, &config, "a.lock", "k", 1000, "v"), Err(KvError::InvalidArgument));
    assert!(f.commands.is_empty());
}

#[test]
fn store_cost_follows_formula() {
    let config = Config::default();
    let mut f = Fake::new();
    let cost = run(&mut f, store_at(&s("pcr"), &s("key"), 2500, &s("value"), &config, 5)).unwrap();
    let encoded = encode(&Record { content: Content::Inline(s("value")), modified: 5 });
    let bytes = encoded.len() as i64;
    assert_eq!(cost, bytes * 2 * config.memory_cost + config.operation_c_cost);
}

#[test]
fn store_with_unrepresentable_cost_is_rejected() {
    let mut config = Config::default();
    config.memory_cost = i64::MAX;
    let mut f = Fake::new();
    let r = run(&mut f, store_at(&s("pcr"), &s("key"), 5000, &s("value"), &config, 5));
    assert_eq!(r, Err(KvError::InvalidArgument));
    assert!(f.data.is_empty());
}

#[test]
fn test_lock() {
    let config = Config::default();
    let mut f = Fake::new();
    run(&mut f, lock(&s("pcr"), &s("test_lock"), &config)).unwrap();
    let second = run(&mut f, lock(&s("pcr"), &s("test_lock"), &config));
    assert_eq!(second.unwrap_err(), KvError::LockContention);
}

#[test]
fn held_lock_is_probed_retry_count_times() {
    let config = Config::default();
    let mut f = Fake::new();
    run(&mut f, lock(&s("pcr"), &s("k"), &config)).unwrap();
    f.commands.clear();
    let before = f.clock;
    assert!(run(&mut f, lock(&s("pcr"), &s("k"), &config)).is_err());
    let probes = f.commands.iter().filter(|c| c.starts_with("Exists")).count();
    assert_eq!(probes as u64, config.retry_count);
    assert_eq!(f.clock - before, config.retry_count * config.retry_delay);
}

#[test]
fn test_lock_expiry() {
    let config = Config::default();
    let mut f = Fake::new();
    run(&mut f, lock(&s("pcr"), &s("test_lock_expiry"), &config)).unwrap();
    f.wait(config.lock_expiry);
    run(&mut f, lock(&s("pcr"), &s("test_lock_expiry"), &config)).unwrap();
}

#[test]
fn test_unlock() {
    let config = Config::default();
    let mut f = Fake::new();
    let lock_id = run(&mut f, lock(&s("pcr"), &s("test_unlock"), &config)).unwrap();
    assert_eq!(lock_id.0.len(), 20);
    assert_eq!(lock_id.1, config.operation_b_cost);
    run(&mut f, unlock(&s("pcr"), &s("test_unlock"), &lock_id.0, &config)).unwrap();
    run(&mut f, lock(&s("pcr"), &s("test_unlock"), &config)).unwrap();
}

#[test]
fn wrong_token_release_keeps_lock() {
    let config = Config::default();
    let mut f = Fake::new();
    let (token, _) = run(&mut f, lock(&s("pcr"), &s("k"), &config)).unwrap();
    let mut wrong = token.clone();
    wrong[0] ^= 0xff;
    let r = run(&mut f, unlock(&s("pcr"), &s("k"), &wrong, &config));
    assert_eq!(r, Err(KvError::LockOwnershipMismatch));
    assert!(f.data.contains_key("pcr.lock/k"));
    assert_eq!(run(&mut f, lock(&s("pcr"), &s("k"), &config)).unwrap_err(), KvError::LockContention);
}

#[test]
fn lock_with_short_token_fails() {
    let config = Config::default();
    let (op, _) = lock(&s("pcr"), &s("k"), &config);
    let (op, step) = op.resume(Reply::Flag(false));
    assert!(matches!(step, Step::Next(Command::RandomToken)));
    let (_, step) = op.resume(Reply::Raw(Some(vec![1; 19])));
    assert!(matches!(step, Step::Finished(Err(KvError::BackendUnavailable))));
}

#[test]
fn lost_race_fails_at_once() {
    let config = Config::default();
    let (op, _) = lock(&s("pcr"), &s("k"), &config);
    let (op, _) = op.resume(Reply::Flag(false));
    let (op, step) = op.resume(Reply::Raw(Some(vec![7; 20])));
    assert!(matches!(step, Step::Next(Command::SetIfAbsentWithExpiry { .. })));
    let (_, step) = op.resume(Reply::Flag(false));
    assert!(matches!(step, Step::Finished(Err(KvError::LockContention))));
}

#[test]
fn zero_retries_never_acquires() {
    let mut config = Config::default();
    config.retry_count = 0;
    let mut f = Fake::new();
    assert_eq!(run(&mut f, lock(&s("pcr"), &s("k"), &config)).unwrap_err(), KvError::LockContention);
    assert!(f.commands.is_empty());
}

fn sorted(mut v: Vec<String>) -> Vec<String> {
    v.sort();
    v
}

#[test]
fn test_list_recursive() {
    let config = Config::default();
    let mut f = Fake::new();
    for k in ["test_list_recursive_0", "test_list_recursive/1", "test_list_recursive/2", "unused_test_list_recursive"] {
        do_store(&mut f, &config, "pcr", k, 1000, "This is a test value").unwrap();
    }
    let list_result = run(&mut f, list(&s("pcr"), &s("test_list_recursive"), true, &config)).unwrap();
    assert_eq!(3, list_result.0.len());
    for i in &list_result.0 {
        assert!(i == "test_list_recursive_0" || i == "test_list_recursive/1" || i == "test_list_recursive/2");
    }
    assert_eq!(list_result.1, config.operation_a_cost);
}

#[test]
fn listing_scenario_excludes_other_keys() {
    let config = Config::default();
    let mut f = Fake::new();
    for k in ["a_0", "a/1", "a/2", "other_a"] {
        do_store(&mut f, &config, "tenant", k, 1000, "v").unwrap();
    }
    do_store(&mut f, &config, "else", "a_9", 1000, "v").unwrap();
    let (keys, _) = run(&mut f, list(&s("tenant"), &s("a"), true, &config)).unwrap();
    assert_eq!(sorted(keys), vec![s("a/1"), s("a/2"), s("a_0")]);
}

#[test]
fn listing_collapses_one_level() {
    let config = Config::default();
    let mut f = Fake::new();
    for k in ["a_0", "a/1", "a/2", "a/b/3", "other_a"] {
        do_store(&mut f, &config, "tenant", k, 1000, "v").unwrap();
    }
    let (keys, _) = run(&mut f, list(&s("tenant"), &s("a"), false, &config)).unwrap();
    assert_eq!(sorted(keys), vec![s("a"), s("a_0")]);
    let (keys, _) = run(&mut f, list(&s("tenant"), &s("a/"), false, &config)).unwrap();
    assert_eq!(sorted(keys), vec![s("a/1"), s("a/2"), s("a/b")]);
}

#[test]
fn listing_whole_namespace_is_flat() {
    let config = Config::default();
    let mut f = Fake::new();
    for k in ["x/1", "y"] {
        do_store(&mut f, &config, "tenant", k, 1000, "v").unwrap();
    }
    run(&mut f, lock(&s("tenant"), &s("y"), &config)).unwrap();
    let (keys, _) = run(&mut f, list(&s("tenant"), &s(""), false, &config)).unwrap();
    assert_eq!(sorted(keys), vec![s("x/1"), s("y")]);
    let (keys, _) = run(&mut f, list(&s("tenant"), &s("*"), false, &config)).unwrap();
    assert_eq!(sorted(keys), vec![s("x/1"), s("y")]);
}

#[test]
fn list_scans_with_pattern() {
    let config = Config::default();
    let (_, step) = list(&s("pcr"), &s("dir"), false, &config);
    match step {
        Step::Next(Command::Scan { cursor, pattern, count }) => {
            assert_eq!((cursor, pattern.as_str(), count), (0, "pcr/dir*", 1));
        }
        _ => panic!("expected a scan"),
    }
    let (_, step) = list(&s("pcr"), &s(""), false, &config);
    match step {
        Step::Next(Command::Scan { pattern, .. }) => assert_eq!(pattern, "pcr/*"),
        _ => panic!("expected a scan"),
    }
}

#[test]
fn collapse_keeps_first_appearance_once() {
    let keys = vec![s("p/x/1"), s("p/y"), s("p/x/2"), s("q")];
    assert_eq!(collapse_keys(&keys, &s("p/")), vec![s("p/x"), s("p/y"), s("p/")]);
}

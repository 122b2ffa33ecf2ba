//! The listing engine: a cursor-driven scan of a tenant's keys under a
//! prefix, flat or collapsed to one level of directories.
use vstd::prelude::*;
use crate::config::Config;
use crate::keys::{get_namespace_prefix, get_namespaced_key, is_valid_tenant, namespace_prefix, namespaced, valid_tenant};
use crate::protocol::{texts, Command, CommandView, KvError, Reply, ReplyView, Step, StepView};

verus! {

/// A prefix that stands for the tenant's whole namespace.
pub open spec fn whole_namespace(prefix: Seq<char>) -> bool {
    prefix.len() == 0 || prefix == seq!['*']
}

/// The backend pattern that a listing scans for.
pub open spec fn scan_pattern(tenant: Seq<char>, prefix: Seq<char>) -> Seq<char> {
    if whole_namespace(prefix) {
        namespaced(tenant, seq!['*'])
    } else {
        namespaced(tenant, prefix) + seq!['*']
    }
}

/// `key` without `prefix`, where it starts with it.
pub open spec fn strip(key: Seq<char>, prefix: Seq<char>) -> Option<Seq<char>> {
    if prefix.is_prefix_of(key) {
        Some(key.subrange(prefix.len() as int, key.len() as int))
    } else {
        None
    }
}

/// The keys that start with `prefix`, without it, in their order.
pub open spec fn strip_all(keys: Seq<Seq<char>>, prefix: Seq<char>) -> Seq<Seq<char>>
    decreases keys.len(),
{
    if keys.len() == 0 {
        seq![]
    } else {
        let rest = strip_all(keys.drop_last(), prefix);
        match strip(keys.last(), prefix) {
            Some(k) => rest.push(k),
            None => rest,
        }
    }
}

/// The position of the first `/` in `s`, or its length where it has none.
pub open spec fn slash_pos(s: Seq<char>) -> nat
    decreases s.len(),
{
    if s.len() == 0 || s[0] == '/' {
        0
    } else {
        1 + slash_pos(s.drop_first())
    }
}

/// The first path segment of `s`: all before its first `/`.
pub open spec fn first_segment(s: Seq<char>) -> Seq<char> {
    s.subrange(0, slash_pos(s) as int)
}

/// The directory entry under `prefix` that `key` falls in: `prefix` and the
/// first segment after it (`prefix` alone for a key outside it).
pub open spec fn entry_of(key: Seq<char>, prefix: Seq<char>) -> Seq<char> {
    let rest = match strip(key, prefix) {
        Some(r) => r,
        None => seq![],
    };
    prefix + first_segment(rest)
}

/// The distinct entries of `keys` under `prefix`, in order of first
/// appearance.
pub open spec fn collapse(keys: Seq<Seq<char>>, prefix: Seq<char>) -> Seq<Seq<char>>
    decreases keys.len(),
{
    if keys.len() == 0 {
        seq![]
    } else {
        let rest = collapse(keys.drop_last(), prefix);
        let e = entry_of(keys.last(), prefix);
        if rest.contains(e) {
            rest
        } else {
            rest.push(e)
        }
    }
}

/// A listing of one tenant's keys.
#[derive(Debug)]
pub struct ListOp {
    /// The tenant's data prefix, stripped from every key found.
    pub namespace: String,
    pub prefix: String,
    pub pattern: String,
    /// Whether the keys are returned as found, not collapsed.
    pub flat: bool,
    pub found: Vec<String>,
    pub cost: i64,
    pub over: bool,
}

pub struct ListOpView {
    pub namespace: Seq<char>,
    pub prefix: Seq<char>,
    pub pattern: Seq<char>,
    pub flat: bool,
    pub found: Seq<Seq<char>>,
    pub cost: i64,
    pub over: bool,
}

impl View for ListOp {
    type V = ListOpView;

    open spec fn view(&self) -> ListOpView {
        ListOpView {
            namespace: self.namespace@,
            prefix: self.prefix@,
            pattern: self.pattern@,
            flat: self.flat,
            found: texts(self.found@),
            cost: self.cost,
            over: self.over,
        }
    }
}

/// The view of a listing's step, with each key as its text.
pub open spec fn listing_view(s: Step<(Vec<String>, i64)>) -> StepView<(Seq<Seq<char>>, i64)> {
    match s {
        Step::Next(c) => StepView::Next(c@),
        Step::Finished(Ok((keys, cost))) => StepView::Finished(Ok((texts(keys@), cost))),
        Step::Finished(Err(e)) => StepView::Finished(Err(e)),
    }
}

/// How a listing begins: a scan from cursor 0, a page of one key at a time.
pub open spec fn list_start(config: Config, tenant: Seq<char>, prefix: Seq<char>, recursive: bool) -> (ListOpView, StepView<(Seq<Seq<char>>, i64)>) {
    let op = ListOpView {
        namespace: namespace_prefix(tenant),
        prefix,
        pattern: scan_pattern(tenant, prefix),
        flat: recursive || whole_namespace(prefix),
        found: seq![],
        cost: config.operation_a_cost,
        over: false,
    };
    if valid_tenant(tenant) {
        (op, StepView::Next(CommandView::Scan { cursor: 0, pattern: op.pattern, count: 1 }))
    } else {
        (ListOpView { over: true, ..op }, StepView::Finished(Err(KvError::InvalidArgument)))
    }
}

/// What a finished listing returns for the keys it found.
pub open spec fn list_result(op: ListOpView, found: Seq<Seq<char>>) -> Seq<Seq<char>> {
    if op.flat {
        found
    } else {
        collapse(found, op.prefix)
    }
}

/// How a listing goes on from a page: it keeps the page's keys without the
/// tenant's prefix, and scans on until the cursor comes back to 0.
pub open spec fn list_next(op: ListOpView, reply: ReplyView) -> (ListOpView, StepView<(Seq<Seq<char>>, i64)>) {
    match reply {
        ReplyView::Page { cursor, keys } if !op.over => {
            let found = op.found + strip_all(keys, op.namespace);
            if cursor == 0 {
                (
                    ListOpView { found, over: true, ..op },
                    StepView::Finished(Ok((list_result(op, found), op.cost))),
                )
            } else {
                (
                    ListOpView { found, ..op },
                    StepView::Next(CommandView::Scan { cursor, pattern: op.pattern, count: 1 }),
                )
            }
        },
        _ => (
            ListOpView { over: true, ..op },
            StepView::Finished(Err(KvError::BackendUnavailable)),
        ),
    }
}

/// Begins a listing of tenant `pcr`'s keys under `prefix`.
pub fn list(pcr: &String, prefix: &String, recursive: bool, config: &Config) -> (r: (ListOp, Step<(Vec<String>, i64)>))
    ensures
        (r.0@, listing_view(r.1)) == list_start(*config, pcr@, prefix@, recursive),
{
    let p = prefix.as_str();
    let whole = p.unicode_len() == 0 || (p.unicode_len() == 1 && p.get_char(0) == '*');
    assert(whole == whole_namespace(prefix@)) by {
        if prefix@.len() == 1 && prefix@[0] == '*' {
            assert(prefix@ =~= seq!['*']);
        }
    }
    proof {
        reveal_strlit("*");
    }
    let star = String::from_str("*");
    assert(star@ =~= seq!['*']);
    let pattern = if whole {
        get_namespaced_key(pcr, &star)
    } else {
        let p = get_namespaced_key(pcr, prefix).concat("*");
        assert(p@ =~= namespaced(pcr@, prefix@) + seq!['*']);
        p
    };
    assert(pattern@ == scan_pattern(pcr@, prefix@));
    let mut op = ListOp {
        namespace: get_namespace_prefix(pcr),
        prefix: prefix.clone(),
        pattern,
        flat: recursive || whole,
        found: Vec::new(),
        cost: config.operation_a_cost,
        over: false,
    };
    assert(texts(op.found@) =~= seq![]);
    if is_valid_tenant(pcr) {
        let pattern = op.pattern.clone();
        (op, Step::Next(Command::Scan { cursor: 0, pattern, count: 1 }))
    } else {
        op.over = true;
        (op, Step::Finished(Err(KvError::InvalidArgument)))
    }
}

/// `key` without `prefix`, where it starts with it.
fn strip_prefix(key: &String, prefix: &String) -> (r: Option<String>)
    ensures
        match r {
            Some(s) => strip(key@, prefix@) == Some(s@),
            None => strip(key@, prefix@) is None,
        },
{
    let k = key.as_str();
    let p = prefix.as_str();
    let kn = k.unicode_len();
    let pn = p.unicode_len();
    if pn > kn {
        return None;
    }
    let mut i: usize = 0;
    while i < pn
        invariant
            kn == key@.len(),
            pn == prefix@.len(),
            k@ == key@,
            p@ == prefix@,
            pn <= kn,
            i <= pn,
            forall|j: int| 0 <= j < i ==> key@[j] == prefix@[j],
        decreases pn - i,
    {
        if k.get_char(i) != p.get_char(i) {
            return None;
        }
        i = i + 1;
    }
    Some(k.substring_char(pn, kn).to_owned())
}

proof fn lemma_slash_pos(s: Seq<char>, i: int)
    requires
        0 <= i <= s.len(),
        forall|j: int| 0 <= j < i ==> s[j] != '/',
        i == s.len() || s[i] == '/',
    ensures
        slash_pos(s) == i,
    decreases i,
{
    if i > 0 {
        lemma_slash_pos(s.drop_first(), i - 1);
    }
}

/// The first path segment of `s`.
fn segment(s: &String) -> (r: String)
    ensures
        r@ == first_segment(s@),
{
    let t = s.as_str();
    let n = t.unicode_len();
    let mut i: usize = 0;
    while i < n && t.get_char(i) != '/'
        invariant
            n == s@.len(),
            t@ == s@,
            i <= n,
            forall|j: int| 0 <= j < i ==> s@[j] != '/',
        decreases n - i,
    {
        i = i + 1;
    }
    proof {
        lemma_slash_pos(s@, i as int);
    }
    t.substring_char(0, i).to_owned()
}

/// The directory entry under `prefix` that `key` falls in.
fn entry(key: &String, prefix: &String) -> (r: String)
    ensures
        r@ == entry_of(key@, prefix@),
{
    let rest = match strip_prefix(key, prefix) {
        Some(r) => r,
        None => String::new(),
    };
    prefix.clone().concat(segment(&rest).as_str())
}

/// Whether `v` holds a string equal to `s`.
fn holds(v: &Vec<String>, s: &String) -> (r: bool)
    ensures
        r == texts(v@).contains(s@),
{
    let mut i: usize = 0;
    while i < v.len()
        invariant
            i <= v@.len(),
            forall|j: int| 0 <= j < i ==> v@[j]@ != s@,
        decreases v@.len() - i,
    {
        if v[i] == *s {
            assert(texts(v@)[i as int] == s@);
            return true;
        }
        i = i + 1;
    }
    assert forall|j: int| 0 <= j < texts(v@).len() implies texts(v@)[j] != s@ by {
        assert(texts(v@)[j] == v@[j]@);
    }
    false
}

/// The distinct directory entries of `keys` under `prefix`.
pub fn collapse_keys(keys: &Vec<String>, prefix: &String) -> (r: Vec<String>)
    ensures
        texts(r@) == collapse(texts(keys@), prefix@),
{
    let mut out: Vec<String> = Vec::new();
    let mut i: usize = 0;
    assert(texts(keys@).take(0) =~= seq![]);
    assert(texts(out@) =~= seq![]);
    while i < keys.len()
        invariant
            i <= keys@.len(),
            texts(out@) == collapse(texts(keys@).take(i as int), prefix@),
        decreases keys@.len() - i,
    {
        let e = entry(&keys[i], prefix);
        let ghost before = texts(keys@).take(i as int);
        let ghost after = texts(keys@).take(i + 1);
        assert(after.drop_last() =~= before);
        assert(after.last() == keys@[i as int]@);
        if !holds(&out, &e) {
            let ghost old_out = out@;
            out.push(e);
            assert(texts(out@) =~= texts(old_out).push(e@));
        }
        i = i + 1;
    }
    assert(texts(keys@).take(keys@.len() as int) =~= texts(keys@));
    out
}

/// Appends to `found` the keys of `keys` that start with `prefix`, without
/// it.
fn push_stripped(found: &mut Vec<String>, keys: &Vec<String>, prefix: &String)
    ensures
        texts(final(found)@) == texts(old(found)@) + strip_all(texts(keys@), prefix@),
{
    let mut i: usize = 0;
    assert(texts(keys@).take(0) =~= seq![]);
    assert(texts(found@) =~= texts(old(found)@) + strip_all(texts(keys@).take(0), prefix@));
    while i < keys.len()
        invariant
            i <= keys@.len(),
            texts(found@) == texts(old(found)@) + strip_all(texts(keys@).take(i as int), prefix@),
        decreases keys@.len() - i,
    {
        let ghost before = texts(keys@).take(i as int);
        let ghost after = texts(keys@).take(i + 1);
        assert(after.drop_last() =~= before);
        assert(after.last() == keys@[i as int]@);
        match strip_prefix(&keys[i], prefix) {
            Some(k) => {
                let ghost old_found = found@;
                found.push(k);
                assert(texts(found@) =~= texts(old_found).push(k@));
                assert(texts(found@) =~= texts(old(found)@) + strip_all(after, prefix@));
            },
            None => {},
        }
        i = i + 1;
    }
    assert(texts(keys@).take(keys@.len() as int) =~= texts(keys@));
}

impl ListOp {
    /// Goes on from the driver's reply to the last command.
    pub fn resume(self, reply: Reply) -> (r: (ListOp, Step<(Vec<String>, i64)>))
        ensures
            (r.0@, listing_view(r.1)) == list_next(self@, reply@),
    {
        let mut op = self;
        match reply {
            Reply::Page { cursor, keys } => {
                if op.over {
                    return (op, Step::Finished(Err(KvError::BackendUnavailable)));
                }
                push_stripped(&mut op.found, &keys, &op.namespace);
                if cursor == 0 {
                    op.over = true;
                    let result = if op.flat {
                        op.found.clone()
                    } else {
                        collapse_keys(&op.found, &op.prefix)
                    };
                    let cost = op.cost;
                    (op, Step::Finished(Ok((result, cost))))
                } else {
                    let pattern = op.pattern.clone();
                    (op, Step::Next(Command::Scan { cursor, pattern, count: 1 }))
                }
            },
            _ => {
                op.over = true;
                (op, Step::Finished(Err(KvError::BackendUnavailable)))
            },
        }
    }
}

} // verus!

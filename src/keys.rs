//! Backend keys of a tenant: the data keyspace under `tenant + "/"` and the
//! lock keyspace under `tenant + ".lock/"`.
use vstd::prelude::*;

verus! {

/// The text that starts every data key of `tenant`.
pub open spec fn namespace_prefix(tenant: Seq<char>) -> Seq<char> {
    tenant + seq!['/']
}

/// The backend key that holds the record of `key` for `tenant`.
pub open spec fn namespaced(tenant: Seq<char>, key: Seq<char>) -> Seq<char> {
    namespace_prefix(tenant) + key
}

/// The text that starts every lock key of `tenant`.
pub open spec fn lock_prefix(tenant: Seq<char>) -> Seq<char> {
    tenant + seq!['.', 'l', 'o', 'c', 'k', '/']
}

/// The backend key that holds the lease on `key` for `tenant`.
pub open spec fn locked(tenant: Seq<char>, key: Seq<char>) -> Seq<char> {
    lock_prefix(tenant) + key
}

/// A tenant name that cannot alias another tenant's keys or a lock key:
/// it holds no `/` and does not end in `.lock`.
pub open spec fn valid_tenant(tenant: Seq<char>) -> bool {
    &&& !tenant.contains('/')
    &&& !(tenant.len() >= 5 && tenant.subrange(tenant.len() - 5, tenant.len() as int) == seq![
        '.',
        'l',
        'o',
        'c',
        'k',
    ])
}

pub fn get_namespace_prefix(pcr: &String) -> (r: String)
    ensures
        r@ == namespace_prefix(pcr@),
{
    proof {
        reveal_strlit("/");
    }
    pcr.clone().concat("/")
}

pub fn get_namespaced_key(pcr: &String, key: &String) -> (r: String)
    ensures
        r@ == namespaced(pcr@, key@),
{
    get_namespace_prefix(pcr).concat(key.as_str())
}

pub fn get_locked_prefix(pcr: &String) -> (r: String)
    ensures
        r@ == lock_prefix(pcr@),
{
    proof {
        reveal_strlit(".lock");
        reveal_strlit("/");
    }
    let r = pcr.clone().concat(".lock").concat("/");
    assert(r@ =~= lock_prefix(pcr@));
    r
}

pub fn get_locked_key(pcr: &String, key: &String) -> (r: String)
    ensures
        r@ == locked(pcr@, key@),
{
    get_locked_prefix(pcr).concat(key.as_str())
}

/// Whether `tenant` is a name that the keyspaces can hold apart.
pub fn is_valid_tenant(tenant: &String) -> (r: bool)
    ensures
        r == valid_tenant(tenant@),
{
    let s = tenant.as_str();
    let n = s.unicode_len();
    let mut i: usize = 0;
    while i < n
        invariant
            n == s@.len(),
            s@ == tenant@,
            i <= n,
            forall|j: int| 0 <= j < i ==> s@[j] != '/',
        decreases n - i,
    {
        if s.get_char(i) == '/' {
            assert(tenant@[i as int] == '/');
            return false;
        }
        i = i + 1;
    }
    assert(!tenant@.contains('/'));
    if n >= 5 {
        let tail = s.substring_char(n - 5, n);
        if tail.get_char(0) == '.' && tail.get_char(1) == 'l' && tail.get_char(2) == 'o'
            && tail.get_char(3) == 'c' && tail.get_char(4) == 'k' {
            assert(tail@ =~= seq!['.', 'l', 'o', 'c', 'k']);
            return false;
        }
        assert(tail@ != seq!['.', 'l', 'o', 'c', 'k']);
    }
    true
}

/// Two different valid tenants never share a data key or a lock key,
/// whatever the logical keys.
pub proof fn lemma_tenants_disjoint(t1: Seq<char>, k1: Seq<char>, t2: Seq<char>, k2: Seq<char>)
    requires
        valid_tenant(t1),
        valid_tenant(t2),
        t1 != t2,
    ensures
        namespaced(t1, k1) != namespaced(t2, k2),
        locked(t1, k1) != locked(t2, k2),
{
    lemma_slash_apart(t1, seq!['/'] + k1, t2, seq!['/'] + k2);
    assert(namespaced(t1, k1) =~= t1 + (seq!['/'] + k1));
    assert(namespaced(t2, k2) =~= t2 + (seq!['/'] + k2));
    let lk = seq!['.', 'l', 'o', 'c', 'k'];
    assert(!(t1 + lk).contains('/')) by {
        assert forall|i: int| 0 <= i < (t1 + lk).len() implies (t1 + lk)[i] != '/' by {
            if i < t1.len() {
                assert((t1 + lk)[i] == t1[i]);
            }
        }
    }
    assert(!(t2 + lk).contains('/')) by {
        assert forall|i: int| 0 <= i < (t2 + lk).len() implies (t2 + lk)[i] != '/' by {
            if i < t2.len() {
                assert((t2 + lk)[i] == t2[i]);
            }
        }
    }
    if t1 + lk == t2 + lk {
        assert(t1 =~= (t1 + lk).subrange(0, t1.len() as int));
        assert(t2 =~= (t2 + lk).subrange(0, t2.len() as int));
    }
    lemma_slash_apart(t1 + lk, seq!['/'] + k1, t2 + lk, seq!['/'] + k2);
    assert(locked(t1, k1) =~= (t1 + lk) + (seq!['/'] + k1));
    assert(locked(t2, k2) =~= (t2 + lk) + (seq!['/'] + k2));
}

/// A data key and a lock key of valid tenants never coincide.
pub proof fn lemma_data_lock_disjoint(t1: Seq<char>, k1: Seq<char>, t2: Seq<char>, k2: Seq<char>)
    requires
        valid_tenant(t1),
        valid_tenant(t2),
    ensures
        namespaced(t1, k1) != locked(t2, k2),
{
    let a = namespaced(t1, k1);
    let d = locked(t2, k2);
    let n1 = t1.len() as int;
    let n2 = t2.len() as int;
    if a == d {
        if n1 < n2 + 5 {
            assert(a[n1] == '/');
            if n1 < n2 {
                assert(d[n1] == t2[n1]);
                assert(t2.contains('/'));
            } else {
                assert(d[n1] != '/');
            }
        } else if n1 > n2 + 5 {
            assert(d[n2 + 5] == '/');
            assert(a[n2 + 5] == t1[n2 + 5]);
            assert(t1.contains('/'));
        } else {
            assert(t1.subrange(n1 - 5, n1) =~= a.subrange(n2, n2 + 5));
            assert(d.subrange(n2, n2 + 5) =~= seq!['.', 'l', 'o', 'c', 'k']);
        }
    }
}

/// Where neither head holds a `/` and both tails start with one, the two
/// texts are equal only if the heads are.
proof fn lemma_slash_apart(h1: Seq<char>, r1: Seq<char>, h2: Seq<char>, r2: Seq<char>)
    requires
        !h1.contains('/'),
        !h2.contains('/'),
        r1.len() > 0,
        r1[0] == '/',
        r2.len() > 0,
        r2[0] == '/',
        h1 != h2,
    ensures
        h1 + r1 != h2 + r2,
{
    let a = h1 + r1;
    let b = h2 + r2;
    let n1 = h1.len() as int;
    let n2 = h2.len() as int;
    if a == b {
        if n1 < n2 {
            assert(a[n1] == '/');
            assert(b[n1] == h2[n1]);
            assert(h2.contains('/'));
        } else if n2 < n1 {
            assert(b[n2] == '/');
            assert(a[n2] == h1[n2]);
            assert(h1.contains('/'));
        } else {
            assert(h1 =~= a.subrange(0, n1));
            assert(h2 =~= b.subrange(0, n2));
        }
    }
}

} // verus!

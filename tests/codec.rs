use tenant_kv::config::Config;
use tenant_kv::cost::checked_store_cost;
use tenant_kv::handler::ping;
use tenant_kv::keys::{get_locked_key, get_locked_prefix, get_namespace_prefix, get_namespaced_key, is_valid_tenant};
use tenant_kv::overflow::{add_body, basic_authorization, FORM_CONTENT_TYPE};

fn s(x: &str) -> String {
    x.to_string()
}

#[test]
fn namespaced_keys() {
    assert_eq!(get_namespace_prefix(&s("pcr")), "pcr/");
    assert_eq!(get_namespaced_key(&s("pcr"), &s("a/b")), "pcr/a/b");
    assert_eq!(get_locked_prefix(&s("pcr")), "pcr.lock/");
    assert_eq!(get_locked_key(&s("pcr"), &s("k")), "pcr.lock/k");
    assert_eq!(get_namespaced_key(&s(""), &s("")), "/");
}

#[test]
fn tenant_validity() {
    assert!(is_valid_tenant(&s("pcr")));
    assert!(is_valid_tenant(&s("")));
    assert!(is_valid_tenant(&s("lock")));
    assert!(is_valid_tenant(&s("a.locks")));
    assert!(!is_valid_tenant(&s("a/b")));
    assert!(!is_valid_tenant(&s(".lock")));
    assert!(!is_valid_tenant(&s("x.lock")));
}

#[test]
fn cost_formula_values() {
    assert_eq!(checked_store_cost(15, 2500, 3, 7), Some(97));
    assert_eq!(checked_store_cost(15, 999, 3, 7), Some(7));
    assert_eq!(checked_store_cost(15, -1, 3, 7), Some(7));
    assert_eq!(checked_store_cost(0, 5000, 3, -4), Some(-4));
    assert_eq!(checked_store_cost(u64::MAX, 1000, 1, 0), None);
    assert_eq!(checked_store_cost(u64::MAX, i64::MAX, 0, 9), Some(9));
    assert_eq!(checked_store_cost(1, 1000, i64::MAX, 1), None);
    assert_eq!(checked_store_cost(1, 1000, i64::MAX, -1), Some(i64::MAX - 1));
}

#[test]
fn default_config() {
    let c = Config::default();
    assert_eq!(c.retry_delay, 200);
    assert_eq!(c.retry_count, 5);
    assert_eq!(c.lock_expiry, 30000);
    assert_eq!(c.operation_a_cost, 17637500);
    assert_eq!(c.operation_b_cost, 3527500);
    assert_eq!(c.operation_c_cost, 1763750);
    assert_eq!(c.memory_cost, 879583);
    assert_eq!(c.mem_threshold, 1000);
    assert!(c.ipfs_url.is_empty());
}

#[test]
fn form_body_frames_value() {
    let body = add_body(&s("hello"));
    assert_eq!(
        body,
        "------WebKitFormBoundaryP7QTR7KAEBq0gxMo\r\nContent-Disposition: form-data; name=\"file\"; filename=\"blob\"\r\nContent-Type: application/octet-stream\r\n\r\nhello\r\n------WebKitFormBoundaryP7QTR7KAEBq0gxMo--\r\n"
    );
    assert!(FORM_CONTENT_TYPE.ends_with("----WebKitFormBoundaryP7QTR7KAEBq0gxMo"));
}

#[test]
fn authorization_is_unpadded_base64() {
    assert_eq!(basic_authorization(&s("a"), &s("b")), "Basic YTpi");
    assert_eq!(basic_authorization(&s("user"), &s("pw")), "Basic dXNlcjpwdw");
    assert_eq!(basic_authorization(&s(""), &s("")), "Basic Og");
}

#[test]
fn ping_version() {
    assert_eq!(ping().version, "0.0.1");
}

use std::sync::Arc;
use vhost_proxy::pool::{BackendPool, SelectionStrategy};
use vhost_proxy::proxy::server::ServerConf;
use vhost_proxy::proxy::{ConfigError, Proxy};

struct First;

impl SelectionStrategy for First {
    fn pick(&self, endpoints: &Vec<String>, _hint: &[u8], _hint_strength: usize) -> Option<usize> {
        if endpoints.is_empty() {
            None
        } else {
            Some(0)
        }
    }
}

fn pool_of(addresses: &[&str]) -> Arc<BackendPool> {
    let endpoints: Vec<String> = addresses.iter().map(|a| a.to_string()).collect();
    Arc::new(BackendPool::new(endpoints, Box::new(First)))
}

fn conf(pool: &Arc<BackendPool>, host: &'static [u8], tls: bool) -> ServerConf {
    ServerConf::new(pool.clone(), host, tls)
}

#[test]
fn new_table_is_empty() {
    let proxy = Proxy::new();
    assert!(proxy.get_server(b"a.example.com").is_none());
    assert!(proxy.get_server(b"").is_none());
    assert!(proxy.get_global_server().is_none());
    assert!(proxy.route(b"a.example.com").is_none());
}

#[test]
fn lookup_finds_what_was_registered() {
    let pool = pool_of(&["10.0.0.1:80"]);
    let mut proxy = Proxy::new();
    assert_eq!(proxy.add_server(b"a.example.com", conf(&pool, b"a.example.com", true)), Ok(()));
    let found = proxy.get_server(b"a.example.com").unwrap();
    assert_eq!(found.host, b"a.example.com");
    assert!(found.tls);
    assert!(Arc::ptr_eq(&found.upstream, &pool));
}

#[test]
fn second_registration_replaces_first() {
    let first = pool_of(&["10.0.0.1:80"]);
    let second = pool_of(&["10.0.0.2:80"]);
    let mut proxy = Proxy::new();
    assert_eq!(proxy.add_server(b"k.example.com", conf(&first, b"k.example.com", false)), Ok(()));
    assert_eq!(proxy.add_server(b"k.example.com", conf(&second, b"k.example.com", true)), Ok(()));
    let found = proxy.get_server(b"k.example.com").unwrap();
    assert!(Arc::ptr_eq(&found.upstream, &second));
    assert!(!Arc::ptr_eq(&found.upstream, &first));
    assert!(found.tls);
    proxy.remove_server(b"k.example.com");
    assert!(proxy.get_server(b"k.example.com").is_none());
}

#[test]
fn empty_key_is_refused() {
    let pool = pool_of(&["10.0.0.1:80"]);
    let mut proxy = Proxy::new();
    assert_eq!(proxy.add_server(b"", conf(&pool, b"", true)), Err(ConfigError::InvalidKey));
    assert!(proxy.get_server(b"").is_none());
    assert!(proxy.route(b"").is_none());
}

#[test]
fn empty_key_refusal_leaves_table_unchanged() {
    let pool = pool_of(&["10.0.0.1:80"]);
    let other = pool_of(&["10.0.0.2:80"]);
    let mut proxy = Proxy::new();
    assert_eq!(proxy.add_server(b"a.example.com", conf(&pool, b"a.example.com", true)), Ok(()));
    assert_eq!(proxy.add_server(b"", conf(&other, b"", false)), Err(ConfigError::InvalidKey));
    let found = proxy.get_server(b"a.example.com").unwrap();
    assert!(Arc::ptr_eq(&found.upstream, &pool));
    assert!(proxy.get_global_server().is_none());
}

#[test]
fn remove_absent_key_changes_nothing() {
    let pool_a = pool_of(&["10.0.0.1:80"]);
    let pool_b = pool_of(&["10.0.0.2:80"]);
    let mut proxy = Proxy::new();
    assert_eq!(proxy.add_server(b"a.example.com", conf(&pool_a, b"a.example.com", true)), Ok(()));
    proxy.set_global_server(conf(&pool_b, b"", false));
    proxy.remove_server(b"missing.example.com");
    proxy.remove_server(b"");
    let found = proxy.get_server(b"a.example.com").unwrap();
    assert!(Arc::ptr_eq(&found.upstream, &pool_a));
    assert!(Arc::ptr_eq(&proxy.get_global_server().unwrap().upstream, &pool_b));
}

#[test]
fn remove_twice_is_harmless() {
    let pool = pool_of(&["10.0.0.1:80"]);
    let mut proxy = Proxy::new();
    assert_eq!(proxy.add_server(b"a.example.com", conf(&pool, b"a.example.com", true)), Ok(()));
    assert_eq!(proxy.add_server(b"b.example.com", conf(&pool, b"b.example.com", false)), Ok(()));
    proxy.remove_server(b"a.example.com");
    proxy.remove_server(b"a.example.com");
    assert!(proxy.get_server(b"a.example.com").is_none());
    assert_eq!(proxy.get_server(b"b.example.com").unwrap().host, b"b.example.com");
}

#[test]
fn lookup_is_exact_not_by_prefix() {
    let pool = pool_of(&["10.0.0.1:80"]);
    let mut proxy = Proxy::new();
    assert_eq!(proxy.add_server(b"example.com", conf(&pool, b"example.com", true)), Ok(()));
    assert!(proxy.get_server(b"example").is_none());
    assert!(proxy.get_server(b"example.com.au").is_none());
    assert!(proxy.get_server(b"e").is_none());
    assert!(proxy.get_server(b"Example.com").is_none());
    assert!(proxy.get_server(b"example.com").is_some());
}

#[test]
fn keys_sharing_a_prefix_stay_apart() {
    let short = pool_of(&["10.0.0.1:80"]);
    let long = pool_of(&["10.0.0.2:80"]);
    let mut proxy = Proxy::new();
    assert_eq!(proxy.add_server(b"example.com", conf(&short, b"example.com", true)), Ok(()));
    assert_eq!(proxy.add_server(b"example.com.au", conf(&long, b"example.com.au", true)), Ok(()));
    assert!(Arc::ptr_eq(&proxy.get_server(b"example.com").unwrap().upstream, &short));
    assert!(Arc::ptr_eq(&proxy.get_server(b"example.com.au").unwrap().upstream, &long));
    proxy.remove_server(b"example.com");
    assert!(proxy.get_server(b"example.com").is_none());
    assert!(Arc::ptr_eq(&proxy.get_server(b"example.com.au").unwrap().upstream, &long));
}

#[test]
fn keys_are_raw_bytes() {
    let pool = pool_of(&["10.0.0.1:80"]);
    let mut proxy = Proxy::new();
    assert_eq!(proxy.add_server(&[0xff, 0x00, 0x80], conf(&pool, &[0xff, 0x00, 0x80], true)), Ok(()));
    assert!(proxy.get_server(&[0xff, 0x00, 0x80]).is_some());
    assert!(proxy.get_server(&[0xff, 0x00]).is_none());
    assert!(proxy.get_server(&[0xff, 0x00, 0x81]).is_none());
}

#[test]
fn last_fallback_wins() {
    let first = pool_of(&["10.0.0.1:80"]);
    let second = pool_of(&["10.0.0.2:80"]);
    let mut proxy = Proxy::new();
    proxy.set_global_server(conf(&first, b"", true));
    proxy.set_global_server(conf(&second, b"", false));
    let fallback = proxy.get_global_server().unwrap();
    assert!(Arc::ptr_eq(&fallback.upstream, &second));
    assert!(!fallback.tls);
}

#[test]
fn route_prefers_exact_match_over_fallback() {
    let pool_a = pool_of(&["10.0.0.1:80"]);
    let pool_d = pool_of(&["10.0.0.9:80"]);
    let mut proxy = Proxy::new();
    assert_eq!(proxy.add_server(b"a.example.com", conf(&pool_a, b"a.example.com", true)), Ok(()));
    proxy.set_global_server(conf(&pool_d, b"", false));
    assert!(Arc::ptr_eq(&proxy.route(b"a.example.com").unwrap().upstream, &pool_a));
    assert!(Arc::ptr_eq(&proxy.route(b"z.example.com").unwrap().upstream, &pool_d));
    assert!(Arc::ptr_eq(&proxy.route(b"").unwrap().upstream, &pool_d));
}

#[test]
fn routes_may_share_a_pool() {
    let pool = pool_of(&["10.0.0.1:80"]);
    let mut proxy = Proxy::new();
    assert_eq!(proxy.add_server(b"a.example.com", conf(&pool, b"a.example.com", true)), Ok(()));
    assert_eq!(proxy.add_server(b"b.example.com", conf(&pool, b"b.example.com", true)), Ok(()));
    proxy.remove_server(b"a.example.com");
    assert!(Arc::ptr_eq(&proxy.get_server(b"b.example.com").unwrap().upstream, &pool));
    assert_eq!(pool.len(), 1);
}

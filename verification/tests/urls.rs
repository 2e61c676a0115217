use encurtador::resources::shorten;
use proptest::strategy::{Strategy, ValueTree};
use proptest::test_runner::TestRunner;
use std::collections::HashMap;

#[derive(Debug, Clone)]
struct TestURL {
    protocol: String,
    domain: String,
    domain_suffix: String,
    path: String,
    query: String,
}

impl TestURL {
    fn url(self) -> String {
        format!(
            "{}://{}.{}/{}?{}",
            self.protocol, self.domain, self.domain_suffix, self.path, self.query
        )
    }
}

fn any_test_url() -> impl Strategy<Value = TestURL> {
    (
        "(http|https)",
        "[a-z0-9]+",
        "[a-z]{3}",
        "[a-z0-9]+",
        "[a-z0-9]+",
    )
        .prop_map(|(protocol, domain, domain_suffix, path, query)| TestURL {
            protocol,
            domain,
            domain_suffix,
            path,
            query,
        })
}

#[test]
fn url_uniqueness_on_proper_url() {
    let mut map = HashMap::new();
    let mut runner = TestRunner::default();
    let mut test_url = any_test_url().new_tree(&mut runner).unwrap();
    while test_url.simplify() {
        let url = shorten(test_url.current().url());
        let shortened = url.shortened();
        assert_eq!(map.get(&shortened), None);
        map.insert(shortened, 0);
    }
}

#[test]
fn url_uniqueness_on_any_characters() {
    let mut map = HashMap::new();
    let mut runner = TestRunner::default();
    let mut test_url = "\\PC*".new_tree(&mut runner).unwrap();
    while test_url.simplify() {
        let url = shorten(test_url.current());
        let shortened = url.shortened();
        assert_eq!(map.get(&shortened), None);
        map.insert(shortened, 0);
    }
}

#[test]
fn uniqueness_on_same_url() {
    let mut map = HashMap::new();
    for _ in 0..50000 {
        let url = shorten("https://foo.com".to_string());
        let shortened = url.shortened();
        assert_eq!(map.get(&shortened), None);
        map.insert(shortened, 0);
    }
}

use nsearch::errors::SearchError;
use nsearch::provider::SearchProvider;
use nsearch::registry::{build_registry, default_providers, resolve, ConfigurationFile};
use nsearch::template::{count_placeholders, find_placeholder};

#[test]
fn validate_default_providers() {
    for provider in default_providers() {
        assert!(
            provider.validate().is_ok(),
            "invalid default provider '{}'",
            provider.name
        );
    }
}

#[test]
fn new_provider_has_no_aliases() {
    let p = SearchProvider::new("Example", "https://example.com/?q={}");
    assert_eq!(p.name, "Example");
    assert_eq!(p.search_url, "https://example.com/?q={}");
    assert!(p.aliases.is_empty());
}

#[test]
fn with_aliases_appends_in_order() {
    let p = SearchProvider::new("Example", "https://example.com/?q={}")
        .with_aliases(&["ex", "e"])
        .with_aliases(&["x"]);
    assert_eq!(
        p.aliases,
        vec!["ex".to_string(), "e".to_string(), "x".to_string()]
    );
}

#[test]
fn resolve_by_alias_and_name_agree() {
    let providers = default_providers();
    let by_alias = resolve(&providers, "ddg").unwrap();
    let by_name = resolve(&providers, "DuckDuckGo").unwrap();
    assert_eq!(by_alias.name, by_name.name);
    assert_eq!(by_alias.search_url, by_name.search_url);
    assert_eq!(by_name.name, "DuckDuckGo");
}

#[test]
fn resolve_nonexistent_fails() {
    let providers = default_providers();
    let r = resolve(&providers, "nonexistent");
    assert!(matches!(r, Err(SearchError::ProviderNotFound(ref s)) if s == "nonexistent"));
}

#[test]
fn resolve_is_case_sensitive() {
    let providers = default_providers();
    let r = resolve(&providers, "duckduckgo");
    assert!(matches!(r, Err(SearchError::ProviderNotFound(_))));
}

#[test]
fn get_url_encodes_the_query() {
    let p = SearchProvider::new("DuckDuckGo", "https://duckduckgo.com/?q={}");
    assert_eq!(
        p.get_url("rust lang").unwrap(),
        "https://duckduckgo.com/?q=rust%20lang"
    );
}

#[test]
fn get_url_escapes_reserved_characters() {
    let p = SearchProvider::new("Example", "https://example.com/?q={}");
    assert_eq!(
        p.get_url("a&b=c").unwrap(),
        "https://example.com/?q=a%26b%3Dc"
    );
    assert_eq!(p.get_url("").unwrap(), "https://example.com/?q=");
}

#[test]
fn substitute_query_inserts_verbatim() {
    let p = SearchProvider::new("T", "a{}b");
    assert_eq!(p.substitute_query("X Y").unwrap(), "aX Yb");
}

#[test]
fn zero_or_two_placeholders_fail_validation() {
    let zero = SearchProvider::new("Zero", "https://example.com/search");
    assert!(matches!(zero.validate(), Err(SearchError::InvalidTemplate)));
    assert!(matches!(zero.get_url("q"), Err(SearchError::InvalidTemplate)));

    let two = SearchProvider::new("Two", "https://example.com/{}/{}");
    assert!(matches!(two.validate(), Err(SearchError::InvalidTemplate)));
    assert!(matches!(two.get_url("q"), Err(SearchError::InvalidTemplate)));
}

#[test]
fn placeholder_scanning() {
    assert_eq!(count_placeholders("{}{}"), 2);
    assert_eq!(count_placeholders("{{}"), 1);
    assert_eq!(count_placeholders("no placeholder"), 0);
    assert_eq!(count_placeholders(""), 0);
    assert_eq!(find_placeholder("ab{}c"), Some(2));
    assert_eq!(find_placeholder("abc"), None);
}

#[test]
fn registry_without_config_is_the_default_list() {
    let reg = build_registry(None);
    assert_eq!(reg.len(), 7);
    assert_eq!(reg[0].name, "DuckDuckGo");
    assert_eq!(reg[6].name, "Nix Options");
}

#[test]
fn configured_provider_shadows_default() {
    let cfg = ConfigurationFile {
        providers: vec![SearchProvider::new(
            "DuckDuckGo",
            "https://lite.duckduckgo.com/lite/?q={}",
        )],
    };
    let reg = build_registry(Some(cfg));
    assert_eq!(reg.len(), 8);

    let p = resolve(&reg, "DuckDuckGo").unwrap();
    assert_eq!(p.search_url, "https://lite.duckduckgo.com/lite/?q={}");

    let by_alias = resolve(&reg, "ddg").unwrap();
    assert_eq!(by_alias.search_url, "https://duckduckgo.com/?q={}");
}

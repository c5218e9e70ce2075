use nova_loader::config::{
    configured_host, normalize_host, program_api_base_url, AppConfig, DEFAULT_HOST,
};

#[test]
fn builds_api_url_from_simple_localhost_host() {
    assert_eq!(
        program_api_base_url("localhost:3000/"),
        "http://localhost:3000/api/programs"
    );
}

#[test]
fn keeps_existing_api_path() {
    assert_eq!(
        program_api_base_url("http://localhost:3000/api/programs"),
        "http://localhost:3000/api/programs"
    );
}

#[test]
fn normalize_host_trims_and_strips_slashes() {
    assert_eq!(normalize_host("  https://example.com//  "), "https://example.com");
    assert_eq!(normalize_host("example.com"), "http://example.com");
    assert_eq!(normalize_host("\thttp://a.b/\n"), "http://a.b");
}

#[test]
fn normalize_host_of_empty_and_bare_scheme() {
    assert_eq!(normalize_host(""), "http:");
    assert_eq!(normalize_host("http://"), "http:");
    assert_eq!(program_api_base_url(""), "http:/api/programs");
}

#[test]
fn base_url_of_base_url_is_unchanged() {
    let once = program_api_base_url(" api.example.com/ ");
    assert_eq!(once, "http://api.example.com/api/programs");
    assert_eq!(program_api_base_url(&once), once);
}

#[test]
fn base_url_keeps_any_api_programs_suffix() {
    assert_eq!(program_api_base_url("host/myapi/programs"), "http://host/myapi/programs");
}

#[test]
fn config_base_url_uses_host() {
    let config = AppConfig { host: "https://store.example/".to_owned() };
    assert_eq!(config.api_base_url(), "https://store.example/api/programs");
}

#[test]
fn configured_host_defaults() {
    assert_eq!(configured_host(None), DEFAULT_HOST);
    assert_eq!(configured_host(Some("x:1".to_owned())), "x:1");
    assert_eq!(program_api_base_url(&configured_host(None)), "http://localhost:3000/api/programs");
}

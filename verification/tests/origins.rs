use passkeys::flow::{Action, Reply, Stop};
use passkeys::types::PasskeyConfig;
use passkeys::webauthn::{
    align_config, build_passkey_config, is_allowed_origin, passkey_config,
    verify_origin_and_align_config,
};

const BASE: &str = "https://vault.example.com";

fn config() -> PasskeyConfig {
    build_passkey_config(BASE)
}

#[test]
fn the_relying_party_is_the_host_of_the_base_url() {
    let config = build_passkey_config("https://vault.example.com:8443/x");
    assert_eq!(config.rp_id, "vault.example.com");
    assert_eq!(config.rp_name, "Warden");
    assert_eq!(config.origin, "https://vault.example.com:8443/x");
    assert_eq!(config.state_ttl, 300);
}

#[test]
fn a_base_url_without_a_host_means_localhost() {
    assert_eq!(build_passkey_config("not a url").rp_id, "localhost");
    assert_eq!(build_passkey_config("data:text/plain,x").rp_id, "localhost");
    assert_eq!(passkey_config(None, BASE).rp_id, "localhost");
    assert_eq!(passkey_config(Some("h".to_string()), BASE).rp_id, "h");
}

#[test]
fn hosts_are_written_in_lower_case() {
    assert_eq!(build_passkey_config("https://Vault.Example.COM").rp_id, "vault.example.com");
}

#[test]
fn own_origin_is_allowed_with_any_slashes_behind_it() {
    for origin in [BASE.to_string(), format!("{BASE}/"), format!("{BASE}///")] {
        assert!(is_allowed_origin(BASE, &origin), "{origin}");
    }
    assert!(!is_allowed_origin("https://vault.example.com/", "https://vault.example.com/"));
}

#[test]
fn known_extensions_are_allowed() {
    for origin in [
        "chrome-extension://nngceckbapebfimnlniiiahkandclblb",
        "chrome-extension://jbkfoedolllekgbhcbcoahefnbanhhlh/",
        "chrome-extension://ccnckbpmaceehanjmeomladnmlffdjgn",
        "moz-extension://0d3b1c9e-1111-4222-8333-444455556666",
        "moz-extension://",
    ] {
        assert_eq!(is_allowed_origin(BASE, origin), origin != "moz-extension://", "{origin}");
    }
}

#[test]
fn other_origins_are_not_allowed() {
    for origin in [
        "https://evil.example.com",
        "http://vault.example.com",
        "https://vault.example.com.evil",
        "chrome-extension://aaaaaaaaaaaaaaaaaaaaaaaaaaaaaaaa",
        "xmoz-extension://a",
        "",
    ] {
        assert!(!is_allowed_origin(BASE, origin), "{origin}");
    }
}

#[test]
fn an_allowed_origin_takes_the_place_of_the_configured_one() {
    let origin = Some("moz-extension://abc/".to_string());
    let aligned = align_config(&config(), &origin);
    assert_eq!(aligned.origin, "moz-extension://abc/");
    assert_eq!(aligned.rp_id, "vault.example.com");
    assert_eq!(align_config(&config(), &Some("https://evil".to_string())).origin, BASE);
    assert_eq!(align_config(&config(), &None).origin, BASE);
}

#[test]
fn client_data_that_is_no_base64_is_not_looked_into() {
    let (aligned, at) = verify_origin_and_align_config(&config(), "e30=", &Vec::new(), 0).unwrap();
    assert_eq!(aligned.origin, BASE);
    assert_eq!(at, 0);
}

#[test]
fn the_origin_is_read_out_of_the_decoded_client_data() {
    match verify_origin_and_align_config(&config(), "e30", &Vec::new(), 0) {
        Err(Stop::Ask(Action::ReadOrigin { client_data })) => assert_eq!(client_data, b"{}"),
        other => panic!("{other:?}"),
    }
    let replies = vec![Reply::Origin(Some(format!("{BASE}/")))];
    let (aligned, at) = verify_origin_and_align_config(&config(), "e30", &replies, 0).unwrap();
    assert_eq!(aligned.origin, format!("{BASE}/"));
    assert_eq!(at, 1);
    let replies = vec![Reply::Origin(None)];
    let (aligned, _) = verify_origin_and_align_config(&config(), "e30", &replies, 0).unwrap();
    assert_eq!(aligned.origin, BASE);
    let replies = vec![Reply::Time(1)];
    assert!(matches!(
        verify_origin_and_align_config(&config(), "e30", &replies, 0),
        Err(Stop::Unexpected)
    ));
}

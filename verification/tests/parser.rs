use matrix_link::request::{parse_and_sanitize_link, Reject};

#[test]
fn accepts_plain_install_link() {
    let r = parse_and_sanitize_link("matrix://install?entity=acme.tool&alias=acme1").unwrap();
    assert_eq!(r.entity().as_str(), "acme.tool");
    assert_eq!(r.alias().as_str(), "acme1");
    assert!(r.hub().is_none());
}

#[test]
fn rejects_alias_with_space() {
    let r = parse_and_sanitize_link("matrix://install?entity=x&alias=bad alias");
    assert_eq!(r.unwrap_err(), Reject::InvalidAlias);
}

#[test]
fn rejects_http_scheme() {
    let r = parse_and_sanitize_link("http://install?entity=x&alias=y");
    assert_eq!(r.unwrap_err(), Reject::UnsupportedScheme);
}

#[test]
fn rejects_unparsable_string() {
    let r = parse_and_sanitize_link("not a url at all");
    assert_eq!(r.unwrap_err(), Reject::MalformedUri);
}

#[test]
fn rejects_unknown_action() {
    let r = parse_and_sanitize_link("matrix://update?entity=x&alias=y");
    assert_eq!(r.unwrap_err(), Reject::UnsupportedAction);
}

#[test]
fn rejects_missing_entity() {
    let r = parse_and_sanitize_link("matrix://install?alias=y");
    assert_eq!(r.unwrap_err(), Reject::MissingEntity);
}

#[test]
fn rejects_missing_alias() {
    let r = parse_and_sanitize_link("matrix://install?entity=x");
    assert_eq!(r.unwrap_err(), Reject::MissingAlias);
}

#[test]
fn rejects_empty_entity() {
    let r = parse_and_sanitize_link("matrix://install?entity=&alias=y");
    assert_eq!(r.unwrap_err(), Reject::InvalidEntity);
}

#[test]
fn entity_length_boundary() {
    let long: String = "e".repeat(256);
    let link = format!("matrix://install?entity={}&alias=y", long);
    let r = parse_and_sanitize_link(&link).unwrap();
    assert_eq!(r.entity().len(), 256);

    let too_long: String = "e".repeat(257);
    let link = format!("matrix://install?entity={}&alias=y", too_long);
    let r = parse_and_sanitize_link(&link);
    assert_eq!(r.unwrap_err(), Reject::InvalidEntity);
}

#[test]
fn alias_length_boundary() {
    let long: String = "a".repeat(64);
    let link = format!("matrix://install?entity=x&alias={}", long);
    let r = parse_and_sanitize_link(&link).unwrap();
    assert_eq!(r.alias().len(), 64);

    let too_long: String = "a".repeat(65);
    let link = format!("matrix://install?entity=x&alias={}", too_long);
    let r = parse_and_sanitize_link(&link);
    assert_eq!(r.unwrap_err(), Reject::InvalidAlias);
}

#[test]
fn rejects_empty_alias() {
    let r = parse_and_sanitize_link("matrix://install?entity=x&alias=");
    assert_eq!(r.unwrap_err(), Reject::InvalidAlias);
}

#[test]
fn alias_allows_the_permitted_characters() {
    let r = parse_and_sanitize_link("matrix://install?entity=x&alias=Az0-9_x").unwrap();
    assert_eq!(r.alias().as_str(), "Az0-9_x");
}

#[test]
fn accepts_https_hub() {
    let r =
        parse_and_sanitize_link("matrix://install?entity=x&alias=y&hub=https://example.org/hub")
            .unwrap();
    assert_eq!(r.hub().as_deref(), Some("https://example.org/hub"));
}

#[test]
fn accepts_http_hub() {
    let r = parse_and_sanitize_link("matrix://install?entity=x&alias=y&hub=http://h.example")
        .unwrap();
    assert_eq!(r.hub().as_deref(), Some("http://h.example"));
}

#[test]
fn rejects_non_http_hub() {
    let r = parse_and_sanitize_link("matrix://install?entity=x&alias=y&hub=ftp://example.org");
    assert_eq!(r.unwrap_err(), Reject::InvalidHub);
}

#[test]
fn rejects_empty_hub() {
    let r = parse_and_sanitize_link("matrix://install?entity=x&alias=y&hub=");
    assert_eq!(r.unwrap_err(), Reject::InvalidHub);
}

#[test]
fn decodes_percent_encoded_entity() {
    let r = parse_and_sanitize_link("matrix://install?entity=a%20b%2Fc&alias=y").unwrap();
    assert_eq!(r.entity().as_str(), "a b/c");
}

#[test]
fn takes_first_occurrence_of_repeated_parameter() {
    let r = parse_and_sanitize_link("matrix://install?entity=first&entity=second&alias=y").unwrap();
    assert_eq!(r.entity().as_str(), "first");
}

#[test]
fn scheme_case_is_normalized_by_the_uri_parser() {
    let r = parse_and_sanitize_link("MATRIX://install?entity=x&alias=y").unwrap();
    assert_eq!(r.alias().as_str(), "y");
}

#[test]
fn plus_decodes_to_space_in_query_values() {
    let r = parse_and_sanitize_link("matrix://install?entity=x&alias=a+b");
    assert_eq!(r.unwrap_err(), Reject::InvalidAlias);
}

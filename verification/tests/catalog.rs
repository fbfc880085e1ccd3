use vs_launcher::catalog::{
    catalog_from_response, normalize_entry, parse_catalog, Channel, FetchError, VersionInfo,
};

#[test]
fn catalog_without_types_infers_channels_and_strips_the_prefix() {
    let body = r#"{"gameversions":[{"name":"v1.21.0"},{"name":"v1.21.0-rc.1"}]}"#;
    let list = parse_catalog(body).expect("the body holds a catalog");
    assert_eq!(
        list,
        vec![
            VersionInfo { ver: "1.21.0".to_string(), kind: Channel::Stable },
            VersionInfo { ver: "1.21.0-rc.1".to_string(), kind: Channel::Rc },
        ]
    );
}

#[test]
fn channel_is_inferred_in_the_order_rc_dev_pre() {
    assert_eq!(Channel::infer("1.0.0"), Channel::Stable);
    assert_eq!(Channel::infer("1.0.0-rc.1"), Channel::Rc);
    assert_eq!(Channel::infer("1.0.0-dev.3"), Channel::Dev);
    assert_eq!(Channel::infer("1.0.0-pre.3"), Channel::Preview);
    assert_eq!(Channel::infer("1.0.0-pre-rc"), Channel::Rc);
    assert_eq!(Channel::infer("1.0.0-predev"), Channel::Dev);
    assert_eq!(Channel::infer(""), Channel::Stable);
}

#[test]
fn a_named_type_wins_over_the_name() {
    let info = normalize_entry(Some("v1.0.0-rc.1"), Some("stable"));
    assert_eq!(info, VersionInfo { ver: "1.0.0-rc.1".to_string(), kind: Channel::Stable });
    let info = normalize_entry(Some("1.0.0"), Some("preview"));
    assert_eq!(info.kind, Channel::Preview);
    let info = normalize_entry(Some("1.0.0"), Some("nightly"));
    assert_eq!(info.kind, Channel::Other("nightly".to_string()));
}

#[test]
fn entries_without_a_name_count_as_empty() {
    let info = normalize_entry(None, None);
    assert_eq!(info, VersionInfo { ver: String::new(), kind: Channel::Stable });
}

#[test]
fn every_leading_v_is_dropped() {
    assert_eq!(normalize_entry(Some("vv1.2"), None).ver, "1.2");
    assert_eq!(normalize_entry(Some("1.2v"), None).ver, "1.2v");
    assert_eq!(normalize_entry(Some("vvv"), None).ver, "");
    assert_eq!(normalize_entry(Some("dev-1"), None).kind, Channel::Dev);
}

#[test]
fn channel_labels_round_trip() {
    for label in ["stable", "rc", "preview", "dev", "something"] {
        assert_eq!(Channel::from_label(label).label(), label);
    }
    assert_eq!(Channel::from_label("rc"), Channel::Rc);
    assert_eq!(Channel::from_label("RC"), Channel::Other("RC".to_string()));
    assert_eq!(Channel::Dev.duplicate(), Channel::Dev);
}

#[test]
fn the_catalog_reads_types_and_skips_what_is_no_text() {
    let body = r#"{"gameversions":[{"name":"v1.0","type":"dev"},{"name":7},{"type":"rc"}],"x":1}"#;
    let list = parse_catalog(body).expect("the body holds a catalog");
    assert_eq!(
        list,
        vec![
            VersionInfo { ver: "1.0".to_string(), kind: Channel::Dev },
            VersionInfo { ver: String::new(), kind: Channel::Stable },
            VersionInfo { ver: String::new(), kind: Channel::Rc },
        ]
    );
}

#[test]
fn an_empty_catalog_is_a_catalog() {
    assert_eq!(parse_catalog(r#"{"gameversions":[]}"#), Ok(Vec::new()));
}

#[test]
fn a_body_without_the_array_is_a_shape_error() {
    assert_eq!(parse_catalog(r#"{"versions":[]}"#), Err(FetchError::Shape));
    assert_eq!(parse_catalog(r#"{"gameversions":{"name":"v1"}}"#), Err(FetchError::Shape));
    assert_eq!(parse_catalog(r#"[{"name":"v1"}]"#), Err(FetchError::Shape));
    assert_eq!(parse_catalog("not json"), Err(FetchError::Shape));
    assert_eq!(parse_catalog(""), Err(FetchError::Shape));
}

#[test]
fn a_failed_request_is_a_network_error() {
    assert_eq!(
        catalog_from_response(Err("connection refused".to_string())),
        Err(FetchError::Network("connection refused".to_string()))
    );
    assert_eq!(
        catalog_from_response(Ok(r#"{"gameversions":[{"name":"v2"}]}"#.to_string())),
        Ok(vec![VersionInfo { ver: "2".to_string(), kind: Channel::Stable }])
    );
    assert_eq!(catalog_from_response(Ok("{}".to_string())), Err(FetchError::Shape));
}

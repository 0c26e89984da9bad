use external_account_key::{
    build_external_account_key, default_sts_external_account_key, external_account_document,
    CredentialSource, Executable, ExecutableSourced, ExternalAccountKey, FormatSpec,
    STSCredentialSource, URLSourced,
};

const AUDIENCE: &str = "//iam.googleapis.com/projects/1234567890/location/global/workloadIdentityPools/BLAH-pool/providers/BLAH-provider";

const FULL_DOCUMENT: &str = "{\"type\":\"external_account\",\"audience\":\"//iam.googleapis.com/projects/1234567890/location/global/workloadIdentityPools/BLAH-pool/providers/BLAH-provider\",\"subject_token_type\":\"urn:ietf:params:oath:token-type:jwt\",\"token_uri\":\"https://sts.googleapis.com/v1/token\",\"service_account_impersonation_url\":\"https://iamcredentials.googleapis.com/v1/projects/-/serviceAccounts/boo@boo.com:generateAccessToken\",\"credential_source\":{\"executable\":{\"command\":\"/opt/bin/blah_blah_blah.sh https://blah.com/auth/v1/ext/get-token?audience=gcp-wip.BLAH.com\",\"timeout_millis\":5000}},\"credential_source_type\":{\"url\":\"https://iam.BLAH.com/auth/v1/get-token?audience=gcp-wip.BLAH.com\",\"headers\":{\"X-IAM\":\"1\"},\"format\":{\"type\":\"json\",\"subject_token_field_name\":\"access_token\"}}}";

#[test]
fn default_key_fields() {
    let k = default_sts_external_account_key();
    assert_eq!(k.key_type, "external_account");
    assert_eq!(k.audience, AUDIENCE);
    assert_eq!(k.subject_token_type, "urn:ietf:params:oath:token-type:jwt");
    assert_eq!(k.token_uri, "https://sts.googleapis.com/v1/token");
    assert_eq!(k.service_account_impersonation_url, "");
    assert_eq!(k.credential_source_type, STSCredentialSource::URLSourced);
    match &k.credential_source {
        CredentialSource::URLSourced(u) => {
            assert_eq!(u.url, "https://iam.BLAH.com/auth/v1/get-token?audience=gcp-wip.BLAH.com");
            assert_eq!(u.headers, vec![(String::from("X-IAM"), String::from("1"))]);
            assert_eq!(u.format_spec.format_type, "json");
            assert_eq!(u.format_spec.subject_token_field_name, "access_token");
        },
        CredentialSource::ExecutableSourced(_) => panic!("default source must be URL-sourced"),
    }
}

#[test]
fn default_trait_matches_free_function() {
    let a = ExternalAccountKey::default().to_json();
    let b = default_sts_external_account_key().to_json();
    assert_eq!(a, b);
}

#[test]
fn impersonation_url_substitutes_identifier() {
    let k = build_external_account_key("a@b.com", None).unwrap();
    assert_eq!(
        k.service_account_impersonation_url,
        "https://iamcredentials.googleapis.com/v1/projects/-/serviceAccounts/a@b.com:generateAccessToken",
    );
}

#[test]
fn document_declares_external_account() {
    let doc = external_account_document("someone@example.com", None).unwrap();
    assert!(doc.starts_with("{\"type\":\"external_account\""));
    let v: serde_json::Value = serde_json::from_str(&doc).unwrap();
    assert_eq!(v["type"].as_str(), Some("external_account"));
}

#[test]
fn full_document_exact_text() {
    let doc = external_account_document("boo@boo.com", Some("URLSourced")).unwrap();
    assert_eq!(doc, FULL_DOCUMENT);
}

#[test]
fn scenario_default_selector() {
    let doc = external_account_document("svc@proj.iam.gserviceaccount.com", None).unwrap();
    let v: serde_json::Value = serde_json::from_str(&doc).unwrap();
    let expected: serde_json::Value =
        serde_json::from_str(&STSCredentialSource::URLSourced.serialize()).unwrap();
    assert_eq!(v["credential_source_type"], expected);
    let url = v["service_account_impersonation_url"].as_str().unwrap();
    assert!(url.ends_with("svc@proj.iam.gserviceaccount.com:generateAccessToken"));
}

#[test]
fn scenario_executable_selector() {
    let doc = external_account_document("svc@proj.iam.gserviceaccount.com", Some("ExecutableSourced"))
        .unwrap();
    let v: serde_json::Value = serde_json::from_str(&doc).unwrap();
    let rendered = v["credential_source_type"].as_object().unwrap();
    assert!(rendered.contains_key("executable"));
    assert_eq!(v["credential_source_type"]["executable"]["timeout_millis"].as_i64(), Some(5000));
    assert!(v["credential_source_type"]["executable"]["command"].as_str().is_some());
}

#[test]
fn scenario_invalid_selector() {
    let r = external_account_document("svc@proj.iam.gserviceaccount.com", Some("bogus"));
    assert_eq!(r, Err(String::from("Invalid input: bogus")));
}

#[test]
fn embedded_source_is_executable_sourced() {
    let doc = external_account_document("svc@proj.iam.gserviceaccount.com", None).unwrap();
    let v: serde_json::Value = serde_json::from_str(&doc).unwrap();
    let source = v["credential_source"].as_object().unwrap();
    assert!(source.contains_key("executable"));
    assert!(!source.contains_key("url"));
    assert_eq!(v["credential_source"]["executable"]["timeout_millis"].as_i64(), Some(5000));
}

#[test]
fn format_spec_renders_exactly() {
    let f = FormatSpec {
        format_type: String::from("json"),
        subject_token_field_name: String::from("access_token"),
    };
    assert_eq!(f.to_json(), "{\"type\":\"json\",\"subject_token_field_name\":\"access_token\"}");
}

#[test]
fn string_escaping_round_trips_through_a_parser() {
    let f = FormatSpec {
        format_type: String::from("a\"b\\c\nd\te\u{1}f"),
        subject_token_field_name: String::from("x"),
    };
    let v: serde_json::Value = serde_json::from_str(&f.to_json()).unwrap();
    assert_eq!(v["type"].as_str(), Some("a\"b\\c\nd\te\u{1}f"));
}

#[test]
fn control_characters_escape_as_unicode() {
    let f = FormatSpec {
        format_type: String::from("\u{1}"),
        subject_token_field_name: String::from("\u{1f}"),
    };
    assert_eq!(
        f.to_json(),
        "{\"type\":\"\\u0001\",\"subject_token_field_name\":\"\\u001f\"}",
    );
}

#[test]
fn executable_renders_negative_timeout() {
    let e = Executable { command: String::from("x"), timeout_millis: -42 };
    assert_eq!(e.to_json(), "{\"command\":\"x\",\"timeout_millis\":-42}");
}

#[test]
fn executable_renders_extreme_timeouts() {
    let e = Executable { command: String::from("x"), timeout_millis: i32::MIN };
    let v: serde_json::Value = serde_json::from_str(&e.to_json()).unwrap();
    assert_eq!(v["timeout_millis"].as_i64(), Some(-2147483648));
    let z = Executable { command: String::from("x"), timeout_millis: 0 };
    assert_eq!(z.to_json(), "{\"command\":\"x\",\"timeout_millis\":0}");
}

#[test]
fn executable_sourced_wraps_executable() {
    let e = ExecutableSourced {
        executable: Executable { command: String::from("run me"), timeout_millis: 7 },
    };
    assert_eq!(e.to_json(), "{\"executable\":{\"command\":\"run me\",\"timeout_millis\":7}}");
}

#[test]
fn headers_render_in_insertion_order() {
    let u = URLSourced {
        url: String::from("https://example.com"),
        headers: vec![
            (String::from("b"), String::from("2")),
            (String::from("a"), String::from("1")),
        ],
        format_spec: FormatSpec {
            format_type: String::from("json"),
            subject_token_field_name: String::from("t"),
        },
    };
    let doc = u.to_json();
    assert!(doc.contains("\"headers\":{\"b\":\"2\",\"a\":\"1\"}"));
    let v: serde_json::Value = serde_json::from_str(&doc).unwrap();
    assert_eq!(v["url"].as_str(), Some("https://example.com"));
}

#[test]
fn empty_headers_render_as_empty_object() {
    let u = URLSourced {
        url: String::from("u"),
        headers: vec![],
        format_spec: FormatSpec {
            format_type: String::from("j"),
            subject_token_field_name: String::from("t"),
        },
    };
    assert!(u.to_json().contains("\"headers\":{}"));
}

#[test]
fn credential_source_variants_are_disjoint() {
    let url = CredentialSource::URLSourced(URLSourced {
        url: String::from("u"),
        headers: vec![],
        format_spec: FormatSpec {
            format_type: String::from("j"),
            subject_token_field_name: String::from("t"),
        },
    });
    let exe = CredentialSource::ExecutableSourced(ExecutableSourced {
        executable: Executable { command: String::from("c"), timeout_millis: 1 },
    });
    let vu: serde_json::Value = serde_json::from_str(&url.to_json()).unwrap();
    let ve: serde_json::Value = serde_json::from_str(&exe.to_json()).unwrap();
    assert!(vu.as_object().unwrap().contains_key("url"));
    assert!(!vu.as_object().unwrap().contains_key("executable"));
    assert!(ve.as_object().unwrap().contains_key("executable"));
    assert!(!ve.as_object().unwrap().contains_key("url"));
}

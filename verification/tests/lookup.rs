use ipverse_mcp::asn_ip::upstream::ErrorKind;
use ipverse_mcp::json::Json;
use ipverse_mcp::mcp::{
    get_asn_subnets, lookup, lookup_decoded, FileRead, LookupError, SubnetRequest, SubnetResponse, Subnets,
};

const FORTUM: &str = r#"{
  "asn": 1234,
  "handle": "FORTUM",
  "description": "Fortum",
  "subnets": {
    "ipv4": ["132.171.0.0/16", "137.96.0.0/16", "193.110.32.0/21"],
    "ipv6": ["2405:1800::/32"]
  }
}"#;

fn content(text: &str) -> FileRead {
    FileRead::Content(text.to_string())
}

fn parse_failure(text: &str) -> String {
    match lookup(1, content(text)) {
        Err(LookupError::Parse(detail)) => detail,
        other => panic!("expected a parse failure, got {:?}", other),
    }
}

#[test]
fn lookup_returns_the_lists_of_the_file() {
    let response = lookup(1234, content(FORTUM)).unwrap();
    assert_eq!(response.asn, 1234);
    assert_eq!(response.subnets.ipv4, vec!["132.171.0.0/16", "137.96.0.0/16", "193.110.32.0/21"]);
    assert_eq!(response.subnets.ipv6, vec!["2405:1800::/32"]);
}

#[test]
fn lookup_answers_with_the_identifier_asked_for() {
    let response = lookup(15169, content(FORTUM)).unwrap();
    assert_eq!(response.asn, 15169);
    assert_eq!(response.subnets, lookup(1234, content(FORTUM)).unwrap().subnets);
}

#[test]
fn lookup_keeps_entries_as_published() {
    let text = r#"{"asn": 1, "handle": "", "description": "",
        "subnets": {"ipv4": ["10.0.0.0/8", "010.0.0.0/08", "10.0.0.0/8"],
                    "ipv6": ["2405:1800:0:0::/32", "not a network"]}}"#;
    let response = lookup(1, content(text)).unwrap();
    assert_eq!(response.subnets.ipv4, vec!["10.0.0.0/8", "010.0.0.0/08", "10.0.0.0/8"]);
    assert_eq!(response.subnets.ipv6, vec!["2405:1800:0:0::/32", "not a network"]);
}

#[test]
fn lookup_of_a_record_without_subnets() {
    let text = r#"{"asn": 7, "handle": "EMPTY", "description": "", "subnets": {"ipv4": [], "ipv6": []}}"#;
    assert_eq!(
        lookup(7, content(text)),
        Ok(SubnetResponse { asn: 7, subnets: Subnets { ipv4: Vec::new(), ipv6: Vec::new() } })
    );
}

#[test]
fn lookup_passes_over_members_it_does_not_know() {
    let text = r#"{"registry": "ripe", "asn": 7, "handle": "H", "description": "D", "country": null,
        "subnets": {"ipv6": ["::/0"], "count": 1, "ipv4": ["0.0.0.0/0"]}}"#;
    let response = lookup(7, content(text)).unwrap();
    assert_eq!(response.subnets.ipv4, vec!["0.0.0.0/0"]);
    assert_eq!(response.subnets.ipv6, vec!["::/0"]);
}

#[test]
fn lookup_of_an_identifier_without_a_file() {
    let error =
        lookup(4294967295, FileRead::Missing("No such file or directory (os error 2)".to_string())).unwrap_err();
    assert_eq!(error, LookupError::NotFound("No such file or directory (os error 2)".to_string()));
    assert_eq!(error.kind(), ErrorKind::NotFound);
    assert_ne!(error.kind(), ErrorKind::Parse);
    assert_ne!(error.kind(), ErrorKind::Io);
}

#[test]
fn lookup_of_a_file_that_is_not_json() {
    let text = "{\"asn\": 1234, \"handle\": ";
    let detail = serde_json::from_str::<serde_json::Value>(text).unwrap_err().to_string();
    let error = lookup(1234, content(text)).unwrap_err();
    assert_eq!(error, LookupError::Parse(detail.clone()));
    assert_eq!(error.kind(), ErrorKind::Parse);
    assert_ne!(error.kind(), ErrorKind::NotFound);
    assert_eq!(error.message(), format!("Failed to parse ASN data: {}", detail));
    assert_eq!(lookup(1234, content("")).unwrap_err().kind(), ErrorKind::Parse);
}

#[test]
fn lookup_of_a_file_that_is_no_object() {
    for text in ["[]", "null", "1234", "\"FORTUM\"", "[1234, \"FORTUM\", \"Fortum\", {\"ipv4\": [], \"ipv6\": []}]"] {
        assert_eq!(parse_failure(text), "invalid type: expected a record");
    }
}

#[test]
fn lookup_of_a_record_that_lacks_a_member() {
    assert_eq!(parse_failure("{}"), "missing field `asn`");
    assert_eq!(parse_failure(r#"{"asn": 1}"#), "missing field `handle`");
    assert_eq!(parse_failure(r#"{"asn": 1, "handle": "H"}"#), "missing field `description`");
    assert_eq!(parse_failure(r#"{"asn": 1, "handle": "H", "description": "D"}"#), "missing field `subnets`");
    assert_eq!(
        parse_failure(r#"{"asn": 1, "handle": "H", "description": "D", "subnets": {}}"#),
        "missing field `ipv4`"
    );
    assert_eq!(
        parse_failure(r#"{"asn": 1, "handle": "H", "description": "D", "subnets": {"ipv4": []}}"#),
        "missing field `ipv6`"
    );
}

#[test]
fn lookup_of_a_record_with_a_member_of_another_type() {
    let with_asn = |asn: &str| {
        format!(r#"{{"asn": {}, "handle": "H", "description": "D", "subnets": {{"ipv4": [], "ipv6": []}}}}"#, asn)
    };
    for asn in ["\"1234\"", "-1", "4294967296", "1234.0", "1.5", "null", "[1234]", "true"] {
        assert_eq!(parse_failure(&with_asn(asn)), "invalid type for field `asn`");
    }
    assert!(lookup(1, content(&with_asn("0"))).is_ok());
    assert!(lookup(1, content(&with_asn("4294967295"))).is_ok());
    assert_eq!(
        parse_failure(r#"{"asn": 1, "handle": 7, "description": "D", "subnets": {"ipv4": [], "ipv6": []}}"#),
        "invalid type for field `handle`"
    );
    assert_eq!(
        parse_failure(r#"{"asn": 1, "handle": "H", "description": null, "subnets": {"ipv4": [], "ipv6": []}}"#),
        "invalid type for field `description`"
    );
    assert_eq!(
        parse_failure(r#"{"asn": 1, "handle": "H", "description": "D", "subnets": []}"#),
        "invalid type for field `subnets`"
    );
    assert_eq!(
        parse_failure(r#"{"asn": 1, "handle": "H", "description": "D", "subnets": {"ipv4": "10.0.0.0/8", "ipv6": []}}"#),
        "invalid type for field `ipv4`"
    );
    assert_eq!(
        parse_failure(r#"{"asn": 1, "handle": "H", "description": "D", "subnets": {"ipv4": [], "ipv6": ["::/0", 6]}}"#),
        "invalid type for field `ipv6`"
    );
}

#[test]
fn lookup_of_a_file_that_cannot_be_read() {
    let error = lookup(1234, FileRead::Unreadable("Permission denied (os error 13)".to_string())).unwrap_err();
    assert_eq!(error, LookupError::Io("Permission denied (os error 13)".to_string()));
    assert_eq!(error.kind(), ErrorKind::Io);
    assert_eq!(error.message(), "Failed to read ASN file: Permission denied (os error 13)");
}

#[test]
fn lookup_of_what_was_decoded() {
    assert_eq!(lookup_decoded(9, Json::decode(FORTUM)), lookup(9, content(FORTUM)));
    assert_eq!(
        lookup_decoded(9, Err("expected value at line 1 column 1".to_string())),
        Err(LookupError::Parse("expected value at line 1 column 1".to_string()))
    );
    assert_eq!(
        lookup_decoded(9, Ok(Json::Null)),
        Err(LookupError::Parse("invalid type: expected a record".to_string()))
    );
}

#[test]
fn boundary_answers_a_request() {
    let response = get_asn_subnets(&SubnetRequest { asn: 1234 }, content(FORTUM)).unwrap();
    assert_eq!(response.asn, 1234);
    assert_eq!(response.subnets.ipv4.len(), 3);
    assert_eq!(response.subnets.ipv6, vec!["2405:1800::/32"]);
}

#[test]
fn boundary_reports_failures_as_text() {
    let request = SubnetRequest { asn: 4294967295 };
    assert_eq!(
        get_asn_subnets(&request, FileRead::Missing("No such file or directory (os error 2)".to_string())),
        Err("Failed to read ASN file: No such file or directory (os error 2)".to_string())
    );
    assert_eq!(
        get_asn_subnets(&request, FileRead::Unreadable("Is a directory (os error 21)".to_string())),
        Err("Failed to read ASN file: Is a directory (os error 21)".to_string())
    );
    assert_eq!(
        get_asn_subnets(&request, content("not json")),
        Err("Failed to parse ASN data: expected ident at line 1 column 2".to_string())
    );
    assert_eq!(
        get_asn_subnets(&request, content("{}")),
        Err("Failed to parse ASN data: missing field `asn`".to_string())
    );
}

#[test]
fn subnets_of_a_record_become_subnets_of_an_answer() {
    let record = ipverse_mcp::asn_ip::Subnets {
        ipv4: vec!["132.171.0.0/16".to_string(), "137.96.0.0/16".to_string()],
        ipv6: vec!["2405:1800::/32".to_string()],
    };
    let subnets = Subnets::from(record);
    assert_eq!(subnets.ipv4, vec!["132.171.0.0/16", "137.96.0.0/16"]);
    assert_eq!(subnets.ipv6, vec!["2405:1800::/32"]);
}

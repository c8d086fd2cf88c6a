use trivy_tui::decode::{decode, decode_finding, decode_group, parse, ParseError};
use trivy_tui::json::{find_member, read_document, Json};
use trivy_tui::scan::{check_exit, load, scan_arguments, LoadError, ScanInvocationError};
use trivy_tui::trivy::{Results, Trivy, Vulnerabilities};

const ALPINE: &str = "{\"ArtifactName\":\"alpine:3.18\",\"Results\":[{\"Target\":\"alpine\",\"Vulnerabilities\":[{\"VulnerabilityID\":\"CVE-2023-1\",\"Severity\":\"HIGH\",\"Title\":\"t\"}]}]}";

fn text(s: &str) -> Option<String> {
    Some(s.to_string())
}

fn bare_finding() -> Vulnerabilities {
    Vulnerabilities {
        vulnerability_id: None,
        severity: None,
        title: None,
        description: None,
        severity_source: None,
        pkg_name: None,
        installed_version: None,
        fixed_version: None,
    }
}

#[test]
fn parses_the_alpine_report() {
    let report = parse(ALPINE.as_bytes()).unwrap();
    let expected = Trivy {
        artifact_name: "alpine:3.18".to_string(),
        results: vec![Results {
            target: "alpine".to_string(),
            vulnerabilities: Some(vec![Vulnerabilities {
                vulnerability_id: text("CVE-2023-1"),
                severity: text("HIGH"),
                title: text("t"),
                ..bare_finding()
            }]),
        }],
    };
    assert_eq!(report, expected);
}

#[test]
fn parses_every_field_of_a_finding() {
    let raw = "{\"ArtifactName\":\"a\",\"Results\":[{\"Target\":\"x\",\"Vulnerabilities\":[{\"VulnerabilityID\":\"id\",\"Severity\":\"LOW\",\"Title\":\"ti\",\"Description\":\"de\",\"SeveritySource\":\"nvd\",\"PkgName\":\"musl\",\"InstalledVersion\":\"1.0\",\"FixedVersion\":\"1.1\",\"Extra\":7}]}]}";
    let report = parse(raw.as_bytes()).unwrap();
    let finding = &report.results[0].vulnerabilities.as_ref().unwrap()[0];
    assert_eq!(
        *finding,
        Vulnerabilities {
            vulnerability_id: text("id"),
            severity: text("LOW"),
            title: text("ti"),
            description: text("de"),
            severity_source: text("nvd"),
            pkg_name: text("musl"),
            installed_version: text("1.0"),
            fixed_version: text("1.1"),
        }
    );
}

#[test]
fn absent_and_null_vulnerabilities_are_none() {
    let raw = "{\"ArtifactName\":\"a\",\"Results\":[{\"Target\":\"x\"},{\"Target\":\"y\",\"Vulnerabilities\":null},{\"Target\":\"z\",\"Vulnerabilities\":[]}]}";
    let report = parse(raw.as_bytes()).unwrap();
    assert_eq!(report.results.len(), 3);
    assert_eq!(report.results[0].vulnerabilities, None);
    assert_eq!(report.results[1].vulnerabilities, None);
    assert_eq!(report.results[2].vulnerabilities, Some(vec![]));
    assert_eq!(report.results[1].target, "y");
}

#[test]
fn null_optional_field_is_absent() {
    let raw = "{\"ArtifactName\":\"a\",\"Results\":[{\"Target\":\"x\",\"Vulnerabilities\":[{\"Title\":null}]}]}";
    let report = parse(raw.as_bytes()).unwrap();
    assert_eq!(report.results[0].vulnerabilities, Some(vec![bare_finding()]));
}

#[test]
fn malformed_json_is_a_syntax_error() {
    assert_eq!(parse(b"{\"ArtifactName\":"), Err(ParseError::Syntax));
    assert_eq!(parse(b""), Err(ParseError::Syntax));
    assert_eq!(parse(b"not json"), Err(ParseError::Syntax));
    assert_eq!(parse(&[0xff, 0xfe]), Err(ParseError::Syntax));
    assert_eq!(parse(b"{} trailing"), Err(ParseError::Syntax));
}

#[test]
fn missing_required_keys_are_shape_errors() {
    assert_eq!(parse(b"{}"), Err(ParseError::Shape));
    assert_eq!(parse(b"{\"Results\":[]}"), Err(ParseError::Shape));
    assert_eq!(parse(b"{\"ArtifactName\":\"a\"}"), Err(ParseError::Shape));
    assert_eq!(parse(b"{\"ArtifactName\":\"a\",\"Results\":[{}]}"), Err(ParseError::Shape));
    assert_eq!(parse(b"[]"), Err(ParseError::Shape));
    assert_eq!(parse(b"null"), Err(ParseError::Shape));
}

#[test]
fn wrongly_typed_members_are_shape_errors() {
    assert_eq!(parse(b"{\"ArtifactName\":1,\"Results\":[]}"), Err(ParseError::Shape));
    assert_eq!(parse(b"{\"ArtifactName\":\"a\",\"Results\":{}}"), Err(ParseError::Shape));
    assert_eq!(parse(b"{\"ArtifactName\":\"a\",\"Results\":null}"), Err(ParseError::Shape));
    assert_eq!(
        parse(b"{\"ArtifactName\":\"a\",\"Results\":[{\"Target\":\"x\",\"Vulnerabilities\":3}]}"),
        Err(ParseError::Shape)
    );
    assert_eq!(
        parse(b"{\"ArtifactName\":\"a\",\"Results\":[{\"Target\":\"x\",\"Vulnerabilities\":[{\"Severity\":true}]}]}"),
        Err(ParseError::Shape)
    );
    assert_eq!(
        parse(b"{\"ArtifactName\":\"a\",\"Results\":[{\"Target\":\"x\",\"Vulnerabilities\":[4]}]}"),
        Err(ParseError::Shape)
    );
}

#[test]
fn empty_results_is_a_valid_report() {
    let report = parse(b"{\"ArtifactName\":\"a\",\"Results\":[]}").unwrap();
    assert_eq!(report, Trivy { artifact_name: "a".to_string(), results: vec![] });
}

#[test]
fn read_document_builds_the_tree() {
    let doc = read_document(b"{\"b\":[1,true,null,\"s\"],\"a\":{}}").unwrap();
    assert_eq!(
        doc,
        Json::Object(vec![
            ("a".to_string(), Json::Object(vec![])),
            (
                "b".to_string(),
                Json::Array(vec![
                    Json::Number,
                    Json::Bool(true),
                    Json::Null,
                    Json::Text("s".to_string())
                ])
            ),
        ])
    );
    assert_eq!(read_document(b"{"), None);
}

#[test]
fn find_member_returns_the_first_match() {
    let fields = vec![
        ("a".to_string(), Json::Null),
        ("b".to_string(), Json::Bool(true)),
        ("b".to_string(), Json::Number),
    ];
    assert_eq!(find_member(&fields, "b"), Some(&Json::Bool(true)));
    assert_eq!(find_member(&fields, "a"), Some(&Json::Null));
    assert_eq!(find_member(&fields, "c"), None);
    assert_eq!(find_member(&vec![], "a"), None);
}

#[test]
fn decode_reads_a_hand_built_document() {
    let doc = Json::Object(vec![
        ("ArtifactName".to_string(), Json::Text("img".to_string())),
        (
            "Results".to_string(),
            Json::Array(vec![Json::Object(vec![
                ("Target".to_string(), Json::Text("os".to_string())),
                (
                    "Vulnerabilities".to_string(),
                    Json::Array(vec![Json::Object(vec![(
                        "PkgName".to_string(),
                        Json::Text("zlib".to_string()),
                    )])]),
                ),
            ])]),
        ),
    ]);
    let report = decode(&doc).unwrap();
    assert_eq!(report.artifact_name, "img");
    assert_eq!(
        report.results,
        vec![Results {
            target: "os".to_string(),
            vulnerabilities: Some(vec![Vulnerabilities { pkg_name: text("zlib"), ..bare_finding() }]),
        }]
    );
    assert_eq!(decode(&Json::Array(vec![])), Err(ParseError::Shape));
}

#[test]
fn decode_finding_and_group_reject_other_shapes() {
    assert_eq!(decode_finding(&Json::Null), Err(ParseError::Shape));
    assert_eq!(decode_finding(&Json::Object(vec![])), Ok(bare_finding()));
    assert_eq!(
        decode_finding(&Json::Object(vec![("Title".to_string(), Json::Number)])),
        Err(ParseError::Shape)
    );
    assert_eq!(decode_group(&Json::Object(vec![])), Err(ParseError::Shape));
    assert_eq!(
        decode_group(&Json::Object(vec![("Target".to_string(), Json::Text("t".to_string()))])),
        Ok(Results { target: "t".to_string(), vulnerabilities: None })
    );
}

#[test]
fn failed_scan_with_empty_output_is_a_scan_error() {
    assert_eq!(load(Some(1), b""), Err(LoadError::Scan(ScanInvocationError::Exited(1))));
    assert_eq!(
        load(Some(1), ALPINE.as_bytes()),
        Err(LoadError::Scan(ScanInvocationError::Exited(1)))
    );
    assert_eq!(load(None, b""), Err(LoadError::Scan(ScanInvocationError::Interrupted)));
    assert_eq!(check_exit(Some(1)), Err(ScanInvocationError::Exited(1)));
    assert_eq!(check_exit(Some(0)), Ok(()));
}

#[test]
fn successful_scan_is_parsed() {
    let report = load(Some(0), ALPINE.as_bytes()).unwrap();
    assert_eq!(report.artifact_name, "alpine:3.18");
    assert_eq!(load(Some(0), b""), Err(LoadError::Parse(ParseError::Syntax)));
    assert_eq!(load(Some(0), b"{}"), Err(LoadError::Parse(ParseError::Shape)));
}

#[test]
fn error_messages_are_told_apart() {
    assert_eq!(ParseError::Syntax.message(), "scanner output is not valid JSON");
    assert_eq!(
        LoadError::Parse(ParseError::Shape).message(),
        "scanner output does not have the shape of a report"
    );
    assert_eq!(
        LoadError::Scan(ScanInvocationError::NotStarted).message(),
        "the scanner could not be started"
    );
    assert_eq!(
        LoadError::Scan(ScanInvocationError::Exited(2)).message(),
        "the scanner exited with an error"
    );
}

#[test]
fn scanner_arguments_ask_for_json() {
    assert_eq!(
        scan_arguments("alpine:3.18"),
        vec!["image".to_string(), "alpine:3.18".to_string(), "--format".to_string(), "json".to_string()]
    );
}

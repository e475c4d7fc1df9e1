use monori::model::{CheckResult, CheckStatus, Importance, LocalDateTime, SecurityReport};
use monori::security::{check_autorun_settings, check_screen_saver_settings};
use serde_json::Value;

fn wire(result: &CheckResult) -> Value {
    let mut m = serde_json::Map::new();
    m.insert("분류".to_string(), Value::String(result.category.clone()));
    m.insert("항목코드".to_string(), Value::String(result.code.clone()));
    m.insert("점검항목".to_string(), Value::String(result.item.clone()));
    m.insert("중요도".to_string(), Value::String(result.importance.label().to_string()));
    m.insert("점검결과".to_string(), Value::String(result.status.label().to_string()));
    m.insert("점검내용".to_string(), Value::String(result.detail.clone()));
    Value::Object(m)
}

#[test]
fn test_full_security_check_workflow() {
    let mut results = Vec::new();
    results.push(check_screen_saver_settings(
        &Ok(Some("1".to_string())),
        &Ok(Some("300".to_string())),
        &Ok(Some("1".to_string())),
    ));
    results.push(check_autorun_settings(&Ok(None), &Ok(None), &Ok(None), &Ok(Some(1))));

    let report = SecurityReport::new(results, "windows".to_string());

    assert!(!report.computer_name.is_empty());
    assert!(!report.date_time.is_empty());
    assert_eq!(report.os, "windows");
    assert!(!report.results.is_empty());

    let json = serde_json::to_string(&Value::Array(report.results.iter().map(wire).collect()));
    assert!(json.is_ok());
    println!("Report JSON sample: {}", json.unwrap());
}

#[test]
fn test_check_result_serialization() {
    let result = CheckResult {
        category: "테스트".to_string(),
        code: "TEST-01".to_string(),
        item: "테스트 항목".to_string(),
        importance: Importance::High,
        status: CheckStatus::Good,
        detail: "테스트 상세".to_string(),
    };
    let json = serde_json::to_string(&wire(&result)).unwrap();
    assert!(json.contains("\"중요도\":\"상\""));
    assert!(json.contains("\"점검결과\":\"양호\""));
}

#[test]
fn report_new_stamps_version_and_time() {
    let report = SecurityReport::new(vec![], "linux".to_string());
    assert_eq!(report.version, "1.0.0");
    assert_eq!(report.os, "linux");
    let t = report.date_time.as_bytes();
    assert_eq!(t.len(), 19);
    assert_eq!(t[4], b'-');
    assert_eq!(t[7], b'-');
    assert_eq!(t[10], b' ');
    assert_eq!(t[13], b':');
    assert_eq!(t[16], b':');
    assert!(report.computer_name.chars().all(|c| !c.is_ascii_uppercase()));
}

#[test]
fn report_assemble_formats_timestamp() {
    let at = LocalDateTime { year: 2024, month: 3, day: 7, hour: 9, minute: 5, second: 0 };
    let report = SecurityReport::assemble("host".to_string(), &at, "windows".to_string(), vec![]);
    assert_eq!(report.date_time, "2024-03-07 09:05:00");
    assert_eq!(report.computer_name, "host");
    assert_eq!(report.version, "1.0.0");
}

#[test]
fn timestamp_years_outside_four_digits() {
    let mut at = LocalDateTime { year: 12, month: 12, day: 31, hour: 23, minute: 59, second: 59 };
    assert_eq!(at.format(), "0012-12-31 23:59:59");
    at.year = 12345;
    assert_eq!(at.format(), "+12345-12-31 23:59:59");
    at.year = -7;
    assert_eq!(at.format(), "-0007-12-31 23:59:59");
}

#[test]
fn labels_and_round_trip() {
    let statuses = [
        (CheckStatus::Good, "양호"),
        (CheckStatus::Vulnerable, "취약"),
        (CheckStatus::CheckFailed, "점검 실패"),
        (CheckStatus::ManualCheck, "수동 점검"),
    ];
    for (s, l) in statuses {
        assert_eq!(s.label(), l);
        assert_eq!(CheckStatus::from_label(l), Some(s));
    }
    let grades = [(Importance::High, "상"), (Importance::Medium, "중"), (Importance::Low, "하")];
    for (g, l) in grades {
        assert_eq!(g.label(), l);
        assert_eq!(Importance::from_label(l), Some(g));
    }
    assert_eq!(CheckStatus::from_label("Good"), None);
    assert_eq!(Importance::from_label(""), None);
}

#[test]
fn result_wire_form_round_trip() {
    let result = CheckResult {
        category: "보안 관리".to_string(),
        code: "PC-12".to_string(),
        item: "화면보호기".to_string(),
        importance: Importance::Medium,
        status: CheckStatus::ManualCheck,
        detail: "확인 필요".to_string(),
    };
    let back = CheckResult::from_labels(
        result.category.clone(),
        result.code.clone(),
        result.item.clone(),
        result.importance.label(),
        result.status.label(),
        result.detail.clone(),
    );
    assert_eq!(back, Some(result.clone()));
    let bad = CheckResult::from_labels(
        result.category.clone(),
        result.code.clone(),
        result.item.clone(),
        "최상",
        "양호",
        result.detail.clone(),
    );
    assert_eq!(bad, None);
}

#[test]
fn json_round_trip_through_labels() {
    let result = CheckResult {
        category: "계정 관리".to_string(),
        code: "PC-01".to_string(),
        item: "패스워드의 주기적 변경".to_string(),
        importance: Importance::High,
        status: CheckStatus::Vulnerable,
        detail: "91 일, \"따옴표\"\n".to_string(),
    };
    let text = serde_json::to_string(&wire(&result)).unwrap();
    let value: Value = serde_json::from_str(&text).unwrap();
    let field = |k: &str| value.get(k).and_then(|v| v.as_str()).unwrap().to_string();
    let back = CheckResult::from_labels(
        field("분류"),
        field("항목코드"),
        field("점검항목"),
        &field("중요도"),
        &field("점검결과"),
        field("점검내용"),
    );
    assert_eq!(back, Some(result));
}

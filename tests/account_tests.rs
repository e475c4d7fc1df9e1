use monori::account::{
    check_password_expiration, check_password_policy, check_recovery_console_settings,
    read_policy_setting,
};
use monori::model::CheckStatus;
use monori::registry::RegistryError;

const POLICY: &str = "[Unicode]\r\nUnicode=yes\r\n[System Access]\r\nMinimumPasswordAge = 0\r\nMaximumPasswordAge = 42\r\nMinimumPasswordLength = 8\r\nPasswordComplexity = 1\r\nRecoveryConsoleSecurityLevel = 0\r\n";

#[test]
fn test_password_expiration_check() {
    // Without elevation the export fails.
    let check = check_password_expiration(None);
    assert_eq!(check.code, "PC-01");
    assert_eq!(check.category, "계정 관리");
    assert!(matches!(check.status, CheckStatus::CheckFailed));

    // With an export, the detail gives the days.
    let check = check_password_expiration(Some(POLICY));
    assert_eq!(check.code, "PC-01");
    assert_eq!(check.category, "계정 관리");
    assert!(check.detail.contains("일") || check.detail.contains("설정"));
}

#[test]
fn test_password_policy_check() {
    let check = check_password_policy(Some(POLICY));
    assert_eq!(check.code, "PC-02");
    match check.status {
        CheckStatus::Good | CheckStatus::Vulnerable => {
            assert!(check.detail.contains("최소 길이"));
            assert!(check.detail.contains("복잡성"));
        }
        _ => panic!("unexpected status"),
    }
}

#[test]
fn test_recovery_console_check() {
    let check = check_recovery_console_settings(Some(POLICY), &Ok(Some("0".to_string())));
    assert_eq!(check.code, "PC-15");
    assert!(check.detail.contains("복구 콘솔"));
}

#[test]
fn password_expiration_days_within_limit_is_good() {
    let check = check_password_expiration(Some(POLICY));
    assert_eq!(check.status, CheckStatus::Good);
    assert_eq!(check.detail, "최대 암호 사용 기간이 42 일로 설정되어 있습니다.");
}

#[test]
fn password_expiration_unlimited_is_vulnerable() {
    let check = check_password_expiration(Some("MaximumPasswordAge = 0\n"));
    assert_eq!(check.status, CheckStatus::Vulnerable);
    assert_eq!(check.detail, "최대 암호 사용 기간이 설정되지 않았습니다 (무제한).");
}

#[test]
fn password_expiration_over_limit_is_vulnerable() {
    let check = check_password_expiration(Some("MaximumPasswordAge = 91\n"));
    assert_eq!(check.status, CheckStatus::Vulnerable);
    assert_eq!(check.detail, "91 일, 최대 암호 사용 기간이 90일을 초과합니다.");
    let check = check_password_expiration(Some("MaximumPasswordAge = -1\n"));
    assert_eq!(check.status, CheckStatus::Vulnerable);
    assert_eq!(
        check.detail,
        "최대 암호 사용 기간이 무제한으로 설정되어 있습니다 (MaximumPasswordAge = -1)."
    );
}

#[test]
fn password_expiration_missing_setting_fails() {
    let check = check_password_expiration(Some("[System Access]\nMinimumPasswordAge = 0\n"));
    assert_eq!(check.status, CheckStatus::CheckFailed);
    assert_eq!(check.detail, "[값 없음] 최대 암호 사용 기간 설정을 확인할 수 없습니다.");
}

#[test]
fn secpol_export_failure_names_privilege() {
    let check = check_password_expiration(None);
    assert_eq!(check.status, CheckStatus::CheckFailed);
    assert_eq!(check.detail, "[권한 부족] 보안 정책을 내보낼 수 없습니다. 관리자 권한이 필요합니다.");
    assert!(check.detail.contains("관리자 권한"));
    let check = check_password_policy(None);
    assert_eq!(check.status, CheckStatus::CheckFailed);
    assert!(check.detail.contains("관리자 권한"));
    let check = check_recovery_console_settings(None, &Ok(None));
    assert_eq!(check.status, CheckStatus::CheckFailed);
    assert!(check.detail.contains("관리자 권한"));
    assert!(check.detail.contains("복구 콘솔"));
}

#[test]
fn password_policy_good_detail() {
    let check = check_password_policy(Some(POLICY));
    assert_eq!(check.status, CheckStatus::Good);
    assert_eq!(
        check.detail,
        "패스워드 최소 길이: 8 자 - 양호, 패스워드 복잡성 설정: 활성화됨 - 양호"
    );
}

#[test]
fn password_policy_short_and_simple_is_vulnerable() {
    let check = check_password_policy(Some("MinimumPasswordLength = 6\nPasswordComplexity = 0\n"));
    assert_eq!(check.status, CheckStatus::Vulnerable);
    assert_eq!(
        check.detail,
        "패스워드 최소 길이: 6 자 - 취약, 패스워드 복잡성 설정: 비활성화됨 - 취약"
    );
    let check = check_password_policy(Some(""));
    assert_eq!(check.status, CheckStatus::Vulnerable);
    assert_eq!(
        check.detail,
        "패스워드 최소 길이: 0 자 - 취약, 패스워드 복잡성 설정: 비활성화됨 - 취약"
    );
}

#[test]
fn recovery_console_auto_logon_is_vulnerable() {
    let check = check_recovery_console_settings(Some(POLICY), &Ok(Some("1".to_string())));
    assert_eq!(check.status, CheckStatus::Vulnerable);
    assert_eq!(
        check.detail,
        "Windows 복구 콘솔 자동 관리자 로그인이 활성화되어 있습니다. (RecoveryConsoleSecurityLevel = 0, AutoAdminLogon = 1)"
    );
    let check = check_recovery_console_settings(Some("RecoveryConsoleSecurityLevel = 1\n"), &Ok(None));
    assert_eq!(check.status, CheckStatus::Vulnerable);
}

#[test]
fn recovery_console_disabled_is_good() {
    let check = check_recovery_console_settings(Some(POLICY), &Ok(None));
    assert_eq!(check.status, CheckStatus::Good);
    assert_eq!(
        check.detail,
        "Windows 복구 콘솔 자동 관리자 로그인이 비활성화되어 있습니다. (RecoveryConsoleSecurityLevel = 0, AutoAdminLogon = 없음)"
    );
}

#[test]
fn recovery_console_registry_failure() {
    let err = RegistryError {
        path: "SOFTWARE\\Microsoft\\Windows NT\\CurrentVersion\\Winlogon".to_string(),
        value_name: "AutoAdminLogon".to_string(),
        class: monori::model::FailureClass::AccessDenied,
        message: "denied".to_string(),
    };
    let check = check_recovery_console_settings(Some(POLICY), &Err(err));
    assert_eq!(check.status, CheckStatus::CheckFailed);
    assert_eq!(
        check.detail,
        "[권한 부족] 복구 콘솔 설정을 확인할 수 없습니다. 레지스트리 값을 읽을 수 없습니다: SOFTWARE\\Microsoft\\Windows NT\\CurrentVersion\\Winlogon\\AutoAdminLogon (denied)"
    );
}

#[test]
fn policy_setting_last_line_wins_and_fields_split() {
    assert_eq!(read_policy_setting("A = 1\nA = 2\n", "A"), Some(2));
    assert_eq!(read_policy_setting("A = 1\nA = x\n", "A"), None);
    assert_eq!(read_policy_setting("A = 1\nA\n", "A"), Some(1));
    assert_eq!(read_policy_setting("A = 7 = 9\n", "A"), Some(7));
    assert_eq!(read_policy_setting("A =\t+15 \r\n", "A"), Some(15));
    assert_eq!(read_policy_setting("A = 99999999999\n", "A"), None);
    assert_eq!(read_policy_setting("A = -2147483648\n", "A"), Some(-2147483648));
    assert_eq!(read_policy_setting("", "A"), None);
}

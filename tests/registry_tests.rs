use monori::model::{CheckStatus, FailureClass, Importance};
use monori::registry::{settle_read, ReadFailure, RegistryError};
use monori::security::{
    check_autorun_settings, check_browser_temp_files_settings, check_remote_access_settings,
    check_screen_saver_settings,
};

fn text(v: &str) -> Result<Option<String>, RegistryError> {
    Ok(Some(v.to_string()))
}

fn dword(v: u32) -> Result<Option<u32>, RegistryError> {
    Ok(Some(v))
}

fn denied(name: &str) -> RegistryError {
    RegistryError {
        path: "Control Panel\\Desktop".to_string(),
        value_name: name.to_string(),
        class: FailureClass::AccessDenied,
        message: "access is denied".to_string(),
    }
}

#[test]
fn test_screen_saver_check_vulnerable() {
    let result = check_screen_saver_settings(&text("0"), &text("300"), &text("1"));
    assert_eq!(result.code, "PC-12");
    assert_eq!(result.category, "보안 관리");
    assert!(matches!(result.importance, Importance::High));
    println!("Screen saver check result: {:?}", result.status);
    println!("Details: {}", result.detail);
}

#[test]
fn test_autorun_check() {
    let result = check_autorun_settings(&Ok(None), &Ok(None), &dword(255), &Ok(None));
    assert_eq!(result.code, "PC-13");
    assert_eq!(result.category, "보안 관리");
    assert!(matches!(result.importance, Importance::High));
    match result.status {
        CheckStatus::Good => {
            assert!(result.detail.contains("자동 실행 차단 정책이 적절히 설정"));
        }
        CheckStatus::Vulnerable => {
            assert!(result.detail.contains("자동 실행 차단 정책"));
        }
        _ => {}
    }
}

#[test]
fn test_browser_temp_files_check() {
    let result = check_browser_temp_files_settings(&Ok(None));
    assert_eq!(result.code, "PC-18");
    assert_eq!(result.category, "서비스 관리");
    assert!(matches!(result.importance, Importance::Low));
    println!("Browser temp files check: {:?}", result.status);
}

#[test]
fn test_remote_access_check() {
    let result = check_remote_access_settings(&dword(0), &dword(1));
    assert_eq!(result.code, "PC-19");
    assert_eq!(result.category, "보안 관리");
    assert!(matches!(result.importance, Importance::Medium));
    assert!(result.detail.contains("원격 지원") || result.detail.contains("원격 데스크톱"));
}

#[test]
fn screen_saver_good_shows_timeout() {
    let result = check_screen_saver_settings(&text("1"), &text("300"), &text("1"));
    assert_eq!(result.status, CheckStatus::Good);
    assert!(result.detail.contains("300"));
    assert_eq!(
        result.detail,
        "화면보호기가 활성화되어 있고, 대기 시간이 10분 이하(300초)이며, 암호가 설정되어 있습니다."
    );
}

#[test]
fn screen_saver_inactive_is_vulnerable() {
    let result = check_screen_saver_settings(&text("0"), &Ok(None), &Ok(None));
    assert_eq!(result.status, CheckStatus::Vulnerable);
    assert_eq!(
        result.detail,
        "화면보호기 설정이 올바르지 않습니다. 활성화: 0, 대기 시간: 0 초, 암호 설정: 0"
    );
}

#[test]
fn screen_saver_timeout_bounds() {
    let at = |t: &str| check_screen_saver_settings(&text("1"), &text(t), &text("1")).status;
    assert_eq!(at("600"), CheckStatus::Good);
    assert_eq!(at("1"), CheckStatus::Good);
    assert_eq!(at("601"), CheckStatus::Vulnerable);
    assert_eq!(at("0"), CheckStatus::Vulnerable);
    assert_eq!(at("abc"), CheckStatus::Vulnerable);
    assert_eq!(at(" 300"), CheckStatus::Vulnerable);
}

#[test]
fn screen_saver_read_failure() {
    let result = check_screen_saver_settings(&text("1"), &Err(denied("ScreenSaveTimeOut")), &text("1"));
    assert_eq!(result.status, CheckStatus::CheckFailed);
    assert_eq!(
        result.detail,
        "[권한 부족] 레지스트리 값을 읽을 수 없습니다: Control Panel\\Desktop\\ScreenSaveTimeOut (access is denied)"
    );
}

#[test]
fn autorun_machine_hive_disables_autoplay() {
    let result = check_autorun_settings(&Ok(None), &Ok(None), &Ok(None), &dword(1));
    assert_eq!(result.status, CheckStatus::Good);
    assert!(result.detail.contains("HKLM: DisableAutoplay = 1"));
    assert_eq!(
        result.detail,
        "자동 실행 차단 정책이 적절히 설정되어 있습니다.\n발견된 설정:\nHKLM: DisableAutoplay = 1"
    );
}

#[test]
fn autorun_nothing_set_is_vulnerable() {
    let result = check_autorun_settings(&Ok(None), &Ok(None), &Ok(None), &Ok(None));
    assert_eq!(result.status, CheckStatus::Vulnerable);
    assert_eq!(
        result.detail,
        "자동 실행 차단 정책이 전혀 설정되어 있지 않습니다.\n권장값: NoDriveTypeAutoRun=255 또는 DisableAutoplay=1"
    );
}

#[test]
fn autorun_weak_settings_are_listed() {
    let result = check_autorun_settings(&dword(145), &Ok(None), &Ok(None), &dword(0));
    assert_eq!(result.status, CheckStatus::Vulnerable);
    assert_eq!(
        result.detail,
        "자동 실행 차단 정책이 존재하나 기준에 미달합니다.\n현재 설정:\nHKCU: NoDriveTypeAutoRun = 145\nHKLM: DisableAutoplay = 0\n\n권장값: NoDriveTypeAutoRun=255 또는 DisableAutoplay=1"
    );
}

#[test]
fn autorun_failed_read_decides_only_without_compliance() {
    let failed = check_autorun_settings(&Err(denied("NoDriveTypeAutoRun")), &Ok(None), &Ok(None), &Ok(None));
    assert_eq!(failed.status, CheckStatus::CheckFailed);
    assert!(failed.detail.starts_with("[권한 부족]"));
    let good = check_autorun_settings(&Err(denied("NoDriveTypeAutoRun")), &dword(1), &Ok(None), &Ok(None));
    assert_eq!(good.status, CheckStatus::Good);
}

#[test]
fn browser_temp_files_values() {
    let good = check_browser_temp_files_settings(&dword(0));
    assert_eq!(good.status, CheckStatus::Good);
    assert!(good.detail.contains("Persistent=0"));
    let kept = check_browser_temp_files_settings(&dword(1));
    assert_eq!(kept.status, CheckStatus::Vulnerable);
    assert!(kept.detail.contains("Persistent=1"));
    let odd = check_browser_temp_files_settings(&dword(7));
    assert_eq!(odd.status, CheckStatus::Vulnerable);
    assert_eq!(odd.detail, "알 수 없는 설정값입니다. (Persistent=7)");
    let missing = check_browser_temp_files_settings(&Ok(None));
    assert_eq!(missing.status, CheckStatus::Vulnerable);
    assert!(missing.detail.contains("기본값(1)"));
    let failed = check_browser_temp_files_settings(&Err(denied("Persistent")));
    assert_eq!(failed.status, CheckStatus::CheckFailed);
}

#[test]
fn remote_access_values() {
    let good = check_remote_access_settings(&dword(0), &dword(1));
    assert_eq!(good.status, CheckStatus::Good);
    assert_eq!(
        good.detail,
        "원격 지원 및 원격 데스크톱이 모두 비활성화되어 있습니다.\n- 원격 지원이 비활성화되어 있습니다. (fAllowToGetHelp = 0)\n- 원격 데스크톱이 비활성화되어 있습니다. (fDenyTSConnections = 1)"
    );
    let assisted = check_remote_access_settings(&dword(1), &Ok(None));
    assert_eq!(assisted.status, CheckStatus::Vulnerable);
    assert_eq!(
        assisted.detail,
        "원격 지원 또는 원격 데스크톱이 활성화되어 있습니다.\n- 원격 지원이 활성화되어 있습니다. (fAllowToGetHelp = 1)\n- 원격 데스크톱 설정을 찾을 수 없습니다."
    );
    let rdp = check_remote_access_settings(&Ok(None), &dword(0));
    assert_eq!(rdp.status, CheckStatus::Vulnerable);
    let odd = check_remote_access_settings(&dword(2), &dword(3));
    assert_eq!(odd.status, CheckStatus::Good);
    assert!(odd.detail.contains("fAllowToGetHelp = 2"));
    assert!(odd.detail.contains("fDenyTSConnections = 3"));
    let failed = check_remote_access_settings(&dword(0), &Err(denied("fDenyTSConnections")));
    assert_eq!(failed.status, CheckStatus::CheckFailed);
}

#[test]
fn settle_read_follows_reader_contract() {
    assert_eq!(settle_read("K", "V", Ok::<u32, (ReadFailure, String)>(5)), Ok(Some(5)));
    assert_eq!(
        settle_read::<u32>("K", "V", Err((ReadFailure::NotFound, "gone".to_string()))),
        Ok(None)
    );
    let denied = settle_read::<u32>("K\\P", "V", Err((ReadFailure::PermissionDenied, "no".to_string())));
    assert_eq!(
        denied,
        Err(RegistryError {
            path: "K\\P".to_string(),
            value_name: "V".to_string(),
            class: FailureClass::AccessDenied,
            message: "no".to_string(),
        })
    );
    let kind = settle_read::<String>("K", "V", Err((ReadFailure::InvalidData, "type".to_string())));
    assert_eq!(kind.unwrap_err().class, FailureClass::Parse);
    let other = settle_read::<String>("K", "V", Err((ReadFailure::Other, "io".to_string())));
    assert_eq!(other.unwrap_err().class, FailureClass::Transport);
}

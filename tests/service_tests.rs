use monori::model::{CheckStatus, Importance};
use monori::service::{
    check_firewall_status, check_multiboot_config, check_ntfs_filesystem,
    check_unnecessary_services, is_blocklisted, LogicalDisk, ServiceRow,
};

fn disk(id: &str, drive_type: u32, fs: Option<&str>) -> LogicalDisk {
    LogicalDisk {
        device_id: id.to_string(),
        drive_type,
        file_system: fs.map(|f| f.to_string()),
    }
}

fn service(name: &str, state: &str, mode: &str) -> ServiceRow {
    ServiceRow {
        name: name.to_string(),
        state: state.to_string(),
        start_mode: mode.to_string(),
    }
}

const ENGLISH_ON: &str = "\r\nDomain Profile Settings: \r\n----------------------------------------------------------------------\r\nState                                 ON\r\n\r\nPrivate Profile Settings: \r\n----------------------------------------------------------------------\r\nState                                 ON\r\n\r\nPublic Profile Settings: \r\n----------------------------------------------------------------------\r\nState                                 ON\r\nOk.\r\n\r\n";

#[test]
fn test_ntfs_filesystem_check() {
    let result = check_ntfs_filesystem(&Ok(vec![disk("C:", 3, Some("NTFS"))]));
    assert_eq!(result.code, "PC-16");
    assert_eq!(result.category, "서비스 관리");
    match result.status {
        CheckStatus::Good => {
            assert!(result.detail.contains("NTFS"));
        }
        CheckStatus::Vulnerable => {
            assert!(result.detail.contains("NTFS 파일 시스템을 사용하지 않는"));
        }
        _ => {}
    }
}

#[test]
fn test_multiboot_config_check() {
    // The boot-configuration tool needs elevation; without it, it fails.
    let result = check_multiboot_config(None);
    assert_eq!(result.code, "PC-17");
    assert!(matches!(result.status, CheckStatus::CheckFailed));
    assert!(result.detail.contains("관리자 권한"));
}

#[test]
fn test_unnecessary_services_check() {
    let result = check_unnecessary_services(&Ok(vec![service("Spooler", "Running", "Auto")]));
    assert_eq!(result.code, "PC-04");
    assert!(matches!(result.importance, Importance::High));
    println!("Unnecessary services status: {:?}", result.status);
    println!("Details: {}", result.detail);
}

#[test]
fn test_firewall_status_check() {
    let result = check_firewall_status(Some(ENGLISH_ON));
    assert_eq!(result.code, "PC-11");
    assert!(result.detail.contains("프로필"));
}

#[test]
fn ntfs_fat32_data_disk_is_vulnerable() {
    let rows = vec![
        disk("C:", 3, Some("NTFS")),
        disk("D:", 3, Some("FAT32")),
        disk("E:", 2, Some("FAT32")),
    ];
    let result = check_ntfs_filesystem(&Ok(rows));
    assert_eq!(result.status, CheckStatus::Vulnerable);
    assert!(result.detail.contains("D:"));
    assert!(result.detail.contains("FAT32"));
    assert_eq!(result.detail, "NTFS 파일 시스템을 사용하지 않는 드라이브가 있습니다: D: (FAT32)");
}

#[test]
fn ntfs_lists_every_offender() {
    let rows = vec![disk("C:", 3, None), disk("D:", 3, Some("exFAT"))];
    let result = check_ntfs_filesystem(&Ok(rows));
    assert_eq!(
        result.detail,
        "NTFS 파일 시스템을 사용하지 않는 드라이브가 있습니다: C: (Unknown), D: (exFAT)"
    );
}

#[test]
fn ntfs_good_counts_fixed_disks() {
    let rows = vec![disk("C:", 3, Some("NTFS")), disk("E:", 5, None)];
    let result = check_ntfs_filesystem(&Ok(rows));
    assert_eq!(result.status, CheckStatus::Good);
    assert_eq!(
        result.detail,
        "모든 고정 드라이브가 NTFS 파일 시스템을 사용하고 있습니다. (고정 드라이브: C: (NTFS))"
    );
    let empty = check_ntfs_filesystem(&Ok(vec![]));
    assert_eq!(empty.status, CheckStatus::Good);
    assert_eq!(
        empty.detail,
        "모든 고정 드라이브가 NTFS 파일 시스템을 사용하고 있습니다. (고정 드라이브: 없음)"
    );
}

#[test]
fn ntfs_query_failure() {
    let result = check_ntfs_filesystem(&Err("connection refused".to_string()));
    assert_eq!(result.status, CheckStatus::CheckFailed);
    assert_eq!(result.detail, "[연결 실패] 관리 쿼리를 수행할 수 없습니다: connection refused");
}

#[test]
fn services_running_and_auto_are_listed() {
    let rows = vec![
        service("Spooler", "Running", "Auto"),
        service("RemoteRegistry", "Stopped", "Automatic"),
        service("Themes", "Running", "Auto"),
        service("WebClient", "Running", "Manual"),
    ];
    let result = check_unnecessary_services(&Ok(rows));
    assert_eq!(result.status, CheckStatus::Vulnerable);
    assert_eq!(
        result.detail,
        "보안에 불필요한 서비스가 실행 중이거나 자동 시작으로 설정되어 있습니다.\n실행 중인 서비스: Spooler, WebClient\n자동 시작 설정된 서비스: Spooler, RemoteRegistry"
    );
}

#[test]
fn services_clean_host_is_good() {
    let rows = vec![service("Themes", "Running", "Auto"), service("Spooler", "Stopped", "Disabled")];
    let result = check_unnecessary_services(&Ok(rows));
    assert_eq!(result.status, CheckStatus::Good);
    assert_eq!(
        result.detail,
        "보안에 불필요한 서비스가 실행 중이거나 자동 시작으로 설정되어 있지 않습니다. (점검 대상 서비스: Spooler (Stopped, Disabled))"
    );
    let failed = check_unnecessary_services(&Err("timeout".to_string()));
    assert_eq!(failed.status, CheckStatus::CheckFailed);
}

#[test]
fn blocklist_membership() {
    assert!(is_blocklisted("Spooler"));
    assert!(is_blocklisted("WebClient"));
    assert!(!is_blocklisted("spooler"));
    assert!(!is_blocklisted("Themes"));
}

#[test]
fn multiboot_counts_boot_loaders() {
    let one = check_multiboot_config(Some("Windows Boot Manager\n--\nWindows Boot Loader\n-----\nidentifier {current}\n"));
    assert_eq!(one.status, CheckStatus::Good);
    assert_eq!(one.detail, "멀티 부팅 설정이 되어 있지 않습니다. (부팅 로더 항목 수: 1)");
    let two = check_multiboot_config(Some("Windows Boot Loader\nx\nWindows Boot Loader\n"));
    assert_eq!(two.status, CheckStatus::Vulnerable);
    assert_eq!(two.detail, "멀티 부팅 설정이 되어 있습니다. 운영체제 항목 수: 2");
    assert_eq!(
        check_multiboot_config(None).detail,
        "[도구 실행 실패] BCDEdit 명령 실행에 실패했습니다. 관리자 권한이 필요할 수 있습니다."
    );
}

#[test]
fn firewall_english_all_on_is_good() {
    let result = check_firewall_status(Some(ENGLISH_ON));
    assert_eq!(result.status, CheckStatus::Good);
    assert_eq!(
        result.detail,
        "모든 Windows 방화벽 프로필이 활성화되어 있습니다.\n- Domain 프로필: 활성화\n- Private 프로필: 활성화\n- Public 프로필: 활성화"
    );
}

#[test]
fn firewall_korean_output_is_good() {
    let out = "\r\n도메인 프로필 설정: \r\n----------------------------------------------------------------------\r\n상태                                  사용\r\n\r\n개인 프로필 설정: \r\n----------------------------------------------------------------------\r\n상태                                  사용\r\n\r\n공용 프로필 설정: \r\n----------------------------------------------------------------------\r\n상태                                  사용\r\n확인\r\n";
    let result = check_firewall_status(Some(out));
    assert_eq!(result.status, CheckStatus::Good);
}

#[test]
fn firewall_profiles_off_are_vulnerable() {
    let out = ENGLISH_ON.replacen("ON", "OFF", 2);
    let result = check_firewall_status(Some(&out));
    assert_eq!(result.status, CheckStatus::Vulnerable);
    assert_eq!(
        result.detail,
        "일부 Windows 방화벽 프로필이 비활성화되어 있습니다.\n- Domain 프로필: 비활성화\n- Private 프로필: 비활성화\n- Public 프로필: 활성화"
    );
    let korean_off = "도메인 프로필 설정:\n상태 사용\n개인 프로필 설정:\n상태 사용 안 함\n공용 프로필 설정:\n상태 사용\n";
    assert_eq!(check_firewall_status(Some(korean_off)).status, CheckStatus::Vulnerable);
}

#[test]
fn firewall_unreadable_output_fails() {
    let result = check_firewall_status(Some("The service has not been started."));
    assert_eq!(result.status, CheckStatus::CheckFailed);
    assert_eq!(
        result.detail,
        "[형식 오류] 방화벽 상태 출력을 해석할 수 없습니다: The service has not been started."
    );
    let long = "x".repeat(300);
    let truncated = check_firewall_status(Some(&long));
    assert!(truncated.detail.ends_with(&"x".repeat(200)));
    assert!(!truncated.detail.contains(&"x".repeat(201)));
    let tool = check_firewall_status(None);
    assert_eq!(tool.status, CheckStatus::CheckFailed);
    assert_eq!(tool.detail, "[도구 실행 실패] 방화벽 상태를 확인할 수 없습니다.");
}

#[test]
fn services_unlisted_rows_do_not_change_the_result() {
    let base = vec![service("Spooler", "Stopped", "Manual")];
    let more = vec![
        service("Themes", "Running", "Auto"),
        service("Spooler", "Stopped", "Manual"),
        service("Audiosrv", "Running", "Auto"),
    ];
    let a = check_unnecessary_services(&Ok(base));
    let b = check_unnecessary_services(&Ok(more));
    assert_eq!(a.status, CheckStatus::Good);
    assert_eq!(a, b);
    let none = check_unnecessary_services(&Ok(vec![service("Themes", "Running", "Auto")]));
    assert_eq!(
        none.detail,
        "보안에 불필요한 서비스가 실행 중이거나 자동 시작으로 설정되어 있지 않습니다. (점검 대상 서비스: 없음)"
    );
}

#[test]
fn firewall_states_belong_to_their_sections() {
    // Three enabled state lines, but the Public profile is missing.
    let out = "Domain Profile Settings:\nState ON\nState ON\nPrivate Profile Settings:\nState ON\n";
    let result = check_firewall_status(Some(out));
    assert_eq!(result.status, CheckStatus::Vulnerable);
    assert_eq!(
        result.detail,
        "일부 Windows 방화벽 프로필이 비활성화되어 있습니다.\n- Domain 프로필: 활성화\n- Private 프로필: 활성화\n- Public 프로필: 확인 불가"
    );
    // Sections in another order still map to their own profiles.
    let shuffled = "Public Profile Settings:\nState OFF\nDomain Profile Settings:\nState ON\nPrivate Profile Settings:\nState ON\n";
    let result = check_firewall_status(Some(shuffled));
    assert!(result.detail.ends_with("- Public 프로필: 비활성화"));
    // State lines before any section header are not counted.
    let stray = "State ON\nState ON\nState ON\n";
    assert_eq!(check_firewall_status(Some(stray)).status, CheckStatus::CheckFailed);
}

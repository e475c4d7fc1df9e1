//! Security-management checks and the browser-cache check, which read
//! values of the user and machine registry hives.

use vstd::prelude::*;
use crate::catalog::{CheckKind, is_entry_result};
use crate::model::{CheckResult, CheckStatus, names_failure_class};
use crate::registry::{RegistryError, registry_failure_text};
use crate::text::{
    chars_of, contains, decimal, lemma_contains_part, parse_i32, parse_int, push_decimal,
    push_signed, signed_decimal, text_eq,
};

verus! {

/// User-hive key of the screen saver values.
pub const DESKTOP_KEY: &'static str = "Control Panel\\Desktop";

/// Key, in both hives, of the autorun policy values.
pub const EXPLORER_POLICIES_KEY: &'static str = "Software\\Microsoft\\Windows\\CurrentVersion\\Policies\\Explorer";

/// User-hive key of the browser cache value.
pub const INTERNET_CACHE_KEY: &'static str = "Software\\Microsoft\\Windows\\CurrentVersion\\Internet Settings\\Cache";

/// Machine-hive key of the remote assistance value.
pub const REMOTE_ASSISTANCE_KEY: &'static str = "SYSTEM\\CurrentControlSet\\Control\\Remote Assistance";

/// Machine-hive key of the remote desktop value.
pub const TERMINAL_SERVER_KEY: &'static str = "SYSTEM\\CurrentControlSet\\Control\\Terminal Server";

/// Machine-hive key of the automatic logon value.
pub const WINLOGON_KEY: &'static str = "SOFTWARE\\Microsoft\\Windows NT\\CurrentVersion\\Winlogon";

/// A string value, with "0" standing for an absent one.
pub open spec fn or_zero(o: Option<String>) -> Seq<char> {
    match o {
        Some(v) => v@,
        None => "0"@,
    }
}

/// The screen saver timeout in seconds, 0 when it is no integer.
pub open spec fn timeout_seconds(t: Seq<char>) -> int {
    match parse_int(t) {
        Some(v) => v,
        None => 0,
    }
}

pub open spec fn screen_saver_ok(active: Seq<char>, timeout: Seq<char>, secure: Seq<char>) -> bool {
    active == "1"@ && 0 < timeout_seconds(timeout) <= 600 && secure == "1"@
}

pub open spec fn screen_saver_detail(active: Seq<char>, timeout: Seq<char>, secure: Seq<char>) -> Seq<
    char,
> {
    if screen_saver_ok(active, timeout, secure) {
        "화면보호기가 활성화되어 있고, 대기 시간이 10분 이하("@ + signed_decimal(timeout_seconds(timeout))
            + "초)이며, 암호가 설정되어 있습니다."@
    } else {
        "화면보호기 설정이 올바르지 않습니다. 활성화: "@ + active + ", 대기 시간: "@ + signed_decimal(
            timeout_seconds(timeout),
        ) + " 초, 암호 설정: "@ + secure
    }
}

fn value_or_zero(o: &Option<String>) -> (r: String)
    ensures
        r@ == or_zero(*o),
{
    match o {
        Some(v) => v.clone(),
        None => String::from_str("0"),
    }
}

/// Screen saver: good when it is active, locks with a password, and starts
/// after at most 600 seconds. The three values come from the user hive's
/// desktop key; the first failed read decides the result.
pub fn check_screen_saver_settings(
    active: &Result<Option<String>, RegistryError>,
    timeout: &Result<Option<String>, RegistryError>,
    secure: &Result<Option<String>, RegistryError>,
) -> (r: CheckResult)
    ensures
        is_entry_result(r, CheckKind::ScreenSaver),
        *active matches Err(e) ==> r.status == CheckStatus::CheckFailed && r.detail@
            == registry_failure_text(e),
        active is Ok ==> (*timeout matches Err(e) ==> r.status == CheckStatus::CheckFailed
            && r.detail@ == registry_failure_text(e)),
        active is Ok && timeout is Ok ==> (*secure matches Err(e) ==> r.status
            == CheckStatus::CheckFailed && r.detail@ == registry_failure_text(e)),
        *active matches Ok(a) ==> (*timeout matches Ok(t) ==> (*secure matches Ok(s) ==> {
            let (av, tv, sv) = (or_zero(a), or_zero(t), or_zero(s));
            &&& r.status == (if screen_saver_ok(av, tv, sv) {
                CheckStatus::Good
            } else {
                CheckStatus::Vulnerable
            })
            &&& r.detail@ == screen_saver_detail(av, tv, sv)
        })),
        r.status == CheckStatus::CheckFailed ==> names_failure_class(r.detail@),
        *timeout matches Ok(t) ==> (r.status == CheckStatus::Good ==> contains(
            r.detail@,
            signed_decimal(timeout_seconds(or_zero(t))),
        )),
{
    proof {
        if let Ok(t) = timeout {
            lemma_contains_part(
                "화면보호기가 활성화되어 있고, 대기 시간이 10분 이하("@,
                signed_decimal(timeout_seconds(or_zero(*t))),
                "초)이며, 암호가 설정되어 있습니다."@,
            );
        }
    }
    let kind = CheckKind::ScreenSaver;
    let a = match active {
        Err(e) => {
            return kind.result(CheckStatus::CheckFailed, e.detail());
        },
        Ok(v) => value_or_zero(v),
    };
    let t = match timeout {
        Err(e) => {
            return kind.result(CheckStatus::CheckFailed, e.detail());
        },
        Ok(v) => value_or_zero(v),
    };
    let s = match secure {
        Err(e) => {
            return kind.result(CheckStatus::CheckFailed, e.detail());
        },
        Ok(v) => value_or_zero(v),
    };
    let secs: i32 = match parse_i32(&chars_of(t.as_str())) {
        Some(v) => v,
        None => 0,
    };
    let ok = text_eq(a.as_str(), "1") && 0 < secs && secs <= 600 && text_eq(s.as_str(), "1");
    if ok {
        let mut d = String::from_str("화면보호기가 활성화되어 있고, 대기 시간이 10분 이하(");
        push_signed(&mut d, secs);
        d.append("초)이며, 암호가 설정되어 있습니다.");
        kind.result(CheckStatus::Good, d)
    } else {
        let mut d = String::from_str("화면보호기 설정이 올바르지 않습니다. 활성화: ");
        d.append(a.as_str());
        d.append(", 대기 시간: ");
        push_signed(&mut d, secs);
        d.append(" 초, 암호 설정: ");
        d.append(s.as_str());
        kind.result(CheckStatus::Vulnerable, d)
    }
}

/// A registry read that found `target`.
pub open spec fn read_is(r: Result<Option<u32>, RegistryError>, target: u32) -> bool {
    r matches Ok(Some(v)) && v == target
}

/// How a found autorun value appears in a detail: on a line of its own,
/// with the hive it was found in.
pub open spec fn autorun_entry(
    hive: Seq<char>,
    name: Seq<char>,
    r: Result<Option<u32>, RegistryError>,
) -> Seq<char> {
    match r {
        Ok(Some(v)) => "\n"@ + hive + ": "@ + name + " = "@ + decimal(v as nat),
        _ => Seq::empty(),
    }
}

/// The autorun values that were found, in the order HKCU then HKLM,
/// `NoDriveTypeAutoRun` then `DisableAutoplay`.
pub open spec fn autorun_found(
    user_no_drive: Result<Option<u32>, RegistryError>,
    user_disable: Result<Option<u32>, RegistryError>,
    machine_no_drive: Result<Option<u32>, RegistryError>,
    machine_disable: Result<Option<u32>, RegistryError>,
) -> Seq<char> {
    autorun_entry("HKCU"@, "NoDriveTypeAutoRun"@, user_no_drive) + autorun_entry(
        "HKCU"@,
        "DisableAutoplay"@,
        user_disable,
    ) + autorun_entry("HKLM"@, "NoDriveTypeAutoRun"@, machine_no_drive) + autorun_entry(
        "HKLM"@,
        "DisableAutoplay"@,
        machine_disable,
    )
}

pub open spec fn autorun_compliant(
    user_no_drive: Result<Option<u32>, RegistryError>,
    user_disable: Result<Option<u32>, RegistryError>,
    machine_no_drive: Result<Option<u32>, RegistryError>,
    machine_disable: Result<Option<u32>, RegistryError>,
) -> bool {
    read_is(user_no_drive, 255) || read_is(user_disable, 1) || read_is(machine_no_drive, 255)
        || read_is(machine_disable, 1)
}

/// The first failed read, in the order of `autorun_found`.
pub open spec fn first_error(
    a: Result<Option<u32>, RegistryError>,
    b: Result<Option<u32>, RegistryError>,
    c: Result<Option<u32>, RegistryError>,
    d: Result<Option<u32>, RegistryError>,
) -> Option<RegistryError> {
    match (a, b, c, d) {
        (Err(e), _, _, _) => Some(e),
        (_, Err(e), _, _) => Some(e),
        (_, _, Err(e), _) => Some(e),
        (_, _, _, Err(e)) => Some(e),
        _ => None,
    }
}

fn push_autorun_entry(
    s: &mut String,
    hive: &str,
    name: &str,
    r: &Result<Option<u32>, RegistryError>,
)
    ensures
        final(s)@ == old(s)@ + autorun_entry(hive@, name@, *r),
{
    match r {
        Ok(Some(v)) => {
            s.append("\n");
            s.append(hive);
            s.append(": ");
            s.append(name);
            s.append(" = ");
            push_decimal(s, *v as u64);
            assert(final(s)@ =~= old(s)@ + autorun_entry(hive@, name@, *r));
        },
        _ => {
            assert(final(s)@ =~= old(s)@ + autorun_entry(hive@, name@, *r));
        },
    }
}

fn found_value(r: &Result<Option<u32>, RegistryError>, target: u32) -> (b: bool)
    ensures
        b == read_is(*r, target),
{
    match r {
        Ok(Some(v)) => *v == target,
        _ => false,
    }
}

/// Autorun of removable media: good when `NoDriveTypeAutoRun` is 255 or
/// `DisableAutoplay` is 1 in either hive. Every value found is listed, with
/// its hive. Failed reads decide only when no value meets its target.
pub fn check_autorun_settings(
    user_no_drive: &Result<Option<u32>, RegistryError>,
    user_disable: &Result<Option<u32>, RegistryError>,
    machine_no_drive: &Result<Option<u32>, RegistryError>,
    machine_disable: &Result<Option<u32>, RegistryError>,
) -> (r: CheckResult)
    ensures
        is_entry_result(r, CheckKind::Autorun),
        ({
            let found = autorun_found(
                *user_no_drive,
                *user_disable,
                *machine_no_drive,
                *machine_disable,
            );
            let err = first_error(*user_no_drive, *user_disable, *machine_no_drive, *machine_disable);
            if autorun_compliant(*user_no_drive, *user_disable, *machine_no_drive, *machine_disable) {
                r.status == CheckStatus::Good && r.detail@ == "자동 실행 차단 정책이 적절히 설정되어 있습니다.\n발견된 설정:"@
                    + found
            } else if err is Some {
                r.status == CheckStatus::CheckFailed && r.detail@ == registry_failure_text(err->0)
            } else if found.len() == 0 {
                r.status == CheckStatus::Vulnerable && r.detail@
                    == "자동 실행 차단 정책이 전혀 설정되어 있지 않습니다.\n권장값: NoDriveTypeAutoRun=255 또는 DisableAutoplay=1"@
            } else {
                r.status == CheckStatus::Vulnerable && r.detail@ == "자동 실행 차단 정책이 존재하나 기준에 미달합니다.\n현재 설정:"@
                    + found + "\n\n권장값: NoDriveTypeAutoRun=255 또는 DisableAutoplay=1"@
            }
        }),
        r.status == CheckStatus::CheckFailed ==> names_failure_class(r.detail@),
        r.status == CheckStatus::Good ==> ({
            let found = autorun_found(
                *user_no_drive,
                *user_disable,
                *machine_no_drive,
                *machine_disable,
            );
            found.len() > 0 && contains(r.detail@, found)
        }),
{
    proof {
        lemma_contains_part(
            "자동 실행 차단 정책이 적절히 설정되어 있습니다.\n발견된 설정:"@,
            autorun_found(*user_no_drive, *user_disable, *machine_no_drive, *machine_disable),
            Seq::empty(),
        );
    }
    let kind = CheckKind::Autorun;
    let mut found = String::new();
    push_autorun_entry(&mut found, "HKCU", "NoDriveTypeAutoRun", user_no_drive);
    push_autorun_entry(&mut found, "HKCU", "DisableAutoplay", user_disable);
    push_autorun_entry(&mut found, "HKLM", "NoDriveTypeAutoRun", machine_no_drive);
    push_autorun_entry(&mut found, "HKLM", "DisableAutoplay", machine_disable);
    assert(found@ =~= autorun_found(*user_no_drive, *user_disable, *machine_no_drive, *machine_disable));
    let compliant = found_value(user_no_drive, 255) || found_value(user_disable, 1) || found_value(
        machine_no_drive,
        255,
    ) || found_value(machine_disable, 1);
    if compliant {
        let mut d = String::from_str("자동 실행 차단 정책이 적절히 설정되어 있습니다.\n발견된 설정:");
        d.append(found.as_str());
        return kind.result(CheckStatus::Good, d);
    }
    match (user_no_drive, user_disable, machine_no_drive, machine_disable) {
        (Err(e), _, _, _) => {
            return kind.result(CheckStatus::CheckFailed, e.detail());
        },
        (_, Err(e), _, _) => {
            return kind.result(CheckStatus::CheckFailed, e.detail());
        },
        (_, _, Err(e), _) => {
            return kind.result(CheckStatus::CheckFailed, e.detail());
        },
        (_, _, _, Err(e)) => {
            return kind.result(CheckStatus::CheckFailed, e.detail());
        },
        _ => {},
    }
    if found.as_str().is_empty() {
        kind.result(
            CheckStatus::Vulnerable,
            String::from_str(
                "자동 실행 차단 정책이 전혀 설정되어 있지 않습니다.\n권장값: NoDriveTypeAutoRun=255 또는 DisableAutoplay=1",
            ),
        )
    } else {
        let mut d = String::from_str("자동 실행 차단 정책이 존재하나 기준에 미달합니다.\n현재 설정:");
        d.append(found.as_str());
        d.append("\n\n권장값: NoDriveTypeAutoRun=255 또는 DisableAutoplay=1");
        kind.result(CheckStatus::Vulnerable, d)
    }
}

pub open spec fn browser_temp_status(persistent: Option<u32>) -> CheckStatus {
    if persistent == Some(0u32) {
        CheckStatus::Good
    } else {
        CheckStatus::Vulnerable
    }
}

pub open spec fn browser_temp_detail(persistent: Option<u32>) -> Seq<char> {
    match persistent {
        Some(v) => if v == 0 {
            "브라우저 종료 시 임시 인터넷 파일을 삭제하도록 설정되어 있습니다. ("@ + "Persistent=0"@ + ")"@
        } else if v == 1 {
            "브라우저 종료 시 임시 인터넷 파일이 삭제되지 않도록 설정되어 있습니다. (Persistent=1)"@
        } else {
            "알 수 없는 설정값입니다. (Persistent="@ + decimal(v as nat) + ")"@
        },
        None =>
            "해당 설정(Persistent)이 존재하지 않아 기본값(1)으로 간주됩니다. 임시 인터넷 파일이 자동으로 삭제되지 않을 수 있습니다."@,
    }
}

/// Browser temporary files: good when the user hive's cache `Persistent`
/// value is 0. An absent value counts as the platform default, 1.
pub fn check_browser_temp_files_settings(persistent: &Result<Option<u32>, RegistryError>) -> (r:
    CheckResult)
    ensures
        is_entry_result(r, CheckKind::BrowserTempFiles),
        *persistent matches Err(e) ==> r.status == CheckStatus::CheckFailed && r.detail@
            == registry_failure_text(e),
        *persistent matches Ok(p) ==> r.status == browser_temp_status(p) && r.detail@
            == browser_temp_detail(p),
        r.status == CheckStatus::CheckFailed ==> names_failure_class(r.detail@),
        r.status == CheckStatus::Good ==> contains(r.detail@, "Persistent=0"@),
{
    proof {
        lemma_contains_part(
            "브라우저 종료 시 임시 인터넷 파일을 삭제하도록 설정되어 있습니다. ("@,
            "Persistent=0"@,
            ")"@,
        );
    }
    let kind = CheckKind::BrowserTempFiles;
    match persistent {
        Err(e) => kind.result(CheckStatus::CheckFailed, e.detail()),
        Ok(Some(v)) => {
            if *v == 0 {
                let mut d = String::from_str("브라우저 종료 시 임시 인터넷 파일을 삭제하도록 설정되어 있습니다. (");
                d.append("Persistent=0");
                d.append(")");
                kind.result(CheckStatus::Good, d)
            } else if *v == 1 {
                kind.result(
                    CheckStatus::Vulnerable,
                    String::from_str(
                        "브라우저 종료 시 임시 인터넷 파일이 삭제되지 않도록 설정되어 있습니다. (Persistent=1)",
                    ),
                )
            } else {
                let mut d = String::from_str("알 수 없는 설정값입니다. (Persistent=");
                push_decimal(&mut d, *v as u64);
                d.append(")");
                kind.result(CheckStatus::Vulnerable, d)
            }
        },
        Ok(None) => kind.result(
            CheckStatus::Vulnerable,
            String::from_str(
                "해당 설정(Persistent)이 존재하지 않아 기본값(1)으로 간주됩니다. 임시 인터넷 파일이 자동으로 삭제되지 않을 수 있습니다.",
            ),
        ),
    }
}

/// The detail line for the remote assistance value.
pub open spec fn assistance_line(o: Option<u32>) -> Seq<char> {
    match o {
        Some(v) => if v == 1 {
            "\n- 원격 지원이 활성화되어 있습니다. (fAllowToGetHelp = 1)"@
        } else if v == 0 {
            "\n- 원격 지원이 비활성화되어 있습니다. (fAllowToGetHelp = 0)"@
        } else {
            "\n- 원격 지원 설정값을 알 수 없습니다. (fAllowToGetHelp = "@ + decimal(v as nat) + ")"@
        },
        None => "\n- 원격 지원 설정을 찾을 수 없습니다."@,
    }
}

/// The detail line for the remote desktop value.
pub open spec fn desktop_line(o: Option<u32>) -> Seq<char> {
    match o {
        Some(v) => if v == 0 {
            "\n- 원격 데스크톱이 활성화되어 있습니다. (fDenyTSConnections = 0)"@
        } else if v == 1 {
            "\n- 원격 데스크톱이 비활성화되어 있습니다. (fDenyTSConnections = 1)"@
        } else {
            "\n- 원격 데스크톱 설정값을 알 수 없습니다. (fDenyTSConnections = "@ + decimal(v as nat) + ")"@
        },
        None => "\n- 원격 데스크톱 설정을 찾을 수 없습니다."@,
    }
}

pub open spec fn remote_enabled(assistance: Option<u32>, desktop: Option<u32>) -> bool {
    assistance == Some(1u32) || desktop == Some(0u32)
}

/// The observed values, one per line.
pub open spec fn remote_access_lines(assistance: Option<u32>, desktop: Option<u32>) -> Seq<char> {
    assistance_line(assistance) + desktop_line(desktop)
}

pub open spec fn remote_access_detail(assistance: Option<u32>, desktop: Option<u32>) -> Seq<char> {
    (if remote_enabled(assistance, desktop) {
        "원격 지원 또는 원격 데스크톱이 활성화되어 있습니다."@
    } else {
        "원격 지원 및 원격 데스크톱이 모두 비활성화되어 있습니다."@
    }) + remote_access_lines(assistance, desktop)
}

fn push_assistance_line(s: &mut String, o: Option<u32>)
    ensures
        final(s)@ == old(s)@ + assistance_line(o),
{
    match o {
        Some(v) => {
            if v == 1 {
                s.append("\n- 원격 지원이 활성화되어 있습니다. (fAllowToGetHelp = 1)");
            } else if v == 0 {
                s.append("\n- 원격 지원이 비활성화되어 있습니다. (fAllowToGetHelp = 0)");
            } else {
                s.append("\n- 원격 지원 설정값을 알 수 없습니다. (fAllowToGetHelp = ");
                push_decimal(s, v as u64);
                s.append(")");
                assert(final(s)@ =~= old(s)@ + assistance_line(o));
            }
        },
        None => s.append("\n- 원격 지원 설정을 찾을 수 없습니다."),
    }
}

fn push_desktop_line(s: &mut String, o: Option<u32>)
    ensures
        final(s)@ == old(s)@ + desktop_line(o),
{
    match o {
        Some(v) => {
            if v == 0 {
                s.append("\n- 원격 데스크톱이 활성화되어 있습니다. (fDenyTSConnections = 0)");
            } else if v == 1 {
                s.append("\n- 원격 데스크톱이 비활성화되어 있습니다. (fDenyTSConnections = 1)");
            } else {
                s.append("\n- 원격 데스크톱 설정값을 알 수 없습니다. (fDenyTSConnections = ");
                push_decimal(s, v as u64);
                s.append(")");
                assert(final(s)@ =~= old(s)@ + desktop_line(o));
            }
        },
        None => s.append("\n- 원격 데스크톱 설정을 찾을 수 없습니다."),
    }
}

/// Remote support: good when remote assistance is not allowed
/// (`fAllowToGetHelp` ≠ 1) and remote desktop connections are denied
/// (`fDenyTSConnections` ≠ 0). Both values come from the machine hive.
pub fn check_remote_access_settings(
    assistance: &Result<Option<u32>, RegistryError>,
    desktop: &Result<Option<u32>, RegistryError>,
) -> (r: CheckResult)
    ensures
        is_entry_result(r, CheckKind::RemoteAccess),
        *assistance matches Err(e) ==> r.status == CheckStatus::CheckFailed && r.detail@
            == registry_failure_text(e),
        assistance is Ok ==> (*desktop matches Err(e) ==> r.status == CheckStatus::CheckFailed
            && r.detail@ == registry_failure_text(e)),
        *assistance matches Ok(a) ==> (*desktop matches Ok(d) ==> {
            &&& r.status == (if remote_enabled(a, d) {
                CheckStatus::Vulnerable
            } else {
                CheckStatus::Good
            })
            &&& r.detail@ == remote_access_detail(a, d)
        }),
        r.status == CheckStatus::CheckFailed ==> names_failure_class(r.detail@),
        *assistance matches Ok(a) ==> (*desktop matches Ok(d) ==> (r.status == CheckStatus::Good
            ==> contains(r.detail@, remote_access_lines(a, d)))),
{
    proof {
        if let Ok(a) = assistance {
            if let Ok(d) = desktop {
                lemma_contains_part(
                    "원격 지원 및 원격 데스크톱이 모두 비활성화되어 있습니다."@,
                    remote_access_lines(*a, *d),
                    Seq::empty(),
                );
            }
        }
    }
    let kind = CheckKind::RemoteAccess;
    let a = match assistance {
        Err(e) => {
            return kind.result(CheckStatus::CheckFailed, e.detail());
        },
        Ok(v) => *v,
    };
    let d = match desktop {
        Err(e) => {
            return kind.result(CheckStatus::CheckFailed, e.detail());
        },
        Ok(v) => *v,
    };
    let enabled = (match a {
        Some(v) => v == 1,
        None => false,
    }) || (match d {
        Some(v) => v == 0,
        None => false,
    });
    let mut s = String::from_str(
        if enabled {
            "원격 지원 또는 원격 데스크톱이 활성화되어 있습니다."
        } else {
            "원격 지원 및 원격 데스크톱이 모두 비활성화되어 있습니다."
        },
    );
    push_assistance_line(&mut s, a);
    push_desktop_line(&mut s, d);
    assert(s@ =~= remote_access_detail(a, d));
    let status = if enabled {
        CheckStatus::Vulnerable
    } else {
        CheckStatus::Good
    };
    kind.result(status, s)
}

} // verus!

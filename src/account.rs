//! Account-management checks, which read the exported local security policy
//! (and, for the recovery console, one registry value).

use vstd::prelude::*;
use crate::catalog::{CheckKind, is_entry_result};
use crate::model::{
    CheckResult, CheckStatus, FailureClass, failure_text, failure_detail, names_failure_class,
};
use crate::registry::{RegistryError, registry_failure_message};
use crate::text::{
    chars_of, contains, contains_chars, lemma_contains_part, find_char, index_of, lines_of, parse_i32, parse_int,
    push_signed, signed_decimal, slice_chars, split_lines, text_eq, trim, trim_chars, views, widen,
};

verus! {

/// What one line does to a setting: a line that mentions `key` and holds an
/// '=' sets it to the integer between the first '=' and the next one (or the
/// end), trimmed, or to nothing when that is no integer.
pub open spec fn setting_step(acc: Option<int>, line: Seq<char>, key: Seq<char>) -> Option<int> {
    let e = index_of(line, '=');
    if contains(line, key) && e < line.len() {
        let rest = line.skip(e + 1 as int);
        parse_int(trim(rest.take(index_of(rest, '=') as int)))
    } else {
        acc
    }
}

/// The setting after reading `lines` in order.
pub open spec fn setting_in_lines(lines: Seq<Seq<char>>, key: Seq<char>) -> Option<int>
    decreases lines.len(),
{
    if lines.len() == 0 {
        None
    } else {
        setting_step(setting_in_lines(lines.drop_last(), key), lines.last(), key)
    }
}

/// The value of `key` in an exported security policy.
pub open spec fn policy_setting(content: Seq<char>, key: Seq<char>) -> Option<int> {
    setting_in_lines(lines_of(content), key)
}

fn line_setting(line: &Vec<char>, key: &Vec<char>, acc: Option<i32>) -> (r: Option<i32>)
    ensures
        widen(r) == setting_step(widen(acc), line@, key@),
{
    if contains_chars(line, key) {
        assert(line@.skip(0) =~= line@);
        let e = find_char(line, 0, '=');
        if e < line.len() {
            let f = find_char(line, e + 1, '=');
            let field = slice_chars(line, e + 1, f);
            let ghost rest = line@.skip(e + 1);
            assert(rest.take(index_of(rest, '=') as int) =~= field@);
            let t = trim_chars(&field);
            return parse_i32(&t);
        }
    }
    acc
}

/// Reads `key` from the text of an exported security policy.
pub fn read_policy_setting(content: &str, key: &str) -> (r: Option<i32>)
    ensures
        widen(r) == policy_setting(content@, key@),
{
    let text = chars_of(content);
    let k = chars_of(key);
    let lines = split_lines(&text);
    let ghost ls = views(lines@);
    let mut acc: Option<i32> = None;
    let mut i: usize = 0;
    while i < lines.len()
        invariant
            i <= lines.len(),
            ls == views(lines@),
            ls == lines_of(content@),
            k@ == key@,
            widen(acc) == setting_in_lines(ls.take(i as int), key@),
        decreases lines.len() - i,
    {
        acc = line_setting(&lines[i], &k, acc);
        assert(ls.take(i + 1).drop_last() =~= ls.take(i as int));
        i += 1;
    }
    assert(ls.take(i as int) =~= ls);
    acc
}

/// The message of a check whose policy export failed.
pub open spec fn export_failed_text() -> Seq<char> {
    failure_text(FailureClass::AccessDenied, "보안 정책을 내보낼 수 없습니다. 관리자 권한이 필요합니다."@)
}

fn export_failed_detail() -> (r: String)
    ensures
        r@ == export_failed_text(),
{
    failure_detail(FailureClass::AccessDenied, "보안 정책을 내보낼 수 없습니다. 관리자 권한이 필요합니다.")
}

pub open spec fn expiration_status(age: Option<int>) -> CheckStatus {
    match age {
        Some(d) => if 1 <= d <= 90 {
            CheckStatus::Good
        } else {
            CheckStatus::Vulnerable
        },
        None => CheckStatus::CheckFailed,
    }
}

pub open spec fn expiration_detail(age: Option<int>) -> Seq<char> {
    match age {
        Some(d) => if 1 <= d <= 90 {
            "최대 암호 사용 기간이 "@ + signed_decimal(d) + " 일로 설정되어 있습니다."@
        } else if d == 0 {
            "최대 암호 사용 기간이 설정되지 않았습니다 (무제한)."@
        } else if d < 0 {
            "최대 암호 사용 기간이 무제한으로 설정되어 있습니다 (MaximumPasswordAge = "@ + signed_decimal(d)
                + ")."@
        } else {
            signed_decimal(d) + " 일, 최대 암호 사용 기간이 90일을 초과합니다."@
        },
        None => failure_text(FailureClass::NotObserved, "최대 암호 사용 기간 설정을 확인할 수 없습니다."@),
    }
}

/// Maximum password age: good when it is set to between 1 and 90 days.
/// `export` is the exported security policy, or `None` when the export
/// failed.
pub fn check_password_expiration(export: Option<&str>) -> (r: CheckResult)
    ensures
        is_entry_result(r, CheckKind::PasswordExpiration),
        export is None ==> r.status == CheckStatus::CheckFailed && r.detail@
            == export_failed_text(),
        export matches Some(c) ==> {
            let age = policy_setting(c@, "MaximumPasswordAge"@);
            r.status == expiration_status(age) && r.detail@ == expiration_detail(age)
        },
        r.status == CheckStatus::CheckFailed ==> names_failure_class(r.detail@),
        export matches Some(c) ==> (r.status == CheckStatus::Good ==> contains(
            r.detail@,
            optional_int_text(policy_setting(c@, "MaximumPasswordAge"@)),
        )),
{
    proof {
        if let Some(c) = export {
            if let Some(d) = policy_setting(c@, "MaximumPasswordAge"@) {
                lemma_contains_part(
                    "최대 암호 사용 기간이 "@,
                    signed_decimal(d),
                    " 일로 설정되어 있습니다."@,
                );
            }
        }
    }
    let kind = CheckKind::PasswordExpiration;
    let content = match export {
        None => {
            return kind.result(CheckStatus::CheckFailed, export_failed_detail());
        },
        Some(c) => c,
    };
    let age = read_policy_setting(content, "MaximumPasswordAge");
    match age {
        Some(d) => {
            if 1 <= d && d <= 90 {
                let mut s = String::from_str("최대 암호 사용 기간이 ");
                push_signed(&mut s, d);
                s.append(" 일로 설정되어 있습니다.");
                kind.result(CheckStatus::Good, s)
            } else if d == 0 {
                kind.result(
                    CheckStatus::Vulnerable,
                    String::from_str("최대 암호 사용 기간이 설정되지 않았습니다 (무제한)."),
                )
            } else if d < 0 {
                let mut s = String::from_str("최대 암호 사용 기간이 무제한으로 설정되어 있습니다 (MaximumPasswordAge = ");
                push_signed(&mut s, d);
                s.append(").");
                kind.result(CheckStatus::Vulnerable, s)
            } else {
                let mut s = String::new();
                push_signed(&mut s, d);
                s.append(" 일, 최대 암호 사용 기간이 90일을 초과합니다.");
                kind.result(CheckStatus::Vulnerable, s)
            }
        },
        None => kind.result(
            CheckStatus::CheckFailed,
            failure_detail(FailureClass::NotObserved, "최대 암호 사용 기간 설정을 확인할 수 없습니다."),
        ),
    }
}

pub open spec fn min_length_ok(len: Option<int>) -> bool {
    len matches Some(l) && l >= 8
}

pub open spec fn complexity_ok(complexity: Option<int>) -> bool {
    complexity == Some(1int)
}

pub open spec fn verdict_word(ok: bool) -> Seq<char> {
    if ok {
        "양호"@
    } else {
        "취약"@
    }
}

pub open spec fn password_policy_detail(len: Option<int>, complexity: Option<int>) -> Seq<char> {
    let shown = match len {
        Some(l) => l,
        None => 0,
    };
    "패스워드 최소 길이: "@ + signed_decimal(shown) + " 자 - "@ + verdict_word(min_length_ok(len))
        + ", 패스워드 복잡성 설정: "@ + (if complexity_ok(complexity) {
        "활성화됨"@
    } else {
        "비활성화됨"@
    }) + " - "@ + verdict_word(complexity_ok(complexity))
}

fn verdict_str(ok: bool) -> (r: &'static str)
    ensures
        r@ == verdict_word(ok),
{
    if ok {
        "양호"
    } else {
        "취약"
    }
}

/// Password length and complexity: good when the minimum length is at least
/// 8 and complexity is required.
pub fn check_password_policy(export: Option<&str>) -> (r: CheckResult)
    ensures
        is_entry_result(r, CheckKind::PasswordPolicy),
        export is None ==> r.status == CheckStatus::CheckFailed && r.detail@
            == export_failed_text(),
        export matches Some(c) ==> {
            let len = policy_setting(c@, "MinimumPasswordLength"@);
            let complexity = policy_setting(c@, "PasswordComplexity"@);
            &&& r.status == (if min_length_ok(len) && complexity_ok(complexity) {
                CheckStatus::Good
            } else {
                CheckStatus::Vulnerable
            })
            &&& r.detail@ == password_policy_detail(len, complexity)
        },
        r.status == CheckStatus::CheckFailed ==> names_failure_class(r.detail@),
        export matches Some(c) ==> (r.status == CheckStatus::Good ==> contains(
            r.detail@,
            optional_int_text(policy_setting(c@, "MinimumPasswordLength"@)),
        )),
{
    proof {
        if let Some(c) = export {
            let len = policy_setting(c@, "MinimumPasswordLength"@);
            let complexity = policy_setting(c@, "PasswordComplexity"@);
            if let Some(l) = len {
                let rest = " 자 - "@ + verdict_word(min_length_ok(len)) + ", 패스워드 복잡성 설정: "@ + (
                if complexity_ok(complexity) {
                    "활성화됨"@
                } else {
                    "비활성화됨"@
                }) + " - "@ + verdict_word(complexity_ok(complexity));
                lemma_contains_part("패스워드 최소 길이: "@, signed_decimal(l), rest);
                assert(password_policy_detail(len, complexity) =~= "패스워드 최소 길이: "@
                    + signed_decimal(l) + rest);
            }
        }
    }
    let kind = CheckKind::PasswordPolicy;
    let content = match export {
        None => {
            return kind.result(CheckStatus::CheckFailed, export_failed_detail());
        },
        Some(c) => c,
    };
    let len = read_policy_setting(content, "MinimumPasswordLength");
    let complexity = read_policy_setting(content, "PasswordComplexity");
    let (len_ok, shown) = match len {
        Some(l) => (l >= 8, l),
        None => (false, 0),
    };
    let comp_ok = match complexity {
        Some(c) => c == 1,
        None => false,
    };
    let mut s = String::from_str("패스워드 최소 길이: ");
    push_signed(&mut s, shown);
    s.append(" 자 - ");
    s.append(verdict_str(len_ok));
    s.append(", 패스워드 복잡성 설정: ");
    s.append(if comp_ok {
        "활성화됨"
    } else {
        "비활성화됨"
    });
    s.append(" - ");
    s.append(verdict_str(comp_ok));
    let status = if len_ok && comp_ok {
        CheckStatus::Good
    } else {
        CheckStatus::Vulnerable
    };
    kind.result(status, s)
}

/// How an optional integer appears in a detail.
pub open spec fn optional_int_text(o: Option<int>) -> Seq<char> {
    match o {
        Some(v) => signed_decimal(v),
        None => "없음"@,
    }
}

/// How an optional text appears in a detail.
pub open spec fn optional_text(o: Option<String>) -> Seq<char> {
    match o {
        Some(v) => v@,
        None => "없음"@,
    }
}

/// The detail of the recovery console check when the policy export failed.
pub open spec fn recovery_export_failed_text() -> Seq<char> {
    failure_text(
        FailureClass::AccessDenied,
        "복구 콘솔 설정을 확인할 수 없습니다. 보안 정책을 내보낼 수 없습니다. 관리자 권한이 필요합니다."@,
    )
}

/// The detail of the recovery console check when the Winlogon read failed.
pub open spec fn recovery_read_failed_text(e: RegistryError) -> Seq<char> {
    failure_text(e.class, "복구 콘솔 설정을 확인할 수 없습니다. "@ + registry_failure_message(e))
}

pub open spec fn auto_logon_enabled(level: Option<int>, logon: Option<String>) -> bool {
    level == Some(1int) || (logon matches Some(v) && v@ == "1"@)
}

/// The observed values, as the recovery console detail lists them.
pub open spec fn recovery_console_observed(level: Option<int>, logon: Option<String>) -> Seq<char> {
    " (RecoveryConsoleSecurityLevel = "@ + optional_int_text(level) + ", AutoAdminLogon = "@
        + optional_text(logon) + ")"@
}

pub open spec fn recovery_console_detail(level: Option<int>, logon: Option<String>) -> Seq<char> {
    (if auto_logon_enabled(level, logon) {
        "Windows 복구 콘솔 자동 관리자 로그인이 활성화되어 있습니다."@
    } else {
        "Windows 복구 콘솔 자동 관리자 로그인이 비활성화되어 있습니다."@
    }) + recovery_console_observed(level, logon)
}

fn push_optional_int(s: &mut String, o: Option<i32>)
    ensures
        final(s)@ == old(s)@ + optional_int_text(widen(o)),
{
    match o {
        Some(v) => push_signed(s, v),
        None => s.append("없음"),
    }
}

fn push_optional_text(s: &mut String, o: &Option<String>)
    ensures
        final(s)@ == old(s)@ + optional_text(*o),
{
    match o {
        Some(v) => s.append(v.as_str()),
        None => s.append("없음"),
    }
}

fn observed_text(level: Option<i32>, logon: &Option<String>) -> (r: String)
    ensures
        r@ == recovery_console_observed(widen(level), *logon),
{
    let mut s = String::from_str(" (RecoveryConsoleSecurityLevel = ");
    push_optional_int(&mut s, level);
    s.append(", AutoAdminLogon = ");
    push_optional_text(&mut s, logon);
    s.append(")");
    assert(s@ =~= recovery_console_observed(widen(level), *logon));
    s
}

/// Automatic administrator logon: good when neither the recovery console
/// policy nor the Winlogon `AutoAdminLogon` value enables it. `export` is the
/// exported security policy, or `None` when the export failed;
/// `auto_admin_logon` is the machine-hive Winlogon value.
pub fn check_recovery_console_settings(
    export: Option<&str>,
    auto_admin_logon: &Result<Option<String>, RegistryError>,
) -> (r: CheckResult)
    ensures
        is_entry_result(r, CheckKind::RecoveryConsole),
        export is None ==> r.status == CheckStatus::CheckFailed && r.detail@
            == recovery_export_failed_text(),
        export is Some ==> (*auto_admin_logon matches Err(e) ==> r.status
            == CheckStatus::CheckFailed && r.detail@ == recovery_read_failed_text(e)),
        export matches Some(c) ==> (*auto_admin_logon matches Ok(logon) ==> {
            let level = policy_setting(c@, "RecoveryConsoleSecurityLevel"@);
            &&& r.status == (if auto_logon_enabled(level, logon) {
                CheckStatus::Vulnerable
            } else {
                CheckStatus::Good
            })
            &&& r.detail@ == recovery_console_detail(level, logon)
        }),
        r.status == CheckStatus::CheckFailed ==> names_failure_class(r.detail@),
        export matches Some(c) ==> (*auto_admin_logon matches Ok(logon) ==> (r.status
            == CheckStatus::Good ==> contains(
            r.detail@,
            recovery_console_observed(policy_setting(c@, "RecoveryConsoleSecurityLevel"@), logon),
        ))),
{
    proof {
        if let Some(c) = export {
            if let Ok(logon) = auto_admin_logon {
                let level = policy_setting(c@, "RecoveryConsoleSecurityLevel"@);
                lemma_contains_part(
                    "Windows 복구 콘솔 자동 관리자 로그인이 비활성화되어 있습니다."@,
                    recovery_console_observed(level, *logon),
                    Seq::empty(),
                );
            }
        }
    }
    let kind = CheckKind::RecoveryConsole;
    let content = match export {
        None => {
            return kind.result(
                CheckStatus::CheckFailed,
                failure_detail(
                    FailureClass::AccessDenied,
                    "복구 콘솔 설정을 확인할 수 없습니다. 보안 정책을 내보낼 수 없습니다. 관리자 권한이 필요합니다.",
                ),
            );
        },
        Some(c) => c,
    };
    let logon = match auto_admin_logon {
        Err(e) => {
            let mut m = String::from_str("복구 콘솔 설정을 확인할 수 없습니다. ");
            m.append(e.message_text().as_str());
            return kind.result(CheckStatus::CheckFailed, failure_detail(e.class, m.as_str()));
        },
        Ok(v) => v,
    };
    let level = read_policy_setting(content, "RecoveryConsoleSecurityLevel");
    let level_on = match level {
        Some(v) => v == 1,
        None => false,
    };
    let logon_on = match logon {
        Some(v) => text_eq(v.as_str(), "1"),
        None => false,
    };
    let enabled = level_on || logon_on;
    let mut s = String::from_str(
        if enabled {
            "Windows 복구 콘솔 자동 관리자 로그인이 활성화되어 있습니다."
        } else {
            "Windows 복구 콘솔 자동 관리자 로그인이 비활성화되어 있습니다."
        },
    );
    s.append(observed_text(level, logon).as_str());
    let status = if enabled {
        CheckStatus::Vulnerable
    } else {
        CheckStatus::Good
    };
    kind.result(status, s)
}

} // verus!

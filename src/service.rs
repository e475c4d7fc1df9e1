//! Service-management checks (and the firewall check), which read rows of
//! the management-query interface or the output of a platform tool.

use vstd::prelude::*;
use crate::catalog::{CheckKind, is_entry_result};
use crate::model::{
    CheckResult, CheckStatus, FailureClass, failure_text, failure_detail, names_failure_class,
};
use crate::text::{
    chars_eq, chars_of, contains, count_chars, lemma_contains_part, count_matches, decimal, join, lemma_join_push, lines_of,
    matches_at, push_decimal, push_joined, slice_chars, split_lines, text_eq, trim, trim_chars,
    views, white_space, is_white_space,
};

verus! {

/// A row of the logical-disk table.
#[derive(Clone, Debug, PartialEq, Eq)]
pub struct LogicalDisk {
    pub device_id: String,
    /// 3 for a fixed local disk.
    pub drive_type: u32,
    pub file_system: Option<String>,
}

/// A row of the service table.
#[derive(Clone, Debug, PartialEq, Eq)]
pub struct ServiceRow {
    pub name: String,
    pub state: String,
    pub start_mode: String,
}

/// The detail of a check whose management query failed.
pub open spec fn query_failed_text(message: Seq<char>) -> Seq<char> {
    failure_text(FailureClass::Transport, "관리 쿼리를 수행할 수 없습니다: "@ + message)
}

fn query_failed_detail(message: &String) -> (r: String)
    ensures
        r@ == query_failed_text(message@),
{
    let mut m = String::from_str("관리 쿼리를 수행할 수 없습니다: ");
    m.append(message.as_str());
    failure_detail(FailureClass::Transport, m.as_str())
}

pub open spec fn is_fixed(d: LogicalDisk) -> bool {
    d.drive_type == 3
}

pub open spec fn is_ntfs(d: LogicalDisk) -> bool {
    d.file_system matches Some(f) && f@ == "NTFS"@
}

/// How a disk appears in a detail: its device and its file system.
pub open spec fn disk_entry(d: LogicalDisk) -> Seq<char> {
    d.device_id@ + " ("@ + (match d.file_system {
        Some(f) => f@,
        None => "Unknown"@,
    }) + ")"@
}

/// The fixed disks that do not use NTFS, in table order.
pub open spec fn non_ntfs_disks(ds: Seq<LogicalDisk>) -> Seq<Seq<char>>
    decreases ds.len(),
{
    if ds.len() == 0 {
        Seq::empty()
    } else {
        let prev = non_ntfs_disks(ds.drop_last());
        if is_fixed(ds.last()) && !is_ntfs(ds.last()) {
            prev.push(disk_entry(ds.last()))
        } else {
            prev
        }
    }
}

/// The fixed disks, each with its file system, in table order.
pub open spec fn fixed_disks(ds: Seq<LogicalDisk>) -> Seq<Seq<char>>
    decreases ds.len(),
{
    if ds.len() == 0 {
        Seq::empty()
    } else {
        let prev = fixed_disks(ds.drop_last());
        if is_fixed(ds.last()) {
            prev.push(disk_entry(ds.last()))
        } else {
            prev
        }
    }
}

/// The fixed disks that were read, or "없음" when there are none.
pub open spec fn fixed_listing(ds: Seq<LogicalDisk>) -> Seq<char> {
    if fixed_disks(ds).len() == 0 {
        "없음"@
    } else {
        join(fixed_disks(ds), ", "@)
    }
}

pub open spec fn ntfs_detail(ds: Seq<LogicalDisk>) -> Seq<char> {
    if non_ntfs_disks(ds).len() == 0 {
        "모든 고정 드라이브가 NTFS 파일 시스템을 사용하고 있습니다. (고정 드라이브: "@ + fixed_listing(ds)
            + ")"@
    } else {
        "NTFS 파일 시스템을 사용하지 않는 드라이브가 있습니다: "@ + join(non_ntfs_disks(ds), ", "@)
    }
}

fn push_disk_entry(s: &mut String, d: &LogicalDisk)
    ensures
        final(s)@ == old(s)@ + disk_entry(*d),
{
    let mut e = String::from_str(d.device_id.as_str());
    e.append(" (");
    match &d.file_system {
        Some(f) => e.append(f.as_str()),
        None => e.append("Unknown"),
    }
    e.append(")");
    s.append(e.as_str());
    assert(final(s)@ =~= old(s)@ + disk_entry(*d));
}

/// File systems of fixed disks: good when every fixed disk uses NTFS.
/// `disks` holds the logical-disk rows, or the query's failure.
pub fn check_ntfs_filesystem(disks: &Result<Vec<LogicalDisk>, String>) -> (r: CheckResult)
    ensures
        is_entry_result(r, CheckKind::NtfsFilesystem),
        *disks matches Err(m) ==> r.status == CheckStatus::CheckFailed && r.detail@
            == query_failed_text(m@),
        *disks matches Ok(ds) ==> r.status == (if non_ntfs_disks(ds@).len() == 0 {
            CheckStatus::Good
        } else {
            CheckStatus::Vulnerable
        }) && r.detail@ == ntfs_detail(ds@),
        r.status == CheckStatus::CheckFailed ==> names_failure_class(r.detail@),
        *disks matches Ok(ds) ==> (r.status == CheckStatus::Good ==> contains(
            r.detail@,
            fixed_listing(ds@),
        )),
{
    proof {
        if let Ok(ds) = disks {
            lemma_contains_part(
                "모든 고정 드라이브가 NTFS 파일 시스템을 사용하고 있습니다. (고정 드라이브: "@,
                fixed_listing(ds@),
                ")"@,
            );
        }
    }
    let kind = CheckKind::NtfsFilesystem;
    let ds = match disks {
        Err(m) => {
            return kind.result(CheckStatus::CheckFailed, query_failed_detail(m));
        },
        Ok(ds) => ds,
    };
    let mut listed = String::new();
    let mut bad: usize = 0;
    let mut fixed = String::new();
    let mut n_fixed: usize = 0;
    let mut i: usize = 0;
    while i < ds.len()
        invariant
            i <= ds.len(),
            bad == non_ntfs_disks(ds@.take(i as int)).len(),
            n_fixed == fixed_disks(ds@.take(i as int)).len(),
            fixed@ == join(fixed_disks(ds@.take(i as int)), ", "@),
            n_fixed <= i,
            bad <= i,
            listed@ == join(non_ntfs_disks(ds@.take(i as int)), ", "@),
        decreases ds.len() - i,
    {
        let d = &ds[i];
        let ghost before = non_ntfs_disks(ds@.take(i as int));
        let ghost fixed_before = fixed_disks(ds@.take(i as int));
        assert(ds@.take(i + 1).drop_last() =~= ds@.take(i as int));
        let ntfs = match &d.file_system {
            Some(f) => text_eq(f.as_str(), "NTFS"),
            None => false,
        };
        if d.drive_type == 3 {
            let mut e = String::new();
            push_disk_entry(&mut e, d);
            push_joined(&mut fixed, n_fixed, ", ", e.as_str());
            proof {
                lemma_join_push(fixed_before, ", "@, disk_entry(*d));
            }
            n_fixed += 1;
        }
        if d.drive_type == 3 && !ntfs {
            let mut e = String::new();
            push_disk_entry(&mut e, d);
            push_joined(&mut listed, bad, ", ", e.as_str());
            proof {
                lemma_join_push(before, ", "@, disk_entry(*d));
            }
            bad += 1;
        }
        i += 1;
    }
    assert(ds@.take(i as int) =~= ds@);
    if bad == 0 {
        let mut s = String::from_str("모든 고정 드라이브가 NTFS 파일 시스템을 사용하고 있습니다. (고정 드라이브: ");
        if n_fixed == 0 {
            s.append("없음");
        } else {
            s.append(fixed.as_str());
        }
        s.append(")");
        kind.result(CheckStatus::Good, s)
    } else {
        let mut s = String::from_str("NTFS 파일 시스템을 사용하지 않는 드라이브가 있습니다: ");
        s.append(listed.as_str());
        kind.result(CheckStatus::Vulnerable, s)
    }
}

/// The services that should neither run nor start automatically.
pub open spec fn blocklist() -> Seq<Seq<char>> {
    seq![
        "Alerter"@,
        "wuauserv"@,
        "ClipSrv"@,
        "Browser"@,
        "CryptSvc"@,
        "Dhcp"@,
        "TrkWks"@,
        "TrkSvr"@,
        "Dnscache"@,
        "ERSvc"@,
        "HidServ"@,
        "ImapiService"@,
        "Irmon"@,
        "Messenger"@,
        "mnmsrvc"@,
        "WmdmPmSp"@,
        "Spooler"@,
        "RemoteRegistry"@,
        "Simptcp"@,
        "SSDPSRV"@,
        "WebClient"@,
    ]
}

/// Whether a service name is on the blocklist.
pub fn is_blocklisted(name: &str) -> (r: bool)
    ensures
        r == blocklist().contains(name@),
{
    let names: Vec<&str> = vec![
        "Alerter",
        "wuauserv",
        "ClipSrv",
        "Browser",
        "CryptSvc",
        "Dhcp",
        "TrkWks",
        "TrkSvr",
        "Dnscache",
        "ERSvc",
        "HidServ",
        "ImapiService",
        "Irmon",
        "Messenger",
        "mnmsrvc",
        "WmdmPmSp",
        "Spooler",
        "RemoteRegistry",
        "Simptcp",
        "SSDPSRV",
        "WebClient",
    ];
    let ghost bl = blocklist();
    assert(names@.len() == bl.len());
    assert(forall|t: int| 0 <= t < bl.len() ==> #[trigger] bl[t] == names@[t]@);
    let mut i: usize = 0;
    while i < names.len()
        invariant
            i <= names.len() == bl.len(),
            bl == blocklist(),
            forall|t: int| 0 <= t < bl.len() ==> #[trigger] bl[t] == names@[t]@,
            forall|t: int| 0 <= t < i ==> bl[t] != name@,
        decreases names.len() - i,
    {
        if text_eq(name, names[i]) {
            assert(bl[i as int] == name@);
            return true;
        }
        i += 1;
    }
    assert(!bl.contains(name@));
    false
}

pub open spec fn is_running(s: ServiceRow) -> bool {
    s.state@ == "Running"@
}

pub open spec fn is_auto_start(s: ServiceRow) -> bool {
    s.start_mode@ == "Auto"@ || s.start_mode@ == "Automatic"@
}

/// Names of the blocklisted services that run, in table order.
pub open spec fn running_blocked(rows: Seq<ServiceRow>) -> Seq<Seq<char>>
    decreases rows.len(),
{
    if rows.len() == 0 {
        Seq::empty()
    } else {
        let prev = running_blocked(rows.drop_last());
        if blocklist().contains(rows.last().name@) && is_running(rows.last()) {
            prev.push(rows.last().name@)
        } else {
            prev
        }
    }
}

/// Names of the blocklisted services that start automatically, in table order.
pub open spec fn auto_blocked(rows: Seq<ServiceRow>) -> Seq<Seq<char>>
    decreases rows.len(),
{
    if rows.len() == 0 {
        Seq::empty()
    } else {
        let prev = auto_blocked(rows.drop_last());
        if blocklist().contains(rows.last().name@) && is_auto_start(rows.last()) {
            prev.push(rows.last().name@)
        } else {
            prev
        }
    }
}

/// How a blocklisted service appears in a detail: its name, state and
/// start mode.
pub open spec fn service_entry(row: ServiceRow) -> Seq<char> {
    row.name@ + " ("@ + row.state@ + ", "@ + row.start_mode@ + ")"@
}

/// The blocklisted services in the table, in table order.
pub open spec fn blocked_entries(rows: Seq<ServiceRow>) -> Seq<Seq<char>>
    decreases rows.len(),
{
    if rows.len() == 0 {
        Seq::empty()
    } else {
        let prev = blocked_entries(rows.drop_last());
        if blocklist().contains(rows.last().name@) {
            prev.push(service_entry(rows.last()))
        } else {
            prev
        }
    }
}

/// The rows of blocklisted services, in table order.
pub open spec fn blocked_rows(rows: Seq<ServiceRow>) -> Seq<ServiceRow>
    decreases rows.len(),
{
    if rows.len() == 0 {
        Seq::empty()
    } else {
        let prev = blocked_rows(rows.drop_last());
        if blocklist().contains(rows.last().name@) {
            prev.push(rows.last())
        } else {
            prev
        }
    }
}

/// The blocklisted services found, or "없음" when there are none.
pub open spec fn blocked_listing(rows: Seq<ServiceRow>) -> Seq<char> {
    if blocked_entries(rows).len() == 0 {
        "없음"@
    } else {
        join(blocked_entries(rows), ", "@)
    }
}

pub open spec fn services_detail(rows: Seq<ServiceRow>) -> Seq<char> {
    let running = running_blocked(rows);
    let auto = auto_blocked(rows);
    if running.len() == 0 && auto.len() == 0 {
        "보안에 불필요한 서비스가 실행 중이거나 자동 시작으로 설정되어 있지 않습니다. (점검 대상 서비스: "@
            + blocked_listing(rows) + ")"@
    } else {
        "보안에 불필요한 서비스가 실행 중이거나 자동 시작으로 설정되어 있습니다.\n"@ + (if running.len() > 0 {
            "실행 중인 서비스: "@ + join(running, ", "@) + "\n"@
        } else {
            Seq::empty()
        }) + (if auto.len() > 0 {
            "자동 시작 설정된 서비스: "@ + join(auto, ", "@)
        } else {
            Seq::empty()
        })
    }
}

proof fn lemma_blocked_rows_suffice(rows: Seq<ServiceRow>)
    ensures
        running_blocked(rows) == running_blocked(blocked_rows(rows)),
        auto_blocked(rows) == auto_blocked(blocked_rows(rows)),
        blocked_entries(rows) == blocked_entries(blocked_rows(rows)),
    decreases rows.len(),
{
    if rows.len() > 0 {
        lemma_blocked_rows_suffice(rows.drop_last());
        let prev = blocked_rows(rows.drop_last());
        if blocklist().contains(rows.last().name@) {
            assert(prev.push(rows.last()).drop_last() =~= prev);
        }
    }
}

/// Services that are not on the blocklist do not matter: two tables with
/// the same blocklisted rows, in the same order, give the same verdict and
/// the same detail.
pub proof fn lemma_services_ignore_unlisted(rows1: Seq<ServiceRow>, rows2: Seq<ServiceRow>)
    requires
        blocked_rows(rows1) == blocked_rows(rows2),
    ensures
        running_blocked(rows1) == running_blocked(rows2),
        auto_blocked(rows1) == auto_blocked(rows2),
        services_detail(rows1) == services_detail(rows2),
{
    lemma_blocked_rows_suffice(rows1);
    lemma_blocked_rows_suffice(rows2);
}

fn push_service_entry(s: &mut String, row: &ServiceRow)
    ensures
        final(s)@ == old(s)@ + service_entry(*row),
{
    let mut e = String::from_str(row.name.as_str());
    e.append(" (");
    e.append(row.state.as_str());
    e.append(", ");
    e.append(row.start_mode.as_str());
    e.append(")");
    s.append(e.as_str());
    assert(final(s)@ =~= old(s)@ + service_entry(*row));
}

/// Unneeded services: good when no blocklisted service runs or starts
/// automatically. `services` holds the service rows, or the query's failure.
pub fn check_unnecessary_services(services: &Result<Vec<ServiceRow>, String>) -> (r: CheckResult)
    ensures
        is_entry_result(r, CheckKind::UnnecessaryServices),
        *services matches Err(m) ==> r.status == CheckStatus::CheckFailed && r.detail@
            == query_failed_text(m@),
        *services matches Ok(rows) ==> r.status == (if running_blocked(rows@).len() == 0
            && auto_blocked(rows@).len() == 0 {
            CheckStatus::Good
        } else {
            CheckStatus::Vulnerable
        }) && r.detail@ == services_detail(rows@),
        r.status == CheckStatus::CheckFailed ==> names_failure_class(r.detail@),
        *services matches Ok(rows) ==> (r.status == CheckStatus::Good ==> contains(
            r.detail@,
            blocked_listing(rows@),
        )),
{
    proof {
        if let Ok(rows) = services {
            lemma_contains_part(
                "보안에 불필요한 서비스가 실행 중이거나 자동 시작으로 설정되어 있지 않습니다. (점검 대상 서비스: "@,
                blocked_listing(rows@),
                ")"@,
            );
        }
    }
    let kind = CheckKind::UnnecessaryServices;
    let rows = match services {
        Err(m) => {
            return kind.result(CheckStatus::CheckFailed, query_failed_detail(m));
        },
        Ok(rows) => rows,
    };
    let mut running = String::new();
    let mut n_running: usize = 0;
    let mut auto = String::new();
    let mut n_auto: usize = 0;
    let mut found = String::new();
    let mut n_found: usize = 0;
    let mut i: usize = 0;
    while i < rows.len()
        invariant
            i <= rows.len(),
            n_running <= i,
            n_auto <= i,
            n_found <= i,
            n_found == blocked_entries(rows@.take(i as int)).len(),
            found@ == join(blocked_entries(rows@.take(i as int)), ", "@),
            n_running == running_blocked(rows@.take(i as int)).len(),
            n_auto == auto_blocked(rows@.take(i as int)).len(),
            running@ == join(running_blocked(rows@.take(i as int)), ", "@),
            auto@ == join(auto_blocked(rows@.take(i as int)), ", "@),
        decreases rows.len() - i,
    {
        let row = &rows[i];
        let ghost run_before = running_blocked(rows@.take(i as int));
        let ghost auto_before = auto_blocked(rows@.take(i as int));
        let ghost found_before = blocked_entries(rows@.take(i as int));
        assert(rows@.take(i + 1).drop_last() =~= rows@.take(i as int));
        if is_blocklisted(row.name.as_str()) {
            let mut e = String::new();
            push_service_entry(&mut e, row);
            push_joined(&mut found, n_found, ", ", e.as_str());
            proof {
                lemma_join_push(found_before, ", "@, service_entry(*row));
            }
            n_found += 1;
            if text_eq(row.state.as_str(), "Running") {
                push_joined(&mut running, n_running, ", ", row.name.as_str());
                proof {
                    lemma_join_push(run_before, ", "@, row.name@);
                }
                n_running += 1;
            }
            if text_eq(row.start_mode.as_str(), "Auto") || text_eq(
                row.start_mode.as_str(),
                "Automatic",
            ) {
                push_joined(&mut auto, n_auto, ", ", row.name.as_str());
                proof {
                    lemma_join_push(auto_before, ", "@, row.name@);
                }
                n_auto += 1;
            }
        }
        i += 1;
    }
    assert(rows@.take(i as int) =~= rows@);
    if n_running == 0 && n_auto == 0 {
        let mut s = String::from_str(
            "보안에 불필요한 서비스가 실행 중이거나 자동 시작으로 설정되어 있지 않습니다. (점검 대상 서비스: ",
        );
        if n_found == 0 {
            s.append("없음");
        } else {
            s.append(found.as_str());
        }
        s.append(")");
        kind.result(CheckStatus::Good, s)
    } else {
        let mut s = String::from_str("보안에 불필요한 서비스가 실행 중이거나 자동 시작으로 설정되어 있습니다.\n");
        if n_running > 0 {
            s.append("실행 중인 서비스: ");
            s.append(running.as_str());
            s.append("\n");
        }
        if n_auto > 0 {
            s.append("자동 시작 설정된 서비스: ");
            s.append(auto.as_str());
        }
        assert(s@ =~= services_detail(rows@));
        kind.result(CheckStatus::Vulnerable, s)
    }
}

pub open spec fn multiboot_detail(n: nat) -> Seq<char> {
    if n <= 1 {
        "멀티 부팅 설정이 되어 있지 않습니다. (부팅 로더 항목 수: "@ + decimal(n) + ")"@
    } else {
        "멀티 부팅 설정이 되어 있습니다. 운영체제 항목 수: "@ + decimal(n)
    }
}

pub open spec fn boot_tool_failed_text() -> Seq<char> {
    failure_text(
        FailureClass::ToolFailure,
        "BCDEdit 명령 실행에 실패했습니다. 관리자 권한이 필요할 수 있습니다."@,
    )
}

/// Multi-boot: good when the boot configuration lists at most one boot
/// loader. `output` is the enumeration tool's output, or `None` when it
/// exited non-zero or could not be launched.
pub fn check_multiboot_config(output: Option<&str>) -> (r: CheckResult)
    ensures
        is_entry_result(r, CheckKind::Multiboot),
        output is None ==> r.status == CheckStatus::CheckFailed && r.detail@
            == boot_tool_failed_text(),
        output matches Some(o) ==> {
            let n = count_matches(o@, "Windows Boot Loader"@);
            &&& r.status == (if n <= 1 {
                CheckStatus::Good
            } else {
                CheckStatus::Vulnerable
            })
            &&& r.detail@ == multiboot_detail(n)
        },
        r.status == CheckStatus::CheckFailed ==> names_failure_class(r.detail@),
        output matches Some(o) ==> (r.status == CheckStatus::Good ==> contains(
            r.detail@,
            decimal(count_matches(o@, "Windows Boot Loader"@)),
        )),
{
    proof {
        if let Some(o) = output {
            lemma_contains_part(
                "멀티 부팅 설정이 되어 있지 않습니다. (부팅 로더 항목 수: "@,
                decimal(count_matches(o@, "Windows Boot Loader"@)),
                ")"@,
            );
        }
    }
    let kind = CheckKind::Multiboot;
    let o = match output {
        None => {
            return kind.result(
                CheckStatus::CheckFailed,
                failure_detail(
                    FailureClass::ToolFailure,
                    "BCDEdit 명령 실행에 실패했습니다. 관리자 권한이 필요할 수 있습니다.",
                ),
            );
        },
        Some(o) => o,
    };
    let text = chars_of(o);
    let key = chars_of("Windows Boot Loader");
    proof {
        reveal_strlit("Windows Boot Loader");
    }
    let n = count_chars(&text, &key);
    if n <= 1 {
        let mut s = String::from_str("멀티 부팅 설정이 되어 있지 않습니다. (부팅 로더 항목 수: ");
        push_decimal(&mut s, n as u64);
        s.append(")");
        kind.result(CheckStatus::Good, s)
    } else {
        let mut s = String::from_str("멀티 부팅 설정이 되어 있습니다. 운영체제 항목 수: ");
        push_decimal(&mut s, n as u64);
        kind.result(CheckStatus::Vulnerable, s)
    }
}

/// The value after keyword `k` at the start of a trimmed line `t`, when
/// white space follows the keyword.
pub open spec fn keyword_value(t: Seq<char>, k: Seq<char>) -> Option<Seq<char>> {
    if t.len() > k.len() && t.take(k.len() as int) == k && white_space(t[k.len() as int]) {
        Some(trim(t.skip(k.len() as int)))
    } else {
        None
    }
}

/// A profile state that counts as enabled, in English or Korean output.
pub open spec fn is_on(v: Seq<char>) -> bool {
    v == "ON"@ || v == "사용"@
}

/// Whether a line of the firewall tool's output reports a profile state,
/// and if so whether that state is enabled.
pub open spec fn line_state(line: Seq<char>) -> Option<bool> {
    let t = trim(line);
    match keyword_value(t, "State"@) {
        Some(v) => Some(is_on(v)),
        None => match keyword_value(t, "상태"@) {
            Some(v) => Some(is_on(v)),
            None => None,
        },
    }
}

/// The profile that a trimmed section header opens: 0 for Domain, 1 for
/// Private, 2 for Public, in English or Korean output.
pub open spec fn header_profile(t: Seq<char>) -> Option<int> {
    if t == "Domain Profile Settings:"@ || t == "도메인 프로필 설정:"@ {
        Some(0)
    } else if t == "Private Profile Settings:"@ || t == "개인 프로필 설정:"@ {
        Some(1)
    } else if t == "Public Profile Settings:"@ || t == "공용 프로필 설정:"@ {
        Some(2)
    } else {
        None
    }
}

/// After reading `lines`: the section being read (3 before any header),
/// and for each profile the state that its section last reported.
pub open spec fn scan_profiles(lines: Seq<Seq<char>>) -> (int, Seq<Option<bool>>)
    decreases lines.len(),
{
    if lines.len() == 0 {
        (3, seq![None, None, None])
    } else {
        let prev = scan_profiles(lines.drop_last());
        match header_profile(trim(lines.last())) {
            Some(p) => (p, prev.1),
            None => match line_state(lines.last()) {
                Some(b) => if prev.0 < 3 {
                    (prev.0, prev.1.update(prev.0, Some(b)))
                } else {
                    prev
                },
                None => prev,
            },
        }
    }
}

/// Whether the firewall tool's output holds any profile section.
pub open spec fn has_profile_section(output: Seq<char>) -> bool {
    scan_profiles(lines_of(output)).0 < 3
}

/// The state of the Domain, Private and Public profiles in the output of
/// the firewall tool; `None` for a profile whose section reports none.
pub open spec fn firewall_states(output: Seq<char>) -> Seq<Option<bool>> {
    scan_profiles(lines_of(output)).1
}

pub open spec fn profile_word(state: Option<bool>) -> Seq<char> {
    match state {
        Some(true) => "활성화"@,
        Some(false) => "비활성화"@,
        None => "확인 불가"@,
    }
}

pub open spec fn all_on(st: Seq<Option<bool>>) -> bool {
    st.len() == 3 && st[0] == Some(true) && st[1] == Some(true) && st[2] == Some(true)
}

/// The state of each profile, one per line.
pub open spec fn profile_listing(st: Seq<Option<bool>>) -> Seq<char> {
    "\n- Domain 프로필: "@ + profile_word(st[0]) + "\n- Private 프로필: "@ + profile_word(st[1])
        + "\n- Public 프로필: "@ + profile_word(st[2])
}

pub open spec fn firewall_detail(st: Seq<Option<bool>>) -> Seq<char> {
    (if all_on(st) {
        "모든 Windows 방화벽 프로필이 활성화되어 있습니다."@
    } else {
        "일부 Windows 방화벽 프로필이 비활성화되어 있습니다."@
    }) + profile_listing(st)
}

/// At most the first 200 characters of `s`.
pub open spec fn fragment(s: Seq<char>) -> Seq<char> {
    if s.len() <= 200 {
        s
    } else {
        s.take(200)
    }
}

pub open spec fn firewall_parse_failed_text(output: Seq<char>) -> Seq<char> {
    failure_text(FailureClass::Parse, "방화벽 상태 출력을 해석할 수 없습니다: "@ + fragment(output))
}

pub open spec fn firewall_tool_failed_text() -> Seq<char> {
    failure_text(FailureClass::ToolFailure, "방화벽 상태를 확인할 수 없습니다."@)
}

fn keyword_value_of(t: &Vec<char>, k: &Vec<char>) -> (r: Option<Vec<char>>)
    ensures
        r matches Some(v) ==> keyword_value(t@, k@) == Some(v@),
        r is None ==> keyword_value(t@, k@) is None,
{
    if t.len() > k.len() && matches_at(t, k, 0) && is_white_space(t[k.len()]) {
        assert(t@.subrange(0, k.len() as int) =~= t@.take(k.len() as int));
        let rest = slice_chars(t, k.len(), t.len());
        assert(rest@ =~= t@.skip(k.len() as int));
        Some(trim_chars(&rest))
    } else {
        proof {
            if t@.len() > k@.len() && t@.take(k.len() as int) == k@ {
                assert(t@.subrange(0, k.len() as int) =~= t@.take(k.len() as int));
            }
        }
        None
    }
}

fn is_on_value(v: &Vec<char>, on_en: &Vec<char>, on_ko: &Vec<char>) -> (r: bool)
    requires
        on_en@ == "ON"@,
        on_ko@ == "사용"@,
    ensures
        r == is_on(v@),
{
    chars_eq(v, on_en) || chars_eq(v, on_ko)
}

fn word(state: Option<bool>) -> (r: &'static str)
    ensures
        r@ == profile_word(state),
{
    match state {
        Some(true) => "활성화",
        Some(false) => "비활성화",
        None => "확인 불가",
    }
}

/// The profile that a trimmed line opens, if it is a section header.
fn header_of(t: &Vec<char>, h: &Vec<Vec<char>>) -> (r: Option<usize>)
    requires
        h.len() == 6,
        h[0]@ == "Domain Profile Settings:"@,
        h[1]@ == "도메인 프로필 설정:"@,
        h[2]@ == "Private Profile Settings:"@,
        h[3]@ == "개인 프로필 설정:"@,
        h[4]@ == "Public Profile Settings:"@,
        h[5]@ == "공용 프로필 설정:"@,
    ensures
        r matches Some(p) ==> header_profile(t@) == Some(p as int),
        r is None ==> header_profile(t@) is None,
{
    if chars_eq(t, &h[0]) || chars_eq(t, &h[1]) {
        Some(0)
    } else if chars_eq(t, &h[2]) || chars_eq(t, &h[3]) {
        Some(1)
    } else if chars_eq(t, &h[4]) || chars_eq(t, &h[5]) {
        Some(2)
    } else {
        None
    }
}

fn listing(states: &Vec<Option<bool>>) -> (r: String)
    requires
        states.len() == 3,
    ensures
        r@ == profile_listing(states@),
{
    let mut s = String::from_str("\n- Domain 프로필: ");
    s.append(word(states[0]));
    s.append("\n- Private 프로필: ");
    s.append(word(states[1]));
    s.append("\n- Public 프로필: ");
    s.append(word(states[2]));
    assert(s@ =~= profile_listing(states@));
    s
}

/// Host firewall: good when the Domain, Private and Public profiles are all
/// enabled. `output` is the firewall tool's output, or `None` when it exited
/// non-zero or could not be launched. English ("State ON") and Korean
/// ("상태 사용") output are both read.
pub fn check_firewall_status(output: Option<&str>) -> (r: CheckResult)
    ensures
        is_entry_result(r, CheckKind::Firewall),
        output is None ==> r.status == CheckStatus::CheckFailed && r.detail@
            == firewall_tool_failed_text(),
        output matches Some(o) ==> {
            let st = firewall_states(o@);
            &&& !has_profile_section(o@) ==> r.status == CheckStatus::CheckFailed && r.detail@
                == firewall_parse_failed_text(o@)
            &&& has_profile_section(o@) ==> r.status == (if all_on(st) {
                CheckStatus::Good
            } else {
                CheckStatus::Vulnerable
            }) && r.detail@ == firewall_detail(st)
        },
        r.status == CheckStatus::CheckFailed ==> names_failure_class(r.detail@),
        output matches Some(o) ==> (r.status == CheckStatus::Good ==> contains(
            r.detail@,
            profile_listing(firewall_states(o@)),
        )),
{
    proof {
        if let Some(o) = output {
            lemma_contains_part(
                "모든 Windows 방화벽 프로필이 활성화되어 있습니다."@,
                profile_listing(firewall_states(o@)),
                Seq::empty(),
            );
        }
    }
    let kind = CheckKind::Firewall;
    let o = match output {
        None => {
            return kind.result(
                CheckStatus::CheckFailed,
                failure_detail(FailureClass::ToolFailure, "방화벽 상태를 확인할 수 없습니다."),
            );
        },
        Some(o) => o,
    };
    let lines = split_lines(&chars_of(o));
    let ghost ls = views(lines@);
    let state_en = chars_of("State");
    let state_ko = chars_of("상태");
    let on_en = chars_of("ON");
    let on_ko = chars_of("사용");
    let headers = vec![
        chars_of("Domain Profile Settings:"),
        chars_of("도메인 프로필 설정:"),
        chars_of("Private Profile Settings:"),
        chars_of("개인 프로필 설정:"),
        chars_of("Public Profile Settings:"),
        chars_of("공용 프로필 설정:"),
    ];
    let mut states: Vec<Option<bool>> = vec![None, None, None];
    let mut cur: usize = 3;
    let mut i: usize = 0;
    assert(states@ =~= scan_profiles(ls.take(0)).1);
    while i < lines.len()
        invariant
            i <= lines.len(),
            ls == views(lines@),
            ls == lines_of(o@),
            state_en@ == "State"@,
            state_ko@ == "상태"@,
            on_en@ == "ON"@,
            on_ko@ == "사용"@,
            headers.len() == 6,
            headers[0]@ == "Domain Profile Settings:"@,
            headers[1]@ == "도메인 프로필 설정:"@,
            headers[2]@ == "Private Profile Settings:"@,
            headers[3]@ == "개인 프로필 설정:"@,
            headers[4]@ == "Public Profile Settings:"@,
            headers[5]@ == "공용 프로필 설정:"@,
            cur <= 3,
            states.len() == 3,
            cur as int == scan_profiles(ls.take(i as int)).0,
            states@ == scan_profiles(ls.take(i as int)).1,
        decreases lines.len() - i,
    {
        assert(ls.take(i + 1).drop_last() =~= ls.take(i as int));
        assert(ls[i as int] == lines[i as int]@);
        let t = trim_chars(&lines[i]);
        match header_of(&t, &headers) {
            Some(p) => {
                cur = p;
            },
            None => {
                let state = match keyword_value_of(&t, &state_en) {
                    Some(v) => Some(is_on_value(&v, &on_en, &on_ko)),
                    None => match keyword_value_of(&t, &state_ko) {
                        Some(v) => Some(is_on_value(&v, &on_en, &on_ko)),
                        None => None,
                    },
                };
                if let Some(b) = state {
                    if cur < 3 {
                        states.set(cur, Some(b));
                    }
                }
            },
        }
        i += 1;
    }
    assert(ls.take(i as int) =~= ls);
    if cur == 3 {
        let n = o.unicode_len();
        let m = if n <= 200 {
            n
        } else {
            200
        };
        let piece = o.substring_char(0, m);
        assert(piece@ =~= fragment(o@));
        let mut msg = String::from_str("방화벽 상태 출력을 해석할 수 없습니다: ");
        msg.append(piece);
        return kind.result(CheckStatus::CheckFailed, failure_detail(FailureClass::Parse, msg.as_str()));
    }
    let good = states[0] == Some(true) && states[1] == Some(true) && states[2] == Some(true);
    let mut s = String::from_str(
        if good {
            "모든 Windows 방화벽 프로필이 활성화되어 있습니다."
        } else {
            "일부 Windows 방화벽 프로필이 비활성화되어 있습니다."
        },
    );
    s.append(listing(&states).as_str());
    let status = if good {
        CheckStatus::Good
    } else {
        CheckStatus::Vulnerable
    };
    kind.result(status, s)
}

} // verus!

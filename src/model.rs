//! Value types of the audit report: verdicts, importance grades, one
//! result per check, and the report that gathers them.

use vstd::prelude::*;
use crate::text::{decimal, push_decimal, text_eq};

verus! {

/// Verdict of one check.
#[derive(Clone, Copy, Debug, PartialEq, Eq, Structural)]
pub enum CheckStatus {
    /// The policy rule is satisfied by the observed state.
    Good,
    /// The rule is not satisfied.
    Vulnerable,
    /// Not enough state could be observed to decide.
    CheckFailed,
    /// The rule needs human judgement.
    ManualCheck,
}

/// How much a check weighs in the audit.
#[derive(Clone, Copy, Debug, PartialEq, Eq, Structural)]
pub enum Importance {
    High,
    Medium,
    Low,
}

/// Why a check could not decide.
#[derive(Clone, Copy, Debug, PartialEq, Eq, Structural)]
pub enum FailureClass {
    /// A queried key, value or row is absent.
    NotObserved,
    /// A privilege is missing.
    AccessDenied,
    /// An external tool exited non-zero or could not be launched.
    ToolFailure,
    /// Observed data had an unexpected format.
    Parse,
    /// The management-query connection failed.
    Transport,
}

pub open spec fn status_label(s: CheckStatus) -> Seq<char> {
    match s {
        CheckStatus::Good => "양호"@,
        CheckStatus::Vulnerable => "취약"@,
        CheckStatus::CheckFailed => "점검 실패"@,
        CheckStatus::ManualCheck => "수동 점검"@,
    }
}

pub open spec fn status_of_label(t: Seq<char>) -> Option<CheckStatus> {
    if t == "양호"@ {
        Some(CheckStatus::Good)
    } else if t == "취약"@ {
        Some(CheckStatus::Vulnerable)
    } else if t == "점검 실패"@ {
        Some(CheckStatus::CheckFailed)
    } else if t == "수동 점검"@ {
        Some(CheckStatus::ManualCheck)
    } else {
        None
    }
}

pub open spec fn importance_label(i: Importance) -> Seq<char> {
    match i {
        Importance::High => "상"@,
        Importance::Medium => "중"@,
        Importance::Low => "하"@,
    }
}

pub open spec fn importance_of_label(t: Seq<char>) -> Option<Importance> {
    if t == "상"@ {
        Some(Importance::High)
    } else if t == "중"@ {
        Some(Importance::Medium)
    } else if t == "하"@ {
        Some(Importance::Low)
    } else {
        None
    }
}

pub open spec fn failure_label(c: FailureClass) -> Seq<char> {
    match c {
        FailureClass::NotObserved => "값 없음"@,
        FailureClass::AccessDenied => "권한 부족"@,
        FailureClass::ToolFailure => "도구 실행 실패"@,
        FailureClass::Parse => "형식 오류"@,
        FailureClass::Transport => "연결 실패"@,
    }
}

/// Detail of a failed check: the failure class in brackets, then the message.
pub open spec fn failure_text(c: FailureClass, message: Seq<char>) -> Seq<char> {
    "["@ + failure_label(c) + "] "@ + message
}

/// The detail opens by naming a failure class.
pub open spec fn names_failure_class(detail: Seq<char>) -> bool {
    exists|c: FailureClass, m: Seq<char>| detail == #[trigger] failure_text(c, m)
}

impl CheckStatus {
    /// The wire label of the verdict.
    pub fn label(&self) -> (r: &'static str)
        ensures
            r@ == status_label(*self),
    {
        match self {
            CheckStatus::Good => "양호",
            CheckStatus::Vulnerable => "취약",
            CheckStatus::CheckFailed => "점검 실패",
            CheckStatus::ManualCheck => "수동 점검",
        }
    }

    /// The verdict that a wire label stands for.
    pub fn from_label(t: &str) -> (r: Option<CheckStatus>)
        ensures
            r == status_of_label(t@),
    {
        if text_eq(t, "양호") {
            Some(CheckStatus::Good)
        } else if text_eq(t, "취약") {
            Some(CheckStatus::Vulnerable)
        } else if text_eq(t, "점검 실패") {
            Some(CheckStatus::CheckFailed)
        } else if text_eq(t, "수동 점검") {
            Some(CheckStatus::ManualCheck)
        } else {
            None
        }
    }
}

impl Importance {
    /// The wire label of the grade.
    pub fn label(&self) -> (r: &'static str)
        ensures
            r@ == importance_label(*self),
    {
        match self {
            Importance::High => "상",
            Importance::Medium => "중",
            Importance::Low => "하",
        }
    }

    /// The grade that a wire label stands for.
    pub fn from_label(t: &str) -> (r: Option<Importance>)
        ensures
            r == importance_of_label(t@),
    {
        if text_eq(t, "상") {
            Some(Importance::High)
        } else if text_eq(t, "중") {
            Some(Importance::Medium)
        } else if text_eq(t, "하") {
            Some(Importance::Low)
        } else {
            None
        }
    }
}

impl FailureClass {
    /// The name of the failure class as it appears in a detail.
    pub fn label(&self) -> (r: &'static str)
        ensures
            r@ == failure_label(*self),
    {
        match self {
            FailureClass::NotObserved => "값 없음",
            FailureClass::AccessDenied => "권한 부족",
            FailureClass::ToolFailure => "도구 실행 실패",
            FailureClass::Parse => "형식 오류",
            FailureClass::Transport => "연결 실패",
        }
    }
}

/// Reading a verdict's wire label back gives the verdict.
pub proof fn lemma_status_label_round_trip(s: CheckStatus)
    ensures
        status_of_label(status_label(s)) == Some(s),
{
    reveal_strlit("양호");
    reveal_strlit("취약");
    reveal_strlit("점검 실패");
    reveal_strlit("수동 점검");
    assert("취약"@[0] != "양호"@[0]);
    assert("점검 실패"@[0] != "양호"@[0] && "점검 실패"@[0] != "취약"@[0]);
    assert("수동 점검"@[0] != "양호"@[0] && "수동 점검"@[0] != "취약"@[0] && "수동 점검"@[0]
        != "점검 실패"@[0]);
}

/// Reading a grade's wire label back gives the grade.
pub proof fn lemma_importance_label_round_trip(i: Importance)
    ensures
        importance_of_label(importance_label(i)) == Some(i),
{
    reveal_strlit("상");
    reveal_strlit("중");
    reveal_strlit("하");
    assert("중"@[0] != "상"@[0]);
    assert("하"@[0] != "상"@[0] && "하"@[0] != "중"@[0]);
}

/// One record per executed check.
#[derive(Clone, Debug, PartialEq, Eq)]
pub struct CheckResult {
    /// Area of the check: account, service, security or patch management.
    pub category: String,
    /// Stable identifier of the catalog entry, such as "PC-01".
    pub code: String,
    /// What is being checked.
    pub item: String,
    pub importance: Importance,
    pub status: CheckStatus,
    /// Justification, with the values that were observed.
    pub detail: String,
}

impl CheckResult {
    /// A copy of the result.
    pub fn duplicate(&self) -> (r: CheckResult)
        ensures
            r == *self,
    {
        CheckResult {
            category: self.category.clone(),
            code: self.code.clone(),
            item: self.item.clone(),
            importance: self.importance,
            status: self.status,
            detail: self.detail.clone(),
        }
    }
}

/// The result that a wire form describes: its text fields, and the labels
/// of its grade and verdict, which must be known labels.
pub open spec fn result_from_labels(
    category: String,
    code: String,
    item: String,
    importance: Seq<char>,
    status: Seq<char>,
    detail: String,
) -> Option<CheckResult> {
    match (importance_of_label(importance), status_of_label(status)) {
        (Some(i), Some(st)) => Some(
            CheckResult { category, code, item, importance: i, status: st, detail },
        ),
        _ => None,
    }
}

impl CheckResult {
    /// Reads a result back from its wire form.
    pub fn from_labels(
        category: String,
        code: String,
        item: String,
        importance: &str,
        status: &str,
        detail: String,
    ) -> (r: Option<CheckResult>)
        ensures
            r == result_from_labels(category, code, item, importance@, status@, detail),
    {
        match (Importance::from_label(importance), CheckStatus::from_label(status)) {
            (Some(i), Some(st)) => Some(
                CheckResult { category, code, item, importance: i, status: st, detail },
            ),
            _ => None,
        }
    }
}

/// Reading back the wire form of a result (its text fields, with the labels
/// of its grade and verdict) gives the result.
pub proof fn lemma_result_wire_round_trip(r: CheckResult)
    ensures
        result_from_labels(
            r.category,
            r.code,
            r.item,
            importance_label(r.importance),
            status_label(r.status),
            r.detail,
        ) == Some(r),
{
    lemma_status_label_round_trip(r.status);
    lemma_importance_label_round_trip(r.importance);
}

/// Reading back the wire form of each result of a report gives that result,
/// so a report read back from its wire form holds the same results in the
/// same order.
pub proof fn lemma_report_wire_round_trip(r: SecurityReport)
    ensures
        forall|i: int|
            0 <= i < r.results@.len() ==> result_from_labels(
                (#[trigger] r.results@[i]).category,
                r.results@[i].code,
                r.results@[i].item,
                importance_label(r.results@[i].importance),
                status_label(r.results@[i].status),
                r.results@[i].detail,
            ) == Some(r.results@[i]),
{
    assert forall|i: int| 0 <= i < r.results@.len() implies result_from_labels(
        (#[trigger] r.results@[i]).category,
        r.results@[i].code,
        r.results@[i].item,
        importance_label(r.results@[i].importance),
        status_label(r.results@[i].status),
        r.results@[i].detail,
    ) == Some(r.results@[i]) by {
        lemma_result_wire_round_trip(r.results@[i]);
    }
}

/// A local date and time, to the second.
#[derive(Clone, Copy, Debug, PartialEq, Eq, Structural)]
pub struct LocalDateTime {
    pub year: i32,
    pub month: u32,
    pub day: u32,
    pub hour: u32,
    pub minute: u32,
    pub second: u32,
}

impl LocalDateTime {
    /// Every field lies in its calendar range.
    pub open spec fn wf(&self) -> bool {
        &&& 1 <= self.month <= 12
        &&& 1 <= self.day <= 31
        &&& self.hour <= 23
        &&& self.minute <= 59
        &&& self.second <= 59
    }
}

/// Two digits, with a leading zero below 10.
pub open spec fn two_digits(n: nat) -> Seq<char> {
    if n < 10 {
        seq!['0'] + decimal(n)
    } else {
        decimal(n)
    }
}

/// Four digits, with leading zeros below 1000.
pub open spec fn four_digits(n: nat) -> Seq<char> {
    if n < 10 {
        seq!['0', '0', '0'] + decimal(n)
    } else if n < 100 {
        seq!['0', '0'] + decimal(n)
    } else if n < 1000 {
        seq!['0'] + decimal(n)
    } else {
        decimal(n)
    }
}

/// A year in four digits, signed when it lies outside 0 to 9999.
pub open spec fn year_text(y: int) -> Seq<char> {
    if 0 <= y <= 9999 {
        four_digits(y as nat)
    } else if y > 9999 {
        seq!['+'] + decimal(y as nat)
    } else {
        seq!['-'] + four_digits((-y) as nat)
    }
}

/// "YYYY-MM-DD HH:MM:SS".
pub open spec fn timestamp(t: LocalDateTime) -> Seq<char> {
    year_text(t.year as int) + seq!['-'] + two_digits(t.month as nat) + seq!['-'] + two_digits(
        t.day as nat,
    ) + seq![' '] + two_digits(t.hour as nat) + seq![':'] + two_digits(t.minute as nat) + seq![':']
        + two_digits(t.second as nat)
}

fn push_two_digits(s: &mut String, n: u32)
    ensures
        final(s)@ == old(s)@ + two_digits(n as nat),
{
    proof {
        reveal_strlit("0");
    }
    if n < 10 {
        s.append("0");
    }
    push_decimal(s, n as u64);
    assert(final(s)@ =~= old(s)@ + two_digits(n as nat));
}

fn push_four_digits(s: &mut String, n: u64)
    ensures
        final(s)@ == old(s)@ + four_digits(n as nat),
{
    proof {
        reveal_strlit("0");
    }
    if n < 1000 {
        s.append("0");
    }
    if n < 100 {
        s.append("0");
    }
    if n < 10 {
        s.append("0");
    }
    push_decimal(s, n as u64);
    assert(final(s)@ =~= old(s)@ + four_digits(n as nat));
}

impl LocalDateTime {
    /// The date and time as "YYYY-MM-DD HH:MM:SS".
    pub fn format(&self) -> (r: String)
        ensures
            r@ == timestamp(*self),
    {
        proof {
            reveal_strlit("+");
            reveal_strlit("-");
            reveal_strlit(" ");
            reveal_strlit(":");
        }
        let mut s = String::new();
        let y = self.year as i64;
        if 0 <= y && y <= 9999 {
            push_four_digits(&mut s, y as u64);
        } else if y > 9999 {
            s.append("+");
            push_decimal(&mut s, y as u64);
        } else {
            s.append("-");
            push_four_digits(&mut s, (-y) as u64);
        }
        assert(s@ =~= year_text(self.year as int));
        s.append("-");
        push_two_digits(&mut s, self.month);
        s.append("-");
        push_two_digits(&mut s, self.day);
        s.append(" ");
        push_two_digits(&mut s, self.hour);
        s.append(":");
        push_two_digits(&mut s, self.minute);
        s.append(":");
        push_two_digits(&mut s, self.second);
        assert(s@ =~= timestamp(*self));
        s
    }
}

/// The schema version that a report carries.
pub open spec fn report_version() -> Seq<char> {
    "1.0.0"@
}

/// The outcome of one audit, with the host it ran on.
#[derive(Clone, Debug, PartialEq, Eq)]
pub struct SecurityReport {
    pub computer_name: String,
    /// Local time at which the report was assembled, "YYYY-MM-DD HH:MM:SS".
    pub date_time: String,
    pub os: String,
    pub version: String,
    /// Results in the order in which the checks ran.
    pub results: Vec<CheckResult>,
}

impl SecurityReport {
    /// A report from its parts, stamped with the schema version.
    pub fn assemble(
        computer_name: String,
        at: &LocalDateTime,
        os: String,
        results: Vec<CheckResult>,
    ) -> (r: SecurityReport)
        ensures
            r.computer_name == computer_name,
            r.date_time@ == timestamp(*at),
            r.os == os,
            r.version@ == report_version(),
            r.results == results,
    {
        SecurityReport {
            computer_name,
            date_time: at.format(),
            os,
            version: String::from_str("1.0.0"),
            results,
        }
    }
}

/// A failure detail names its class.
pub proof fn lemma_failure_names_class(c: FailureClass, m: Seq<char>)
    ensures
        names_failure_class(failure_text(c, m)),
{
}

/// Builds the detail of a failed check.
pub fn failure_detail(c: FailureClass, message: &str) -> (r: String)
    ensures
        r@ == failure_text(c, message@),
        names_failure_class(r@),
{
    let mut s = String::from_str("[");
    s.append(c.label());
    s.append("] ");
    s.append(message);
    assert(s@ =~= failure_text(c, message@));
    s
}

} // verus!

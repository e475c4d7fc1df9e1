//! The fixed catalog of checks and the metadata that each entry carries.

use vstd::prelude::*;
use crate::model::{CheckResult, CheckStatus, Importance};
use crate::text::digit_char;

verus! {

/// One entry of the catalog; it names both the metadata and the rule.
#[derive(Clone, Copy, Debug, PartialEq, Eq, Structural)]
pub enum CheckKind {
    PasswordExpiration,
    PasswordPolicy,
    UnnecessaryServices,
    Firewall,
    ScreenSaver,
    Autorun,
    RecoveryConsole,
    NtfsFilesystem,
    Multiboot,
    BrowserTempFiles,
    RemoteAccess,
}

/// The number in the entry's code.
pub open spec fn code_number(k: CheckKind) -> nat {
    match k {
        CheckKind::PasswordExpiration => 1,
        CheckKind::PasswordPolicy => 2,
        CheckKind::UnnecessaryServices => 4,
        CheckKind::Firewall => 11,
        CheckKind::ScreenSaver => 12,
        CheckKind::Autorun => 13,
        CheckKind::RecoveryConsole => 15,
        CheckKind::NtfsFilesystem => 16,
        CheckKind::Multiboot => 17,
        CheckKind::BrowserTempFiles => 18,
        CheckKind::RemoteAccess => 19,
    }
}

/// "PC-" and the two digits of the entry's number.
pub open spec fn code_of(k: CheckKind) -> Seq<char> {
    "PC-"@ + seq![digit_char(code_number(k) / 10), digit_char(code_number(k) % 10)]
}

pub open spec fn category_of(k: CheckKind) -> Seq<char> {
    match k {
        CheckKind::PasswordExpiration | CheckKind::PasswordPolicy
        | CheckKind::RecoveryConsole => "계정 관리"@,
        CheckKind::UnnecessaryServices | CheckKind::NtfsFilesystem | CheckKind::Multiboot
        | CheckKind::BrowserTempFiles => "서비스 관리"@,
        CheckKind::Firewall | CheckKind::ScreenSaver | CheckKind::Autorun
        | CheckKind::RemoteAccess => "보안 관리"@,
    }
}

pub open spec fn item_of(k: CheckKind) -> Seq<char> {
    match k {
        CheckKind::PasswordExpiration => "패스워드의 주기적 변경"@,
        CheckKind::PasswordPolicy => "패스워드 정책이 해당 기관의 보안 정책에 적합하게 설정"@,
        CheckKind::UnnecessaryServices => "항목의 불필요한 서비스 제거"@,
        CheckKind::Firewall => "OS에서 제공하는 침입차단 기능 활성화"@,
        CheckKind::ScreenSaver => "화면보호기 대기 시간 설정 및 재시작 시 암호 보호 설정"@,
        CheckKind::Autorun =>
            "CD, DVD, USB 메모리 등과 같은 미디어의 자동실행 방지등 이동식 미디어에 대한 보안대책 수립"@,
        CheckKind::RecoveryConsole => "복구 콘솔에서 자동 로그온을 금지하도록 설정"@,
        CheckKind::NtfsFilesystem => "파일 시스템이 NTFS 포맷으로 설정"@,
        CheckKind::Multiboot =>
            "대상 시스템이 Windows 서버를 제외한 다른 OS로 멀티 부팅이 가능하지 않도록 설정"@,
        CheckKind::BrowserTempFiles =>
            "브라우저 종료 시 임시 인터넷 파일 폴더의 내용을 삭제하도록 설정"@,
        CheckKind::RemoteAccess => "원격 지원을 금지하도록 정책이 설정"@,
    }
}

pub open spec fn importance_of(k: CheckKind) -> Importance {
    match k {
        CheckKind::PasswordExpiration | CheckKind::PasswordPolicy
        | CheckKind::UnnecessaryServices | CheckKind::Firewall | CheckKind::ScreenSaver
        | CheckKind::Autorun => Importance::High,
        CheckKind::RecoveryConsole | CheckKind::NtfsFilesystem | CheckKind::Multiboot
        | CheckKind::RemoteAccess => Importance::Medium,
        CheckKind::BrowserTempFiles => Importance::Low,
    }
}

/// The catalog in the order in which an audit runs it.
pub open spec fn catalog_spec() -> Seq<CheckKind> {
    seq![
        CheckKind::PasswordExpiration,
        CheckKind::PasswordPolicy,
        CheckKind::UnnecessaryServices,
        CheckKind::Firewall,
        CheckKind::ScreenSaver,
        CheckKind::Autorun,
        CheckKind::RecoveryConsole,
        CheckKind::NtfsFilesystem,
        CheckKind::Multiboot,
        CheckKind::BrowserTempFiles,
        CheckKind::RemoteAccess,
    ]
}

/// No entry occurs twice.
pub open spec fn distinct_kinds(ks: Seq<CheckKind>) -> bool {
    forall|i: int, j: int| 0 <= i < ks.len() && 0 <= j < ks.len() && i != j ==> ks[i] != ks[j]
}

/// The result carries the metadata of catalog entry `k`.
pub open spec fn is_entry_result(r: CheckResult, k: CheckKind) -> bool {
    &&& r.code@ == code_of(k)
    &&& r.category@ == category_of(k)
    &&& r.item@ == item_of(k)
    &&& r.importance == importance_of(k)
}

impl CheckKind {
    /// The entry's stable identifier.
    pub fn code(&self) -> (r: &'static str)
        ensures
            r@ == code_of(*self),
    {
        proof {
            reveal_strlit("PC-");
        }
        match self {
            CheckKind::PasswordExpiration => {
                proof {
                    reveal_strlit("PC-01");
                    assert("PC-01"@ =~= code_of(*self));
                }
                "PC-01"
            },
            CheckKind::PasswordPolicy => {
                proof {
                    reveal_strlit("PC-02");
                    assert("PC-02"@ =~= code_of(*self));
                }
                "PC-02"
            },
            CheckKind::UnnecessaryServices => {
                proof {
                    reveal_strlit("PC-04");
                    assert("PC-04"@ =~= code_of(*self));
                }
                "PC-04"
            },
            CheckKind::Firewall => {
                proof {
                    reveal_strlit("PC-11");
                    assert("PC-11"@ =~= code_of(*self));
                }
                "PC-11"
            },
            CheckKind::ScreenSaver => {
                proof {
                    reveal_strlit("PC-12");
                    assert("PC-12"@ =~= code_of(*self));
                }
                "PC-12"
            },
            CheckKind::Autorun => {
                proof {
                    reveal_strlit("PC-13");
                    assert("PC-13"@ =~= code_of(*self));
                }
                "PC-13"
            },
            CheckKind::RecoveryConsole => {
                proof {
                    reveal_strlit("PC-15");
                    assert("PC-15"@ =~= code_of(*self));
                }
                "PC-15"
            },
            CheckKind::NtfsFilesystem => {
                proof {
                    reveal_strlit("PC-16");
                    assert("PC-16"@ =~= code_of(*self));
                }
                "PC-16"
            },
            CheckKind::Multiboot => {
                proof {
                    reveal_strlit("PC-17");
                    assert("PC-17"@ =~= code_of(*self));
                }
                "PC-17"
            },
            CheckKind::BrowserTempFiles => {
                proof {
                    reveal_strlit("PC-18");
                    assert("PC-18"@ =~= code_of(*self));
                }
                "PC-18"
            },
            CheckKind::RemoteAccess => {
                proof {
                    reveal_strlit("PC-19");
                    assert("PC-19"@ =~= code_of(*self));
                }
                "PC-19"
            },
        }
    }

    /// The entry's category.
    pub fn category(&self) -> (r: &'static str)
        ensures
            r@ == category_of(*self),
    {
        match self {
            CheckKind::PasswordExpiration | CheckKind::PasswordPolicy
            | CheckKind::RecoveryConsole => "계정 관리",
            CheckKind::UnnecessaryServices | CheckKind::NtfsFilesystem | CheckKind::Multiboot
            | CheckKind::BrowserTempFiles => "서비스 관리",
            CheckKind::Firewall | CheckKind::ScreenSaver | CheckKind::Autorun
            | CheckKind::RemoteAccess => "보안 관리",
        }
    }

    /// What the entry checks.
    pub fn item(&self) -> (r: &'static str)
        ensures
            r@ == item_of(*self),
    {
        match self {
            CheckKind::PasswordExpiration => "패스워드의 주기적 변경",
            CheckKind::PasswordPolicy => "패스워드 정책이 해당 기관의 보안 정책에 적합하게 설정",
            CheckKind::UnnecessaryServices => "항목의 불필요한 서비스 제거",
            CheckKind::Firewall => "OS에서 제공하는 침입차단 기능 활성화",
            CheckKind::ScreenSaver => "화면보호기 대기 시간 설정 및 재시작 시 암호 보호 설정",
            CheckKind::Autorun =>
                "CD, DVD, USB 메모리 등과 같은 미디어의 자동실행 방지등 이동식 미디어에 대한 보안대책 수립",
            CheckKind::RecoveryConsole => "복구 콘솔에서 자동 로그온을 금지하도록 설정",
            CheckKind::NtfsFilesystem => "파일 시스템이 NTFS 포맷으로 설정",
            CheckKind::Multiboot =>
                "대상 시스템이 Windows 서버를 제외한 다른 OS로 멀티 부팅이 가능하지 않도록 설정",
            CheckKind::BrowserTempFiles =>
                "브라우저 종료 시 임시 인터넷 파일 폴더의 내용을 삭제하도록 설정",
            CheckKind::RemoteAccess => "원격 지원을 금지하도록 정책이 설정",
        }
    }

    /// The entry's importance.
    pub fn importance(&self) -> (r: Importance)
        ensures
            r == importance_of(*self),
    {
        match self {
            CheckKind::PasswordExpiration | CheckKind::PasswordPolicy
            | CheckKind::UnnecessaryServices | CheckKind::Firewall | CheckKind::ScreenSaver
            | CheckKind::Autorun => Importance::High,
            CheckKind::RecoveryConsole | CheckKind::NtfsFilesystem | CheckKind::Multiboot
            | CheckKind::RemoteAccess => Importance::Medium,
            CheckKind::BrowserTempFiles => Importance::Low,
        }
    }

    /// A result for this entry: its metadata, with the given verdict and detail.
    pub fn result(&self, status: CheckStatus, detail: String) -> (r: CheckResult)
        ensures
            is_entry_result(r, *self),
            r.status == status,
            r.detail == detail,
    {
        CheckResult {
            category: String::from_str(self.category()),
            code: String::from_str(self.code()),
            item: String::from_str(self.item()),
            importance: self.importance(),
            status,
            detail,
        }
    }
}

/// The catalog, in the order in which an audit runs it.
pub fn catalog() -> (r: Vec<CheckKind>)
    ensures
        r@ == catalog_spec(),
{
    let r = vec![
        CheckKind::PasswordExpiration,
        CheckKind::PasswordPolicy,
        CheckKind::UnnecessaryServices,
        CheckKind::Firewall,
        CheckKind::ScreenSaver,
        CheckKind::Autorun,
        CheckKind::RecoveryConsole,
        CheckKind::NtfsFilesystem,
        CheckKind::Multiboot,
        CheckKind::BrowserTempFiles,
        CheckKind::RemoteAccess,
    ];
    assert(r@ =~= catalog_spec());
    r
}

/// Two entries with the same code are the same entry.
pub proof fn lemma_code_injective(a: CheckKind, b: CheckKind)
    ensures
        code_of(a) == code_of(b) ==> a == b,
{
    reveal_strlit("PC-");
    if code_of(a) == code_of(b) {
        assert(code_of(a)[3] == code_of(b)[3]);
        assert(code_of(a)[4] == code_of(b)[4]);
    }
}

/// Every code in the catalog is unique.
pub proof fn lemma_catalog_codes_unique()
    ensures
        distinct_kinds(catalog_spec()),
        forall|i: int, j: int|
            0 <= i < catalog_spec().len() && 0 <= j < catalog_spec().len() && i != j
                ==> code_of(catalog_spec()[i]) != code_of(catalog_spec()[j]),
{
    assert forall|i: int, j: int|
        0 <= i < catalog_spec().len() && 0 <= j < catalog_spec().len() && i != j implies code_of(
        catalog_spec()[i],
    ) != code_of(catalog_spec()[j]) by {
        lemma_code_injective(catalog_spec()[i], catalog_spec()[j]);
    }
}

} // verus!

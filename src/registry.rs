//! Failures of the registry reader, and how a check reports them.

use vstd::prelude::*;
use crate::model::{FailureClass, failure_text, failure_detail};

verus! {

/// A registry read that failed for a reason other than absence. It carries
/// the key path and value name so that a report can say what was read.
#[derive(Clone, Debug, PartialEq, Eq)]
pub struct RegistryError {
    pub path: String,
    pub value_name: String,
    pub class: FailureClass,
    pub message: String,
}

/// The message that a check gives for a failed registry read.
pub open spec fn registry_failure_message(e: RegistryError) -> Seq<char> {
    "레지스트리 값을 읽을 수 없습니다: "@ + e.path@ + "\\"@ + e.value_name@ + " ("@ + e.message@
        + ")"@
}

/// The detail of a check that a failed registry read stopped.
pub open spec fn registry_failure_text(e: RegistryError) -> Seq<char> {
    failure_text(e.class, registry_failure_message(e))
}

/// Why a raw registry read failed.
#[derive(Clone, Copy, Debug, PartialEq, Eq, Structural)]
pub enum ReadFailure {
    /// The key path or the named value does not exist.
    NotFound,
    PermissionDenied,
    /// The value exists but is of another kind.
    InvalidData,
    /// Any other I/O failure.
    Other,
}

pub open spec fn failure_class_of(f: ReadFailure) -> FailureClass {
    match f {
        ReadFailure::NotFound => FailureClass::NotObserved,
        ReadFailure::PermissionDenied => FailureClass::AccessDenied,
        ReadFailure::InvalidData => FailureClass::Parse,
        ReadFailure::Other => FailureClass::Transport,
    }
}

/// The registry reader's answer for a raw read of `value_name` under
/// `path`: the value; `None` when the key or the value does not exist; or
/// an error that carries the path, the value name and the reason.
pub fn settle_read<T>(path: &str, value_name: &str, read: Result<T, (ReadFailure, String)>) -> (r:
    Result<Option<T>, RegistryError>)
    ensures
        match read {
            Ok(v) => r == Ok::<Option<T>, RegistryError>(Some(v)),
            Err((f, m)) => if f == ReadFailure::NotFound {
                r == Ok::<Option<T>, RegistryError>(None)
            } else {
                r matches Err(e) && e.path@ == path@ && e.value_name@ == value_name@ && e.class
                    == failure_class_of(f) && e.message == m
            },
        },
{
    match read {
        Ok(v) => Ok(Some(v)),
        Err((ReadFailure::NotFound, _)) => Ok(None),
        Err((f, m)) => {
            let class = match f {
                ReadFailure::NotFound => FailureClass::NotObserved,
                ReadFailure::PermissionDenied => FailureClass::AccessDenied,
                ReadFailure::InvalidData => FailureClass::Parse,
                ReadFailure::Other => FailureClass::Transport,
            };
            Err(
                RegistryError {
                    path: String::from_str(path),
                    value_name: String::from_str(value_name),
                    class,
                    message: m,
                },
            )
        },
    }
}

impl RegistryError {
    /// The detail of a check that this failure stopped.
    pub fn detail(&self) -> (r: String)
        ensures
            r@ == registry_failure_text(*self),
    {
        failure_detail(self.class, self.message_text().as_str())
    }

    /// What failed, without the failure class: the key path, the value
    /// name and the reason.
    pub fn message_text(&self) -> (r: String)
        ensures
            r@ == registry_failure_message(*self),
    {
        let mut m = String::from_str("레지스트리 값을 읽을 수 없습니다: ");
        m.append(self.path.as_str());
        m.append("\\");
        m.append(self.value_name.as_str());
        m.append(" (");
        m.append(self.message.as_str());
        m.append(")");
        m
    }
}

} // verus!

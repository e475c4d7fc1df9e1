//! Verified core of a Windows security-posture auditor: the check catalog,
//! the rules that turn observed configuration into verdicts, the audit run
//! that streams progress, and the report model.
//!
//! - `text`: character-level helpers (lines, search, trimming, integers).
//! - `model`: verdicts, grades, results, reports and their wire labels.
//! - `catalog`: the ordered catalog and each entry's metadata.
//! - `registry`: how registry reads and their failures are reported.
//! - `account`, `service`, `security`: the rules, each a function from
//!   observed values to one result.
//! - `host`: the host name and local time that stamp a report.
//! - `audit`: the run that walks the catalog and emits progress.
//!
//! Reading the registry, querying the management interface and running
//! platform tools happen outside this crate; the rules take what was read.

pub mod text;
pub mod model;
pub mod catalog;
pub mod registry;
pub mod account;
pub mod service;
pub mod security;
pub mod host;
pub mod audit;

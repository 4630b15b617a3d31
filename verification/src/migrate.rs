//! The migration guard: whether a stored contract may be upgraded to this
//! code, and whether its configuration must be moved from the legacy storage
//! key.
//!
//! The guard only orders plain `major.minor.patch` versions. A version string
//! that does not parse, or that carries pre-release or build metadata, leaves
//! the guard undecided (`None`), and the hosting layer surfaces that as a
//! hard failure.
use vstd::prelude::*;

use crate::error::{ContractError, ErrorV};

verus! {

/// The parsed components of a semantic version: major, minor and patch
/// numbers, then the pre-release and build metadata (empty when absent). The
/// exact grammar belongs to the semver crate; the library only relies on the
/// answer being a function of the characters alone.
pub uninterp spec fn version_parts(s: Seq<char>) -> Option<(u64, u64, u64, Seq<char>, Seq<char>)>;

/// Relies on `semver::Version::parse`: the parsed components of a semantic
/// version depend on the characters alone; `None` exactly where the string is
/// not a valid version.
#[verifier::external_body]
fn parse_version(s: &str) -> (r: Option<(u64, u64, u64, String, String)>)
    ensures
        match r {
            Some(p) => version_parts(s@) matches Some(q) && q.0 == p.0 && q.1 == p.1 && q.2 == p.2
                && q.3 == p.3@ && q.4 == p.4@,
            None => version_parts(s@) is None,
        },
{
    match semver::Version::parse(s) {
        Ok(v) => Some((
            v.major,
            v.minor,
            v.patch,
            String::from(v.pre.as_str()),
            String::from(v.build.as_str()),
        )),
        Err(_) => None,
    }
}

/// The numeric triple of a version that is plain: valid, with no pre-release
/// and no build metadata.
pub open spec fn plain_version(s: Seq<char>) -> Option<(u64, u64, u64)> {
    match version_parts(s) {
        Some(p) => if p.3.len() == 0 && p.4.len() == 0 {
            Some((p.0, p.1, p.2))
        } else {
            None
        },
        None => None,
    }
}

/// Lexicographic order on plain version triples; for plain versions this is
/// exactly semantic-version precedence.
pub open spec fn triple_lt(a: (u64, u64, u64), b: (u64, u64, u64)) -> bool {
    a.0 < b.0 || (a.0 == b.0 && (a.1 < b.1 || (a.1 == b.1 && a.2 < b.2)))
}

/// What a successful migration must still do besides updating the stored
/// version: whether the configuration has to move from the legacy storage key.
#[derive(Clone, Copy, Debug, PartialEq, Eq, Structural)]
pub struct MigrateAction {
    pub move_legacy_config: bool,
}

/// What the migration guard decides, given the stored contract name and
/// version, this code's name and version, and whether the configuration is
/// already present under its current key.
///
/// A changed contract name is refused; so is a downgrade. An upgrade from
/// before 0.3.0 whose configuration is absent under the current key must move
/// it from the legacy key. `None` where either version is not plain: the
/// guard cannot order it.
pub open spec fn spec_migrate(
    stored_contract: Seq<char>,
    stored_version: Seq<char>,
    contract_name: Seq<char>,
    target_version: Seq<char>,
    config_present: bool,
) -> Option<Result<MigrateAction, ErrorV>> {
    if stored_contract != contract_name {
        Some(Err(ErrorV::InvalidContractType))
    } else {
        match (plain_version(target_version), plain_version(stored_version)) {
            (Some(target), Some(current)) => if triple_lt(target, current) {
                Some(
                    Err(
                        ErrorV::UnsupportedUpgrade {
                            source_version: stored_version,
                            target_version: target_version,
                        },
                    ),
                )
            } else {
                Some(
                    Ok(
                        MigrateAction {
                            move_legacy_config: triple_lt(current, (0u64, 3u64, 0u64))
                                && !config_present,
                        },
                    ),
                )
            },
            _ => None,
        }
    }
}

/// The migration guard: refuses a migration that changes the contract name or
/// decreases the version, and says whether the configuration must move from
/// the legacy storage key.
///
/// `None` means a version string the guard cannot order (invalid, or carrying
/// pre-release or build metadata); the hosting layer must fail the migration.
pub fn migrate(
    stored_contract: &String,
    stored_version: &String,
    contract_name: &String,
    target_version: &String,
    config_present: bool,
) -> (r: Option<Result<MigrateAction, ContractError>>)
    ensures
        match r {
            None => spec_migrate(
                stored_contract@,
                stored_version@,
                contract_name@,
                target_version@,
                config_present,
            ) is None,
            Some(Ok(action)) => spec_migrate(
                stored_contract@,
                stored_version@,
                contract_name@,
                target_version@,
                config_present,
            ) == Some(Ok::<MigrateAction, ErrorV>(action)),
            Some(Err(e)) => spec_migrate(
                stored_contract@,
                stored_version@,
                contract_name@,
                target_version@,
                config_present,
            ) == Some(Err::<MigrateAction, ErrorV>(e@)),
        },
{
    if !(*stored_contract == *contract_name) {
        return Some(Err(ContractError::InvalidContractType));
    }
    let target = match plain_parse(target_version) {
        Some(t) => t,
        None => {
            return None;
        }
    };
    let current = match plain_parse(stored_version) {
        Some(c) => c,
        None => {
            return None;
        }
    };
    if lt_exec(target, current) {
        return Some(
            Err(
                ContractError::UnsupportedUpgrade {
                    source_version: stored_version.clone(),
                    target_version: target_version.clone(),
                },
            ),
        );
    }
    let legacy = lt_exec(current, (0, 3, 0));
    Some(Ok(MigrateAction { move_legacy_config: legacy && !config_present }))
}

/// The numeric triple of a plain version string, or nothing.
fn plain_parse(s: &String) -> (r: Option<(u64, u64, u64)>)
    ensures
        match r {
            Some(t) => plain_version(s@) == Some(t),
            None => plain_version(s@) is None,
        },
{
    match parse_version(s.as_str()) {
        Some(p) => {
            if p.3.as_str().is_empty() && p.4.as_str().is_empty() {
                Some((p.0, p.1, p.2))
            } else {
                None
            }
        }
        None => None,
    }
}

/// Lexicographic order on version triples.
fn lt_exec(a: (u64, u64, u64), b: (u64, u64, u64)) -> (r: bool)
    ensures
        r == triple_lt(a, b),
{
    a.0 < b.0 || (a.0 == b.0 && (a.1 < b.1 || (a.1 == b.1 && a.2 < b.2)))
}

} // verus!

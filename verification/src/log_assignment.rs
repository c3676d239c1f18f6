//! Which configured Log Module a log type is delivered to.
use vstd::prelude::*;

verus! {

/// The log types a deployment assigns to Log Module configurations.
#[derive(Clone, Copy, Debug, PartialEq, Eq, Structural)]
pub enum LogType {
    System,
    Audit,
}

/// One log type's assignment to a configuration identifier.
pub struct LogAssignment {
    pub log_type: LogType,
    pub configuration: [u8; 16],
}

/// One configured Log Module instance.
pub struct LogModuleConfiguration {
    pub identifier: [u8; 16],
    /// The Log Module's name.
    pub module: String,
    pub enabled: bool,
}

/// `i` is the first assignment of the log type.
pub open spec fn is_first_assignment(assignments: Seq<LogAssignment>, log_type: LogType, i: int) -> bool {
    &&& 0 <= i < assignments.len()
    &&& assignments[i].log_type == log_type
    &&& forall|k: int| 0 <= k < i ==> assignments[k].log_type != log_type
}

/// `i` is the only assignment of the log type.
pub open spec fn is_sole_assignment(assignments: Seq<LogAssignment>, log_type: LogType, i: int) -> bool {
    &&& 0 <= i < assignments.len()
    &&& assignments[i].log_type == log_type
    &&& forall|k: int| 0 <= k < assignments.len() && k != i ==> assignments[k].log_type != log_type
}

pub open spec fn has_assignment(assignments: Seq<LogAssignment>, log_type: LogType) -> bool {
    exists|i: int| 0 <= i < assignments.len() && assignments[i].log_type == log_type
}

/// The configuration is the enabled one with the identifier.
pub open spec fn serves(configuration: LogModuleConfiguration, identifier: [u8; 16]) -> bool {
    configuration.identifier@ == identifier@ && configuration.enabled
}

/// `j` is the first enabled configuration with the identifier.
pub open spec fn is_first_served(configurations: Seq<LogModuleConfiguration>, identifier: [u8; 16], j: int) -> bool {
    &&& 0 <= j < configurations.len()
    &&& serves(configurations[j], identifier)
    &&& forall|k: int| 0 <= k < j ==> !serves(configurations[k], identifier)
}

pub open spec fn has_served(configurations: Seq<LogModuleConfiguration>, identifier: [u8; 16]) -> bool {
    exists|j: int| 0 <= j < configurations.len() && serves(configurations[j], identifier)
}

fn same_identifier(a: &[u8; 16], b: &[u8; 16]) -> (same: bool)
    ensures
        same == (a@ == b@),
{
    let mut i: usize = 0;
    while i < 16
        invariant
            i <= 16,
            a@.len() == 16,
            b@.len() == 16,
            forall|k: int| 0 <= k < i ==> a@[k] == b@[k],
        decreases 16 - i,
    {
        if a[i] != b[i] {
            return false;
        }
        i = i + 1;
    }
    proof {
        assert(a@ =~= b@);
    }
    true
}

/// The first enabled configuration with the identifier, by index.
fn first_served(configurations: &[LogModuleConfiguration], identifier: &[u8; 16]) -> (found: Option<usize>)
    ensures
        match found {
            Some(j) => is_first_served(configurations@, *identifier, j as int),
            None => !has_served(configurations@, *identifier),
        },
{
    let mut j: usize = 0;
    while j < configurations.len()
        invariant
            j <= configurations@.len(),
            forall|k: int| 0 <= k < j ==> !serves(#[trigger] configurations@[k], *identifier),
        decreases configurations@.len() - j,
    {
        let configuration = &configurations[j];
        if configuration.enabled && same_identifier(&configuration.identifier, identifier) {
            return Some(j);
        }
        j = j + 1;
    }
    None
}

/// The first assignment of the log type, by index.
fn first_assignment(assignments: &[LogAssignment], log_type: LogType) -> (found: Option<usize>)
    ensures
        match found {
            Some(i) => is_first_assignment(assignments@, log_type, i as int),
            None => !has_assignment(assignments@, log_type),
        },
{
    let mut i: usize = 0;
    while i < assignments.len()
        invariant
            i <= assignments@.len(),
            forall|k: int| 0 <= k < i ==> (#[trigger] assignments@[k]).log_type != log_type,
        decreases assignments@.len() - i,
    {
        if assignments[i].log_type == log_type {
            return Some(i);
        }
        i = i + 1;
    }
    None
}

/// Returns the enabled configuration the first assignment of the log type
/// names, or `None` when the type is unassigned or names no enabled
/// configuration.
pub fn assigned_configuration<'a>(
    configurations: &'a [LogModuleConfiguration],
    assignments: &[LogAssignment],
    log_type: LogType,
) -> (found: Option<&'a LogModuleConfiguration>)
    ensures
        match found {
            Some(c) => exists|i: int, j: int|
                is_first_assignment(assignments@, log_type, i)
                && is_first_served(configurations@, assignments@[i].configuration, j)
                && *c == configurations@[j],
            None => forall|i: int| is_first_assignment(assignments@, log_type, i)
                ==> !has_served(configurations@, assignments@[i].configuration),
        },
{
    let i = match first_assignment(assignments, log_type) {
        Some(i) => i,
        None => return None,
    };
    match first_served(configurations, &assignments[i].configuration) {
        Some(j) => {
            proof {
                assert(is_first_assignment(assignments@, log_type, i as int));
                assert(is_first_served(configurations@, assignments@[i as int].configuration, j as int));
            }
            Some(&configurations[j])
        },
        None => {
            proof {
                assert forall|k: int| is_first_assignment(assignments@, log_type, k) implies k == i by {
                    if k < i {
                        assert(assignments@[k].log_type != log_type);
                    } else if k > i {
                        assert(assignments@[i as int].log_type != log_type);
                    }
                }
            }
            None
        },
    }
}

/// Returns the enabled configuration named by the only assignment of the log
/// type; `None` when the type has no assignment or more than one, or when the
/// assignment names no enabled configuration.
pub fn sole_assigned_configuration<'a>(
    configurations: &'a [LogModuleConfiguration],
    assignments: &[LogAssignment],
    log_type: LogType,
) -> (found: Option<&'a LogModuleConfiguration>)
    ensures
        match found {
            Some(c) => exists|i: int, j: int|
                is_sole_assignment(assignments@, log_type, i)
                && is_first_served(configurations@, assignments@[i].configuration, j)
                && *c == configurations@[j],
            None => forall|i: int| is_sole_assignment(assignments@, log_type, i)
                ==> !has_served(configurations@, assignments@[i].configuration),
        },
{
    let i = match first_assignment(assignments, log_type) {
        Some(i) => i,
        None => return None,
    };
    assert(i < assignments@.len());
    assert(assignments@.len() == assignments.len());
    let mut k: usize = i + 1;
    while k < assignments.len()
        invariant
            i < k <= assignments@.len(),
            is_first_assignment(assignments@, log_type, i as int),
            forall|m: int| i < m < k ==> (#[trigger] assignments@[m]).log_type != log_type,
        decreases assignments@.len() - k,
    {
        if assignments[k].log_type == log_type {
            proof {
                assert forall|s: int| is_sole_assignment(assignments@, log_type, s) implies false by {
                    if s != i as int {
                        assert(assignments@[i as int].log_type == log_type);
                    } else {
                        assert(assignments@[k as int].log_type == log_type);
                    }
                }
            }
            return None;
        }
        k = k + 1;
    }
    proof {
        assert(is_sole_assignment(assignments@, log_type, i as int));
    }
    match first_served(configurations, &assignments[i].configuration) {
        Some(j) => {
            proof {
                assert(is_first_served(configurations@, assignments@[i as int].configuration, j as int));
            }
            Some(&configurations[j])
        },
        None => {
            proof {
                assert forall|s: int| is_sole_assignment(assignments@, log_type, s) implies s == i by {
                    if s != i {
                        assert(assignments@[i as int].log_type == log_type);
                    }
                }
            }
            None
        },
    }
}

} // verus!

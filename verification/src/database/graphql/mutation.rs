//! Who may write, and which failed insert is reported.

use vstd::prelude::*;
use crate::database::structures::PermissionLevel;

verus! {

/// The five kinds of rows a mutation inserts, in the order in which their
/// failures are reported.
#[derive(Clone, Copy, Debug, PartialEq, Eq, Structural)]
pub enum Table {
    Candles,
    Sessions,
    Trends,
    OneDStructure,
    TwoDStructure,
}

/// How the five inserts of one mutation ended: `true` where the insert
/// went through.
#[derive(Clone, Copy, Debug, PartialEq, Eq, Structural)]
pub struct InsertOutcomes {
    pub candles: bool,
    pub sessions: bool,
    pub trends: bool,
    pub one_d_structure: bool,
    pub two_d_structure: bool,
}

/// The first table, in reporting order, whose insert failed.
pub open spec fn first_failure_of(outcomes: InsertOutcomes) -> Option<Table> {
    if !outcomes.candles {
        Some(Table::Candles)
    } else if !outcomes.sessions {
        Some(Table::Sessions)
    } else if !outcomes.trends {
        Some(Table::Trends)
    } else if !outcomes.one_d_structure {
        Some(Table::OneDStructure)
    } else if !outcomes.two_d_structure {
        Some(Table::TwoDStructure)
    } else {
        None
    }
}

impl Table {
    /// The name a failure of this table's insert is reported under.
    pub fn name(&self) -> (name: &'static str)
        ensures
            name@ == match *self {
                Table::Candles => "candles"@,
                Table::Sessions => "sessions"@,
                Table::Trends => "trends"@,
                Table::OneDStructure => "one_d_structure"@,
                Table::TwoDStructure => "two_d_structure"@,
            },
    {
        match self {
            Table::Candles => "candles",
            Table::Sessions => "sessions",
            Table::Trends => "trends",
            Table::OneDStructure => "one_d_structure",
            Table::TwoDStructure => "two_d_structure",
        }
    }
}

/// Whether a bearer with `permission` may insert data: administrators only.
pub fn may_post(permission: PermissionLevel) -> (allowed: bool)
    ensures
        allowed == (permission == PermissionLevel::Admin),
{
    match permission {
        PermissionLevel::Admin => true,
        PermissionLevel::User => false,
    }
}

/// The insert whose failure the mutation reports: the first that failed, in
/// reporting order; none where all five went through.
pub fn first_failure(outcomes: InsertOutcomes) -> (failed: Option<Table>)
    ensures
        failed == first_failure_of(outcomes),
{
    if !outcomes.candles {
        Some(Table::Candles)
    } else if !outcomes.sessions {
        Some(Table::Sessions)
    } else if !outcomes.trends {
        Some(Table::Trends)
    } else if !outcomes.one_d_structure {
        Some(Table::OneDStructure)
    } else if !outcomes.two_d_structure {
        Some(Table::TwoDStructure)
    } else {
        None
    }
}

} // verus!

//! Which monitors get an overlay and which of them is the primary one.
use vstd::prelude::*;

verus! {

/// Two monitor names are the same: both absent, or both present with equal text.
pub open spec fn same_name(a: Option<String>, b: Option<String>) -> bool {
    match (a, b) {
        (None, None) => true,
        (Some(x), Some(y)) => x@ == y@,
        _ => false,
    }
}

/// Whether monitor `i` of the list is treated as primary: the one whose name equals the
/// primary monitor's name, or the first one when no primary monitor is reported.
pub open spec fn is_primary_at(names: Seq<Option<String>>, primary: Option<Option<String>>, i: int) -> bool {
    match primary {
        None => i == 0,
        Some(p) => same_name(p, names[i]),
    }
}

/// The overlays to create.
#[derive(Debug)]
pub enum MonitorPlan {
    /// No monitor is listed: cover the primary monitor alone, as the primary one.
    PrimaryOnly,
    /// Neither a listed nor a primary monitor: no overlay.
    NoMonitors,
    /// One overlay per listed monitor, with whether each is primary.
    Listed(Vec<bool>),
}

fn names_equal(a: &Option<String>, b: &Option<String>) -> (r: bool)
    ensures
        r == same_name(*a, *b),
{
    match (a, b) {
        (None, None) => true,
        (Some(x), Some(y)) => x.eq(y),
        _ => false,
    }
}

/// Plans the overlays from the names of the listed monitors and, when the system reports
/// a primary monitor, its name.
pub fn plan_monitors(names: &Vec<Option<String>>, primary: &Option<Option<String>>) -> (r: MonitorPlan)
    ensures
        names@.len() == 0 ==> (match r {
            MonitorPlan::PrimaryOnly => primary is Some,
            MonitorPlan::NoMonitors => primary is None,
            MonitorPlan::Listed(_) => false,
        }),
        names@.len() > 0 ==> (match r {
            MonitorPlan::Listed(flags) => flags@.len() == names@.len() && forall|i: int|
                0 <= i < names@.len() ==> #[trigger] flags@[i] == is_primary_at(names@, *primary, i),
            _ => false,
        }),
{
    if names.len() == 0 {
        return match primary {
            Some(_) => MonitorPlan::PrimaryOnly,
            None => MonitorPlan::NoMonitors,
        };
    }
    let mut flags: Vec<bool> = Vec::new();
    let mut i: usize = 0;
    while i < names.len()
        invariant
            i <= names@.len(),
            flags@.len() == i,
            forall|j: int| 0 <= j < i ==> #[trigger] flags@[j] == is_primary_at(names@, *primary, j),
        decreases names@.len() - i,
    {
        let f = match primary {
            None => i == 0,
            Some(p) => names_equal(p, &names[i]),
        };
        flags.push(f);
        i = i + 1;
    }
    MonitorPlan::Listed(flags)
}

} // verus!

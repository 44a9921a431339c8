//! What the service controller asks of the systemd manager on the system bus.
use vstd::prelude::*;
use vstd::string::*;

verus! {

/// An operation on a systemd unit.
#[derive(PartialEq, Eq, Structural, Clone, Copy, Debug)]
pub enum UnitVerb {
    Start,
    Stop,
    Restart,
}

/// A call of the systemd manager: the method for `verb` on `unit`, with the job `mode`.
pub struct UnitCall {
    pub verb: UnitVerb,
    pub unit: String,
    pub mode: String,
}

/// The call that starting, stopping or restarting a unit makes: none in simulation mode
/// or without a bus connection; otherwise the manager's method for `verb` on the unit,
/// with the job mode `replace`.
pub fn unit_call(simulation_mode: bool, connected: bool, verb: UnitVerb, name: &str) -> (r:
    Option<UnitCall>)
    ensures
        (simulation_mode || !connected) ==> r is None,
        (!simulation_mode && connected) ==> (r matches Some(c) && c.verb == verb && c.unit@
            == name@ && c.mode@ == "replace"@),
{
    if simulation_mode || !connected {
        None
    } else {
        Some(UnitCall { verb, unit: String::from_str(name), mode: String::from_str("replace") })
    }
}

/// How to learn whether a unit exists.
pub enum UnitQuery {
    /// The answer is known without asking.
    Known(bool),
    /// Ask the manager for the unit of this name; it exists where the manager has it.
    Ask(String),
}

/// How to learn whether the unit `name` exists: in simulation mode it counts as
/// existing; otherwise the manager is asked.
pub fn unit_exists_query(simulation_mode: bool, name: &str) -> (r: UnitQuery)
    ensures
        simulation_mode ==> r == UnitQuery::Known(true),
        !simulation_mode ==> (r matches UnitQuery::Ask(n) && n@ == name@),
{
    if simulation_mode {
        UnitQuery::Known(true)
    } else {
        UnitQuery::Ask(String::from_str(name))
    }
}

} // verus!

//! What the dashboard shows: the title, the tracked services and the gauges.
use vstd::prelude::*;
use vstd::string::*;
use crate::files::has_suffix;
use crate::installer::ComponentAction;
use crate::systemd::UnitVerb;
use crate::text::{chars_before, chars_of, string_of};

verus! {

/// The title of the dashboard, which names offline verification in simulation mode.
pub open spec fn title_of(simulation_mode: bool) -> Seq<char> {
    if simulation_mode {
        "rkiauh Administration Platform - Offline Target System Verification"@
    } else {
        "rkiauh Administration Platform"@
    }
}

/// The title of the dashboard.
pub fn title_text(simulation_mode: bool) -> (r: &'static str)
    ensures
        r@ == title_of(simulation_mode),
{
    if simulation_mode {
        "rkiauh Administration Platform - Offline Target System Verification"
    } else {
        "rkiauh Administration Platform"
    }
}

/// The colour of a service row.
#[derive(PartialEq, Eq, Structural, Clone, Copy, Debug)]
pub enum StatusColor {
    Green,
    Red,
}

/// A service shows green where its status is `active`, red otherwise.
pub fn status_color(status: &String) -> (r: StatusColor)
    ensures
        (r == StatusColor::Green) == (status@ == "active"@),
{
    if *status == String::from_str("active") {
        StatusColor::Green
    } else {
        StatusColor::Red
    }
}

/// A gauge shows at most a full hundred percent.
pub fn gauge_percent(raw: u16) -> (r: u16)
    ensures
        r == if raw <= 100 { raw } else { 100 },
{
    if raw <= 100 {
        raw
    } else {
        100
    }
}

/// The components that the dashboard tracks at first, with their statuses: the three
/// service daemons, whose state is not known yet, and the two web interfaces, which are
/// static files served by Nginx.
pub open spec fn initial_services() -> Seq<(Seq<char>, Seq<char>)> {
    seq![
        ("r_klipp.service"@, "unknown"@),
        ("rusted_moonraker.service"@, "unknown"@),
        ("rKlipperScreen.service"@, "unknown"@),
        ("fluidd"@, "static"@),
        ("mainsail"@, "static"@),
    ]
}

/// The state that the dashboard draws.
pub struct AppState {
    pub services: Vec<(String, String)>,
    pub simulation_mode: bool,
}

impl AppState {
    /// The state at start: the components of `initial_services`.
    pub fn new(simulation_mode: bool) -> (s: AppState)
        ensures
            s.services@.map_values(|p: (String, String)| (p.0@, p.1@)) == initial_services(),
            s.simulation_mode == simulation_mode,
    {
        let mut services: Vec<(String, String)> = Vec::new();
        services.push((String::from_str("r_klipp.service"), String::from_str("unknown")));
        services.push((String::from_str("rusted_moonraker.service"), String::from_str("unknown")));
        services.push((String::from_str("rKlipperScreen.service"), String::from_str("unknown")));
        services.push((String::from_str("fluidd"), String::from_str("static")));
        services.push((String::from_str("mainsail"), String::from_str("static")));
        let s = AppState { services, simulation_mode };
        assert(s.services@.map_values(|p: (String, String)| (p.0@, p.1@)) =~= initial_services());
        s
    }
}

/// A key press, as the dashboard tells keys apart.
#[derive(PartialEq, Eq, Structural, Clone, Copy, Debug)]
pub enum DashboardKey {
    Up,
    Down,
    Quit,
    Start,
    Stop,
    Restart,
    Install,
    Update,
    Other,
}

/// The key that a character key is: `k` and `j` move up and down, `q` quits, `s`, `t`
/// and `r` start, stop and restart the selected service, and `i` and `u` install and
/// update the selected component.
pub fn key_for_char(c: char) -> (r: DashboardKey)
    ensures
        r == if c == 'k' {
            DashboardKey::Up
        } else if c == 'j' {
            DashboardKey::Down
        } else if c == 'q' {
            DashboardKey::Quit
        } else if c == 's' {
            DashboardKey::Start
        } else if c == 't' {
            DashboardKey::Stop
        } else if c == 'r' {
            DashboardKey::Restart
        } else if c == 'i' {
            DashboardKey::Install
        } else if c == 'u' {
            DashboardKey::Update
        } else {
            DashboardKey::Other
        },
{
    if c == 'k' {
        DashboardKey::Up
    } else if c == 'j' {
        DashboardKey::Down
    } else if c == 'q' {
        DashboardKey::Quit
    } else if c == 's' {
        DashboardKey::Start
    } else if c == 't' {
        DashboardKey::Stop
    } else if c == 'r' {
        DashboardKey::Restart
    } else if c == 'i' {
        DashboardKey::Install
    } else if c == 'u' {
        DashboardKey::Update
    } else {
        DashboardKey::Other
    }
}

/// What the dashboard does on a key.
#[derive(PartialEq, Eq, Structural, Clone, Copy, Debug)]
pub enum DashboardAction {
    /// Leave the dashboard.
    Quit,
    /// Select the row at this position.
    Select(usize),
    /// Apply this operation to the selected service.
    Control(UnitVerb),
    /// Install or update the selected component.
    Run(ComponentAction),
    /// Nothing.
    Nothing,
}

/// What the dashboard does on `key` with the row `selected` of `count` rows selected:
/// up and down move the selection, wrapping around at the ends.
pub fn on_key(selected: usize, count: usize, key: DashboardKey) -> (r: DashboardAction)
    requires
        selected < count,
    ensures
        r == match key {
            DashboardKey::Up => DashboardAction::Select(
                if selected == 0 {
                    (count - 1) as usize
                } else {
                    (selected - 1) as usize
                },
            ),
            DashboardKey::Down => DashboardAction::Select(
                if selected + 1 == count {
                    0
                } else {
                    (selected + 1) as usize
                },
            ),
            DashboardKey::Quit => DashboardAction::Quit,
            DashboardKey::Start => DashboardAction::Control(UnitVerb::Start),
            DashboardKey::Stop => DashboardAction::Control(UnitVerb::Stop),
            DashboardKey::Restart => DashboardAction::Control(UnitVerb::Restart),
            DashboardKey::Install => DashboardAction::Run(ComponentAction::Install),
            DashboardKey::Update => DashboardAction::Run(ComponentAction::Update),
            DashboardKey::Other => DashboardAction::Nothing,
        },
{
    match key {
        DashboardKey::Up => DashboardAction::Select(
            if selected == 0 {
                count - 1
            } else {
                selected - 1
            },
        ),
        DashboardKey::Down => DashboardAction::Select(
            if selected + 1 == count {
                0
            } else {
                selected + 1
            },
        ),
        DashboardKey::Quit => DashboardAction::Quit,
        DashboardKey::Start => DashboardAction::Control(UnitVerb::Start),
        DashboardKey::Stop => DashboardAction::Control(UnitVerb::Stop),
        DashboardKey::Restart => DashboardAction::Control(UnitVerb::Restart),
        DashboardKey::Install => DashboardAction::Run(ComponentAction::Install),
        DashboardKey::Update => DashboardAction::Run(ComponentAction::Update),
        DashboardKey::Other => DashboardAction::Nothing,
    }
}

/// The status a service shows after `verb` went well: active after a start or a
/// restart, inactive after a stop.
pub fn status_after(verb: UnitVerb) -> (r: &'static str)
    ensures
        r@ == match verb {
            UnitVerb::Stop => "inactive"@,
            _ => "active"@,
        },
{
    match verb {
        UnitVerb::Stop => "inactive",
        _ => "active",
    }
}

/// The ending of a service daemon's unit name.
pub open spec fn service_suffix() -> Seq<char> {
    seq!['.', 's', 'e', 'r', 'v', 'i', 'c', 'e']
}

/// The component that a row of the dashboard tracks: the row's name without the ending
/// `.service` of a daemon's unit.
pub open spec fn component_of(row: Seq<char>) -> Seq<char> {
    if has_suffix(row, service_suffix()) {
        row.take(row.len() - service_suffix().len())
    } else {
        row
    }
}

/// The component that the row named `row` tracks, as the command line names it.
pub fn component_name(row: &str) -> (r: String)
    ensures
        r@ == component_of(row@),
{
    let chars = chars_of(row);
    let suffix: Vec<char> = vec!['.', 's', 'e', 'r', 'v', 'i', 'c', 'e'];
    assert(suffix@ =~= service_suffix());
    let n = chars.len();
    if n < 8 {
        return string_of(chars.as_slice());
    }
    let start = n - 8;
    let mut matches = true;
    for i in 0..8
        invariant
            n == chars.len(),
            start == n - 8,
            suffix@ == service_suffix(),
            matches <==> forall|j: int| 0 <= j < i ==> chars@[start + j] == suffix@[j],
    {
        if chars[start + i] != suffix[i] {
            matches = false;
        }
    }
    assert(matches <==> chars@.skip(start as int) =~= service_suffix());
    if matches {
        let stem = chars_before(&chars, start);
        string_of(stem.as_slice())
    } else {
        string_of(chars.as_slice())
    }
}

} // verus!

//! The dashboard: what each panel shows, and when the render loop redraws,
//! waits and ends.

use crate::reading::SensorReading;
use crate::snapshot::{held_after, Snapshot};
use crate::text::{decimal, push_decimal};
use vstd::prelude::*;
use vstd::string::StringExecFns;

verus! {

/// The body of the panel of a controller that has no entry in the snapshot.
pub const NO_DATA: &'static str = "no data available";

/// The least height of a panel, in rows.
pub const PANEL_MIN_HEIGHT: u16 = 3;

/// The margin around the panels, in cells.
pub const LAYOUT_MARGIN: u16 = 1;

/// How a metric is shown: its value in decimal, and `0` where it is absent.
pub open spec fn shown(value: Option<u64>) -> Seq<char> {
    match value {
        Some(n) => decimal(n as nat),
        None => decimal(0),
    }
}

/// The two lines that show a reading.
pub open spec fn reading_text(reading: SensorReading) -> Seq<char> {
    " PSU_PIN: "@ + shown(reading.psu_pin) + " W | CPU Tot: "@ + shown(reading.cpu_power)
        + " W  \t\t CPU 0: "@ + shown(reading.cpu0_power) + " W | CPU 1: "@ + shown(
        reading.cpu1_power,
    ) + " W \n Fan: "@ + shown(reading.fan_power) + " W \t\t CPU 0 Temp: "@ + shown(
        reading.cpu0_temp,
    ) + " °C | CPU 1 Temp: "@ + shown(reading.cpu1_temp) + " °C"@
}

/// The body of a panel: the reading of its controller, or the fixed message
/// where the snapshot has none.
pub open spec fn panel_text(reading: Option<SensorReading>) -> Seq<char> {
    match reading {
        Some(reading) => reading_text(reading),
        None => NO_DATA@,
    }
}

fn push_shown(out: &mut String, value: Option<u64>)
    ensures
        final(out)@ == old(out)@ + shown(value),
{
    match value {
        Some(n) => push_decimal(out, n),
        None => push_decimal(out, 0),
    }
}

/// Writes the body of a panel.
pub fn panel_body(reading: Option<SensorReading>) -> (body: String)
    ensures
        body@ == panel_text(reading),
{
    match reading {
        None => NO_DATA.to_owned(),
        Some(reading) => {
            let mut out = " PSU_PIN: ".to_owned();
            push_shown(&mut out, reading.psu_pin);
            out.append(" W | CPU Tot: ");
            push_shown(&mut out, reading.cpu_power);
            out.append(" W  \t\t CPU 0: ");
            push_shown(&mut out, reading.cpu0_power);
            out.append(" W | CPU 1: ");
            push_shown(&mut out, reading.cpu1_power);
            out.append(" W \n Fan: ");
            push_shown(&mut out, reading.fan_power);
            out.append(" W \t\t CPU 0 Temp: ");
            push_shown(&mut out, reading.cpu0_temp);
            out.append(" °C | CPU 1 Temp: ");
            push_shown(&mut out, reading.cpu1_temp);
            out.append(" °C");
            out
        },
    }
}

/// One panel of the dashboard.
#[derive(Debug)]
pub struct Panel {
    /// The label on the border: the address of the controller.
    pub title: String,
    pub body: String,
}

/// What a [`Panel`] shows, as character sequences.
pub struct PanelData {
    pub title: Seq<char>,
    pub body: Seq<char>,
}

impl View for Panel {
    type V = PanelData;

    open spec fn view(&self) -> PanelData {
        PanelData { title: self.title@, body: self.body@ }
    }
}

/// The entry of `address` in a snapshot, if it has one.
pub open spec fn entry_of(snapshot: Map<Seq<char>, SensorReading>, address: Seq<char>) -> Option<
    SensorReading,
> {
    if snapshot.contains_key(address) {
        Some(snapshot[address])
    } else {
        None
    }
}

/// The panel of the controller at `address` under a snapshot.
pub open spec fn panel_for(snapshot: Map<Seq<char>, SensorReading>, address: Seq<char>)
    -> PanelData {
    PanelData { title: address, body: panel_text(entry_of(snapshot, address)) }
}

/// The panel of a controller that has no entry in the snapshot shows the
/// fixed message and nothing else.
pub proof fn law_absent_address_shows_no_data(
    snapshot: Map<Seq<char>, SensorReading>,
    address: Seq<char>,
)
    requires
        !snapshot.contains_key(address),
    ensures
        panel_for(snapshot, address).body == NO_DATA@,
{
}

/// No stale data: once a snapshot without an entry for a controller is
/// installed, the panel of that controller shows the fixed message, whatever
/// the installs before it held for the controller.
pub proof fn law_no_stale_data(installs: Seq<Map<Seq<char>, SensorReading>>, address: Seq<char>)
    requires
        installs.len() > 0,
        !installs.last().contains_key(address),
    ensures
        panel_for(held_after(installs), address).body == NO_DATA@,
{
}

/// The panels of one draw: one for each address, in the order of the
/// addresses, each with what the snapshot holds for its address.
pub fn panels(addresses: &Vec<String>, snapshot: &Snapshot) -> (drawn: Vec<Panel>)
    ensures
        drawn@.len() == addresses@.len(),
        forall|i: int|
            0 <= i < addresses@.len() ==> (#[trigger] drawn@[i])@ == panel_for(
                snapshot@,
                addresses@[i]@,
            ),
{
    let mut drawn: Vec<Panel> = Vec::new();
    let mut i: usize = 0;
    while i < addresses.len()
        invariant
            i <= addresses@.len(),
            drawn@.len() == i,
            forall|k: int|
                0 <= k < i ==> (#[trigger] drawn@[k])@ == panel_for(snapshot@, addresses@[k]@),
        decreases addresses@.len() - i,
    {
        let address = &addresses[i];
        let body = panel_body(snapshot.get(address.as_str()));
        drawn.push(Panel { title: address.clone(), body });
        i += 1;
    }
    drawn
}

} // verus!

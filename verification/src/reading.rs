//! Sensor readings: the metrics that a controller reports, and how a sensor
//! list becomes one reading.

use crate::json::{json_data, json_of_text, member, member_of, parse_value, JsonData};
use crate::text::same_text;
use vstd::prelude::*;

verus! {

/// One of the metrics that the dashboard tracks for a controller.
#[derive(Clone, Copy, Debug, PartialEq, Eq, Structural)]
pub enum Metric {
    /// Input power of the first power supply, in watts.
    PsuInput,
    /// Power drawn by all CPU sockets together, in watts.
    CpuTotal,
    /// Power drawn by socket 0, in watts.
    Cpu0Power,
    /// Power drawn by socket 1, in watts.
    Cpu1Power,
    /// Power drawn by the fans, in watts.
    FanPower,
    /// Temperature of socket 0, in degrees Celsius.
    Cpu0Temp,
    /// Temperature of socket 1, in degrees Celsius.
    Cpu1Temp,
}

/// The metric that a sensor name stands for. Names match exactly; any other
/// name stands for no metric.
pub open spec fn metric_named(name: Seq<char>) -> Option<Metric> {
    if name == "PSU1_PIN"@ {
        Some(Metric::PsuInput)
    } else if name == "CPU_Power"@ {
        Some(Metric::CpuTotal)
    } else if name == "CPU0_Power"@ {
        Some(Metric::Cpu0Power)
    } else if name == "CPU1_Power"@ {
        Some(Metric::Cpu1Power)
    } else if name == "CPU0_Temp"@ {
        Some(Metric::Cpu0Temp)
    } else if name == "CPU1_Temp"@ {
        Some(Metric::Cpu1Temp)
    } else if name == "Fan_Power"@ {
        Some(Metric::FanPower)
    } else {
        None
    }
}

/// The sensor name under which a controller reports `metric`.
pub open spec fn sensor_name(metric: Metric) -> Seq<char> {
    match metric {
        Metric::PsuInput => "PSU1_PIN"@,
        Metric::CpuTotal => "CPU_Power"@,
        Metric::Cpu0Power => "CPU0_Power"@,
        Metric::Cpu1Power => "CPU1_Power"@,
        Metric::FanPower => "Fan_Power"@,
        Metric::Cpu0Temp => "CPU0_Temp"@,
        Metric::Cpu1Temp => "CPU1_Temp"@,
    }
}

/// The seven sensor names are distinct: each metric is the one that its own
/// name stands for.
pub proof fn law_sensor_names_are_distinct(metric: Metric)
    ensures
        metric_named(sensor_name(metric)) == Some(metric),
{
    reveal_strlit("PSU1_PIN");
    reveal_strlit("CPU_Power");
    reveal_strlit("CPU0_Power");
    reveal_strlit("CPU1_Power");
    reveal_strlit("CPU0_Temp");
    reveal_strlit("CPU1_Temp");
    reveal_strlit("Fan_Power");
    assert("PSU1_PIN"@[0] == 'P' && "Fan_Power"@[0] == 'F');
    assert("CPU_Power"@[0] == 'C' && "CPU0_Power"@[0] == 'C' && "CPU1_Power"@[0] == 'C');
    assert("CPU0_Temp"@[0] == 'C' && "CPU1_Temp"@[0] == 'C');
    assert("CPU_Power"@[3] == '_' && "CPU0_Power"@[3] == '0' && "CPU1_Power"@[3] == '1');
    assert("CPU0_Temp"@[3] == '0' && "CPU1_Temp"@[3] == '1');
    assert("CPU0_Temp"@[5] == 'T' && "CPU1_Temp"@[5] == 'T');
    assert("CPU0_Power"@[5] == 'P' && "CPU1_Power"@[5] == 'P' && "CPU_Power"@[5] == 'o');
}

impl Metric {
    /// Looks a sensor name up among the recognised names.
    pub fn from_name(name: &str) -> (metric: Option<Metric>)
        ensures
            metric == metric_named(name@),
    {
        if same_text(name, "PSU1_PIN") {
            Some(Metric::PsuInput)
        } else if same_text(name, "CPU_Power") {
            Some(Metric::CpuTotal)
        } else if same_text(name, "CPU0_Power") {
            Some(Metric::Cpu0Power)
        } else if same_text(name, "CPU1_Power") {
            Some(Metric::Cpu1Power)
        } else if same_text(name, "CPU0_Temp") {
            Some(Metric::Cpu0Temp)
        } else if same_text(name, "CPU1_Temp") {
            Some(Metric::Cpu1Temp)
        } else if same_text(name, "Fan_Power") {
            Some(Metric::FanPower)
        } else {
            None
        }
    }
}

/// The latest values of one controller. A metric that the controller did not
/// report, or reported without a usable number, is `None`.
#[derive(Clone, Copy, Debug, PartialEq, Eq, Structural)]
pub struct SensorReading {
    pub psu_pin: Option<u64>,
    pub cpu_power: Option<u64>,
    pub cpu0_power: Option<u64>,
    pub cpu1_power: Option<u64>,
    pub fan_power: Option<u64>,
    pub cpu0_temp: Option<u64>,
    pub cpu1_temp: Option<u64>,
}

impl SensorReading {
    /// The reading in which every metric is absent.
    pub open spec fn empty() -> SensorReading {
        SensorReading {
            psu_pin: None,
            cpu_power: None,
            cpu0_power: None,
            cpu1_power: None,
            fan_power: None,
            cpu0_temp: None,
            cpu1_temp: None,
        }
    }

    /// The value of `metric` in this reading.
    pub open spec fn spec_get(&self, metric: Metric) -> Option<u64> {
        match metric {
            Metric::PsuInput => self.psu_pin,
            Metric::CpuTotal => self.cpu_power,
            Metric::Cpu0Power => self.cpu0_power,
            Metric::Cpu1Power => self.cpu1_power,
            Metric::FanPower => self.fan_power,
            Metric::Cpu0Temp => self.cpu0_temp,
            Metric::Cpu1Temp => self.cpu1_temp,
        }
    }

    /// This reading with `metric` replaced by `value`.
    pub open spec fn with(self, metric: Metric, value: Option<u64>) -> SensorReading {
        match metric {
            Metric::PsuInput => SensorReading { psu_pin: value, ..self },
            Metric::CpuTotal => SensorReading { cpu_power: value, ..self },
            Metric::Cpu0Power => SensorReading { cpu0_power: value, ..self },
            Metric::Cpu1Power => SensorReading { cpu1_power: value, ..self },
            Metric::FanPower => SensorReading { fan_power: value, ..self },
            Metric::Cpu0Temp => SensorReading { cpu0_temp: value, ..self },
            Metric::Cpu1Temp => SensorReading { cpu1_temp: value, ..self },
        }
    }

    /// This reading after one sensor entry: a recognised name replaces its
    /// metric by the entry's value, absent or not; any other name changes
    /// nothing.
    pub open spec fn with_entry(self, name: Seq<char>, value: Option<u64>) -> SensorReading {
        match metric_named(name) {
            Some(metric) => self.with(metric, value),
            None => self,
        }
    }

    /// A reading with every metric absent.
    pub fn new() -> (reading: SensorReading)
        ensures
            reading == SensorReading::empty(),
    {
        SensorReading {
            psu_pin: None,
            cpu_power: None,
            cpu0_power: None,
            cpu1_power: None,
            fan_power: None,
            cpu0_temp: None,
            cpu1_temp: None,
        }
    }

    /// The value of `metric`.
    #[verifier::when_used_as_spec(spec_get)]
    pub fn get(&self, metric: Metric) -> (value: Option<u64>)
        ensures
            value == self.spec_get(metric),
    {
        match metric {
            Metric::PsuInput => self.psu_pin,
            Metric::CpuTotal => self.cpu_power,
            Metric::Cpu0Power => self.cpu0_power,
            Metric::Cpu1Power => self.cpu1_power,
            Metric::FanPower => self.fan_power,
            Metric::Cpu0Temp => self.cpu0_temp,
            Metric::Cpu1Temp => self.cpu1_temp,
        }
    }

    /// Replaces the value of `metric`.
    pub fn set(&mut self, metric: Metric, value: Option<u64>)
        ensures
            *final(self) == old(self).with(metric, value),
    {
        match metric {
            Metric::PsuInput => self.psu_pin = value,
            Metric::CpuTotal => self.cpu_power = value,
            Metric::Cpu0Power => self.cpu0_power = value,
            Metric::Cpu1Power => self.cpu1_power = value,
            Metric::FanPower => self.fan_power = value,
            Metric::Cpu0Temp => self.cpu0_temp = value,
            Metric::Cpu1Temp => self.cpu1_temp = value,
        }
    }

    /// Takes in one sensor entry: its name and its value, if it had a usable
    /// one.
    pub fn record(&mut self, name: &str, value: Option<u64>)
        ensures
            *final(self) == old(self).with_entry(name@, value),
    {
        match Metric::from_name(name) {
            Some(metric) => self.set(metric, value),
            None => {},
        }
    }
}

/// The name of a sensor entry: its string member `Name`, or the empty name
/// where there is none.
pub open spec fn entry_name(entry: JsonData) -> Seq<char> {
    match member_of(entry, "Name"@) {
        Some(JsonData::Text(name)) => name,
        _ => Seq::empty(),
    }
}

/// The value of a sensor entry: its member `Reading` where that is a
/// non-negative integer below 2^64, absent otherwise.
pub open spec fn entry_value(entry: JsonData) -> Option<u64> {
    match member_of(entry, "Reading"@) {
        Some(JsonData::Number(n)) => n,
        _ => None,
    }
}

/// The reading that a sensor list gives: starting from the empty reading,
/// each entry is taken in, first to last.
pub open spec fn reading_of_entries(entries: Seq<JsonData>) -> SensorReading
    decreases entries.len(),
{
    if entries.len() == 0 {
        SensorReading::empty()
    } else {
        reading_of_entries(entries.drop_last()).with_entry(
            entry_name(entries.last()),
            entry_value(entries.last()),
        )
    }
}

/// The reading that a response document gives: that of its array member
/// `Sensors`, or `None` where the document has no such array.
pub open spec fn reading_in(doc: JsonData) -> Option<SensorReading> {
    match member_of(doc, "Sensors"@) {
        Some(JsonData::Array(entries)) => Some(reading_of_entries(entries)),
        _ => None,
    }
}

/// A sensor entry under a name that is none of the recognised names changes
/// no metric of a reading, whatever value it carries.
pub proof fn law_unrecognised_entry_is_ignored(
    reading: SensorReading,
    name: Seq<char>,
    value: Option<u64>,
)
    requires
        metric_named(name) is None,
    ensures
        reading.with_entry(name, value) == reading,
{
}

/// A sensor entry under a recognised name gives its metric exactly the
/// entry's value: an entry without a usable number leaves the metric absent,
/// never zero. Every other metric keeps its value.
pub proof fn law_entry_sets_only_its_metric(
    reading: SensorReading,
    name: Seq<char>,
    value: Option<u64>,
    metric: Metric,
)
    requires
        metric_named(name) == Some(metric),
    ensures
        reading.with_entry(name, value).get(metric) == value,
        forall|other: Metric|
            other != metric ==> #[trigger] reading.with_entry(name, value).get(other)
                == reading.get(other),
{
}

/// Whether a sensor entry is named for `metric`.
pub open spec fn names_metric(entry: JsonData, metric: Metric) -> bool {
    metric_named(entry_name(entry)) == Some(metric)
}

proof fn lemma_entry_effect(
    reading: SensorReading,
    name: Seq<char>,
    value: Option<u64>,
    metric: Metric,
)
    ensures
        reading.with_entry(name, value).get(metric) == (if metric_named(name) == Some(metric) {
            value
        } else {
            reading.get(metric)
        }),
{
}

/// In the reading of a sensor list each metric has the value of the last
/// entry that is named for it, and is absent where no entry is. So a metric
/// is present only with the number that this entry carried.
pub proof fn law_metric_follows_last_entry(entries: Seq<JsonData>, metric: Metric)
    ensures
        (forall|i: int| 0 <= i < entries.len() ==> !#[trigger] names_metric(entries[i], metric))
            ==> reading_of_entries(entries).get(metric) is None,
        forall|i: int|
            0 <= i < entries.len() && #[trigger] names_metric(entries[i], metric) && (forall|
                j: int,
            |
                i < j < entries.len() ==> !#[trigger] names_metric(entries[j], metric))
                ==> reading_of_entries(entries).get(metric) == entry_value(entries[i]),
    decreases entries.len(),
{
    if entries.len() > 0 {
        let front = entries.drop_last();
        let last = entries.last();
        let n = front.len() as int;
        law_metric_follows_last_entry(front, metric);
        lemma_entry_effect(
            reading_of_entries(front),
            entry_name(last),
            entry_value(last),
            metric,
        );
        assert(forall|i: int| 0 <= i < n ==> front[i] == entries[i]);
        assert(entries[n] == last);
        if names_metric(last, metric) {
            assert(reading_of_entries(entries).get(metric) == entry_value(last));
        } else {
            assert(reading_of_entries(entries).get(metric) == reading_of_entries(front).get(
                metric,
            ));
            assert forall|i: int|
                0 <= i < entries.len() && #[trigger] names_metric(entries[i], metric) && (forall|
                    j: int,
                |
                    i < j < entries.len() ==> !#[trigger] names_metric(entries[j], metric))
                    implies reading_of_entries(entries).get(metric) == entry_value(entries[i]) by {
                assert(i < n);
                assert(names_metric(front[i], metric));
                assert forall|j: int| i < j < n implies !#[trigger] names_metric(
                    front[j],
                    metric,
                ) by {
                    assert(!names_metric(entries[j], metric));
                }
            }
        }
    }
}

/// Why a poll of one controller gave no reading.
#[derive(Clone, Copy, Debug, PartialEq, Eq, Structural)]
pub enum PollFailure {
    /// No response was received.
    Transport,
    /// The response body is not a JSON document.
    Malformed,
    /// The document has no array member `Sensors`.
    NoSensors,
}

/// What a response body gives: the reading in the document it parses to.
pub open spec fn reading_of_body(body: Seq<char>) -> Result<SensorReading, PollFailure> {
    match json_of_text(body) {
        None => Err(PollFailure::Malformed),
        Some(doc) => match reading_in(doc) {
            Some(reading) => Ok(reading),
            None => Err(PollFailure::NoSensors),
        },
    }
}

/// Parses a response body and reads its sensor list.
pub fn reading_from_body(body: &str) -> (outcome: Result<SensorReading, PollFailure>)
    ensures
        outcome == reading_of_body(body@),
{
    match parse_value(body) {
        Err(_) => Err(PollFailure::Malformed),
        Ok(doc) => match reading_from_json(&doc) {
            Some(reading) => Ok(reading),
            None => Err(PollFailure::NoSensors),
        },
    }
}

/// Reads the sensor list of a parsed response.
pub fn reading_from_json(doc: &serde_json::Value) -> (reading: Option<SensorReading>)
    ensures
        reading == reading_in(json_data(*doc)),
{
    let sensors = match member(doc, "Sensors") {
        Some(sensors) => sensors,
        None => {
            return None;
        },
    };
    let entries = match sensors.as_array() {
        Some(entries) => entries,
        None => {
            return None;
        },
    };
    let ghost data = entries@.map_values(|item: serde_json::Value| json_data(item));
    let mut reading = SensorReading::new();
    let mut i: usize = 0;
    while i < entries.len()
        invariant
            i <= entries.len(),
            data == entries@.map_values(|item: serde_json::Value| json_data(item)),
            reading == reading_of_entries(data.take(i as int)),
        decreases entries.len() - i,
    {
        let entry = &entries[i];
        proof {
            reveal_strlit("");
        }
        let name = match member(entry, "Name") {
            Some(name) => match name.as_str() {
                Some(name) => name,
                None => "",
            },
            None => "",
        };
        let value = match member(entry, "Reading") {
            Some(value) => value.as_u64(),
            None => None,
        };
        reading.record(name, value);
        proof {
            let next = data.take(i + 1);
            assert(next.drop_last() =~= data.take(i as int));
            assert(next.last() == json_data(*entry));
            assert(name@ =~= entry_name(json_data(*entry)));
        }
        i += 1;
    }
    assert(data.take(i as int) =~= data);
    Some(reading)
}

} // verus!

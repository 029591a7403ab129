//! The telemetry report sent to the maritime tracking service: the named
//! fields of its JSON form and the bytes of its binary form, built from the
//! latest GPS fix and device readings.

use vstd::prelude::*;

use crate::bytes::{push_be16, push_be32, push_be64, push_bytes, u16_be, u32_be, u64_be};
use crate::modbus::crc::{crc16_modbus, spec_crc16};
use crate::devices::aio_module::{AioChannelData, AioModuleData};
use crate::storage::models::{field_views, MtwsPayload};
use crate::config::settings::Config;
use crate::utils::clock::now_seconds;
use crate::utils::error::ModbusError;
use crate::text::{
    bool_string, bool_text, concat, decimal, decimal_string, owned, signed_decimal, signed_decimal_string,
    split_char, split_spec,
};

verus! {

/// GPS values in the units the service expects.
#[derive(Debug, Clone)]
pub struct GpsFigures {
    /// Degrees times 60000.
    pub longitude: i64,
    /// Degrees times 60000.
    pub latitude: i64,
    /// Speed in km/h with two decimals, as text.
    pub speed_text: String,
    /// Speed in km/h, as the bits of a single-precision number.
    pub speed_bits: u32,
    /// Degrees times 10.
    pub heading: i32,
    /// Metres times 10.
    pub altitude: i32,
    pub satellites: u32,
}

/// A measured quantity: its text and the bits of its single-precision value.
#[derive(Debug, Clone)]
pub struct Measurement {
    pub text: String,
    pub bits: u32,
}

/// The values of one flowmeter that the report carries.
#[derive(Debug, Clone)]
pub struct FlowmeterValues {
    pub volume_total: Measurement,
    pub density_flow: Measurement,
    pub temperature: Measurement,
    pub mass_flow_rate: Measurement,
}

/// What is known of one RPM sensor when the report is built.
#[derive(Debug, Clone)]
pub struct RpmDeviceInput {
    pub address: u8,
    /// The channels configured for it.
    pub total_channels: u8,
    /// The `engine_types` entry of its metadata: types by channel, separated
    /// by commas.
    pub engine_types: Option<String>,
    /// The speeds of its channels by channel number, when its data could be
    /// read.
    pub channel_rpms: Option<Vec<(u8, u16)>>,
}

/// One engine of the report.
#[derive(Debug, Clone)]
pub struct EngineData {
    pub rpm: u16,
    pub duration: u32,
    pub is_running: bool,
    /// "main", "aux", or another kind.
    pub engine_type: String,
}

/// What is known of one I/O module when the report is built.
#[derive(Debug, Clone)]
pub struct AioDeviceInput {
    pub address: u8,
    pub data: Option<AioModuleData>,
}

/// Everything a report is built from.
#[derive(Debug, Clone)]
pub struct PayloadInput {
    pub gps: Option<GpsFigures>,
    /// One entry per configured flowmeter, in order: its values when read.
    pub flowmeters: Vec<Option<FlowmeterValues>>,
    pub rpm_devices: Vec<RpmDeviceInput>,
    pub aio_devices: Vec<AioDeviceInput>,
}

/// A named value of the report.
pub type Field = (Seq<char>, Seq<char>);

/// An engine: speed, running time, whether it runs, its kind.
pub type EngineView = (u16, u32, bool, Seq<char>);

pub open spec fn engine_view(e: EngineData) -> EngineView {
    (e.rpm, e.duration, e.is_running, e.engine_type@)
}

/// The GPS fields: the values when there is a fix, zeros otherwise.
pub open spec fn gps_fields(gps: Option<GpsFigures>) -> Seq<Field> {
    match gps {
        Some(g) => seq![
            ("longitude"@, signed_decimal(g.longitude as int)),
            ("latitude"@, signed_decimal(g.latitude as int)),
            ("speed"@, g.speed_text@),
            ("heading"@, signed_decimal(g.heading as int)),
            ("altitude"@, signed_decimal(g.altitude as int)),
            ("gpsNumSats"@, decimal(g.satellites as nat)),
        ],
        None => seq![
            ("longitude"@, "0"@),
            ("latitude"@, "0"@),
            ("speed"@, "0.00"@),
            ("heading"@, "0"@),
            ("altitude"@, "0"@),
            ("gpsNumSats"@, "0"@),
        ],
    }
}

/// The fields before the device data: time, position, power, wind.
pub open spec fn header_fields(timestamp: i64, gps: Option<GpsFigures>) -> Seq<Field> {
    seq![("timestamp"@, signed_decimal(timestamp as int))] + gps_fields(gps) + seq![
        ("batteryVoltage"@, "8086"@),
        ("extPowerVoltage"@, "27838"@),
        ("windSpeed"@, "0"@),
        ("windDirection"@, "0"@),
    ]
}

/// The number of flowmeter slots: one per flowmeter, at least one.
pub open spec fn flowmeter_slots(n: nat) -> nat {
    if n == 0 {
        1
    } else {
        n
    }
}

/// Quantity `k` (0 volume total, 1 density, 2 temperature, 3 flow rate) of a
/// flowmeter.
pub open spec fn quantity(v: FlowmeterValues, k: int) -> Measurement {
    if k == 0 {
        v.volume_total
    } else if k == 1 {
        v.density_flow
    } else if k == 2 {
        v.temperature
    } else {
        v.mass_flow_rate
    }
}

/// The field name of quantity `k`.
pub open spec fn quantity_name(k: int) -> Seq<char> {
    if k == 0 {
        "flowmeterVolumeTotal"@
    } else if k == 1 {
        "flowmeterDensity"@
    } else if k == 2 {
        "flowmeterTemperature"@
    } else {
        "flowmeterFlowrate"@
    }
}

/// Quantity `k` of flowmeter slot `i`, if it was read.
pub open spec fn slot_value(flows: Seq<Option<FlowmeterValues>>, i: int, k: int) -> Option<Measurement> {
    if 0 <= i < flows.len() {
        match flows[i] {
            Some(v) => Some(quantity(v, k)),
            None => None,
        }
    } else {
        None
    }
}

/// The fields of quantity `k`, one per flowmeter slot, "0" for a slot not read.
pub open spec fn quantity_fields(flows: Seq<Option<FlowmeterValues>>, k: int) -> Seq<Field> {
    Seq::new(
        flowmeter_slots(flows.len()),
        |i: int|
            (quantity_name(k) + decimal((i + 1) as nat), match slot_value(flows, i, k) {
                Some(m) => m.text@,
                None => "0"@,
            }),
    )
}

/// The flowmeter fields: all volume totals, then densities, temperatures and
/// flow rates.
pub open spec fn flowmeter_fields(flows: Seq<Option<FlowmeterValues>>) -> Seq<Field> {
    quantity_fields(flows, 0) + quantity_fields(flows, 1) + quantity_fields(flows, 2) + quantity_fields(flows, 3)
}

/// The kind of the engine on channel `ch`: the `ch`-th comma-separated entry
/// of the device's engine types, "main" when there is none.
pub open spec fn engine_type_for(types: Option<String>, ch: u8) -> Seq<char> {
    match types {
        Some(t) => {
            let parts = split_spec(t@, ',');
            if 1 <= ch && ch - 1 < parts.len() {
                parts[ch - 1]
            } else {
                "main"@
            }
        },
        None => "main"@,
    }
}

/// The engines of one RPM sensor: one per channel read, or, when its data
/// could not be read, one idle "main" engine per configured channel.
pub open spec fn device_engines(d: RpmDeviceInput) -> Seq<EngineView> {
    match d.channel_rpms {
        Some(chs) => Seq::new(
            chs@.len(),
            |i: int| (chs@[i].1, 0u32, chs@[i].1 > 500, engine_type_for(d.engine_types, chs@[i].0)),
        ),
        None => Seq::new(d.total_channels as nat, |i: int| (0u16, 0u32, false, "main"@)),
    }
}

/// The engines of all RPM sensors, sensor by sensor.
pub open spec fn all_engines(devs: Seq<RpmDeviceInput>) -> Seq<EngineView>
    decreases devs.len(),
{
    if devs.len() == 0 {
        Seq::empty()
    } else {
        all_engines(devs.drop_last()) + device_engines(devs.last())
    }
}

/// Whether an engine kind counts as auxiliary; every other kind is a main engine.
pub open spec fn is_aux_type(t: Seq<char>) -> bool {
    t == "aux"@ || t == "AE"@ || t == "auxiliary"@
}

pub open spec fn main_engines(engines: Seq<EngineView>) -> Seq<EngineView> {
    engines.filter(|e: EngineView| !is_aux_type(e.3))
}

pub open spec fn aux_engines(engines: Seq<EngineView>) -> Seq<EngineView> {
    engines.filter(|e: EngineView| is_aux_type(e.3))
}

/// The number of auxiliary engine slots: one per auxiliary engine, at least three.
pub open spec fn aux_slots(n: nat) -> nat {
    if n < 3 {
        3
    } else {
        n
    }
}

/// Appends the field `name` = `value` to the report.
fn push_field(p: &mut MtwsPayload, name: String, value: String)
    ensures
        field_views(final(p).fields@) == field_views(old(p).fields@).push((name@, value@)),
        final(p).raw_data == old(p).raw_data,
        final(p).sin == old(p).sin,
        final(p).name == old(p).name,
        final(p).is_forward == old(p).is_forward,
        final(p).min == old(p).min,
{
    p.add_field(name, value);
}

/// Appends the field `name` = `value`, both given as literals.
fn push_lit(p: &mut MtwsPayload, name: &str, value: &str)
    ensures
        field_views(final(p).fields@) == field_views(old(p).fields@).push((name@, value@)),
        final(p).raw_data == old(p).raw_data,
        final(p).sin == old(p).sin,
        final(p).name == old(p).name,
        final(p).is_forward == old(p).is_forward,
        final(p).min == old(p).min,
{
    p.add_field(owned(name), owned(value));
}

/// The report's header fields are appended.
fn push_header(p: &mut MtwsPayload, timestamp: i64, gps: &Option<GpsFigures>)
    ensures
        field_views(final(p).fields@) == field_views(old(p).fields@) + header_fields(timestamp, *gps),
        final(p).raw_data == old(p).raw_data,
        final(p).sin == old(p).sin,
        final(p).name == old(p).name,
        final(p).is_forward == old(p).is_forward,
        final(p).min == old(p).min,
{
    push_field(p, owned("timestamp"), signed_decimal_string(timestamp));
    match gps {
        Some(g) => {
            push_field(p, owned("longitude"), signed_decimal_string(g.longitude));
            push_field(p, owned("latitude"), signed_decimal_string(g.latitude));
            push_field(p, owned("speed"), g.speed_text.clone());
            push_field(p, owned("heading"), signed_decimal_string(g.heading as i64));
            push_field(p, owned("altitude"), signed_decimal_string(g.altitude as i64));
            push_field(p, owned("gpsNumSats"), decimal_string(g.satellites as u64));
        },
        None => {
            push_lit(p, "longitude", "0");
            push_lit(p, "latitude", "0");
            push_lit(p, "speed", "0.00");
            push_lit(p, "heading", "0");
            push_lit(p, "altitude", "0");
            push_lit(p, "gpsNumSats", "0");
        },
    }
    push_lit(p, "batteryVoltage", "8086");
    push_lit(p, "extPowerVoltage", "27838");
    push_lit(p, "windSpeed", "0");
    push_lit(p, "windDirection", "0");
    proof {
        assert(field_views(final(p).fields@) =~= field_views(old(p).fields@) + header_fields(timestamp, *gps));
    }
}

/// The field name of quantity `k`.
fn quantity_name_string(k: usize) -> (s: String)
    ensures
        s@ == quantity_name(k as int),
{
    if k == 0 {
        owned("flowmeterVolumeTotal")
    } else if k == 1 {
        owned("flowmeterDensity")
    } else if k == 2 {
        owned("flowmeterTemperature")
    } else {
        owned("flowmeterFlowrate")
    }
}

/// The text of quantity `k` of flowmeter slot `i`, "0" when it was not read.
fn slot_text(flows: &Vec<Option<FlowmeterValues>>, i: usize, k: usize) -> (s: String)
    ensures
        s@ == (match slot_value(flows@, i as int, k as int) {
            Some(m) => m.text@,
            None => "0"@,
        }),
{
    if i < flows.len() {
        match &flows[i] {
            Some(v) => {
                let m = if k == 0 {
                    &v.volume_total
                } else if k == 1 {
                    &v.density_flow
                } else if k == 2 {
                    &v.temperature
                } else {
                    &v.mass_flow_rate
                };
                m.text.clone()
            },
            None => owned("0"),
        }
    } else {
        owned("0")
    }
}

/// The flowmeter fields are appended.
fn push_flowmeter_fields(p: &mut MtwsPayload, flows: &Vec<Option<FlowmeterValues>>)
    ensures
        field_views(final(p).fields@) == field_views(old(p).fields@) + flowmeter_fields(flows@),
        final(p).raw_data == old(p).raw_data,
        final(p).sin == old(p).sin,
        final(p).name == old(p).name,
        final(p).is_forward == old(p).is_forward,
        final(p).min == old(p).min,
{
    let slots: usize = if flows.len() == 0 { 1 } else { flows.len() };
    let ghost start = field_views(p.fields@);
    let mut k: usize = 0;
    while k < 4
        invariant
            k <= 4,
            slots == flowmeter_slots(flows@.len()),
            field_views(p.fields@) == start + (if k == 0 {
                Seq::<Field>::empty()
            } else if k == 1 {
                quantity_fields(flows@, 0)
            } else if k == 2 {
                quantity_fields(flows@, 0) + quantity_fields(flows@, 1)
            } else if k == 3 {
                quantity_fields(flows@, 0) + quantity_fields(flows@, 1) + quantity_fields(flows@, 2)
            } else {
                flowmeter_fields(flows@)
            }),
            p.raw_data == old(p).raw_data,
            p.sin == old(p).sin,
            p.name == old(p).name,
            p.is_forward == old(p).is_forward,
            p.min == old(p).min,
        decreases 4 - k,
    {
        let ghost before = field_views(p.fields@);
        let base = quantity_name_string(k);
        let mut i: usize = 0;
        while i < slots
            invariant
                k < 4,
                i <= slots,
                slots == flowmeter_slots(flows@.len()),
                base@ == quantity_name(k as int),
                field_views(p.fields@) == before + quantity_fields(flows@, k as int).take(i as int),
                p.raw_data == old(p).raw_data,
                p.sin == old(p).sin,
                p.name == old(p).name,
                p.is_forward == old(p).is_forward,
                p.min == old(p).min,
            decreases slots - i,
        {
            let number = decimal_string((i + 1) as u64);
            let name = concat(base.as_str(), number.as_str());
            let value = slot_text(flows, i, k);
            push_field(p, name, value);
            proof {
                assert(quantity_fields(flows@, k as int).take(i + 1) =~= quantity_fields(flows@, k as int).take(
                    i as int,
                ).push(quantity_fields(flows@, k as int)[i as int]));
            }
            i += 1;
        }
        proof {
            assert(quantity_fields(flows@, k as int).take(slots as int) =~= quantity_fields(flows@, k as int));
        }
        k += 1;
    }
}

/// The channels of every sensor read that has engine types configured are
/// numbered from one (the engine type of a channel is looked up at its number
/// less one).
pub open spec fn channels_numbered(devs: Seq<RpmDeviceInput>) -> bool {
    forall|d: int, i: int|
        #![trigger devs[d].channel_rpms->0@[i]]
        0 <= d < devs.len() && devs[d].engine_types is Some && devs[d].channel_rpms is Some && 0 <= i
            < devs[d].channel_rpms->0@.len() ==> devs[d].channel_rpms->0@[i].0 >= 1
}

/// The kind of the engine on channel `ch`.
fn engine_type_string(types: &Option<String>, ch: u8) -> (s: String)
    requires
        types is Some ==> ch >= 1,
    ensures
        s@ == engine_type_for(*types, ch),
{
    match types {
        Some(t) => {
            let parts = split_char(t.as_str(), ',');
            let idx = (ch - 1) as usize;
            proof {
                assert(parts@.map_values(|p: String| p@).len() == parts@.len());
            }
            if idx < parts.len() {
                proof {
                    assert(parts@.map_values(|p: String| p@)[idx as int] == parts@[idx as int]@);
                }
                parts[idx].clone()
            } else {
                owned("main")
            }
        },
        None => owned("main"),
    }
}

/// The engines of one sensor are appended to `out`.
fn push_device_engines(out: &mut Vec<EngineData>, d: &RpmDeviceInput)
    requires
        d.channel_rpms is Some && d.engine_types is Some ==> forall|i: int|
            0 <= i < d.channel_rpms->0@.len() ==> (#[trigger] d.channel_rpms->0@[i]).0 >= 1,
    ensures
        final(out)@.map_values(|e: EngineData| engine_view(e)) == old(out)@.map_values(|e: EngineData| engine_view(e))
            + device_engines(*d),
{
    let ghost start = out@.map_values(|e: EngineData| engine_view(e));
    match &d.channel_rpms {
        Some(chs) => {
            let mut i: usize = 0;
            while i < chs.len()
                invariant
                    d.channel_rpms == Some(*chs),
                    d.engine_types is Some ==> forall|j: int| 0 <= j < chs@.len() ==> (#[trigger] chs@[j]).0 >= 1,
                    i <= chs@.len(),
                    out@.map_values(|e: EngineData| engine_view(e)) == start + device_engines(*d).take(i as int),
                decreases chs.len() - i,
            {
                let (ch, rpm) = chs[i];
                let engine_type = engine_type_string(&d.engine_types, ch);
                let ghost prev = out@.map_values(|e: EngineData| engine_view(e));
                let engine = EngineData { rpm, duration: 0, is_running: rpm > 500, engine_type };
                proof {
                    assert(engine_view(engine) == device_engines(*d)[i as int]);
                }
                out.push(engine);
                proof {
                    assert(out@.map_values(|e: EngineData| engine_view(e)) =~= prev.push(engine_view(engine)));
                    assert(device_engines(*d).take(i + 1) =~= device_engines(*d).take(i as int).push(
                        device_engines(*d)[i as int],
                    ));
                    assert(out@.map_values(|e: EngineData| engine_view(e)) =~= start + device_engines(*d).take(i + 1));
                }
                i += 1;
            }
            proof {
                assert(device_engines(*d).take(chs@.len() as int) =~= device_engines(*d));
            }
        },
        None => {
            let mut i: u8 = 0;
            while i < d.total_channels
                invariant
                    d.channel_rpms is None,
                    i <= d.total_channels,
                    out@.map_values(|e: EngineData| engine_view(e)) == start + device_engines(*d).take(i as int),
                decreases d.total_channels - i,
            {
                let ghost prev = out@.map_values(|e: EngineData| engine_view(e));
                let engine = EngineData { rpm: 0, duration: 0, is_running: false, engine_type: owned("main") };
                proof {
                    assert(engine_view(engine) == device_engines(*d)[i as int]);
                }
                out.push(engine);
                proof {
                    assert(out@.map_values(|e: EngineData| engine_view(e)) =~= prev.push(engine_view(engine)));
                    assert(device_engines(*d).take(i + 1) =~= device_engines(*d).take(i as int).push(
                        device_engines(*d)[i as int],
                    ));
                    assert(out@.map_values(|e: EngineData| engine_view(e)) =~= start + device_engines(*d).take(i + 1));
                }
                i += 1;
            }
            proof {
                assert(device_engines(*d).take(d.total_channels as int) =~= device_engines(*d));
            }
        },
    }
}

/// The engines of all sensors, sensor by sensor.
pub fn collect_engines(devs: &Vec<RpmDeviceInput>) -> (engines: Vec<EngineData>)
    requires
        channels_numbered(devs@),
    ensures
        engines@.map_values(|e: EngineData| engine_view(e)) == all_engines(devs@),
{
    let mut engines: Vec<EngineData> = Vec::new();
    let mut i: usize = 0;
    proof {
        assert(engines@.map_values(|e: EngineData| engine_view(e)) =~= all_engines(devs@.take(0)));
    }
    while i < devs.len()
        invariant
            channels_numbered(devs@),
            i <= devs@.len(),
            engines@.map_values(|e: EngineData| engine_view(e)) == all_engines(devs@.take(i as int)),
        decreases devs.len() - i,
    {
        proof {
            assert(devs@.take(i + 1).drop_last() =~= devs@.take(i as int));
            assert forall|j: int|
                0 <= j < devs@[i as int].channel_rpms->0@.len() && devs@[i as int].channel_rpms is Some
                    && devs@[i as int].engine_types is Some implies (
            #[trigger] devs@[i as int].channel_rpms->0@[j]).0 >= 1 by {}
        }
        push_device_engines(&mut engines, &devs[i]);
        i += 1;
    }
    proof {
        assert(devs@.take(devs@.len() as int) =~= devs@);
    }
    engines
}

/// Whether an engine kind counts as auxiliary.
fn is_aux(t: &str) -> (b: bool)
    ensures
        b == is_aux_type(t@),
{
    crate::text::str_eq(t, "aux") || crate::text::str_eq(t, "AE") || crate::text::str_eq(t, "auxiliary")
}

/// The engines split into main and auxiliary ones, each in order.
pub fn split_engines(engines: &Vec<EngineData>) -> (r: (Vec<EngineData>, Vec<EngineData>))
    ensures
        r.0@.map_values(|e: EngineData| engine_view(e)) == main_engines(
            engines@.map_values(|e: EngineData| engine_view(e)),
        ),
        r.1@.map_values(|e: EngineData| engine_view(e)) == aux_engines(
            engines@.map_values(|e: EngineData| engine_view(e)),
        ),
{
    let ghost all = engines@.map_values(|e: EngineData| engine_view(e));
    let mut main: Vec<EngineData> = Vec::new();
    let mut aux: Vec<EngineData> = Vec::new();
    let mut i: usize = 0;
    while i < engines.len()
        invariant
            all == engines@.map_values(|e: EngineData| engine_view(e)),
            i <= engines@.len(),
            main@.map_values(|e: EngineData| engine_view(e)) == main_engines(all.take(i as int)),
            aux@.map_values(|e: EngineData| engine_view(e)) == aux_engines(all.take(i as int)),
        decreases engines.len() - i,
    {
        let e = &engines[i];
        let copy = EngineData {
            rpm: e.rpm,
            duration: e.duration,
            is_running: e.is_running,
            engine_type: e.engine_type.clone(),
        };
        let ghost before_main = main@.map_values(|e: EngineData| engine_view(e));
        let ghost before_aux = aux@.map_values(|e: EngineData| engine_view(e));
        proof {
            reveal(Seq::filter);
            assert(all.take(i + 1).drop_last() =~= all.take(i as int));
            assert(all.take(i + 1).last() == engine_view(*e));
        }
        if is_aux(e.engine_type.as_str()) {
            aux.push(copy);
            proof {
                assert(aux@.map_values(|e: EngineData| engine_view(e)) =~= before_aux.push(engine_view(*e)));
                assert(main@.map_values(|e: EngineData| engine_view(e)) =~= before_main);
            }
        } else {
            main.push(copy);
            proof {
                assert(main@.map_values(|e: EngineData| engine_view(e)) =~= before_main.push(engine_view(*e)));
                assert(aux@.map_values(|e: EngineData| engine_view(e)) =~= before_aux);
            }
        }
        i += 1;
    }
    proof {
        assert(all.take(engines@.len() as int) =~= all);
    }
    (main, aux)
}

/// The fields of given main and auxiliary engines.
pub open spec fn engine_fields_of(main: Seq<EngineView>, aux: Seq<EngineView>) -> Seq<Field> {
    Seq::new(main.len(), |i: int| ("engineRPM"@ + decimal((i + 1) as nat), decimal(main[i].0 as nat))) + Seq::new(
        main.len(),
        |i: int| ("engineDurationME"@ + decimal((i + 1) as nat), decimal(main[i].1 as nat)),
    ) + Seq::new(
        2 * aux_slots(aux.len()),
        |k: int|
            {
                let n = k / 2;
                if k % 2 == 0 {
                    ("engineDurationAE"@ + decimal((n + 1) as nat), if n < aux.len() {
                        decimal(aux[n].1 as nat)
                    } else {
                        "0"@
                    })
                } else {
                    ("statusAE"@ + decimal((n + 1) as nat), if n < aux.len() {
                        bool_text(aux[n].2)
                    } else {
                        "false"@
                    })
                }
            },
    )
}

/// The engine fields are appended.
fn push_engine_fields(p: &mut MtwsPayload, main: &Vec<EngineData>, aux: &Vec<EngineData>)
    ensures
        field_views(final(p).fields@) == field_views(old(p).fields@) + engine_fields_of(
            main@.map_values(|e: EngineData| engine_view(e)),
            aux@.map_values(|e: EngineData| engine_view(e)),
        ),
        final(p).raw_data == old(p).raw_data,
        final(p).sin == old(p).sin,
        final(p).name == old(p).name,
        final(p).is_forward == old(p).is_forward,
        final(p).min == old(p).min,
{
    let ghost mv = main@.map_values(|e: EngineData| engine_view(e));
    let ghost av = aux@.map_values(|e: EngineData| engine_view(e));
    let ghost rpm_part = Seq::new(mv.len(), |i: int| ("engineRPM"@ + decimal((i + 1) as nat), decimal(mv[i].0 as nat)));
    let ghost me_part = Seq::new(
        mv.len(),
        |i: int| ("engineDurationME"@ + decimal((i + 1) as nat), decimal(mv[i].1 as nat)),
    );
    let ghost ae_part = Seq::new(
        2 * aux_slots(av.len()),
        |k: int|
            {
                let n = k / 2;
                if k % 2 == 0 {
                    ("engineDurationAE"@ + decimal((n + 1) as nat), if n < av.len() {
                        decimal(av[n].1 as nat)
                    } else {
                        "0"@
                    })
                } else {
                    ("statusAE"@ + decimal((n + 1) as nat), if n < av.len() {
                        bool_text(av[n].2)
                    } else {
                        "false"@
                    })
                }
            },
    );
    let ghost start = field_views(p.fields@);
    let mut i: usize = 0;
    while i < main.len()
        invariant
            mv == main@.map_values(|e: EngineData| engine_view(e)),
            rpm_part == Seq::new(mv.len(), |i: int| ("engineRPM"@ + decimal((i + 1) as nat), decimal(mv[i].0 as nat))),
            i <= main@.len(),
            field_views(p.fields@) == start + rpm_part.take(i as int),
            p.raw_data == old(p).raw_data,
            p.sin == old(p).sin,
            p.name == old(p).name,
            p.is_forward == old(p).is_forward,
            p.min == old(p).min,
        decreases main.len() - i,
    {
        let number = decimal_string((i + 1) as u64);
        push_field(p, concat("engineRPM", number.as_str()), decimal_string(main[i].rpm as u64));
        proof {
            assert(rpm_part.take(i + 1) =~= rpm_part.take(i as int).push(rpm_part[i as int]));
        }
        i += 1;
    }
    proof {
        assert(rpm_part.take(mv.len() as int) =~= rpm_part);
    }
    let ghost after_rpm = field_views(p.fields@);
    let mut i: usize = 0;
    while i < main.len()
        invariant
            mv == main@.map_values(|e: EngineData| engine_view(e)),
            me_part == Seq::new(
                mv.len(),
                |i: int| ("engineDurationME"@ + decimal((i + 1) as nat), decimal(mv[i].1 as nat)),
            ),
            i <= main@.len(),
            field_views(p.fields@) == after_rpm + me_part.take(i as int),
            p.raw_data == old(p).raw_data,
            p.sin == old(p).sin,
            p.name == old(p).name,
            p.is_forward == old(p).is_forward,
            p.min == old(p).min,
        decreases main.len() - i,
    {
        let number = decimal_string((i + 1) as u64);
        push_field(p, concat("engineDurationME", number.as_str()), decimal_string(main[i].duration as u64));
        proof {
            assert(me_part.take(i + 1) =~= me_part.take(i as int).push(me_part[i as int]));
        }
        i += 1;
    }
    proof {
        assert(me_part.take(mv.len() as int) =~= me_part);
    }
    let ghost after_me = field_views(p.fields@);
    let slots: usize = if aux.len() < 3 { 3 } else { aux.len() };
    let mut n: usize = 0;
    while n < slots
        invariant
            av == aux@.map_values(|e: EngineData| engine_view(e)),
            slots == aux_slots(av.len()),
            ae_part == Seq::new(
                2 * aux_slots(av.len()),
                |k: int|
                    {
                        let n = k / 2;
                        if k % 2 == 0 {
                            ("engineDurationAE"@ + decimal((n + 1) as nat), if n < av.len() {
                                decimal(av[n].1 as nat)
                            } else {
                                "0"@
                            })
                        } else {
                            ("statusAE"@ + decimal((n + 1) as nat), if n < av.len() {
                                bool_text(av[n].2)
                            } else {
                                "false"@
                            })
                        }
                    },
            ),
            n <= slots,
            field_views(p.fields@) == after_me + ae_part.take(2 * n),
            p.raw_data == old(p).raw_data,
            p.sin == old(p).sin,
            p.name == old(p).name,
            p.is_forward == old(p).is_forward,
            p.min == old(p).min,
        decreases slots - n,
    {
        let number = decimal_string((n + 1) as u64);
        let (duration, status) = if n < aux.len() {
            (decimal_string(aux[n].duration as u64), bool_string(aux[n].is_running))
        } else {
            (owned("0"), owned("false"))
        };
        push_field(p, concat("engineDurationAE", number.as_str()), duration);
        push_field(p, concat("statusAE", number.as_str()), status);
        proof {
            assert((2 * n) / 2 == n && (2 * n) % 2 == 0);
            assert((2 * n + 1) / 2 == n && (2 * n + 1) % 2 == 1);
            assert(ae_part.take(2 * (n + 1)) =~= ae_part.take(2 * n).push(ae_part[2 * n]).push(ae_part[2 * n + 1]));
        }
        n += 1;
    }
    proof {
        assert(ae_part.take(2 * slots) =~= ae_part);
        assert(field_views(p.fields@) =~= start + engine_fields_of(mv, av));
    }
}

/// "aio" followed by the module's address.
pub open spec fn aio_prefix(a: u8) -> Seq<char> {
    "aio"@ + decimal(a as nat)
}

/// The field name suffix of channel quantity `f` (0 to 6).
pub open spec fn aio_suffix(f: int) -> Seq<char> {
    if f == 0 {
        "GearPulse"@
    } else if f == 1 {
        "Threshold"@
    } else if f == 2 {
        "Frequency"@
    } else if f == 3 {
        "RPM"@
    } else if f == 4 {
        "Average"@
    } else if f == 5 {
        "DurationRPM"@
    } else {
        "DurationAE"@
    }
}

/// Channel quantity `f` (0 to 6) of a channel.
pub open spec fn aio_quantity(c: AioChannelData, f: int) -> nat {
    if f == 0 {
        c.pulse_count as nat
    } else if f == 1 {
        c.threshold as nat
    } else if f == 2 {
        c.frequency as nat
    } else if f == 3 {
        c.rpm_value as nat
    } else if f == 4 {
        c.average_value as nat
    } else if f == 5 {
        c.duration_rpm as nat
    } else {
        c.duration_ae as nat
    }
}

/// The seven fields of a channel of module `a`.
pub open spec fn aio_channel_fields(a: u8, c: AioChannelData) -> Seq<Field> {
    Seq::new(
        7,
        |f: int| (aio_prefix(a) + "Ch"@ + decimal(c.channel_id as nat) + aio_suffix(f), decimal(aio_quantity(c, f))),
    )
}

/// The fields of all channels of module `a`, channel by channel.
pub open spec fn aio_channels_fields(a: u8, chs: Seq<AioChannelData>) -> Seq<Field>
    decreases chs.len(),
{
    if chs.len() == 0 {
        Seq::empty()
    } else {
        aio_channels_fields(a, chs.drop_last()) + aio_channel_fields(a, chs.last())
    }
}

/// The digital input fields of module `a`: "1" for an active input, "0" otherwise.
pub open spec fn din_fields(a: u8, dins: Seq<bool>) -> Seq<Field> {
    Seq::new(
        dins.len(),
        |i: int| (aio_prefix(a) + "DIN"@ + decimal((i + 1) as nat), if dins[i] { "1"@ } else { "0"@ }),
    )
}

/// The fields of a module that gave no data: zeros for four channels, and
/// no digital input active.
pub open spec fn offline_aio_fields(a: u8) -> Seq<Field> {
    Seq::new(28, |k: int| (aio_prefix(a) + "Ch"@ + decimal((k / 7 + 1) as nat) + aio_suffix(k % 7), "0"@)) + seq![
        (aio_prefix(a) + "DigitalInputs"@, "0"@),
    ] + Seq::new(16, |i: int| (aio_prefix(a) + "DigitalInputs"@ + decimal(i as nat), "false"@))
}

/// The fields of one module.
pub open spec fn aio_device_fields(d: AioDeviceInput) -> Seq<Field> {
    match d.data {
        Some(x) => aio_channels_fields(d.address, x.channels@) + din_fields(d.address, x.digital_inputs@),
        None => offline_aio_fields(d.address),
    }
}

/// The fields of all modules, module by module.
pub open spec fn aio_fields(devs: Seq<AioDeviceInput>) -> Seq<Field>
    decreases devs.len(),
{
    if devs.len() == 0 {
        Seq::empty()
    } else {
        aio_fields(devs.drop_last()) + aio_device_fields(devs.last())
    }
}

/// The field name suffix of channel quantity `f`.
fn aio_suffix_str(f: usize) -> (s: &'static str)
    ensures
        s@ == aio_suffix(f as int),
{
    if f == 0 {
        "GearPulse"
    } else if f == 1 {
        "Threshold"
    } else if f == 2 {
        "Frequency"
    } else if f == 3 {
        "RPM"
    } else if f == 4 {
        "Average"
    } else if f == 5 {
        "DurationRPM"
    } else {
        "DurationAE"
    }
}

/// Channel quantity `f` of a channel.
fn aio_quantity_value(c: &AioChannelData, f: usize) -> (v: u64)
    ensures
        v == aio_quantity(*c, f as int),
{
    if f == 0 {
        c.pulse_count as u64
    } else if f == 1 {
        c.threshold as u64
    } else if f == 2 {
        c.frequency as u64
    } else if f == 3 {
        c.rpm_value as u64
    } else if f == 4 {
        c.average_value as u64
    } else if f == 5 {
        c.duration_rpm as u64
    } else {
        c.duration_ae as u64
    }
}

/// The fields of one module are appended.
fn push_aio_device(p: &mut MtwsPayload, d: &AioDeviceInput)
    ensures
        field_views(final(p).fields@) == field_views(old(p).fields@) + aio_device_fields(*d),
        final(p).raw_data == old(p).raw_data,
        final(p).sin == old(p).sin,
        final(p).name == old(p).name,
        final(p).is_forward == old(p).is_forward,
        final(p).min == old(p).min,
{
    let addr = decimal_string(d.address as u64);
    let prefix = concat("aio", addr.as_str());
    let ghost start = field_views(p.fields@);
    match &d.data {
        Some(x) => {
            let mut i: usize = 0;
            while i < x.channels.len()
                invariant
                    prefix@ == aio_prefix(d.address),
                    i <= x.channels@.len(),
                    field_views(p.fields@) == start + aio_channels_fields(d.address, x.channels@.take(i as int)),
                    p.raw_data == old(p).raw_data,
                    p.sin == old(p).sin,
                    p.name == old(p).name,
                    p.is_forward == old(p).is_forward,
                    p.min == old(p).min,
                decreases x.channels.len() - i,
            {
                let c = &x.channels[i];
                let id = decimal_string(c.channel_id as u64);
                let head = concat(prefix.as_str(), "Ch");
                let head = concat(head.as_str(), id.as_str());
                let ghost before = field_views(p.fields@);
                let mut f: usize = 0;
                while f < 7
                    invariant
                        head@ == aio_prefix(d.address) + "Ch"@ + decimal(c.channel_id as nat),
                        f <= 7,
                        field_views(p.fields@) == before + aio_channel_fields(d.address, *c).take(f as int),
                        p.raw_data == old(p).raw_data,
                        p.sin == old(p).sin,
                        p.name == old(p).name,
                        p.is_forward == old(p).is_forward,
                        p.min == old(p).min,
                    decreases 7 - f,
                {
                    push_field(p, concat(head.as_str(), aio_suffix_str(f)), decimal_string(aio_quantity_value(c, f)));
                    proof {
                        assert(aio_channel_fields(d.address, *c).take(f + 1) =~= aio_channel_fields(
                            d.address,
                            *c,
                        ).take(f as int).push(aio_channel_fields(d.address, *c)[f as int]));
                    }
                    f += 1;
                }
                proof {
                    assert(aio_channel_fields(d.address, *c).take(7) =~= aio_channel_fields(d.address, *c));
                    assert(x.channels@.take(i + 1).drop_last() =~= x.channels@.take(i as int));
                }
                i += 1;
            }
            proof {
                assert(x.channels@.take(x.channels@.len() as int) =~= x.channels@);
            }
            let ghost mid = field_views(p.fields@);
            let mut j: usize = 0;
            while j < x.digital_inputs.len()
                invariant
                    prefix@ == aio_prefix(d.address),
                    j <= x.digital_inputs@.len(),
                    field_views(p.fields@) == mid + din_fields(d.address, x.digital_inputs@).take(j as int),
                    p.raw_data == old(p).raw_data,
                    p.sin == old(p).sin,
                    p.name == old(p).name,
                    p.is_forward == old(p).is_forward,
                    p.min == old(p).min,
                decreases x.digital_inputs.len() - j,
            {
                let number = decimal_string((j + 1) as u64);
                let name = concat(prefix.as_str(), "DIN");
                let name = concat(name.as_str(), number.as_str());
                let value = if x.digital_inputs[j] { owned("1") } else { owned("0") };
                push_field(p, name, value);
                proof {
                    assert(din_fields(d.address, x.digital_inputs@).take(j + 1) =~= din_fields(
                        d.address,
                        x.digital_inputs@,
                    ).take(j as int).push(din_fields(d.address, x.digital_inputs@)[j as int]));
                }
                j += 1;
            }
            proof {
                assert(din_fields(d.address, x.digital_inputs@).take(x.digital_inputs@.len() as int) =~= din_fields(
                    d.address,
                    x.digital_inputs@,
                ));
            }
        },
        None => {
            let ghost zeros = Seq::new(
                28,
                |k: int| (aio_prefix(d.address) + "Ch"@ + decimal((k / 7 + 1) as nat) + aio_suffix(k % 7), "0"@),
            );
            let mut k: usize = 0;
            while k < 28
                invariant
                    prefix@ == aio_prefix(d.address),
                    zeros == Seq::new(
                        28,
                        |k: int| (aio_prefix(d.address) + "Ch"@ + decimal((k / 7 + 1) as nat) + aio_suffix(k % 7), "0"@),
                    ),
                    k <= 28,
                    field_views(p.fields@) == start + zeros.take(k as int),
                    p.raw_data == old(p).raw_data,
                    p.sin == old(p).sin,
                    p.name == old(p).name,
                    p.is_forward == old(p).is_forward,
                    p.min == old(p).min,
                decreases 28 - k,
            {
                let number = decimal_string((k / 7 + 1) as u64);
                let name = concat(prefix.as_str(), "Ch");
                let name = concat(name.as_str(), number.as_str());
                let name = concat(name.as_str(), aio_suffix_str(k % 7));
                push_field(p, name, owned("0"));
                proof {
                    assert(zeros.take(k + 1) =~= zeros.take(k as int).push(zeros[k as int]));
                }
                k += 1;
            }
            proof {
                assert(zeros.take(28) =~= zeros);
            }
            push_field(p, concat(prefix.as_str(), "DigitalInputs"), owned("0"));
            let ghost mid = field_views(p.fields@);
            let ghost falses = Seq::new(16, |i: int| (aio_prefix(d.address) + "DigitalInputs"@ + decimal(i as nat), "false"@));
            let mut i: usize = 0;
            while i < 16
                invariant
                    prefix@ == aio_prefix(d.address),
                    falses == Seq::new(16, |i: int| (aio_prefix(d.address) + "DigitalInputs"@ + decimal(i as nat), "false"@)),
                    i <= 16,
                    field_views(p.fields@) == mid + falses.take(i as int),
                    p.raw_data == old(p).raw_data,
                    p.sin == old(p).sin,
                    p.name == old(p).name,
                    p.is_forward == old(p).is_forward,
                    p.min == old(p).min,
                decreases 16 - i,
            {
                let number = decimal_string(i as u64);
                let name = concat(prefix.as_str(), "DigitalInputs");
                push_field(p, concat(name.as_str(), number.as_str()), owned("false"));
                proof {
                    assert(falses.take(i + 1) =~= falses.take(i as int).push(falses[i as int]));
                }
                i += 1;
            }
            proof {
                assert(falses.take(16) =~= falses);
                assert(field_views(p.fields@) =~= start + offline_aio_fields(d.address));
            }
        },
    }
}

/// The fields of all modules are appended.
fn push_aio_fields(p: &mut MtwsPayload, devs: &Vec<AioDeviceInput>)
    ensures
        field_views(final(p).fields@) == field_views(old(p).fields@) + aio_fields(devs@),
        final(p).raw_data == old(p).raw_data,
        final(p).sin == old(p).sin,
        final(p).name == old(p).name,
        final(p).is_forward == old(p).is_forward,
        final(p).min == old(p).min,
{
    let ghost start = field_views(p.fields@);
    let mut i: usize = 0;
    proof {
        assert(devs@.take(0) =~= Seq::<AioDeviceInput>::empty());
    }
    while i < devs.len()
        invariant
            i <= devs@.len(),
            field_views(p.fields@) == start + aio_fields(devs@.take(i as int)),
            p.raw_data == old(p).raw_data,
            p.sin == old(p).sin,
            p.name == old(p).name,
            p.is_forward == old(p).is_forward,
            p.min == old(p).min,
        decreases devs.len() - i,
    {
        proof {
            assert(devs@.take(i + 1).drop_last() =~= devs@.take(i as int));
        }
        push_aio_device(p, &devs[i]);
        i += 1;
    }
    proof {
        assert(devs@.take(devs@.len() as int) =~= devs@);
    }
}

/// The named fields of the report built at `timestamp` from `input`, in
/// order: header, flowmeters, fuel level, engines, I/O modules.
pub open spec fn report_fields(input: PayloadInput, timestamp: i64) -> Seq<Field> {
    let engines = all_engines(input.rpm_devices@);
    header_fields(timestamp, input.gps) + flowmeter_fields(input.flowmeters@) + seq![("fuelLevelMM"@, "0"@)]
        + engine_fields_of(main_engines(engines), aux_engines(engines)) + aio_fields(input.aio_devices@)
}

/// The report of `input` in its JSON form (named fields), built at `timestamp`.
pub fn build_payload_at(input: &PayloadInput, timestamp: i64) -> (p: MtwsPayload)
    requires
        channels_numbered(input.rpm_devices@),
    ensures
        p.sin == 128,
        p.name@ == "ReportMsg"@,
        !p.is_forward,
        p.min == 1,
        p.raw_data@.len() == 0,
        field_views(p.fields@) == report_fields(*input, timestamp),
{
    let mut p = MtwsPayload::new();
    proof {
        assert(field_views(p.fields@) =~= Seq::<Field>::empty());
    }
    push_header(&mut p, timestamp, &input.gps);
    push_flowmeter_fields(&mut p, &input.flowmeters);
    push_lit(&mut p, "fuelLevelMM", "0");
    let engines = collect_engines(&input.rpm_devices);
    let (main, aux) = split_engines(&engines);
    push_engine_fields(&mut p, &main, &aux);
    push_aio_fields(&mut p, &input.aio_devices);
    proof {
        assert(field_views(p.fields@) =~= report_fields(*input, timestamp));
    }
    p
}

/// The report of `input` in its JSON form, stamped with the system clock.
pub fn build_payload(input: &PayloadInput) -> (p: MtwsPayload)
    requires
        channels_numbered(input.rpm_devices@),
    ensures
        p.sin == 128,
        p.name@ == "ReportMsg"@,
        !p.is_forward,
        p.min == 1,
        p.raw_data@.len() == 0,
        exists|t: i64| field_views(p.fields@) == report_fields(*input, t),
{
    let t = now_seconds();
    let p = build_payload_at(input, t);
    proof {
        assert(field_views(p.fields@) == report_fields(*input, t));
    }
    p
}

/// The bytes of `vals`, each as four big-endian bytes.
pub open spec fn u32s_be(vals: Seq<u32>) -> Seq<u8>
    decreases vals.len(),
{
    if vals.len() == 0 {
        Seq::empty()
    } else {
        u32s_be(vals.drop_last()) + u32_be(vals.last())
    }
}

/// The bytes of `vals`, each as two big-endian bytes.
pub open spec fn u16s_be(vals: Seq<u16>) -> Seq<u8>
    decreases vals.len(),
{
    if vals.len() == 0 {
        Seq::empty()
    } else {
        u16s_be(vals.drop_last()) + u16_be(vals.last())
    }
}

/// `n` zero bytes.
pub open spec fn zeros(n: nat) -> Seq<u8> {
    Seq::new(n, |i: int| 0u8)
}

/// The bytes "ReportMsg".
pub open spec fn report_name_bytes() -> Seq<u8> {
    seq![82u8, 101u8, 112u8, 111u8, 114u8, 116u8, 77u8, 115u8, 103u8]
}

/// The frame's header: marker, SIN, name length and name, forward flag, time.
pub open spec fn header_bytes(timestamp: i64) -> Seq<u8> {
    seq![0xFFu8, 0xFFu8] + u16_be(128) + seq![9u8] + report_name_bytes() + seq![0u8] + u64_be(timestamp as u64)
}

/// The GPS part: longitude, latitude, speed, heading, altitude, satellites.
pub open spec fn gps_bytes(gps: Option<GpsFigures>) -> Seq<u8> {
    match gps {
        Some(g) => u64_be(g.longitude as u64) + u64_be(g.latitude as u64) + u32_be(g.speed_bits) + u32_be(
            g.heading as u32,
        ) + u32_be(g.altitude as u32) + u32_be(g.satellites),
        None => zeros(32),
    }
}

/// Battery and supply voltages, wind speed and direction.
pub open spec fn power_bytes() -> Seq<u8> {
    u32_be(8086) + u32_be(27838) + u32_be(0) + u32_be(0)
}

/// The bits of quantity `k` of every flowmeter slot, zero for a slot not read.
pub open spec fn quantity_bits(flows: Seq<Option<FlowmeterValues>>, k: int) -> Seq<u32> {
    Seq::new(
        flowmeter_slots(flows.len()),
        |i: int|
            match slot_value(flows, i, k) {
                Some(m) => m.bits,
                None => 0u32,
            },
    )
}

/// The flowmeter part: its length, then all volume totals, densities,
/// temperatures and flow rates.
pub open spec fn flowmeter_bytes(flows: Seq<Option<FlowmeterValues>>) -> Seq<u8> {
    seq![((flowmeter_slots(flows.len()) % 256) * 16) as u8] + u32s_be(quantity_bits(flows, 0)) + u32s_be(
        quantity_bits(flows, 1),
    ) + u32s_be(quantity_bits(flows, 2)) + u32s_be(quantity_bits(flows, 3))
}

/// The part of the auxiliary engine slots from slot `n` on, each slot being
/// a running time and a status byte.
pub open spec fn aux_slot_bytes(aux: Seq<EngineView>, n: nat) -> Seq<u8>
    decreases n,
{
    if n == 0 {
        Seq::empty()
    } else {
        let k = n - 1;
        aux_slot_bytes(aux, (n - 1) as nat) + if k < aux.len() {
            u32_be(aux[k].1) + seq![if aux[k].2 { 1u8 } else { 0u8 }]
        } else {
            zeros(5)
        }
    }
}

/// The engine part: a length byte, the main engines' speeds and running
/// times, a length byte, the auxiliary slots.
pub open spec fn engine_bytes(sensors: nat, main: Seq<EngineView>, aux: Seq<EngineView>) -> Seq<u8> {
    seq![((sensors % 256) * 6) as u8] + u16s_be(main.map_values(|e: EngineView| e.0)) + u32s_be(
        main.map_values(|e: EngineView| e.1),
    ) + seq![((aux_slots(aux.len()) % 256) * 5) as u8] + aux_slot_bytes(aux, aux_slots(aux.len()))
}

/// The digital inputs packed into a word, input `i` in bit `i`.
pub open spec fn din_mask(bits: Seq<bool>) -> u16
    decreases bits.len(),
{
    if bits.len() == 0 {
        0
    } else {
        din_mask(bits.drop_last()) | (if bits.last() { 1u16 << ((bits.len() - 1) as u16) } else { 0u16 })
    }
}

/// The bytes of one channel of a module.
pub open spec fn aio_channel_bytes(c: AioChannelData) -> Seq<u8> {
    u16_be(c.pulse_count) + u16_be(c.threshold) + u16_be(c.frequency) + u16_be(c.rpm_value) + u16_be(
        c.average_value,
    ) + u32_be(c.duration_rpm) + u32_be(c.duration_ae)
}

/// The bytes of all channels of a module, channel by channel.
pub open spec fn aio_channels_bytes(chs: Seq<AioChannelData>) -> Seq<u8>
    decreases chs.len(),
{
    if chs.len() == 0 {
        Seq::empty()
    } else {
        aio_channels_bytes(chs.drop_last()) + aio_channel_bytes(chs.last())
    }
}

/// The bytes of one module: its channels and input word, or zeros when it
/// gave no data.
pub open spec fn aio_device_bytes(d: AioDeviceInput) -> Seq<u8> {
    match d.data {
        Some(x) => aio_channels_bytes(x.channels@) + u16_be(din_mask(x.digital_inputs@)),
        None => zeros(74),
    }
}

/// The bytes of all modules, module by module.
pub open spec fn aio_devices_bytes(devs: Seq<AioDeviceInput>) -> Seq<u8>
    decreases devs.len(),
{
    if devs.len() == 0 {
        Seq::empty()
    } else {
        aio_devices_bytes(devs.drop_last()) + aio_device_bytes(devs.last())
    }
}

/// The frame before its CRC: every part in order, then the MIN.
pub open spec fn frame_body(input: PayloadInput, timestamp: i64) -> Seq<u8> {
    let engines = all_engines(input.rpm_devices@);
    header_bytes(timestamp) + gps_bytes(input.gps) + power_bytes() + flowmeter_bytes(input.flowmeters@) + u32_be(0)
        + engine_bytes(input.rpm_devices@.len(), main_engines(engines), aux_engines(engines)) + seq![
        ((input.aio_devices@.len() % 256) * 78) as u8,
    ] + aio_devices_bytes(input.aio_devices@) + u16_be(1)
}

/// The whole binary frame: the body and its CRC, most significant byte first.
pub open spec fn report_frame(input: PayloadInput, timestamp: i64) -> Seq<u8> {
    frame_body(input, timestamp) + u16_be(spec_crc16(frame_body(input, timestamp)))
}

/// The length bytes of the frame do not overflow, and no module has more
/// than sixteen digital inputs.
pub open spec fn frame_fits(input: PayloadInput) -> bool {
    let engines = all_engines(input.rpm_devices@);
    &&& (flowmeter_slots(input.flowmeters@.len()) % 256) * 16 <= 255
    &&& (input.rpm_devices@.len() % 256) * 6 <= 255
    &&& (aux_slots(aux_engines(engines).len()) % 256) * 5 <= 255
    &&& (input.aio_devices@.len() % 256) * 78 <= 255
    &&& forall|i: int|
        0 <= i < input.aio_devices@.len() && (#[trigger] input.aio_devices@[i]).data is Some ==> input.aio_devices@[i].data->0.digital_inputs@.len() <= 16
}

/// The bits of quantity `k` of flowmeter slot `i`, zero when it was not read.
fn slot_bits(flows: &Vec<Option<FlowmeterValues>>, i: usize, k: usize) -> (b: u32)
    ensures
        b == (match slot_value(flows@, i as int, k as int) {
            Some(m) => m.bits,
            None => 0u32,
        }),
{
    if i < flows.len() {
        match &flows[i] {
            Some(v) => {
                if k == 0 {
                    v.volume_total.bits
                } else if k == 1 {
                    v.density_flow.bits
                } else if k == 2 {
                    v.temperature.bits
                } else {
                    v.mass_flow_rate.bits
                }
            },
            None => 0,
        }
    } else {
        0
    }
}

/// The flowmeter part of the frame is appended.
fn push_flowmeter_bytes(out: &mut Vec<u8>, flows: &Vec<Option<FlowmeterValues>>)
    requires
        (flowmeter_slots(flows@.len()) % 256) * 16 <= 255,
    ensures
        final(out)@ == old(out)@ + flowmeter_bytes(flows@),
{
    let slots: usize = if flows.len() == 0 { 1 } else { flows.len() };
    out.push(((slots % 256) as u8) * 16);
    let ghost start = out@;
    let mut k: usize = 0;
    while k < 4
        invariant
            k <= 4,
            slots == flowmeter_slots(flows@.len()),
            out@ == start + (if k == 0 {
                Seq::<u8>::empty()
            } else if k == 1 {
                u32s_be(quantity_bits(flows@, 0))
            } else if k == 2 {
                u32s_be(quantity_bits(flows@, 0)) + u32s_be(quantity_bits(flows@, 1))
            } else if k == 3 {
                u32s_be(quantity_bits(flows@, 0)) + u32s_be(quantity_bits(flows@, 1)) + u32s_be(quantity_bits(flows@, 2))
            } else {
                u32s_be(quantity_bits(flows@, 0)) + u32s_be(quantity_bits(flows@, 1)) + u32s_be(quantity_bits(flows@, 2))
                    + u32s_be(quantity_bits(flows@, 3))
            }),
        decreases 4 - k,
    {
        let ghost before = out@;
        let mut i: usize = 0;
        while i < slots
            invariant
                k < 4,
                i <= slots,
                slots == flowmeter_slots(flows@.len()),
                out@ == before + u32s_be(quantity_bits(flows@, k as int).take(i as int)),
            decreases slots - i,
        {
            push_be32(out, slot_bits(flows, i, k));
            proof {
                assert(quantity_bits(flows@, k as int).take(i + 1).drop_last() =~= quantity_bits(flows@, k as int).take(
                    i as int,
                ));
            }
            i += 1;
        }
        proof {
            assert(quantity_bits(flows@, k as int).take(slots as int) =~= quantity_bits(flows@, k as int));
        }
        k += 1;
    }
    proof {
        assert(final(out)@ =~= old(out)@ + flowmeter_bytes(flows@));
    }
}

/// The engine part of the frame is appended.
fn push_engine_bytes(out: &mut Vec<u8>, sensors: usize, main: &Vec<EngineData>, aux: &Vec<EngineData>)
    requires
        (sensors % 256) * 6 <= 255,
        (aux_slots(aux@.len()) % 256) * 5 <= 255,
    ensures
        final(out)@ == old(out)@ + engine_bytes(
            sensors as nat,
            main@.map_values(|e: EngineData| engine_view(e)),
            aux@.map_values(|e: EngineData| engine_view(e)),
        ),
{
    let ghost mv = main@.map_values(|e: EngineData| engine_view(e));
    let ghost av = aux@.map_values(|e: EngineData| engine_view(e));
    let ghost speeds = mv.map_values(|e: EngineView| e.0);
    let ghost times = mv.map_values(|e: EngineView| e.1);
    out.push(((sensors % 256) as u8) * 6);
    let ghost s0 = out@;
    let mut i: usize = 0;
    while i < main.len()
        invariant
            mv == main@.map_values(|e: EngineData| engine_view(e)),
            speeds == mv.map_values(|e: EngineView| e.0),
            i <= main@.len(),
            out@ == s0 + u16s_be(speeds.take(i as int)),
        decreases main.len() - i,
    {
        push_be16(out, main[i].rpm);
        proof {
            assert(speeds.take(i + 1).drop_last() =~= speeds.take(i as int));
        }
        i += 1;
    }
    proof {
        assert(speeds.take(main@.len() as int) =~= speeds);
    }
    let ghost s1 = out@;
    let mut i: usize = 0;
    while i < main.len()
        invariant
            mv == main@.map_values(|e: EngineData| engine_view(e)),
            times == mv.map_values(|e: EngineView| e.1),
            i <= main@.len(),
            out@ == s1 + u32s_be(times.take(i as int)),
        decreases main.len() - i,
    {
        push_be32(out, main[i].duration);
        proof {
            assert(times.take(i + 1).drop_last() =~= times.take(i as int));
        }
        i += 1;
    }
    proof {
        assert(times.take(main@.len() as int) =~= times);
    }
    let slots: usize = if aux.len() < 3 { 3 } else { aux.len() };
    out.push(((slots % 256) as u8) * 5);
    let ghost s2 = out@;
    let mut n: usize = 0;
    while n < slots
        invariant
            av == aux@.map_values(|e: EngineData| engine_view(e)),
            slots == aux_slots(av.len()),
            n <= slots,
            out@ == s2 + aux_slot_bytes(av, n as nat),
        decreases slots - n,
    {
        if n < aux.len() {
            push_be32(out, aux[n].duration);
            out.push(if aux[n].is_running { 1u8 } else { 0u8 });
        } else {
            push_be32(out, 0);
            out.push(0u8);
        }
        proof {
            assert(out@ =~= s2 + aux_slot_bytes(av, (n + 1) as nat));
        }
        n += 1;
    }
    proof {
        assert(final(out)@ =~= old(out)@ + engine_bytes(sensors as nat, mv, av));
    }
}

/// The digital inputs packed into a word.
fn pack_digital_inputs(bits: &Vec<bool>) -> (m: u16)
    requires
        bits@.len() <= 16,
    ensures
        m == din_mask(bits@),
{
    let mut m: u16 = 0;
    let mut i: usize = 0;
    while i < bits.len()
        invariant
            bits@.len() <= 16,
            i <= bits@.len(),
            m == din_mask(bits@.take(i as int)),
        decreases bits.len() - i,
    {
        proof {
            assert(bits@.take(i + 1).drop_last() =~= bits@.take(i as int));
        }
        if bits[i] {
            m = m | (1u16 << (i as u16));
        } else {
            m = m | 0u16;
        }
        i += 1;
    }
    proof {
        assert(bits@.take(bits@.len() as int) =~= bits@);
    }
    m
}

/// The bytes of one module are appended.
fn push_aio_device_bytes(out: &mut Vec<u8>, d: &AioDeviceInput)
    requires
        d.data is Some ==> d.data->0.digital_inputs@.len() <= 16,
    ensures
        final(out)@ == old(out)@ + aio_device_bytes(*d),
{
    match &d.data {
        Some(x) => {
            let mut i: usize = 0;
            while i < x.channels.len()
                invariant
                    i <= x.channels@.len(),
                    out@ == old(out)@ + aio_channels_bytes(x.channels@.take(i as int)),
                decreases x.channels.len() - i,
            {
                let c = &x.channels[i];
                push_be16(out, c.pulse_count);
                push_be16(out, c.threshold);
                push_be16(out, c.frequency);
                push_be16(out, c.rpm_value);
                push_be16(out, c.average_value);
                push_be32(out, c.duration_rpm);
                push_be32(out, c.duration_ae);
                proof {
                    assert(x.channels@.take(i + 1).drop_last() =~= x.channels@.take(i as int));
                    assert(out@ =~= old(out)@ + aio_channels_bytes(x.channels@.take(i + 1)));
                }
                i += 1;
            }
            proof {
                assert(x.channels@.take(x.channels@.len() as int) =~= x.channels@);
            }
            push_be16(out, pack_digital_inputs(&x.digital_inputs));
        },
        None => {
            let mut k: usize = 0;
            while k < 74
                invariant
                    k <= 74,
                    out@ == old(out)@ + zeros(k as nat),
                decreases 74 - k,
            {
                out.push(0u8);
                proof {
                    assert(out@ =~= old(out)@ + zeros((k + 1) as nat));
                }
                k += 1;
            }
        },
    }
}

/// The I/O module part of the frame is appended.
fn push_aio_bytes(out: &mut Vec<u8>, devs: &Vec<AioDeviceInput>)
    requires
        (devs@.len() % 256) * 78 <= 255,
        forall|i: int| 0 <= i < devs@.len() && (#[trigger] devs@[i]).data is Some ==> devs@[i].data->0.digital_inputs@.len() <= 16,
    ensures
        final(out)@ == old(out)@ + seq![((devs@.len() % 256) * 78) as u8] + aio_devices_bytes(devs@),
{
    out.push(((devs.len() % 256) as u8) * 78);
    let ghost start = out@;
    let mut i: usize = 0;
    proof {
        assert(devs@.take(0) =~= Seq::<AioDeviceInput>::empty());
    }
    while i < devs.len()
        invariant
            forall|i: int| 0 <= i < devs@.len() && (#[trigger] devs@[i]).data is Some ==> devs@[i].data->0.digital_inputs@.len() <= 16,
            i <= devs@.len(),
            out@ == start + aio_devices_bytes(devs@.take(i as int)),
        decreases devs.len() - i,
    {
        proof {
            assert(devs@.take(i + 1).drop_last() =~= devs@.take(i as int));
        }
        push_aio_device_bytes(out, &devs[i]);
        i += 1;
    }
    proof {
        assert(devs@.take(devs@.len() as int) =~= devs@);
    }
}

/// Appends the header, the GPS part and the power part of a report frame.
fn push_report_head(frame: &mut Vec<u8>, timestamp: i64, gps: &Option<GpsFigures>)
    ensures
        final(frame)@ == old(frame)@ + header_bytes(timestamp) + gps_bytes(*gps) + power_bytes(),
{
    let ghost start = frame@;
    frame.push(0xFF);
    frame.push(0xFF);
    push_be16(frame, 128);
    frame.push(9u8);
    let name: [u8; 9] = [82, 101, 112, 111, 114, 116, 77, 115, 103];
    push_bytes(frame, &name);
    frame.push(0u8);
    push_be64(frame, timestamp as u64);
    proof {
        assert(name@ =~= report_name_bytes());
        assert(frame@ =~= start + header_bytes(timestamp));
    }
    let ghost head = frame@;
    match gps {
        Some(g) => {
            push_be64(frame, g.longitude as u64);
            push_be64(frame, g.latitude as u64);
            push_be32(frame, g.speed_bits);
            push_be32(frame, g.heading as u32);
            push_be32(frame, g.altitude as u32);
            push_be32(frame, g.satellites);
            proof {
                assert(frame@ =~= head + gps_bytes(*gps));
            }
        },
        None => {
            let mut k: usize = 0;
            while k < 32
                invariant
                    k <= 32,
                    frame@ == head + zeros(k as nat),
                decreases 32 - k,
            {
                frame.push(0u8);
                proof {
                    assert(frame@ =~= head + zeros((k + 1) as nat));
                }
                k += 1;
            }
        },
    }
    let ghost with_gps = frame@;
    push_be32(frame, 8086);
    push_be32(frame, 27838);
    push_be32(frame, 0);
    push_be32(frame, 0);
    proof {
        assert(frame@ =~= with_gps + power_bytes());
        assert(frame@ =~= start + header_bytes(timestamp) + gps_bytes(*gps) + power_bytes());
    }
}

/// The report of `input` in its binary form, built at `timestamp`: the
/// frame is the payload's raw data, and its last two bytes are the CRC of
/// the rest, most significant first.
pub fn build_payload_hex_at(input: &PayloadInput, timestamp: i64) -> (p: MtwsPayload)
    requires
        channels_numbered(input.rpm_devices@),
        frame_fits(*input),
    ensures
        p.sin == 128,
        p.name@ == "ReportMsg"@,
        !p.is_forward,
        p.min == 1,
        p.fields@.len() == 0,
        p.raw_data@ == report_frame(*input, timestamp),
{
    let mut p = MtwsPayload::new();
    let mut frame: Vec<u8> = Vec::new();
    push_report_head(&mut frame, timestamp, &input.gps);
    push_flowmeter_bytes(&mut frame, &input.flowmeters);
    push_be32(&mut frame, 0);
    let engines = collect_engines(&input.rpm_devices);
    let (main, aux) = split_engines(&engines);
    push_engine_bytes(&mut frame, input.rpm_devices.len(), &main, &aux);
    push_aio_bytes(&mut frame, &input.aio_devices);
    push_be16(&mut frame, p.min);
    proof {
        assert(frame@ =~= frame_body(*input, timestamp));
    }
    let crc = crc16_modbus(frame.as_slice());
    push_be16(&mut frame, crc);
    p.add_raw_field(frame.as_slice());
    proof {
        assert(p.raw_data@ =~= report_frame(*input, timestamp));
    }
    p
}

/// The report of `input` in its binary form, stamped with the system clock.
pub fn build_payload_hex(input: &PayloadInput) -> (p: MtwsPayload)
    requires
        channels_numbered(input.rpm_devices@),
        frame_fits(*input),
    ensures
        p.sin == 128,
        p.name@ == "ReportMsg"@,
        !p.is_forward,
        p.min == 1,
        p.fields@.len() == 0,
        exists|t: i64| p.raw_data@ == report_frame(*input, t),
{
    let t = now_seconds();
    let p = build_payload_hex_at(input, t);
    proof {
        assert(p.raw_data@ == report_frame(*input, t));
    }
    p
}

/// The CRC at the end of a frame, most significant byte first, is that of
/// the bytes before it.
pub open spec fn frame_crc_ok(frame: Seq<u8>) -> bool {
    frame.len() >= 2 && frame.skip(frame.len() - 2) == u16_be(spec_crc16(frame.take(frame.len() - 2)))
}

/// Every report frame carries the CRC of its body.
pub proof fn lemma_report_frame_crc(input: PayloadInput, timestamp: i64)
    ensures
        frame_crc_ok(report_frame(input, timestamp)),
        report_frame(input, timestamp).take(report_frame(input, timestamp).len() - 2) == frame_body(input, timestamp),
{
    let body = frame_body(input, timestamp);
    let f = report_frame(input, timestamp);
    assert(f.take(f.len() - 2) =~= body);
    assert(f.skip(f.len() - 2) =~= u16_be(spec_crc16(body)));
}

/// The state of the periodic transmission: the configuration, whether it
/// runs, its interval and the endpoint it sends to.
pub struct MtwsService {
    config: Config,
    is_running: bool,
    transmission_interval_seconds: u64,
    endpoint_url: Option<String>,
}

impl MtwsService {
    pub closed spec fn spec_config(&self) -> Config {
        self.config
    }

    pub closed spec fn spec_running(&self) -> bool {
        self.is_running
    }

    pub closed spec fn spec_interval(&self) -> u64 {
        self.transmission_interval_seconds
    }

    pub closed spec fn spec_endpoint(&self) -> Option<Seq<char>> {
        match self.endpoint_url {
            Some(u) => Some(u@),
            None => None,
        }
    }

    /// A stopped service; it has an endpoint when telemetry is enabled.
    pub fn new(config: Config) -> (s: Self)
        ensures
            s.spec_config() == config,
            !s.spec_running(),
            s.spec_interval() == config.mtws.transmission_interval_seconds,
            s.spec_endpoint() == (if config.mtws.enabled {
                Some(config.mtws.base_endpoint_url@ + "/"@ + config.mtws.imei@)
            } else {
                None
            }),
    {
        let endpoint_url = if config.mtws.enabled {
            Some(config.get_mtws_endpoint_url())
        } else {
            None
        };
        let interval = config.mtws.transmission_interval_seconds;
        MtwsService { config, is_running: false, transmission_interval_seconds: interval, endpoint_url }
    }

    /// Starts the periodic transmission, unless it already runs or telemetry
    /// is disabled.
    pub fn start_transmission(&mut self) -> (r: Result<(), ModbusError>)
        ensures
            old(self).spec_running() ==> (r matches Err(ModbusError::ServiceNotAvailable(m)) && m@
                == "MTWS transmission already running"@),
            !old(self).spec_running() && !old(self).spec_config().mtws.enabled ==> (r matches Err(
                ModbusError::ServiceNotAvailable(m),
            ) && m@ == "MTWS service is disabled"@),
            r is Ok <==> !old(self).spec_running() && old(self).spec_config().mtws.enabled,
            final(self).spec_running() == (old(self).spec_running() || r is Ok),
            final(self).spec_config() == old(self).spec_config(),
            final(self).spec_interval() == old(self).spec_interval(),
            final(self).spec_endpoint() == old(self).spec_endpoint(),
    {
        if self.is_running {
            return Err(ModbusError::ServiceNotAvailable(owned("MTWS transmission already running")));
        }
        if !self.config.mtws.enabled {
            return Err(ModbusError::ServiceNotAvailable(owned("MTWS service is disabled")));
        }
        self.is_running = true;
        Ok(())
    }

    /// Asks the periodic transmission to stop.
    pub fn stop_transmission(&mut self) -> (r: Result<(), ModbusError>)
        ensures
            r is Ok,
            !final(self).spec_running(),
            final(self).spec_config() == old(self).spec_config(),
            final(self).spec_interval() == old(self).spec_interval(),
            final(self).spec_endpoint() == old(self).spec_endpoint(),
    {
        self.is_running = false;
        Ok(())
    }

    /// Whether a report may be sent: only when telemetry is enabled.
    pub fn check_enabled(&self) -> (r: Result<(), ModbusError>)
        ensures
            self.spec_config().mtws.enabled ==> r is Ok,
            !self.spec_config().mtws.enabled ==> (r matches Err(ModbusError::ServiceNotAvailable(m)) && m@
                == "MTWS service is disabled"@),
    {
        if !self.config.mtws.enabled {
            return Err(ModbusError::ServiceNotAvailable(owned("MTWS service is disabled")));
        }
        Ok(())
    }

    /// Whether the transmission runs, its interval, the endpoint, and whether
    /// telemetry is enabled.
    pub fn get_status(&self) -> (r: (bool, u64, String, bool))
        ensures
            r.0 == self.spec_running(),
            r.1 == self.spec_interval(),
            r.2@ == self.spec_config().mtws.base_endpoint_url@ + "/"@ + self.spec_config().mtws.imei@,
            r.3 == self.spec_config().mtws.enabled,
    {
        (self.is_running, self.transmission_interval_seconds, self.get_endpoint_url(), self.config.mtws.enabled)
    }

    /// The device's IMEI.
    pub fn get_imei(&self) -> (r: String)
        ensures
            r@ == self.spec_config().mtws.imei@,
    {
        self.config.mtws.imei.clone()
    }

    /// The endpoint reports go to.
    pub fn get_endpoint_url(&self) -> (r: String)
        ensures
            r@ == self.spec_config().mtws.base_endpoint_url@ + "/"@ + self.spec_config().mtws.imei@,
    {
        self.config.get_mtws_endpoint_url()
    }

    /// Sets the interval between transmissions; it must be at least a second.
    pub fn set_transmission_interval(&mut self, seconds: u64) -> (r: Result<(), ModbusError>)
        ensures
            seconds >= 1 ==> r is Ok && final(self).spec_interval() == seconds,
            seconds < 1 ==> (r matches Err(ModbusError::InvalidData(m)) && m@
                == "Transmission interval must be at least 1 second"@) && final(self).spec_interval()
                == old(self).spec_interval(),
            final(self).spec_running() == old(self).spec_running(),
            final(self).spec_config() == old(self).spec_config(),
            final(self).spec_endpoint() == old(self).spec_endpoint(),
    {
        if seconds < 1 {
            return Err(ModbusError::InvalidData(owned("Transmission interval must be at least 1 second")));
        }
        self.transmission_interval_seconds = seconds;
        Ok(())
    }
}

/// The answer to a single report sent on demand.
pub fn sent_payload_message(field_count: usize, endpoint_url: &str) -> (m: String)
    ensures
        m@ == "Sent MTWS payload with "@ + decimal(field_count as nat) + " fields to "@ + endpoint_url@,
{
    let n = decimal_string(field_count as u64);
    let a = concat("Sent MTWS payload with ", n.as_str());
    let a = concat(a.as_str(), " fields to ");
    concat(a.as_str(), endpoint_url)
}

/// The outcome of posting a report, given whether the service answered with
/// a success status, the status and the body of its answer.
pub fn check_http_response(success: bool, status: &str, body: &str) -> (r: Result<(), ModbusError>)
    ensures
        success ==> r is Ok,
        !success ==> (r matches Err(ModbusError::CommunicationError(m)) && m@ == "HTTP "@ + status@ + " - "@ + body@),
{
    if success {
        Ok(())
    } else {
        let a = concat("HTTP ", status);
        let a = concat(a.as_str(), " - ");
        Err(ModbusError::CommunicationError(concat(a.as_str(), body)))
    }
}

/// With a GPS fix, the binary report carries, right after its 23-byte
/// header, the longitude (bytes 23 to 30) and the latitude (31 to 38) as
/// big-endian 64-bit integers, then the speed bits, heading, altitude and
/// satellite count as big-endian 32-bit words (39 to 54); the JSON report
/// names them in the same order after its timestamp.
pub proof fn lemma_report_position_order(input: PayloadInput, t: i64, g: GpsFigures)
    requires
        input.gps == Some(g),
    ensures
        report_frame(input, t).subrange(23, 31) == u64_be(g.longitude as u64),
        report_frame(input, t).subrange(31, 39) == u64_be(g.latitude as u64),
        report_frame(input, t).subrange(39, 43) == u32_be(g.speed_bits),
        report_frame(input, t).subrange(43, 47) == u32_be(g.heading as u32),
        report_frame(input, t).subrange(47, 51) == u32_be(g.altitude as u32),
        report_frame(input, t).subrange(51, 55) == u32_be(g.satellites),
        report_fields(input, t)[1] == ("longitude"@, signed_decimal(g.longitude as int)),
        report_fields(input, t)[2] == ("latitude"@, signed_decimal(g.latitude as int)),
        report_fields(input, t)[3] == ("speed"@, g.speed_text@),
        report_fields(input, t)[4] == ("heading"@, signed_decimal(g.heading as int)),
        report_fields(input, t)[5] == ("altitude"@, signed_decimal(g.altitude as int)),
        report_fields(input, t)[6] == ("gpsNumSats"@, decimal(g.satellites as nat)),
{
    let h = header_bytes(t);
    assert(h.len() == 23);
    let gb = gps_bytes(input.gps);
    assert(u64_be(g.longitude as u64).len() == 8);
    assert(u64_be(g.latitude as u64).len() == 8);
    let f = report_frame(input, t);
    let body = frame_body(input, t);
    assert(body.len() >= 55);
    assert(f.subrange(23, 31) =~= gb.subrange(0, 8));
    assert(f.subrange(31, 39) =~= gb.subrange(8, 16));
    assert(gb.subrange(0, 8) =~= u64_be(g.longitude as u64));
    assert(gb.subrange(8, 16) =~= u64_be(g.latitude as u64));
    assert(f.subrange(39, 43) =~= gb.subrange(16, 20));
    assert(f.subrange(43, 47) =~= gb.subrange(20, 24));
    assert(f.subrange(47, 51) =~= gb.subrange(24, 28));
    assert(f.subrange(51, 55) =~= gb.subrange(28, 32));
    assert(gb.subrange(16, 20) =~= u32_be(g.speed_bits));
    assert(gb.subrange(20, 24) =~= u32_be(g.heading as u32));
    assert(gb.subrange(24, 28) =~= u32_be(g.altitude as u32));
    assert(gb.subrange(28, 32) =~= u32_be(g.satellites));
    let hf = header_fields(t, input.gps);
    let rf = report_fields(input, t);
    assert(rf[1] == hf[1]);
    assert(rf[2] == hf[2]);
    assert(rf[3] == hf[3]);
    assert(rf[4] == hf[4]);
    assert(rf[5] == hf[5]);
    assert(rf[6] == hf[6]);
}

/// Every channel of every AIO module with data is reported under its module
/// address and channel number with all seven quantities: among them the
/// field `aio<address>Ch<channel>RPM` holding the channel's RPM and the field
/// `aio<address>Ch<channel>Average` holding its average, the running times
/// under `DurationRPM` and `DurationAE`.
pub proof fn lemma_report_aio_channel(input: PayloadInput, t: i64, d: int, j: int)
    requires
        0 <= d < input.aio_devices@.len(),
        input.aio_devices@[d].data is Some,
        0 <= j < input.aio_devices@[d].data->0.channels@.len(),
    ensures
        ({
            let a = input.aio_devices@[d].address;
            let c = input.aio_devices@[d].data->0.channels@[j];
            let name = "aio"@ + decimal(a as nat) + "Ch"@ + decimal(c.channel_id as nat);
            &&& report_fields(input, t).contains((name + "GearPulse"@, decimal(c.pulse_count as nat)))
            &&& report_fields(input, t).contains((name + "Threshold"@, decimal(c.threshold as nat)))
            &&& report_fields(input, t).contains((name + "Frequency"@, decimal(c.frequency as nat)))
            &&& report_fields(input, t).contains((name + "RPM"@, decimal(c.rpm_value as nat)))
            &&& report_fields(input, t).contains((name + "Average"@, decimal(c.average_value as nat)))
            &&& report_fields(input, t).contains((name + "DurationRPM"@, decimal(c.duration_rpm as nat)))
            &&& report_fields(input, t).contains((name + "DurationAE"@, decimal(c.duration_ae as nat)))
        }),
{
    let dev = input.aio_devices@[d];
    let a = dev.address;
    let x = dev.data->0;
    let c = x.channels@[j];
    let cf = aio_channel_fields(a, c);
    lemma_channels_fields_hold(a, x.channels@, j);
    assert forall|k: int| 0 <= k < 7 implies aio_channels_fields(a, x.channels@).contains(#[trigger] cf[k]) by {}
    assert forall|k: int| 0 <= k < 7 implies aio_device_fields(dev).contains(#[trigger] cf[k]) by {
        lemma_contains_left(aio_channels_fields(a, x.channels@), din_fields(a, x.digital_inputs@), cf[k]);
    }
    assert forall|k: int| 0 <= k < 7 implies aio_fields(input.aio_devices@).contains(#[trigger] cf[k]) by {
        lemma_device_fields_hold(input.aio_devices@, d, cf[k]);
    }
    let engines = all_engines(input.rpm_devices@);
    let before = header_fields(t, input.gps) + flowmeter_fields(input.flowmeters@) + seq![("fuelLevelMM"@, "0"@)]
        + engine_fields_of(main_engines(engines), aux_engines(engines));
    assert(report_fields(input, t) == before + aio_fields(input.aio_devices@));
    assert forall|k: int| 0 <= k < 7 implies report_fields(input, t).contains(#[trigger] cf[k]) by {
        lemma_contains_right(before, aio_fields(input.aio_devices@), cf[k]);
    }
    let name = "aio"@ + decimal(a as nat) + "Ch"@ + decimal(c.channel_id as nat);
    assert(cf[0] == (name + "GearPulse"@, decimal(c.pulse_count as nat)));
    assert(cf[1] == (name + "Threshold"@, decimal(c.threshold as nat)));
    assert(cf[2] == (name + "Frequency"@, decimal(c.frequency as nat)));
    assert(cf[3] == (name + "RPM"@, decimal(c.rpm_value as nat)));
    assert(cf[4] == (name + "Average"@, decimal(c.average_value as nat)));
    assert(cf[5] == (name + "DurationRPM"@, decimal(c.duration_rpm as nat)));
    assert(cf[6] == (name + "DurationAE"@, decimal(c.duration_ae as nat)));
}

/// Every digital input of every AIO module with data is reported as
/// `aio<address>DIN<number>`, numbered from one, with "1" when it is active
/// and "0" when it is not.
pub proof fn lemma_report_aio_input(input: PayloadInput, t: i64, d: int, j: int)
    requires
        0 <= d < input.aio_devices@.len(),
        input.aio_devices@[d].data is Some,
        0 <= j < input.aio_devices@[d].data->0.digital_inputs@.len(),
    ensures
        report_fields(input, t).contains(
            (
                "aio"@ + decimal(input.aio_devices@[d].address as nat) + "DIN"@ + decimal((j + 1) as nat),
                if input.aio_devices@[d].data->0.digital_inputs@[j] {
                    "1"@
                } else {
                    "0"@
                },
            ),
        ),
{
    let dev = input.aio_devices@[d];
    let a = dev.address;
    let x = dev.data->0;
    let df = din_fields(a, x.digital_inputs@);
    let item = df[j];
    assert(df.contains(item));
    lemma_contains_right(aio_channels_fields(a, x.channels@), df, item);
    lemma_device_fields_hold(input.aio_devices@, d, item);
    let engines = all_engines(input.rpm_devices@);
    let before = header_fields(t, input.gps) + flowmeter_fields(input.flowmeters@) + seq![("fuelLevelMM"@, "0"@)]
        + engine_fields_of(main_engines(engines), aux_engines(engines));
    assert(report_fields(input, t) == before + aio_fields(input.aio_devices@));
    lemma_contains_right(before, aio_fields(input.aio_devices@), item);
}

proof fn lemma_contains_left(s: Seq<Field>, u: Seq<Field>, x: Field)
    requires
        s.contains(x),
    ensures
        (s + u).contains(x),
{
    let i = choose|i: int| 0 <= i < s.len() && s[i] == x;
    assert((s + u)[i] == x);
}

proof fn lemma_contains_right(s: Seq<Field>, u: Seq<Field>, x: Field)
    requires
        u.contains(x),
    ensures
        (s + u).contains(x),
{
    let i = choose|i: int| 0 <= i < u.len() && u[i] == x;
    assert((s + u)[s.len() + i] == x);
}

/// The fields of channel `j` are among those of all channels of a module.
proof fn lemma_channels_fields_hold(a: u8, chs: Seq<AioChannelData>, j: int)
    requires
        0 <= j < chs.len(),
    ensures
        forall|k: int| 0 <= k < 7 ==> aio_channels_fields(a, chs).contains(#[trigger] aio_channel_fields(a, chs[j])[k]),
    decreases chs.len(),
{
    let cf = aio_channel_fields(a, chs[j]);
    if j == chs.len() - 1 {
        assert forall|k: int| 0 <= k < 7 implies aio_channels_fields(a, chs).contains(#[trigger] cf[k]) by {
            assert(chs.last() == chs[j]);
            lemma_contains_right(aio_channels_fields(a, chs.drop_last()), aio_channel_fields(a, chs.last()), cf[k]);
        }
    } else {
        lemma_channels_fields_hold(a, chs.drop_last(), j);
        assert(chs.drop_last()[j] == chs[j]);
        assert forall|k: int| 0 <= k < 7 implies aio_channels_fields(a, chs).contains(#[trigger] cf[k]) by {
            lemma_contains_left(aio_channels_fields(a, chs.drop_last()), aio_channel_fields(a, chs.last()), cf[k]);
        }
    }
}

/// The fields of module `d` are among those of all modules.
proof fn lemma_device_fields_hold(devs: Seq<AioDeviceInput>, d: int, x: Field)
    requires
        0 <= d < devs.len(),
        aio_device_fields(devs[d]).contains(x),
    ensures
        aio_fields(devs).contains(x),
    decreases devs.len(),
{
    if d == devs.len() - 1 {
        assert(devs.last() == devs[d]);
        lemma_contains_right(aio_fields(devs.drop_last()), aio_device_fields(devs.last()), x);
    } else {
        assert(devs.drop_last()[d] == devs[d]);
        lemma_device_fields_hold(devs.drop_last(), d, x);
        lemma_contains_left(aio_fields(devs.drop_last()), aio_device_fields(devs.last()), x);
    }
}

} // verus!

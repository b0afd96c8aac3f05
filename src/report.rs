use vstd::prelude::*;
use vstd::utf8::encode_utf8;
use crate::ids::ItemId;
use crate::value::{Value, ValueView};

verus! {

/// The name of each item, as it appears in a report.
pub open spec fn item_name(id: ItemId) -> Seq<char> {
    match id {
        ItemId::Product => "Product"@,
        ItemId::Group => "Group"@,
        ItemId::Serial => "Serial"@,
        ItemId::Model => "Model"@,
        ItemId::Unknown0x010e => "Unknown0x010e"@,
        ItemId::Capabilities => "Capabilities"@,
        ItemId::Mode => "Mode"@,
        ItemId::State => "State"@,
        ItemId::Remote => "Remote"@,
        ItemId::OffReason1 => "OffReason1"@,
        ItemId::OffReason2 => "OffReason2"@,
        ItemId::TotalHistory => "TotalHistory"@,
        ItemId::DailyHistory0 => "DailyHistory0"@,
        ItemId::BatteryVoltageSense => "BatteryVoltageSense"@,
        ItemId::BatteryTemperatureSense => "BatteryTemperatureSense"@,
        ItemId::NetworkInfo => "NetworkInfo"@,
        ItemId::NetworkMode => "NetworkMode"@,
        ItemId::TotalChargeCurrent => "TotalChargeCurrent"@,
        ItemId::TotalDCInputPower => "TotalDCInputPower"@,
        ItemId::SolarActivity => "SolarActivity"@,
        ItemId::TimeOfDay => "TimeOfDay"@,
        ItemId::Unknown0xc6a3 => "Unknown0xc6a3"@,
        ItemId::BatteryTemperature => "BatteryTemperature"@,
        ItemId::SystemYield => "SystemYield"@,
        ItemId::ChargerTemperature => "ChargerTemperature"@,
        ItemId::ChargerCurrent => "ChargerCurrent"@,
        ItemId::AdditionalChargerStateInfo => "AdditionalChargerStateInfo"@,
        ItemId::ChargerVoltage => "ChargerVoltage"@,
        ItemId::YieldToday => "YieldToday"@,
        ItemId::MaximumPowerToday => "MaximumPowerToday"@,
        ItemId::YieldYesterday => "YieldYesterday"@,
        ItemId::MaximumPowerYesterday => "MaximumPowerYesterday"@,
        ItemId::PanelPower => "PanelPower"@,
        ItemId::PanelVoltage => "PanelVoltage"@,
        ItemId::PanelCurrent => "PanelCurrent"@,
        ItemId::LoadVoltage => "LoadVoltage"@,
        ItemId::LoadCurrent => "LoadCurrent"@,
        ItemId::BatteryMaximumCurrent => "BatteryMaximumCurrent"@,
    }
}

impl ItemId {
    /// The item's name.
    pub fn name(&self) -> (r: &'static str)
        ensures
            r@ == item_name(*self),
    {
        match self {
            ItemId::Product => "Product",
            ItemId::Group => "Group",
            ItemId::Serial => "Serial",
            ItemId::Model => "Model",
            ItemId::Unknown0x010e => "Unknown0x010e",
            ItemId::Capabilities => "Capabilities",
            ItemId::Mode => "Mode",
            ItemId::State => "State",
            ItemId::Remote => "Remote",
            ItemId::OffReason1 => "OffReason1",
            ItemId::OffReason2 => "OffReason2",
            ItemId::TotalHistory => "TotalHistory",
            ItemId::DailyHistory0 => "DailyHistory0",
            ItemId::BatteryVoltageSense => "BatteryVoltageSense",
            ItemId::BatteryTemperatureSense => "BatteryTemperatureSense",
            ItemId::NetworkInfo => "NetworkInfo",
            ItemId::NetworkMode => "NetworkMode",
            ItemId::TotalChargeCurrent => "TotalChargeCurrent",
            ItemId::TotalDCInputPower => "TotalDCInputPower",
            ItemId::SolarActivity => "SolarActivity",
            ItemId::TimeOfDay => "TimeOfDay",
            ItemId::Unknown0xc6a3 => "Unknown0xc6a3",
            ItemId::BatteryTemperature => "BatteryTemperature",
            ItemId::SystemYield => "SystemYield",
            ItemId::ChargerTemperature => "ChargerTemperature",
            ItemId::ChargerCurrent => "ChargerCurrent",
            ItemId::AdditionalChargerStateInfo => "AdditionalChargerStateInfo",
            ItemId::ChargerVoltage => "ChargerVoltage",
            ItemId::YieldToday => "YieldToday",
            ItemId::MaximumPowerToday => "MaximumPowerToday",
            ItemId::YieldYesterday => "YieldYesterday",
            ItemId::MaximumPowerYesterday => "MaximumPowerYesterday",
            ItemId::PanelPower => "PanelPower",
            ItemId::PanelVoltage => "PanelVoltage",
            ItemId::PanelCurrent => "PanelCurrent",
            ItemId::LoadVoltage => "LoadVoltage",
            ItemId::LoadCurrent => "LoadCurrent",
            ItemId::BatteryMaximumCurrent => "BatteryMaximumCurrent",
        }
    }
}

/// The decimal digits of a number, most significant first.
pub open spec fn decimal(n: nat) -> Seq<u8>
    decreases n,
{
    if n < 10 {
        seq![(0x30 + n) as u8]
    } else {
        decimal(n / 10).push((0x30 + n % 10) as u8)
    }
}

/// A signed number in decimal, with a leading `-` when it is negative.
pub open spec fn signed_decimal(x: int) -> Seq<u8> {
    if x < 0 {
        seq![0x2Du8] + decimal((-x) as nat)
    } else {
        decimal(x as nat)
    }
}

/// How a value is shown in a report: numbers in decimal, `Empty` by name,
/// text as `"0"` and raw bytes as `0`.
pub open spec fn value_text(v: ValueView) -> Seq<u8> {
    match v {
        ValueView::Empty => encode_utf8("Empty"@),
        ValueView::U8(x) => decimal(x as nat),
        ValueView::I8(x) => signed_decimal(x as int),
        ValueView::U16(x) => decimal(x as nat),
        ValueView::I16(x) => signed_decimal(x as int),
        ValueView::U32(x) => decimal(x as nat),
        ValueView::I32(x) => signed_decimal(x as int),
        ValueView::Ascii(_) => seq![0x22u8, 0x30, 0x22],
        ValueView::Other(_) => seq![0x30u8],
    }
}

/// Appends the decimal digits of `n`.
fn push_decimal(out: &mut Vec<u8>, n: u32)
    ensures
        final(out)@ == old(out)@ + decimal(n as nat),
    decreases n,
{
    if n >= 10 {
        push_decimal(out, n / 10);
    }
    out.push(0x30 + (n % 10) as u8);
    assert(final(out)@ =~= old(out)@ + decimal(n as nat));
}

/// Appends a signed number in decimal.
fn push_signed_decimal(out: &mut Vec<u8>, x: i32)
    ensures
        final(out)@ == old(out)@ + signed_decimal(x as int),
{
    if x < 0 {
        out.push(0x2D);
        let m = (0 - x as i64) as u32;
        push_decimal(out, m);
        assert(final(out)@ =~= old(out)@ + signed_decimal(x as int));
    } else {
        push_decimal(out, x as u32);
    }
}

/// Appends the bytes of a string.
fn push_str(out: &mut Vec<u8>, s: &str)
    ensures
        final(out)@ == old(out)@ + encode_utf8(s@),
{
    let b = s.as_bytes();
    let mut i: usize = 0;
    while i < b.len()
        invariant
            i <= b@.len(),
            b@ == encode_utf8(s@),
            out@ == old(out)@ + b@.take(i as int),
        decreases b@.len() - i,
    {
        out.push(b[i]);
        i += 1;
        proof {
            assert(old(out)@ + b@.take(i as int) =~= old(out)@ + b@.take(i - 1) + seq![b@[i - 1]]);
        }
    }
    proof {
        assert(b@.take(i as int) =~= b@);
    }
}

impl Value {
    /// Appends the value as shown in a report.
    pub fn push_text(&self, out: &mut Vec<u8>)
        ensures
            final(out)@ == old(out)@ + value_text(self@),
    {
        match self {
            Value::Empty => push_str(out, "Empty"),
            Value::U8(x) => push_decimal(out, *x as u32),
            Value::I8(x) => push_signed_decimal(out, *x as i32),
            Value::U16(x) => push_decimal(out, *x as u32),
            Value::I16(x) => push_signed_decimal(out, *x as i32),
            Value::U32(x) => push_decimal(out, *x),
            Value::I32(x) => push_signed_decimal(out, *x),
            Value::Ascii(_) => {
                out.push(0x22);
                out.push(0x30);
                out.push(0x22);
                assert(final(out)@ =~= old(out)@ + value_text(self@));
            },
            Value::Other(_) => {
                out.push(0x30);
                assert(final(out)@ =~= old(out)@ + value_text(self@));
            },
        }
    }
}

/// The fields of a report, each `name=value` followed by a comma.
pub open spec fn report_fields(entries: Seq<(ItemId, Value)>) -> Seq<u8>
    decreases entries.len(),
{
    if entries.len() == 0 {
        Seq::empty()
    } else {
        let (item, value) = entries.last();
        report_fields(entries.drop_last()) + encode_utf8(item_name(item)) + seq![0x3Du8]
            + value_text(value@) + seq![0x2Cu8]
    }
}

/// A report line: `vedirect,station=<station> ` and the fields, without the
/// last byte (the final comma, or the space where there is no field).
pub open spec fn report_line(entries: Seq<(ItemId, Value)>, station: Seq<char>) -> Seq<u8> {
    (encode_utf8("vedirect,station="@) + encode_utf8(station) + seq![0x20u8] + report_fields(
        entries,
    )).drop_last()
}

/// Formats item values as one line of the InfluxDB line protocol, in the
/// order given, tagged with the station name.
pub fn idb(entries: &Vec<(ItemId, Value)>, station: &str) -> (r: Vec<u8>)
    ensures
        r@ == report_line(entries@, station@),
{
    let mut s: Vec<u8> = Vec::new();
    push_str(&mut s, "vedirect,station=");
    push_str(&mut s, station);
    s.push(0x20);
    let ghost head = s@;
    assert(head =~= encode_utf8("vedirect,station="@) + encode_utf8(station@) + seq![0x20u8]);
    let mut i: usize = 0;
    while i < entries.len()
        invariant
            i <= entries@.len(),
            s@ == head + report_fields(entries@.take(i as int)),
        decreases entries@.len() - i,
    {
        let (item, value) = &entries[i];
        proof {
            assert(entries@.take(i + 1).drop_last() =~= entries@.take(i as int));
        }
        push_str(&mut s, item.name());
        s.push(0x3D);
        value.push_text(&mut s);
        s.push(0x2C);
        i += 1;
        proof {
            assert(s@ =~= head + report_fields(entries@.take(i as int)));
        }
    }
    proof {
        assert(entries@.take(i as int) =~= entries@);
    }
    s.pop();
    s
}

} // verus!

use vstd::prelude::*;

verus! {

/// The type codes of requests.
#[derive(Clone, Copy, Debug, PartialEq, Eq, Hash, Structural)]
pub enum CommandId {
    Boot,
    Ping,
    Version,
    Product,
    Restart,
    Get,
    SetValue,
    Async,
}

/// The wire code of each CommandId.
pub open spec fn command_code(id: CommandId) -> u8 {
    match id {
        CommandId::Boot => 0x00,
        CommandId::Ping => 0x01,
        CommandId::Version => 0x03,
        CommandId::Product => 0x04,
        CommandId::Restart => 0x06,
        CommandId::Get => 0x07,
        CommandId::SetValue => 0x08,
        CommandId::Async => 0x0A,
    }
}

/// The CommandId with a given wire code, if there is one.
pub open spec fn command_of_code(c: u8) -> Option<CommandId> {
    match c {
        0x00 => Some(CommandId::Boot),
        0x01 => Some(CommandId::Ping),
        0x03 => Some(CommandId::Version),
        0x04 => Some(CommandId::Product),
        0x06 => Some(CommandId::Restart),
        0x07 => Some(CommandId::Get),
        0x08 => Some(CommandId::SetValue),
        0x0A => Some(CommandId::Async),
        _ => None,
    }
}

impl CommandId {
    /// The wire code.
    pub fn code(&self) -> (r: u8)
        ensures
            r == command_code(*self),
    {
        match self {
            CommandId::Boot => 0x00,
            CommandId::Ping => 0x01,
            CommandId::Version => 0x03,
            CommandId::Product => 0x04,
            CommandId::Restart => 0x06,
            CommandId::Get => 0x07,
            CommandId::SetValue => 0x08,
            CommandId::Async => 0x0A,
        }
    }

    /// The CommandId with wire code `c`; `None` where no CommandId has it.
    pub fn from_code(c: u8) -> (r: Option<CommandId>)
        ensures
            r == command_of_code(c),
    {
        match c {
            0x00 => Some(CommandId::Boot),
            0x01 => Some(CommandId::Ping),
            0x03 => Some(CommandId::Version),
            0x04 => Some(CommandId::Product),
            0x06 => Some(CommandId::Restart),
            0x07 => Some(CommandId::Get),
            0x08 => Some(CommandId::SetValue),
            0x0A => Some(CommandId::Async),
            _ => None,
        }
    }
}

/// `command_code` and its table read backwards agree: each CommandId's code
/// reads back as that CommandId, and a code that reads as one is its code.
pub proof fn lemma_command_code_inverse(id: CommandId, c: u8)
    ensures
        command_of_code(command_code(id)) == Some(id),
        command_of_code(c) matches Some(j) ==> command_code(j) == c,
{
}

/// The type codes of responses.
#[derive(Clone, Copy, Debug, PartialEq, Eq, Hash, Structural)]
pub enum ResponseId {
    Done,
    Unknown,
    Error,
    Ping,
    Get,
    SetValue,
    Async,
}

/// The wire code of each ResponseId.
pub open spec fn response_code(id: ResponseId) -> u8 {
    match id {
        ResponseId::Done => 0x01,
        ResponseId::Unknown => 0x03,
        ResponseId::Error => 0x04,
        ResponseId::Ping => 0x05,
        ResponseId::Get => 0x07,
        ResponseId::SetValue => 0x08,
        ResponseId::Async => 0x0A,
    }
}

/// The ResponseId with a given wire code, if there is one.
pub open spec fn response_of_code(c: u8) -> Option<ResponseId> {
    match c {
        0x01 => Some(ResponseId::Done),
        0x03 => Some(ResponseId::Unknown),
        0x04 => Some(ResponseId::Error),
        0x05 => Some(ResponseId::Ping),
        0x07 => Some(ResponseId::Get),
        0x08 => Some(ResponseId::SetValue),
        0x0A => Some(ResponseId::Async),
        _ => None,
    }
}

impl ResponseId {
    /// The wire code.
    pub fn code(&self) -> (r: u8)
        ensures
            r == response_code(*self),
    {
        match self {
            ResponseId::Done => 0x01,
            ResponseId::Unknown => 0x03,
            ResponseId::Error => 0x04,
            ResponseId::Ping => 0x05,
            ResponseId::Get => 0x07,
            ResponseId::SetValue => 0x08,
            ResponseId::Async => 0x0A,
        }
    }

    /// The ResponseId with wire code `c`; `None` where no ResponseId has it.
    pub fn from_code(c: u8) -> (r: Option<ResponseId>)
        ensures
            r == response_of_code(c),
    {
        match c {
            0x01 => Some(ResponseId::Done),
            0x03 => Some(ResponseId::Unknown),
            0x04 => Some(ResponseId::Error),
            0x05 => Some(ResponseId::Ping),
            0x07 => Some(ResponseId::Get),
            0x08 => Some(ResponseId::SetValue),
            0x0A => Some(ResponseId::Async),
            _ => None,
        }
    }
}

/// `response_code` and its table read backwards agree: each ResponseId's code
/// reads back as that ResponseId, and a code that reads as one is its code.
pub proof fn lemma_response_code_inverse(id: ResponseId, c: u8)
    ensures
        response_of_code(response_code(id)) == Some(id),
        response_of_code(c) matches Some(j) ==> response_code(j) == c,
{
}

/// The error codes that a device reports.
#[derive(Clone, Copy, Debug, PartialEq, Eq, Hash, Structural)]
pub enum ErrorId {
    Checksum,
    Boot,
}

/// The wire code of each ErrorId.
pub open spec fn error_code(id: ErrorId) -> u16 {
    match id {
        ErrorId::Checksum => 0xAAAA,
        ErrorId::Boot => 0x0000,
    }
}

/// The ErrorId with a given wire code, if there is one.
pub open spec fn error_of_code(c: u16) -> Option<ErrorId> {
    match c {
        0xAAAA => Some(ErrorId::Checksum),
        0x0000 => Some(ErrorId::Boot),
        _ => None,
    }
}

impl ErrorId {
    /// The wire code.
    pub fn code(&self) -> (r: u16)
        ensures
            r == error_code(*self),
    {
        match self {
            ErrorId::Checksum => 0xAAAA,
            ErrorId::Boot => 0x0000,
        }
    }

    /// The ErrorId with wire code `c`; `None` where no ErrorId has it.
    pub fn from_code(c: u16) -> (r: Option<ErrorId>)
        ensures
            r == error_of_code(c),
    {
        match c {
            0xAAAA => Some(ErrorId::Checksum),
            0x0000 => Some(ErrorId::Boot),
            _ => None,
        }
    }
}

/// `error_code` and its table read backwards agree: each ErrorId's code
/// reads back as that ErrorId, and a code that reads as one is its code.
pub proof fn lemma_error_code_inverse(id: ErrorId, c: u16)
    ensures
        error_of_code(error_code(id)) == Some(id),
        error_of_code(c) matches Some(j) ==> error_code(j) == c,
{
}

/// The product codes of known devices.
#[derive(Clone, Copy, Debug, PartialEq, Eq, Hash, Structural)]
pub enum ProductId {
    BlueSolarMppt70v15a,
    SmartSolarMppt100v20a,
}

/// The wire code of each ProductId.
pub open spec fn product_code(id: ProductId) -> u16 {
    match id {
        ProductId::BlueSolarMppt70v15a => 0x0300,
        ProductId::SmartSolarMppt100v20a => 0xA066,
    }
}

/// The ProductId with a given wire code, if there is one.
pub open spec fn product_of_code(c: u16) -> Option<ProductId> {
    match c {
        0x0300 => Some(ProductId::BlueSolarMppt70v15a),
        0xA066 => Some(ProductId::SmartSolarMppt100v20a),
        _ => None,
    }
}

impl ProductId {
    /// The wire code.
    pub fn code(&self) -> (r: u16)
        ensures
            r == product_code(*self),
    {
        match self {
            ProductId::BlueSolarMppt70v15a => 0x0300,
            ProductId::SmartSolarMppt100v20a => 0xA066,
        }
    }

    /// The ProductId with wire code `c`; `None` where no ProductId has it.
    pub fn from_code(c: u16) -> (r: Option<ProductId>)
        ensures
            r == product_of_code(c),
    {
        match c {
            0x0300 => Some(ProductId::BlueSolarMppt70v15a),
            0xA066 => Some(ProductId::SmartSolarMppt100v20a),
            _ => None,
        }
    }
}

/// `product_code` and its table read backwards agree: each ProductId's code
/// reads back as that ProductId, and a code that reads as one is its code.
pub proof fn lemma_product_code_inverse(id: ProductId, c: u16)
    ensures
        product_of_code(product_code(id)) == Some(id),
        product_of_code(c) matches Some(j) ==> product_code(j) == c,
{
}

/// The addressable quantities of a device: telemetry channels and settings.
#[derive(Clone, Copy, Debug, PartialEq, Eq, Hash, Structural)]
pub enum ItemId {
    Product,
    Group,
    Serial,
    Model,
    Unknown0x010e,
    Capabilities,
    Mode,
    State,
    Remote,
    OffReason1,
    OffReason2,
    TotalHistory,
    DailyHistory0,
    BatteryVoltageSense,
    BatteryTemperatureSense,
    NetworkInfo,
    NetworkMode,
    TotalChargeCurrent,
    TotalDCInputPower,
    SolarActivity,
    TimeOfDay,
    Unknown0xc6a3,
    BatteryTemperature,
    SystemYield,
    ChargerTemperature,
    ChargerCurrent,
    AdditionalChargerStateInfo,
    ChargerVoltage,
    YieldToday,
    MaximumPowerToday,
    YieldYesterday,
    MaximumPowerYesterday,
    PanelPower,
    PanelVoltage,
    PanelCurrent,
    LoadVoltage,
    LoadCurrent,
    BatteryMaximumCurrent,
}

/// The wire code of each ItemId.
pub open spec fn item_code(id: ItemId) -> u16 {
    match id {
        ItemId::Product => 0x0100,
        ItemId::Group => 0x0104,
        ItemId::Serial => 0x010A,
        ItemId::Model => 0x010B,
        ItemId::Unknown0x010e => 0x010E,
        ItemId::Capabilities => 0x0140,
        ItemId::Mode => 0x0200,
        ItemId::State => 0x0201,
        ItemId::Remote => 0x0202,
        ItemId::OffReason1 => 0x0205,
        ItemId::OffReason2 => 0x0207,
        ItemId::TotalHistory => 0x104F,
        ItemId::DailyHistory0 => 0x1050,
        ItemId::BatteryVoltageSense => 0x2002,
        ItemId::BatteryTemperatureSense => 0x2003,
        ItemId::NetworkInfo => 0x200D,
        ItemId::NetworkMode => 0x200E,
        ItemId::TotalChargeCurrent => 0x2013,
        ItemId::TotalDCInputPower => 0x2027,
        ItemId::SolarActivity => 0x2030,
        ItemId::TimeOfDay => 0x2031,
        ItemId::Unknown0xc6a3 => 0xC6A3,
        ItemId::BatteryTemperature => 0xEDEC,
        ItemId::SystemYield => 0xEDDD,
        ItemId::ChargerTemperature => 0xEDDB,
        ItemId::ChargerCurrent => 0xEDD7,
        ItemId::AdditionalChargerStateInfo => 0xEDD4,
        ItemId::ChargerVoltage => 0xEDD5,
        ItemId::YieldToday => 0xEDD3,
        ItemId::MaximumPowerToday => 0xEDD2,
        ItemId::YieldYesterday => 0xEDD1,
        ItemId::MaximumPowerYesterday => 0xEDD0,
        ItemId::PanelPower => 0xEDBC,
        ItemId::PanelVoltage => 0xEDBB,
        ItemId::PanelCurrent => 0xEDBD,
        ItemId::LoadVoltage => 0xEDA9,
        ItemId::LoadCurrent => 0xEDAD,
        ItemId::BatteryMaximumCurrent => 0xEDF0,
    }
}

/// The ItemId with a given wire code, if there is one.
pub open spec fn item_of_code(c: u16) -> Option<ItemId> {
    match c {
        0x0100 => Some(ItemId::Product),
        0x0104 => Some(ItemId::Group),
        0x010A => Some(ItemId::Serial),
        0x010B => Some(ItemId::Model),
        0x010E => Some(ItemId::Unknown0x010e),
        0x0140 => Some(ItemId::Capabilities),
        0x0200 => Some(ItemId::Mode),
        0x0201 => Some(ItemId::State),
        0x0202 => Some(ItemId::Remote),
        0x0205 => Some(ItemId::OffReason1),
        0x0207 => Some(ItemId::OffReason2),
        0x104F => Some(ItemId::TotalHistory),
        0x1050 => Some(ItemId::DailyHistory0),
        0x2002 => Some(ItemId::BatteryVoltageSense),
        0x2003 => Some(ItemId::BatteryTemperatureSense),
        0x200D => Some(ItemId::NetworkInfo),
        0x200E => Some(ItemId::NetworkMode),
        0x2013 => Some(ItemId::TotalChargeCurrent),
        0x2027 => Some(ItemId::TotalDCInputPower),
        0x2030 => Some(ItemId::SolarActivity),
        0x2031 => Some(ItemId::TimeOfDay),
        0xC6A3 => Some(ItemId::Unknown0xc6a3),
        0xEDEC => Some(ItemId::BatteryTemperature),
        0xEDDD => Some(ItemId::SystemYield),
        0xEDDB => Some(ItemId::ChargerTemperature),
        0xEDD7 => Some(ItemId::ChargerCurrent),
        0xEDD4 => Some(ItemId::AdditionalChargerStateInfo),
        0xEDD5 => Some(ItemId::ChargerVoltage),
        0xEDD3 => Some(ItemId::YieldToday),
        0xEDD2 => Some(ItemId::MaximumPowerToday),
        0xEDD1 => Some(ItemId::YieldYesterday),
        0xEDD0 => Some(ItemId::MaximumPowerYesterday),
        0xEDBC => Some(ItemId::PanelPower),
        0xEDBB => Some(ItemId::PanelVoltage),
        0xEDBD => Some(ItemId::PanelCurrent),
        0xEDA9 => Some(ItemId::LoadVoltage),
        0xEDAD => Some(ItemId::LoadCurrent),
        0xEDF0 => Some(ItemId::BatteryMaximumCurrent),
        _ => None,
    }
}

impl ItemId {
    /// The wire code.
    pub fn code(&self) -> (r: u16)
        ensures
            r == item_code(*self),
    {
        match self {
            ItemId::Product => 0x0100,
            ItemId::Group => 0x0104,
            ItemId::Serial => 0x010A,
            ItemId::Model => 0x010B,
            ItemId::Unknown0x010e => 0x010E,
            ItemId::Capabilities => 0x0140,
            ItemId::Mode => 0x0200,
            ItemId::State => 0x0201,
            ItemId::Remote => 0x0202,
            ItemId::OffReason1 => 0x0205,
            ItemId::OffReason2 => 0x0207,
            ItemId::TotalHistory => 0x104F,
            ItemId::DailyHistory0 => 0x1050,
            ItemId::BatteryVoltageSense => 0x2002,
            ItemId::BatteryTemperatureSense => 0x2003,
            ItemId::NetworkInfo => 0x200D,
            ItemId::NetworkMode => 0x200E,
            ItemId::TotalChargeCurrent => 0x2013,
            ItemId::TotalDCInputPower => 0x2027,
            ItemId::SolarActivity => 0x2030,
            ItemId::TimeOfDay => 0x2031,
            ItemId::Unknown0xc6a3 => 0xC6A3,
            ItemId::BatteryTemperature => 0xEDEC,
            ItemId::SystemYield => 0xEDDD,
            ItemId::ChargerTemperature => 0xEDDB,
            ItemId::ChargerCurrent => 0xEDD7,
            ItemId::AdditionalChargerStateInfo => 0xEDD4,
            ItemId::ChargerVoltage => 0xEDD5,
            ItemId::YieldToday => 0xEDD3,
            ItemId::MaximumPowerToday => 0xEDD2,
            ItemId::YieldYesterday => 0xEDD1,
            ItemId::MaximumPowerYesterday => 0xEDD0,
            ItemId::PanelPower => 0xEDBC,
            ItemId::PanelVoltage => 0xEDBB,
            ItemId::PanelCurrent => 0xEDBD,
            ItemId::LoadVoltage => 0xEDA9,
            ItemId::LoadCurrent => 0xEDAD,
            ItemId::BatteryMaximumCurrent => 0xEDF0,
        }
    }

    /// The ItemId with wire code `c`; `None` where no ItemId has it.
    pub fn from_code(c: u16) -> (r: Option<ItemId>)
        ensures
            r == item_of_code(c),
    {
        match c {
            0x0100 => Some(ItemId::Product),
            0x0104 => Some(ItemId::Group),
            0x010A => Some(ItemId::Serial),
            0x010B => Some(ItemId::Model),
            0x010E => Some(ItemId::Unknown0x010e),
            0x0140 => Some(ItemId::Capabilities),
            0x0200 => Some(ItemId::Mode),
            0x0201 => Some(ItemId::State),
            0x0202 => Some(ItemId::Remote),
            0x0205 => Some(ItemId::OffReason1),
            0x0207 => Some(ItemId::OffReason2),
            0x104F => Some(ItemId::TotalHistory),
            0x1050 => Some(ItemId::DailyHistory0),
            0x2002 => Some(ItemId::BatteryVoltageSense),
            0x2003 => Some(ItemId::BatteryTemperatureSense),
            0x200D => Some(ItemId::NetworkInfo),
            0x200E => Some(ItemId::NetworkMode),
            0x2013 => Some(ItemId::TotalChargeCurrent),
            0x2027 => Some(ItemId::TotalDCInputPower),
            0x2030 => Some(ItemId::SolarActivity),
            0x2031 => Some(ItemId::TimeOfDay),
            0xC6A3 => Some(ItemId::Unknown0xc6a3),
            0xEDEC => Some(ItemId::BatteryTemperature),
            0xEDDD => Some(ItemId::SystemYield),
            0xEDDB => Some(ItemId::ChargerTemperature),
            0xEDD7 => Some(ItemId::ChargerCurrent),
            0xEDD4 => Some(ItemId::AdditionalChargerStateInfo),
            0xEDD5 => Some(ItemId::ChargerVoltage),
            0xEDD3 => Some(ItemId::YieldToday),
            0xEDD2 => Some(ItemId::MaximumPowerToday),
            0xEDD1 => Some(ItemId::YieldYesterday),
            0xEDD0 => Some(ItemId::MaximumPowerYesterday),
            0xEDBC => Some(ItemId::PanelPower),
            0xEDBB => Some(ItemId::PanelVoltage),
            0xEDBD => Some(ItemId::PanelCurrent),
            0xEDA9 => Some(ItemId::LoadVoltage),
            0xEDAD => Some(ItemId::LoadCurrent),
            0xEDF0 => Some(ItemId::BatteryMaximumCurrent),
            _ => None,
        }
    }
}

/// `item_code` and its table read backwards agree: each ItemId's code
/// reads back as that ItemId, and a code that reads as one is its code.
pub proof fn lemma_item_code_inverse(id: ItemId, c: u16)
    ensures
        item_of_code(item_code(id)) == Some(id),
        item_of_code(c) matches Some(j) ==> item_code(j) == c,
{
}

/// The flag bit for an item id that the device does not know.
pub const UNKNOWN_ID: u8 = 0x01;

/// The flag bit for an item that the device does not support.
pub const NOT_SUPPORTED: u8 = 0x02;

/// The flag bit for a parameter that the device refused.
pub const PARAMETER_ERROR: u8 = 0x04;

/// Whether a byte uses only the known flag bits.
pub open spec fn flag_bits_known(b: u8) -> bool {
    b & 0xF8u8 == 0
}

/// The per-item status flags of an item response.
#[derive(Clone, Copy, Debug, PartialEq, Eq, Hash, Structural)]
pub struct Flags {
    bits: u8,
}

impl View for Flags {
    type V = u8;

    closed spec fn view(&self) -> u8 {
        self.bits
    }
}

impl Flags {
    /// Every flag set uses only the known bits.
    pub closed spec fn wf(&self) -> bool {
        flag_bits_known(self.bits)
    }

    /// No flag set.
    pub fn empty() -> (r: Flags)
        ensures
            r@ == 0,
            r.wf(),
    {
        assert(0u8 & 0xF8u8 == 0) by (bit_vector);
        Flags { bits: 0 }
    }

    /// The flags of a byte; `None` where it has a bit that no flag uses.
    pub fn from_bits(bits: u8) -> (r: Option<Flags>)
        ensures
            r is Some <==> flag_bits_known(bits),
            r matches Some(f) ==> f@ == bits && f.wf(),
    {
        if bits & 0xF8 == 0 {
            Some(Flags { bits })
        } else {
            None
        }
    }

    /// The flags as a byte.
    pub fn bits(&self) -> (r: u8)
        ensures
            r == self@,
    {
        self.bits
    }

    /// Whether no flag is set.
    pub fn is_empty(&self) -> (r: bool)
        ensures
            r == (self@ == 0),
    {
        self.bits == 0
    }

    /// Whether every flag of `other` is set here too.
    pub fn contains(&self, other: Flags) -> (r: bool)
        ensures
            r == (self@ & other@ == other@),
    {
        self.bits & other.bits == other.bits
    }
}

} // verus!

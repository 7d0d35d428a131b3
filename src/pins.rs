use vstd::prelude::*;
use vstd::string::StringExecFns;

verus! {

/// The role of a header pin.
#[derive(Clone, Copy, Debug, PartialEq, Eq, Structural)]
pub enum PinType {
    Power5v,
    Power3v3,
    Gnd,
    Gpio,
    I2c,
    Spi,
    Uart,
    Pcm,
}

/// The internal pull resistor of a pin; the register code is the variant's order.
#[derive(Clone, Copy, Debug, PartialEq, Eq, Structural)]
pub enum PullType {
    NoPull,
    Down,
    Up,
}

#[derive(Clone, Copy, Debug, PartialEq, Eq, Structural)]
pub enum PinDirection {
    Input,
    Output,
}

#[derive(Clone, Copy, Debug, PartialEq, Eq, Structural)]
pub enum PinLevel {
    High,
    Low,
}

#[derive(Clone, Copy, Debug, PartialEq, Eq, Structural)]
pub enum PinColumn {
    Left,
    Right,
}

/// One slot of the 40-pin header: fixed metadata and the mirrored electrical state.
#[derive(Clone, Debug)]
pub struct Pin {
    pub number: Option<i32>,
    pub pin_type: PinType,
    pub label: String,
    pub column: PinColumn,
    pub pull: PullType,
    pub level: PinLevel,
    pub direction: PinDirection,
}

/// Number of slots on the header.
pub const HEADER_SLOTS: usize = 40;

/// The header in vector order (left column top to bottom, then the right column):
/// GPIO number, role and label of slot `i`.
pub open spec fn layout(i: int) -> (Option<i32>, PinType, Seq<char>) {
    if i == 0 { (None, PinType::Power3v3, "3v3 Power"@) }
    else if i == 1 { (Some(2), PinType::I2c, "GPIO 2 (I2C1 SDA)"@) }
    else if i == 2 { (Some(3), PinType::I2c, "GPIO 3 (I2C1 SCL)"@) }
    else if i == 3 { (Some(4), PinType::Gpio, "GPIO 4 (GPCLK0)"@) }
    else if i == 4 { (None, PinType::Gnd, "Ground"@) }
    else if i == 5 { (Some(17), PinType::Gpio, "GPIO 17"@) }
    else if i == 6 { (Some(27), PinType::Gpio, "GPIO 27"@) }
    else if i == 7 { (Some(22), PinType::Gpio, "GPIO 22"@) }
    else if i == 8 { (None, PinType::Power3v3, "3v3 Power"@) }
    else if i == 9 { (Some(10), PinType::Spi, "GPIO 10 (SPI0 MOSI)"@) }
    else if i == 10 { (Some(9), PinType::Spi, "GPIO 9 (SPI0 MISO)"@) }
    else if i == 11 { (Some(11), PinType::Spi, "GPIO 11 (SPI0 SCLK)"@) }
    else if i == 12 { (None, PinType::Gnd, "Ground"@) }
    else if i == 13 { (Some(0), PinType::I2c, "GPIO 0 (EEPROM SDA)"@) }
    else if i == 14 { (Some(5), PinType::Gpio, "GPIO 5"@) }
    else if i == 15 { (Some(6), PinType::Gpio, "GPIO 6"@) }
    else if i == 16 { (Some(13), PinType::Gpio, "GPIO 13 (PWM1)"@) }
    else if i == 17 { (Some(19), PinType::Pcm, "GPIO 19 (PCM FS)"@) }
    else if i == 18 { (Some(26), PinType::Gpio, "GPIO 26"@) }
    else if i == 19 { (None, PinType::Gnd, "Ground"@) }
    else if i == 20 { (None, PinType::Power5v, "5v Power"@) }
    else if i == 21 { (None, PinType::Power5v, "5v Power"@) }
    else if i == 22 { (None, PinType::Gnd, "Ground"@) }
    else if i == 23 { (Some(14), PinType::Uart, "GPIO 14 (UART TX)"@) }
    else if i == 24 { (Some(15), PinType::Uart, "GPIO 15 (UART RX)"@) }
    else if i == 25 { (Some(18), PinType::Pcm, "GPIO 18 (PCM CLK)"@) }
    else if i == 26 { (None, PinType::Gnd, "Ground"@) }
    else if i == 27 { (Some(23), PinType::Gpio, "GPIO 23"@) }
    else if i == 28 { (Some(24), PinType::Gpio, "GPIO 24"@) }
    else if i == 29 { (None, PinType::Gnd, "Ground"@) }
    else if i == 30 { (Some(25), PinType::Gpio, "GPIO 25"@) }
    else if i == 31 { (Some(8), PinType::Spi, "GPIO 8 (SPI0 CE0)"@) }
    else if i == 32 { (Some(7), PinType::Spi, "GPIO 7 (SPI0 CE1)"@) }
    else if i == 33 { (Some(1), PinType::I2c, "GPIO 1 (EEPROM SCL)"@) }
    else if i == 34 { (None, PinType::Gnd, "Ground"@) }
    else if i == 35 { (Some(12), PinType::Gpio, "GPIO 12 (PWM0)"@) }
    else if i == 36 { (None, PinType::Gnd, "Ground"@) }
    else if i == 37 { (Some(16), PinType::Gpio, "GPIO 16"@) }
    else if i == 38 { (Some(20), PinType::Pcm, "GPIO 20 (PCM DIN)"@) }
    else { (Some(21), PinType::Pcm, "GPIO 21 (PCM DOUT)"@) }
}

/// The column of slot `i`: the first twenty slots are the left column.
pub open spec fn layout_column(i: int) -> PinColumn {
    if i < 20 { PinColumn::Left } else { PinColumn::Right }
}

/// The slot that carries GPIO number `n` (for `n` in 0..=27).
pub open spec fn pin_slot(n: int) -> int {
    if n == 0 { 13 }
    else if n == 1 { 33 }
    else if n == 2 { 1 }
    else if n == 3 { 2 }
    else if n == 4 { 3 }
    else if n == 5 { 14 }
    else if n == 6 { 15 }
    else if n == 7 { 32 }
    else if n == 8 { 31 }
    else if n == 9 { 10 }
    else if n == 10 { 9 }
    else if n == 11 { 11 }
    else if n == 12 { 35 }
    else if n == 13 { 16 }
    else if n == 14 { 23 }
    else if n == 15 { 24 }
    else if n == 16 { 37 }
    else if n == 17 { 5 }
    else if n == 18 { 25 }
    else if n == 19 { 17 }
    else if n == 20 { 38 }
    else if n == 21 { 39 }
    else if n == 22 { 7 }
    else if n == 23 { 27 }
    else if n == 24 { 28 }
    else if n == 25 { 30 }
    else if n == 26 { 18 }
    else { 6 }
}

/// Whether `p` holds the fixed metadata of slot `i`.
pub open spec fn matches_slot(p: Pin, i: int) -> bool {
    &&& p.number == layout(i).0
    &&& p.pin_type == layout(i).1
    &&& p.label@ == layout(i).2
    &&& p.column == layout_column(i)
}

/// Whether `p` is in the state of a freshly reset pin: input, low, no pull.
pub open spec fn is_reset_state(p: Pin) -> bool {
    p.direction == PinDirection::Input && p.level == PinLevel::Low && p.pull == PullType::NoPull
}

/// Every GPIO number of the header lies in 0..=27 and sits at its slot, and each
/// number in 0..=27 has one.
pub proof fn lemma_layout_numbers()
    ensures
        forall|i: int|
            0 <= i < 40 && (#[trigger] layout(i)).0 is Some ==> 0 <= layout(i).0->0 <= 27 && i
                == pin_slot(layout(i).0->0 as int),
        forall|n: int|
            0 <= n <= 27 ==> 0 <= #[trigger] pin_slot(n) < 40 && layout(pin_slot(n)).0 == Some(
                n as i32,
            ),
{
}

fn make_pin(number: Option<i32>, column: PinColumn, pin_type: PinType, label: &str) -> (r: Pin)
    ensures
        r.number == number,
        r.column == column,
        r.pin_type == pin_type,
        r.label@ == label@,
        is_reset_state(r),
{
    Pin {
        number,
        pin_type,
        label: String::from_str(label),
        column,
        pull: PullType::NoPull,
        level: PinLevel::Low,
        direction: PinDirection::Input,
    }
}

fn slot_pin(i: usize) -> (r: Pin)
    requires
        i < 40,
    ensures
        matches_slot(r, i as int),
        is_reset_state(r),
{
    let c = if i < 20 { PinColumn::Left } else { PinColumn::Right };
    match i {
        0 => make_pin(None, c, PinType::Power3v3, "3v3 Power"),
        1 => make_pin(Some(2), c, PinType::I2c, "GPIO 2 (I2C1 SDA)"),
        2 => make_pin(Some(3), c, PinType::I2c, "GPIO 3 (I2C1 SCL)"),
        3 => make_pin(Some(4), c, PinType::Gpio, "GPIO 4 (GPCLK0)"),
        4 => make_pin(None, c, PinType::Gnd, "Ground"),
        5 => make_pin(Some(17), c, PinType::Gpio, "GPIO 17"),
        6 => make_pin(Some(27), c, PinType::Gpio, "GPIO 27"),
        7 => make_pin(Some(22), c, PinType::Gpio, "GPIO 22"),
        8 => make_pin(None, c, PinType::Power3v3, "3v3 Power"),
        9 => make_pin(Some(10), c, PinType::Spi, "GPIO 10 (SPI0 MOSI)"),
        10 => make_pin(Some(9), c, PinType::Spi, "GPIO 9 (SPI0 MISO)"),
        11 => make_pin(Some(11), c, PinType::Spi, "GPIO 11 (SPI0 SCLK)"),
        12 => make_pin(None, c, PinType::Gnd, "Ground"),
        13 => make_pin(Some(0), c, PinType::I2c, "GPIO 0 (EEPROM SDA)"),
        14 => make_pin(Some(5), c, PinType::Gpio, "GPIO 5"),
        15 => make_pin(Some(6), c, PinType::Gpio, "GPIO 6"),
        16 => make_pin(Some(13), c, PinType::Gpio, "GPIO 13 (PWM1)"),
        17 => make_pin(Some(19), c, PinType::Pcm, "GPIO 19 (PCM FS)"),
        18 => make_pin(Some(26), c, PinType::Gpio, "GPIO 26"),
        19 => make_pin(None, c, PinType::Gnd, "Ground"),
        20 => make_pin(None, c, PinType::Power5v, "5v Power"),
        21 => make_pin(None, c, PinType::Power5v, "5v Power"),
        22 => make_pin(None, c, PinType::Gnd, "Ground"),
        23 => make_pin(Some(14), c, PinType::Uart, "GPIO 14 (UART TX)"),
        24 => make_pin(Some(15), c, PinType::Uart, "GPIO 15 (UART RX)"),
        25 => make_pin(Some(18), c, PinType::Pcm, "GPIO 18 (PCM CLK)"),
        26 => make_pin(None, c, PinType::Gnd, "Ground"),
        27 => make_pin(Some(23), c, PinType::Gpio, "GPIO 23"),
        28 => make_pin(Some(24), c, PinType::Gpio, "GPIO 24"),
        29 => make_pin(None, c, PinType::Gnd, "Ground"),
        30 => make_pin(Some(25), c, PinType::Gpio, "GPIO 25"),
        31 => make_pin(Some(8), c, PinType::Spi, "GPIO 8 (SPI0 CE0)"),
        32 => make_pin(Some(7), c, PinType::Spi, "GPIO 7 (SPI0 CE1)"),
        33 => make_pin(Some(1), c, PinType::I2c, "GPIO 1 (EEPROM SCL)"),
        34 => make_pin(None, c, PinType::Gnd, "Ground"),
        35 => make_pin(Some(12), c, PinType::Gpio, "GPIO 12 (PWM0)"),
        36 => make_pin(None, c, PinType::Gnd, "Ground"),
        37 => make_pin(Some(16), c, PinType::Gpio, "GPIO 16"),
        38 => make_pin(Some(20), c, PinType::Pcm, "GPIO 20 (PCM DIN)"),
        _ => make_pin(Some(21), c, PinType::Pcm, "GPIO 21 (PCM DOUT)"),
    }
}

/// The 40 header slots in vector order, every pin in its reset state.
pub fn default_pins() -> (r: Vec<Pin>)
    ensures
        r@.len() == HEADER_SLOTS,
        forall|i: int| 0 <= i < 40 ==> matches_slot(#[trigger] r@[i], i),
        forall|i: int| 0 <= i < 40 ==> is_reset_state(#[trigger] r@[i]),
{
    let mut pins: Vec<Pin> = Vec::new();
    let mut i: usize = 0;
    while i < HEADER_SLOTS
        invariant
            i <= HEADER_SLOTS,
            pins@.len() == i,
            forall|j: int| 0 <= j < i ==> matches_slot(#[trigger] pins@[j], j),
            forall|j: int| 0 <= j < i ==> is_reset_state(#[trigger] pins@[j]),
        decreases HEADER_SLOTS - i,
    {
        pins.push(slot_pin(i));
        i = i + 1;
    }
    pins
}

} // verus!

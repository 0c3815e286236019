//! Error types. Each has a `text` method with its message.
use vstd::prelude::*;

verus! {

/// Errors of a running chip. `E` is the error type of the SPI bus.
#[derive(Debug, Clone, Copy, PartialEq, Eq, Structural)]
pub enum Ad9361Error<E> {
    /// SPI bus error
    Spi(E),
    /// Can't make that clock rate out of the parent, or the current rates don't allow it
    InvalidRate,
    /// Calibration or PLL lock didn't finish in time
    Timeout,
    /// Found no digital interface delay that works
    TuningFailed,
    /// AXI core flagged errors
    AxiStatus,
    /// Too many FIR taps for this sample rate
    FirTooLong,
    /// Tried to enable a FIR that has no coefficients
    FirNotLoaded,
    /// Manual gain isn't done for the split gain table
    UnsupportedGainTable,
    /// ENSM can't get to that state from where it is
    InvalidEnsmTransition,
    /// Calibration measured something it can't compute a setting from
    CalibrationResult,
    /// Gain control timing doesn't fit the current clock rates
    GainControlTiming,
    /// RSSI duration comes out as zero samples at this sample rate
    RssiDurationTooShort,
}

impl<E> From<E> for Ad9361Error<E> {
    fn from(e: E) -> (r: Self) {
        Ad9361Error::Spi(e)
    }
}

impl<E> vstd::std_specs::convert::FromSpecImpl<E> for Ad9361Error<E> {
    open spec fn obeys_from_spec() -> bool {
        true
    }

    open spec fn from_spec(e: E) -> Self {
        Ad9361Error::Spi(e)
    }
}

impl<E> Ad9361Error<E> {
    /// What [`Self::text`] returns.
    pub open spec fn message(self, cause: Seq<char>) -> Seq<char> {
        match self {
            Ad9361Error::Spi(_) => "SPI error: "@ + cause,
            Ad9361Error::InvalidRate => "the clock rate can't be produced"@,
            Ad9361Error::Timeout => "a calibration or lock timed out"@,
            Ad9361Error::TuningFailed => "no working digital interface delay found"@,
            Ad9361Error::AxiStatus => "an AXI core reported status errors"@,
            Ad9361Error::FirTooLong => "the FIR filter has too many taps"@,
            Ad9361Error::FirNotLoaded => "no FIR filter is loaded"@,
            Ad9361Error::UnsupportedGainTable =>
                "manual gain isn't supported with the split gain table"@,
            Ad9361Error::InvalidEnsmTransition =>
                "the enable state machine can't make this transition"@,
            Ad9361Error::CalibrationResult => "a calibration result is unusable"@,
            Ad9361Error::GainControlTiming =>
                "the gain control timing doesn't fit the clock rates"@,
            Ad9361Error::RssiDurationTooShort => "the RSSI duration is zero samples at this rate"@,
        }
    }

    /// The message. `cause` is the text of the SPI error, used for [`Ad9361Error::Spi`] only.
    pub fn text(&self, cause: &str) -> (text: String)
        ensures
            text@ == self.message(cause@),
    {
        match self {
            Ad9361Error::Spi(_) => {
                let mut text = "SPI error: ".to_owned();
                text.append(cause);
                text
            },
            Ad9361Error::InvalidRate => "the clock rate can't be produced".to_owned(),
            Ad9361Error::Timeout => "a calibration or lock timed out".to_owned(),
            Ad9361Error::TuningFailed => "no working digital interface delay found".to_owned(),
            Ad9361Error::AxiStatus => "an AXI core reported status errors".to_owned(),
            Ad9361Error::FirTooLong => "the FIR filter has too many taps".to_owned(),
            Ad9361Error::FirNotLoaded => "no FIR filter is loaded".to_owned(),
            Ad9361Error::UnsupportedGainTable =>
                "manual gain isn't supported with the split gain table".to_owned(),
            Ad9361Error::InvalidEnsmTransition =>
                "the enable state machine can't make this transition".to_owned(),
            Ad9361Error::CalibrationResult => "a calibration result is unusable".to_owned(),
            Ad9361Error::GainControlTiming =>
                "the gain control timing doesn't fit the clock rates".to_owned(),
            Ad9361Error::RssiDurationTooShort =>
                "the RSSI duration is zero samples at this rate".to_owned(),
        }
    }
}

/// Errors while the chip is brought up. `E` is the error type of the SPI bus, `P` the one of the
/// reset pin.
///
/// A wrong product ID usually means the SPI setup is wrong (mode, clock, wiring).
#[derive(Debug, Clone, Copy, PartialEq, Eq, Structural)]
pub enum InitError<E, P> {
    /// Reset pin failed
    ResetPin(P),
    /// Wrong product ID, probably not an AD9361
    UnsupportedDevice { product_id: u8 },
    /// Chip or AXI core failed during setup
    Chip(Ad9361Error<E>),
}

impl<E, P> From<Ad9361Error<E>> for InitError<E, P> {
    fn from(e: Ad9361Error<E>) -> (r: Self) {
        InitError::Chip(e)
    }
}

impl<E, P> vstd::std_specs::convert::FromSpecImpl<Ad9361Error<E>> for InitError<E, P> {
    open spec fn obeys_from_spec() -> bool {
        true
    }

    open spec fn from_spec(e: Ad9361Error<E>) -> Self {
        InitError::Chip(e)
    }
}

/// The decimal digit `digit`.
pub open spec fn digit_text(digit: u8) -> Seq<char> {
    match digit {
        0 => "0"@,
        1 => "1"@,
        2 => "2"@,
        3 => "3"@,
        4 => "4"@,
        5 => "5"@,
        6 => "6"@,
        7 => "7"@,
        8 => "8"@,
        _ => "9"@,
    }
}

/// `number` in decimal, without leading zeros.
pub open spec fn decimal(number: u8) -> Seq<char>
    decreases number,
{
    if number < 10 {
        digit_text(number)
    } else {
        decimal(number / 10) + digit_text(number % 10)
    }
}

fn append_digit(text: &mut String, digit: u8)
    requires
        digit < 10,
    ensures
        final(text)@ == old(text)@ + digit_text(digit),
{
    match digit {
        0 => text.append("0"),
        1 => text.append("1"),
        2 => text.append("2"),
        3 => text.append("3"),
        4 => text.append("4"),
        5 => text.append("5"),
        6 => text.append("6"),
        7 => text.append("7"),
        8 => text.append("8"),
        _ => text.append("9"),
    }
}

fn append_decimal(text: &mut String, number: u8)
    ensures
        final(text)@ == old(text)@ + decimal(number),
    decreases number,
{
    if number < 10 {
        append_digit(text, number);
    } else {
        append_decimal(text, number / 10);
        append_digit(text, number % 10);
    }
}

impl<E, P> InitError<E, P> {
    /// What [`Self::text`] returns.
    pub open spec fn message(self, cause: Seq<char>) -> Seq<char> {
        match self {
            InitError::ResetPin(_) => "the reset pin failed: "@ + cause,
            InitError::UnsupportedDevice { product_id } =>
                "unsupported device, product ID "@ + decimal(product_id),
            InitError::Chip(e) => e.message(cause),
        }
    }

    /// The message. `cause` is the text of the reset pin's or the SPI bus' own error.
    pub fn text(&self, cause: &str) -> (text: String)
        ensures
            text@ == self.message(cause@),
    {
        match self {
            InitError::ResetPin(_) => {
                let mut text = "the reset pin failed: ".to_owned();
                text.append(cause);
                text
            },
            InitError::UnsupportedDevice { product_id } => {
                let mut text = "unsupported device, product ID ".to_owned();
                append_decimal(&mut text, *product_id);
                text
            },
            InitError::Chip(e) => e.text(cause),
        }
    }
}

} // verus!

//! What is known of the earbuds' state, kept up to date from the messages
//! they send, and how it is shown.

use vstd::prelude::*;
use vstd::string::StringExecFns;
use crate::codec::{ExtendedStatusUpdate, NoiseControlMode, NoiseControlsUpdated, StatusUpdate};

verus! {

/// The character for a decimal digit.
pub open spec fn digit_char(digit: int) -> char
    recommends
        0 <= digit < 10,
{
    if digit == 0 {
        '0'
    } else if digit == 1 {
        '1'
    } else if digit == 2 {
        '2'
    } else if digit == 3 {
        '3'
    } else if digit == 4 {
        '4'
    } else if digit == 5 {
        '5'
    } else if digit == 6 {
        '6'
    } else if digit == 7 {
        '7'
    } else if digit == 8 {
        '8'
    } else {
        '9'
    }
}

/// The decimal digits of a natural number, without leading zeros.
pub open spec fn digits(n: nat) -> Seq<char>
    decreases n,
{
    if n < 10 {
        seq![digit_char(n as int)]
    } else {
        digits(n / 10).push(digit_char((n % 10) as int))
    }
}

/// A number written in decimal, with a minus sign where it is negative.
pub open spec fn decimal(n: int) -> Seq<char> {
    if n < 0 {
        seq!['-'] + digits((-n) as nat)
    } else {
        digits(n as nat)
    }
}

/// A battery level as a percentage.
pub open spec fn percent(level: i8) -> Seq<char> {
    decimal(level as int) + "%"@
}

/// The text for the batteries of the two earbuds: one figure where both
/// hold the same charge, else one for each.
pub open spec fn battery_text_of(left: i8, right: i8) -> Seq<char> {
    if left == right {
        "L / R "@ + percent(left)
    } else {
        "L "@ + percent(left) + " / R "@ + percent(right)
    }
}

/// The name of a noise-control mode.
pub open spec fn mode_text_of(mode: NoiseControlMode) -> Seq<char> {
    match mode {
        NoiseControlMode::NoiseReduction => "Noise Reduction"@,
        NoiseControlMode::AmbientSound => "Ambient Sound"@,
        NoiseControlMode::Off => "Off"@,
    }
}

/// The noise-control mode that an extended status update reports: noise
/// reduction where it is on, else ambient sound where that is on, else off.
pub open spec fn mode_of_status(status: ExtendedStatusUpdate) -> NoiseControlMode {
    if status.noise_reduction {
        NoiseControlMode::NoiseReduction
    } else if status.ambient_sound_enabled {
        NoiseControlMode::AmbientSound
    } else {
        NoiseControlMode::Off
    }
}

/// The text of one decimal digit.
fn digit_text(digit: u8) -> (text: &'static str)
    requires
        digit < 10,
    ensures
        text@ == seq![digit_char(digit as int)],
{
    proof {
        reveal_strlit("0");
        reveal_strlit("1");
        reveal_strlit("2");
        reveal_strlit("3");
        reveal_strlit("4");
        reveal_strlit("5");
        reveal_strlit("6");
        reveal_strlit("7");
        reveal_strlit("8");
        reveal_strlit("9");
    }
    let text = match digit {
        0 => "0",
        1 => "1",
        2 => "2",
        3 => "3",
        4 => "4",
        5 => "5",
        6 => "6",
        7 => "7",
        8 => "8",
        _ => "9",
    };
    assert(text@ =~= seq![digit_char(digit as int)]);
    text
}

/// Appends `n`, written in decimal, to `text`.
fn append_decimal(text: &mut String, n: i8)
    ensures
        final(text)@ == old(text)@ + decimal(n as int),
{
    let wide: i16 = n as i16;
    let magnitude: i16 = if wide < 0 {
        proof {
            reveal_strlit("-");
        }
        text.append("-");
        assert(text@ =~= old(text)@ + seq!['-']);
        -wide
    } else {
        assert(text@ =~= old(text)@ + Seq::<char>::empty());
        wide
    };
    let ghost signed = text@;
    let ghost m = magnitude as nat;
    if magnitude >= 100 {
        text.append(digit_text((magnitude / 100) as u8));
    }
    if magnitude >= 10 {
        text.append(digit_text(((magnitude / 10) % 10) as u8));
    }
    text.append(digit_text((magnitude % 10) as u8));
    proof {
        reveal_with_fuel(digits, 3);
        if m >= 100 {
            assert((m / 10) / 10 == m / 100);
        }
        assert(text@ =~= signed + digits(m));
        if wide < 0 {
            assert(signed + digits(m) =~= old(text)@ + (seq!['-'] + digits(m)));
        }
    }
}

/// Appends a battery level as a percentage to `text`.
fn append_percent(text: &mut String, level: i8)
    ensures
        final(text)@ == old(text)@ + percent(level),
{
    append_decimal(text, level);
    text.append("%");
    assert(text@ =~= old(text)@ + percent(level));
}

/// Brings a state up to date from a message of the earbuds.
pub trait UpdateFrom<T> {
    fn update(&mut self, source: T);
}

/// The battery levels and the noise-control mode of the earbuds.
#[derive(Clone, Copy, Debug, PartialEq, Eq, Structural)]
pub struct BudsStatus {
    battery_left: i8,
    battery_right: i8,
    battery_case: i8,
    noise_control_mode: NoiseControlMode,
}

/// What a `BudsStatus` holds.
pub struct StatusView {
    pub battery_left: i8,
    pub battery_right: i8,
    pub battery_case: i8,
    pub noise_control_mode: NoiseControlMode,
}

impl View for BudsStatus {
    type V = StatusView;

    closed spec fn view(&self) -> StatusView {
        StatusView {
            battery_left: self.battery_left,
            battery_right: self.battery_right,
            battery_case: self.battery_case,
            noise_control_mode: self.noise_control_mode,
        }
    }
}

impl BudsStatus {
    /// The charge of the two earbuds, as text.
    pub fn battery_text(&self) -> (text: String)
        ensures
            text@ == battery_text_of(self@.battery_left, self@.battery_right),
    {
        if self.battery_left == self.battery_right {
            let mut text = "L / R ".to_owned();
            append_percent(&mut text, self.battery_left);
            text
        } else {
            let mut text = "L ".to_owned();
            append_percent(&mut text, self.battery_left);
            text.append(" / R ");
            append_percent(&mut text, self.battery_right);
            text
        }
    }

    /// The charge of the case, as text.
    pub fn case_battery_text(&self) -> (text: String)
        ensures
            text@ == percent(self@.battery_case),
    {
        let mut text = String::new();
        append_percent(&mut text, self.battery_case);
        assert(text@ =~= percent(self@.battery_case));
        text
    }

    /// The noise-control mode.
    pub fn noise_control_mode(&self) -> (mode: NoiseControlMode)
        ensures
            mode == self@.noise_control_mode,
    {
        self.noise_control_mode
    }

    /// The name of the noise-control mode.
    pub fn noise_control_mode_text(&self) -> (text: String)
        ensures
            text@ == mode_text_of(self@.noise_control_mode),
    {
        match self.noise_control_mode {
            NoiseControlMode::NoiseReduction => "Noise Reduction".to_owned(),
            NoiseControlMode::AmbientSound => "Ambient Sound".to_owned(),
            NoiseControlMode::Off => "Off".to_owned(),
        }
    }
}

impl UpdateFrom<&StatusUpdate> for BudsStatus {
    /// Takes the battery levels of a status update; the mode stays.
    fn update(&mut self, status: &StatusUpdate)
        ensures
            final(self)@ == (StatusView {
                battery_left: status.battery_left,
                battery_right: status.battery_right,
                battery_case: status.battery_case,
                noise_control_mode: old(self)@.noise_control_mode,
            }),
    {
        self.battery_left = status.battery_left;
        self.battery_right = status.battery_right;
        self.battery_case = status.battery_case;
    }
}

impl UpdateFrom<&ExtendedStatusUpdate> for BudsStatus {
    /// Takes the battery levels and the mode of an extended status update.
    fn update(&mut self, status: &ExtendedStatusUpdate)
        ensures
            final(self)@ == (StatusView {
                battery_left: status.battery_left,
                battery_right: status.battery_right,
                battery_case: status.battery_case,
                noise_control_mode: mode_of_status(*status),
            }),
    {
        self.battery_left = status.battery_left;
        self.battery_right = status.battery_right;
        self.battery_case = status.battery_case;
        self.noise_control_mode = noise_control_from_status_update(status);
    }
}

impl UpdateFrom<&NoiseControlsUpdated> for BudsStatus {
    /// Takes the mode of a noise-controls update; the battery levels stay.
    fn update(&mut self, update: &NoiseControlsUpdated)
        ensures
            final(self)@ == (StatusView {
                battery_left: old(self)@.battery_left,
                battery_right: old(self)@.battery_right,
                battery_case: old(self)@.battery_case,
                noise_control_mode: update.noise_control_mode,
            }),
    {
        self.noise_control_mode = update.noise_control_mode;
    }
}

impl From<&ExtendedStatusUpdate> for BudsStatus {
    /// The state that an extended status update reports.
    fn from(status: &ExtendedStatusUpdate) -> (result: Self)
        ensures
            result@ == (StatusView {
                battery_left: status.battery_left,
                battery_right: status.battery_right,
                battery_case: status.battery_case,
                noise_control_mode: mode_of_status(*status),
            }),
    {
        BudsStatus {
            battery_left: status.battery_left,
            battery_right: status.battery_right,
            battery_case: status.battery_case,
            noise_control_mode: noise_control_from_status_update(status),
        }
    }
}

impl vstd::std_specs::convert::FromSpecImpl<&ExtendedStatusUpdate> for BudsStatus {
    open spec fn obeys_from_spec() -> bool {
        true
    }

    closed spec fn from_spec(status: &ExtendedStatusUpdate) -> Self {
        BudsStatus {
            battery_left: status.battery_left,
            battery_right: status.battery_right,
            battery_case: status.battery_case,
            noise_control_mode: mode_of_status(*status),
        }
    }
}

/// The noise-control mode that an extended status update reports.
pub fn noise_control_from_status_update(status: &ExtendedStatusUpdate) -> (mode: NoiseControlMode)
    ensures
        mode == mode_of_status(*status),
{
    if status.noise_reduction {
        NoiseControlMode::NoiseReduction
    } else if status.ambient_sound_enabled {
        NoiseControlMode::AmbientSound
    } else {
        NoiseControlMode::Off
    }
}

} // verus!

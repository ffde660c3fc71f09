//! The dialogue of a temperature converter, without the console and without the
//! arithmetic on degrees.
//!
//! The converter asks which way to convert and then for a number of degrees. This
//! module decides what each line of input means and what to say next; reading lines,
//! printing, and computing with fractional degrees are left to the caller.

use crate::text::{decimal_u32, parse_u32, trim, trimmed};
use vstd::prelude::*;

verus! {

/// A scale to convert from.
#[derive(Copy, Clone, Debug, PartialEq, Eq, Structural)]
pub enum TemperatureUnit {
    Celsius,
    Fahrenheit,
}

/// What a line of input says about the conversion to make.
#[derive(Copy, Clone, Debug, PartialEq, Eq, Structural)]
pub enum UnitChoice {
    /// The line chose a scale: `1` stands for Celsius, `2` for Fahrenheit.
    Chosen(TemperatureUnit),
    /// The line holds a number other than 1 and 2.
    OutOfRange,
    /// The line does not hold a number.
    NotANumber,
}

/// The meaning of a number: 1 chooses Celsius, 2 chooses Fahrenheit, no other number
/// chooses anything, and what is no number is reported as such.
pub open spec fn choice_of(number: Option<u32>) -> UnitChoice {
    match number {
        Some(number) => if number == 1 {
            UnitChoice::Chosen(TemperatureUnit::Celsius)
        } else if number == 2 {
            UnitChoice::Chosen(TemperatureUnit::Fahrenheit)
        } else {
            UnitChoice::OutOfRange
        },
        None => UnitChoice::NotANumber,
    }
}

/// The meaning of a line: its text between leading and trailing white space is read
/// as a decimal `u32`, and that number chooses.
pub open spec fn unit_choice(line: Seq<char>) -> UnitChoice {
    choice_of(decimal_u32(trimmed(line)))
}

/// Reads the answer to "which conversion?" from one line of input.
pub fn parse_conversion_unit(line: &str) -> (choice: UnitChoice)
    ensures
        choice == unit_choice(line@),
{
    UnitChoice::from_number(parse_u32(trim(line)))
}

impl UnitChoice {
    /// What a number chooses, or the lack of one.
    pub fn from_number(number: Option<u32>) -> (choice: UnitChoice)
        ensures
            choice == choice_of(number),
    {
        match number {
            Some(number) => {
                if number == 1 {
                    UnitChoice::Chosen(TemperatureUnit::Celsius)
                } else if number == 2 {
                    UnitChoice::Chosen(TemperatureUnit::Fahrenheit)
                } else {
                    UnitChoice::OutOfRange
                }
            },
            None => UnitChoice::NotANumber,
        }
    }

    /// What to tell the user before asking again; nothing once a scale is chosen.
    pub fn retry_message(&self) -> (message: Option<&'static str>)
        ensures
            match *self {
                UnitChoice::Chosen(_) => message is None,
                UnitChoice::OutOfRange => message is Some && message->0@
                    == "You have to choose either 1 or 2. Please choose again:"@,
                UnitChoice::NotANumber => message is Some && message->0@
                    == "You did not enter a number. Please choose between 1 and 2:"@,
            },
    {
        match self {
            UnitChoice::Chosen(_) => None,
            UnitChoice::OutOfRange => Some(
                "You have to choose either 1 or 2. Please choose again:",
            ),
            UnitChoice::NotANumber => Some(
                "You did not enter a number. Please choose between 1 and 2:",
            ),
        }
    }
}

impl TemperatureUnit {
    /// The request for a number of degrees on this scale.
    pub fn degree_prompt(&self) -> (prompt: &'static str)
        ensures
            prompt@ == (match *self {
                TemperatureUnit::Celsius => "Please enter your Celsius value:"@,
                TemperatureUnit::Fahrenheit => "Please enter your Fahrenheit value:"@,
            }),
    {
        match self {
            TemperatureUnit::Celsius => "Please enter your Celsius value:",
            TemperatureUnit::Fahrenheit => "Please enter your Fahrenheit value:",
        }
    }
}

} // verus!

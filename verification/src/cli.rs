//! What the user asked for.

use vstd::prelude::*;
use crate::constants::cli;
use crate::text::{chars_of, decimal_u32, parse_u32};

verus! {

/// One request, as given on the command line.
#[derive(Debug, Clone, Copy, PartialEq, Eq)]
pub struct Config {
    /// Graphics clock range to lock, `(min, max)` in MHz, with `min < max`.
    pub clocks: Option<(u32, u32)>,
    /// Graphics clock offset in MHz.
    pub graphics_offset: Option<i32>,
    /// Memory voltage-frequency offset in MHz.
    pub memory_offset: Option<i32>,
    /// Power limit as a percentage of the default limit.
    pub power_limit: Option<u32>,
    /// Index of the device to work on.
    pub device: u32,
    /// Show what would be done and change nothing.
    pub dry_run: bool,
    /// Restore the defaults.
    pub reset: bool,
    /// Show the state of the device.
    pub info: bool,
}

/// A subcommand given on the command line.
#[derive(Debug, Clone, Copy, PartialEq, Eq, Structural)]
pub enum Subcommand {
    /// `reset`: restore the defaults.
    Reset,
    /// `info`: show the state of the device.
    Info,
}

/// The settings that can be given on the command line without a subcommand.
#[derive(Debug, Clone, Copy, PartialEq, Eq)]
pub struct Tuning {
    /// Graphics clock range to lock, `(min, max)` in MHz.
    pub clocks: Option<(u32, u32)>,
    /// Graphics clock offset in MHz.
    pub graphics_offset: Option<i32>,
    /// Memory voltage-frequency offset in MHz.
    pub memory_offset: Option<i32>,
    /// Power limit as a percentage of the default limit.
    pub power_limit: Option<u32>,
}

/// What a request amounts to.
#[derive(Debug, Clone, Copy, PartialEq, Eq, Structural)]
pub enum Operation {
    /// Show the state of the device.
    Info,
    /// Restore the defaults.
    Reset { dry_run: bool },
    /// Apply the settings the request names.
    Overclock,
}

impl Operation {
    /// Whether the operation is one that changes settings of the device.
    /// A dry run counts: it stands for the run that would change them.
    pub open spec fn modifies(self) -> bool {
        !(self is Info)
    }

    /// Whether the operation is one that changes settings of the device.
    pub fn modifies_gpu(&self) -> (modifies: bool)
        ensures
            modifies == self.modifies(),
    {
        match self {
            Operation::Info => false,
            _ => true,
        }
    }
}

impl Config {
    /// The request that the arguments of one command line make.
    ///
    /// A subcommand stands alone: with `reset` or `info`, settings given
    /// beside it are dropped. `info` changes nothing, so it is never a dry
    /// run. `device` and `dry_run` are those given to the subcommand if
    /// there is one, else those given to the program.
    pub open spec fn of_args(
        subcommand: Option<Subcommand>,
        tuning: Tuning,
        device: u32,
        dry_run: bool,
    ) -> Config {
        match subcommand {
            Some(Subcommand::Reset) => Config {
                clocks: None,
                graphics_offset: None,
                memory_offset: None,
                power_limit: None,
                device,
                dry_run,
                reset: true,
                info: false,
            },
            Some(Subcommand::Info) => Config {
                clocks: None,
                graphics_offset: None,
                memory_offset: None,
                power_limit: None,
                device,
                dry_run: false,
                reset: false,
                info: true,
            },
            None => Config {
                clocks: tuning.clocks,
                graphics_offset: tuning.graphics_offset,
                memory_offset: tuning.memory_offset,
                power_limit: tuning.power_limit,
                device,
                dry_run,
                reset: false,
                info: false,
            },
        }
    }

    /// Makes the request out of the arguments of one command line.
    pub fn from_args(
        subcommand: Option<Subcommand>,
        tuning: Tuning,
        device: u32,
        dry_run: bool,
    ) -> (config: Self)
        ensures
            config == Self::of_args(subcommand, tuning, device, dry_run),
    {
        match subcommand {
            Some(Subcommand::Reset) => Config {
                clocks: None,
                graphics_offset: None,
                memory_offset: None,
                power_limit: None,
                device,
                dry_run,
                reset: true,
                info: false,
            },
            Some(Subcommand::Info) => Config {
                clocks: None,
                graphics_offset: None,
                memory_offset: None,
                power_limit: None,
                device,
                dry_run: false,
                reset: false,
                info: true,
            },
            None => Config {
                clocks: tuning.clocks,
                graphics_offset: tuning.graphics_offset,
                memory_offset: tuning.memory_offset,
                power_limit: tuning.power_limit,
                device,
                dry_run,
                reset: false,
                info: false,
            },
        }
    }

    /// Whether the request names anything to do.
    pub open spec fn names_operation(self) -> bool {
        self.clocks is Some || self.graphics_offset is Some || self.memory_offset is Some
            || self.power_limit is Some || self.reset || self.info
    }

    /// The operation the request amounts to: a reset if it asks for one, else
    /// a look at the device if it asks for that, else the settings it names.
    pub open spec fn selected(self) -> Operation {
        if self.reset {
            Operation::Reset { dry_run: self.dry_run }
        } else if self.info {
            Operation::Info
        } else {
            Operation::Overclock
        }
    }

    /// Whether the clock range, if the request has one, is a range: its
    /// minimum strictly below its maximum.
    pub open spec fn clocks_ordered(self) -> bool {
        self.clocks matches Some(range) ==> range.0 < range.1
    }

    /// Whether the request can be carried out: it names something to do, and
    /// its clock range is a range.
    pub open spec fn acceptable(self) -> bool {
        self.names_operation() && self.clocks_ordered()
    }

    /// Accepts a request that names something to do and whose clock range,
    /// if it has one, has its minimum strictly below its maximum. A request
    /// that names nothing is refused for that, whatever its clock range.
    pub fn validate(&self) -> (checked: Result<(), &'static str>)
        ensures
            checked is Ok <==> self.acceptable(),
            checked matches Err(message) ==> message@ == (if !self.names_operation() {
                "No operation specified."@
            } else {
                "Minimum clock must be less than maximum clock"@
            }),
    {
        if self.clocks.is_none() && self.graphics_offset.is_none() && self.memory_offset.is_none()
            && self.power_limit.is_none() && !self.reset && !self.info {
            return Err("No operation specified.");
        }
        if let Some((min, max)) = self.clocks {
            if let Err(message) = check_clock_range(min, max) {
                return Err(message);
            }
        }
        Ok(())
    }

    /// The operation the request amounts to.
    pub fn operation(&self) -> (operation: Operation)
        ensures
            operation == self.selected(),
    {
        if self.reset {
            Operation::Reset { dry_run: self.dry_run }
        } else if self.info {
            Operation::Info
        } else {
            Operation::Overclock
        }
    }
}

/// Accepts a clock range whose minimum is strictly below its maximum. A
/// range that is empty or upside down is refused.
pub fn check_clock_range(min: u32, max: u32) -> (checked: Result<(u32, u32), &'static str>)
    ensures
        min < max ==> checked == Ok::<(u32, u32), &'static str>((min, max)),
        min >= max ==> (checked matches Err(message) && message@
            == "Minimum clock must be less than maximum clock"@),
{
    if min >= max {
        return Err("Minimum clock must be less than maximum clock");
    }
    Ok((min, max))
}

/// Whether `text` holds the separator at `at` and nowhere else.
pub open spec fn splits_at(text: Seq<char>, at: int) -> bool {
    &&& 0 <= at < text.len()
    &&& text[at] == ','
    &&& forall|other: int| 0 <= other < text.len() && other != at ==> text[other] != ','
}

/// What a clock range argument means.
///
/// The argument is two unsigned decimal numbers with exactly one comma
/// between them, minimum first, and the minimum must be below the maximum.
/// Anything else is refused with the message that says what is wrong; where
/// more than one thing is wrong, the first in this order is named: the shape,
/// the minimum, the maximum, the order of the two.
pub open spec fn clock_range(text: Seq<char>) -> Result<(u32, u32), Seq<char>> {
    if !(exists|at: int| splits_at(text, at)) {
        Err("Clock format must be 'min,max'"@)
    } else {
        let at = choose|at: int| splits_at(text, at);
        match decimal_u32(text.subrange(0, at)) {
            None => Err("Invalid minimum clock value"@),
            Some(min) => match decimal_u32(text.subrange(at + 1, text.len() as int)) {
                None => Err("Invalid maximum clock value"@),
                Some(max) => if min >= max {
                    Err("Minimum clock must be less than maximum clock"@)
                } else {
                    Ok((min, max))
                },
            },
        }
    }
}

/// Position of the first separator in `chars`, if there is one.
fn first_separator(chars: &Vec<char>, from: usize) -> (found: Option<usize>)
    requires
        from <= chars@.len(),
    ensures
        match found {
            Some(at) => from <= at < chars@.len() && chars@[at as int] == ',' && forall|i: int|
                from <= i < at ==> chars@[i] != ',',
            None => forall|i: int| from <= i < chars@.len() ==> chars@[i] != ',',
        },
{
    let mut i: usize = from;
    while i < chars.len()
        invariant
            from <= i <= chars@.len(),
            forall|k: int| from <= k < i ==> chars@[k] != ',',
        decreases chars@.len() - i,
    {
        if chars[i] == cli::CLOCK_SEPARATOR {
            return Some(i);
        }
        i += 1;
    }
    None
}

/// Reads a clock range written as `min,max`, in MHz.
pub fn parse_clocks(s: &str) -> (parsed: Result<(u32, u32), &'static str>)
    ensures
        match parsed {
            Ok(range) => clock_range(s@) == Ok::<(u32, u32), Seq<char>>(range),
            Err(message) => clock_range(s@) == Err::<(u32, u32), Seq<char>>(message@),
        },
        parsed matches Ok(range) ==> range.0 < range.1,
{
    let chars = chars_of(s);
    let at = match first_separator(&chars, 0) {
        None => {
            return Err("Clock format must be 'min,max'");
        },
        Some(at) => at,
    };
    if let Some(second) = first_separator(&chars, at + 1) {
        assert forall|other: int| !splits_at(chars@, other) by {
            if splits_at(chars@, other) {
                assert(chars@[at as int] == ',');
                assert(chars@[second as int] == ',');
            }
        }
        return Err("Clock format must be 'min,max'");
    }
    assert(splits_at(chars@, at as int));
    let ghost chosen = choose|at: int| splits_at(chars@, at);
    assert(chosen == at);
    let min = match parse_u32(&chars, 0, at) {
        None => {
            return Err("Invalid minimum clock value");
        },
        Some(min) => min,
    };
    let max = match parse_u32(&chars, at + 1, chars.len()) {
        None => {
            return Err("Invalid maximum clock value");
        },
        Some(max) => max,
    };
    check_clock_range(min, max)
}

} // verus!

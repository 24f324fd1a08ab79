//! Table-driven generation of poisons and weather forecasts for a tabletop
//! role-playing game: dice rolls are looked up in fixed tables, and what the
//! tables give is gathered into one record.

pub mod poison;
pub mod source;
pub mod text;
pub mod weather;

use crate::text::{decimal, push_decimal};
use vstd::prelude::*;
use vstd::string::StringExecFns;

verus! {

/// Why a generation was refused.
#[derive(Clone, Copy, Debug, PartialEq, Eq, Structural)]
pub enum GenError {
    /// A level or a number of days outside its domain, with the value given.
    InvalidInput { value: u64 },
    /// A roll that no bucket of its table holds, with the roll.
    TableCoverage { roll: u32 },
}

/// The unit of time in which a dice expression counts.
#[derive(Clone, Copy, Debug, PartialEq, Eq, Structural)]
pub enum Timeunit {
    /// A combat round.
    KR,
    /// A game round.
    SR,
    /// An hour.
    STD,
}

impl Timeunit {
    /// The unit's name as it is shown.
    pub open spec fn label_text(self) -> Seq<char> {
        match self {
            Timeunit::KR => "KR"@,
            Timeunit::SR => "SR"@,
            Timeunit::STD => "Stunde(n)"@,
        }
    }

    /// The unit's name as it is shown.
    pub fn label(&self) -> (r: &'static str)
        ensures
            r@ == self.label_text(),
    {
        match self {
            Timeunit::KR => "KR",
            Timeunit::SR => "SR",
            Timeunit::STD => "Stunde(n)",
        }
    }
}

impl Default for Timeunit {
    fn default() -> (r: Self)
        ensures
            r == Timeunit::SR,
    {
        Timeunit::SR
    }
}

/// The form in which a result is written out.
#[derive(Clone, Copy, Debug, PartialEq, Eq, Structural)]
pub enum Format {
    TEXT,
    MD,
    CSV,
    JSON,
}

impl Format {
    /// The format's name as it is shown.
    pub open spec fn label_text(self) -> Seq<char> {
        match self {
            Format::TEXT => "TEXT"@,
            Format::MD => "MD"@,
            Format::CSV => "CSV"@,
            Format::JSON => "JSON"@,
        }
    }

    /// The format's name as it is shown.
    pub fn label(&self) -> (r: &'static str)
        ensures
            r@ == self.label_text(),
    {
        match self {
            Format::TEXT => "TEXT",
            Format::MD => "MD",
            Format::CSV => "CSV",
            Format::JSON => "JSON",
        }
    }
}

/// A characteristic of a hero that a symptom can lower.
#[derive(Clone, Copy, Debug, PartialEq, Eq, Structural)]
pub enum Characteristic {
    MU,
    KL,
    IN,
    CH,
    FF,
    GE,
    KO,
    KK,
}

impl Characteristic {
    /// The characteristic's abbreviation.
    pub open spec fn label_text(self) -> Seq<char> {
        match self {
            Characteristic::MU => "MU"@,
            Characteristic::KL => "KL"@,
            Characteristic::IN => "IN"@,
            Characteristic::CH => "CH"@,
            Characteristic::FF => "FF"@,
            Characteristic::GE => "GE"@,
            Characteristic::KO => "KO"@,
            Characteristic::KK => "KK"@,
        }
    }

    /// The characteristic's abbreviation.
    pub fn label(&self) -> (r: &'static str)
        ensures
            r@ == self.label_text(),
    {
        match self {
            Characteristic::MU => "MU",
            Characteristic::KL => "KL",
            Characteristic::IN => "IN",
            Characteristic::CH => "CH",
            Characteristic::FF => "FF",
            Characteristic::GE => "GE",
            Characteristic::KO => "KO",
            Characteristic::KK => "KK",
        }
    }
}

/// A number of six-sided dice and a flat bonus, counted in a unit of time.
#[derive(Clone, Copy, Debug, PartialEq, Eq, Structural)]
pub struct DiceOverTime {
    pub dice: u32,
    pub flat: u32,
    pub time: Timeunit,
}

impl DiceOverTime {
    /// The dice notation without the unit: the number of dice, `W6+`, the bonus.
    pub open spec fn roll_text(self) -> Seq<char> {
        decimal(self.dice as nat) + "W6+"@ + decimal(self.flat as nat)
    }

    /// The dice notation, a blank and the unit's name.
    pub open spec fn full_text(self) -> Seq<char> {
        self.roll_text() + " "@ + self.time.label_text()
    }

    /// The dice notation without the unit.
    pub fn roll_only(&self) -> (r: String)
        ensures
            r@ == self.roll_text(),
    {
        let mut out = String::new();
        self.push_roll(&mut out);
        assert(Seq::<char>::empty() + self.roll_text() =~= self.roll_text());
        out
    }

    /// The dice notation with its unit.
    pub fn to_text(&self) -> (r: String)
        ensures
            r@ == self.full_text(),
    {
        let mut out = String::new();
        self.push_full(&mut out);
        assert(Seq::<char>::empty() + self.full_text() =~= self.full_text());
        out
    }

    /// Appends the dice notation without the unit to `out`.
    pub fn push_roll(&self, out: &mut String)
        ensures
            final(out)@ == old(out)@ + self.roll_text(),
    {
        push_decimal(out, self.dice as u64);
        out.append("W6+");
        push_decimal(out, self.flat as u64);
        assert(final(out)@ =~= old(out)@ + self.roll_text());
    }

    /// Appends the dice notation with its unit to `out`.
    pub fn push_full(&self, out: &mut String)
        ensures
            final(out)@ == old(out)@ + self.full_text(),
    {
        self.push_roll(out);
        out.append(" ");
        out.append(self.time.label());
        assert(final(out)@ =~= old(out)@ + self.full_text());
    }
}

impl Default for DiceOverTime {
    fn default() -> (r: Self)
        ensures
            r == (DiceOverTime { dice: 0, flat: 0, time: Timeunit::SR }),
    {
        DiceOverTime { dice: 0, flat: 0, time: Timeunit::SR }
    }
}

} // verus!

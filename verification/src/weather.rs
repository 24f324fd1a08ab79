//! Weather: the tables that turn a roll into clouds, wind, rain and the
//! attributes that change overnight, and the day-by-day forecast built on them.

use crate::source::{on_d20, Dice};
use crate::text::{decimal, push_decimal, push_signed, signed_decimal};
use crate::GenError;
use vstd::prelude::*;
use vstd::string::StringExecFns;

verus! {

/// The season of the year.
#[derive(Clone, Copy, Debug, PartialEq, Eq, Structural)]
pub enum Season {
    SUMMER,
    AUTUMN,
    WINTER,
    SPRING,
}

impl Season {
    /// The season's name as it is shown.
    pub open spec fn label_text(self) -> Seq<char> {
        match self {
            Season::SUMMER => "Sommer"@,
            Season::AUTUMN => "Herbst"@,
            Season::WINTER => "Winter"@,
            Season::SPRING => "Frühling"@,
        }
    }

    /// The season's name as it is shown.
    pub fn label(&self) -> (r: &'static str)
        ensures
            r@ == self.label_text(),
    {
        match self {
            Season::SUMMER => "Sommer",
            Season::AUTUMN => "Herbst",
            Season::WINTER => "Winter",
            Season::SPRING => "Frühling",
        }
    }

    /// Summer and winter hold their weather; spring and autumn do not.
    pub open spec fn is_stable(self) -> bool {
        self == Season::SUMMER || self == Season::WINTER
    }
}

/// The region in which the travellers are.
#[allow(non_camel_case_types)]
#[derive(Clone, Copy, Debug, PartialEq, Eq, Structural)]
pub enum Region {
    EWIGES_EIS,
    EHERNES_SCHWERT,
    HOHER_NORDEN,
    TUNDRA,
    THORWAL,
    WEIDEN,
    MITTELREICH,
    ALMADA,
    RASCHTULSWALL,
    HORASREICH_SUED,
    KHOM,
    ECHSENSUEMPFE,
    SUEDMEER,
}

impl Region {
    /// The region's base temperatures in summer, in spring and autumn, and
    /// in winter.
    pub open spec fn base_temperatures(self) -> (int, int, int) {
        match self {
            Region::EWIGES_EIS => (-20, -30, -40),
            Region::EHERNES_SCHWERT => (-10, -20, -30),
            Region::HOHER_NORDEN => (0, -10, -20),
            Region::TUNDRA => (5, 0, -5),
            Region::THORWAL => (10, 3, -5),
            Region::WEIDEN => (10, 5, 0),
            Region::MITTELREICH => (15, 10, 5),
            Region::ALMADA => (20, 15, 10),
            Region::RASCHTULSWALL => (5, 0, -10),
            Region::HORASREICH_SUED => (25, 20, 15),
            Region::KHOM => (40, 35, 30),
            Region::ECHSENSUEMPFE => (30, 25, 20),
            Region::SUEDMEER => (35, 30, 25),
        }
    }

    /// The region's base temperature in the given season.
    pub open spec fn base_in(self, season: Season) -> int {
        match season {
            Season::SUMMER => self.base_temperatures().0,
            Season::WINTER => self.base_temperatures().2,
            Season::SPRING | Season::AUTUMN => self.base_temperatures().1,
        }
    }

    /// The region's base temperature in the given season.
    pub fn temp_base(&self, season: &Season) -> (r: i32)
        ensures
            r == self.base_in(*season),
            -40 <= r <= 40,
    {
        let tuple: (i32, i32, i32) = match self {
            Region::EWIGES_EIS => (-20, -30, -40),
            Region::EHERNES_SCHWERT => (-10, -20, -30),
            Region::HOHER_NORDEN => (0, -10, -20),
            Region::TUNDRA => (5, 0, -5),
            Region::THORWAL => (10, 3, -5),
            Region::WEIDEN => (10, 5, 0),
            Region::MITTELREICH => (15, 10, 5),
            Region::ALMADA => (20, 15, 10),
            Region::RASCHTULSWALL => (5, 0, -10),
            Region::HORASREICH_SUED => (25, 20, 15),
            Region::KHOM => (40, 35, 30),
            Region::ECHSENSUEMPFE => (30, 25, 20),
            Region::SUEDMEER => (35, 30, 25),
        };
        match season {
            Season::SUMMER => tuple.0,
            Season::WINTER => tuple.2,
            Season::SPRING | Season::AUTUMN => tuple.1,
        }
    }

    /// The region's name as it is shown.
    pub open spec fn label_text(self) -> Seq<char> {
        match self {
            Region::EWIGES_EIS => "Ewiges Eis"@,
            Region::EHERNES_SCHWERT => "Höhen des Ehernen Schwerts"@,
            Region::HOHER_NORDEN => "Hoher Norden"@,
            Region::TUNDRA => "Tundra und Taiga"@,
            Region::THORWAL => "Bornland, Thorwal"@,
            Region::WEIDEN => "Streitende Königreiche bis Weiden"@,
            Region::MITTELREICH => "Zentrales Mittelreich"@,
            Region::ALMADA => "Nördliches Horasreich, Almada, Aranien"@,
            Region::RASCHTULSWALL => "Höhen des Raschtulswalls"@,
            Region::HORASREICH_SUED => "Südliches Horasreich, Reich der ersten Sonne"@,
            Region::KHOM => "Khom"@,
            Region::ECHSENSUEMPFE => "Echsensümpfe, Meridiana"@,
            Region::SUEDMEER => "Altoum, Gewürzinseln, Südmeer"@,
        }
    }

    /// The region's name as it is shown.
    pub fn label(&self) -> (r: &'static str)
        ensures
            r@ == self.label_text(),
    {
        match self {
            Region::EWIGES_EIS => "Ewiges Eis",
            Region::EHERNES_SCHWERT => "Höhen des Ehernen Schwerts",
            Region::HOHER_NORDEN => "Hoher Norden",
            Region::TUNDRA => "Tundra und Taiga",
            Region::THORWAL => "Bornland, Thorwal",
            Region::WEIDEN => "Streitende Königreiche bis Weiden",
            Region::MITTELREICH => "Zentrales Mittelreich",
            Region::ALMADA => "Nördliches Horasreich, Almada, Aranien",
            Region::RASCHTULSWALL => "Höhen des Raschtulswalls",
            Region::HORASREICH_SUED => "Südliches Horasreich, Reich der ersten Sonne",
            Region::KHOM => "Khom",
            Region::ECHSENSUEMPFE => "Echsensümpfe, Meridiana",
            Region::SUEDMEER => "Altoum, Gewürzinseln, Südmeer",
        }
    }
}

/// How much of the sky the clouds cover.
#[derive(Clone, Copy, Debug, PartialEq, Eq, Structural)]
pub enum Clouds {
    NONE,
    FEW,
    LOTS,
    ALL,
}

impl Clouds {
    /// What the clouds add to the day's temperature and take from the night's.
    pub open spec fn modifier(self) -> int {
        match self {
            Clouds::NONE => 10,
            Clouds::FEW => 5,
            Clouds::LOTS => 0,
            Clouds::ALL => -5,
        }
    }

    /// What the clouds add to the day's temperature and take from the night's.
    pub fn temp_mod(&self) -> (r: i32)
        ensures
            r == self.modifier(),
    {
        match self {
            Clouds::NONE => 10,
            Clouds::FEW => 5,
            Clouds::LOTS => 0,
            Clouds::ALL => -5,
        }
    }

    /// The highest roll of a twenty-sided die on which it rains under these
    /// clouds; 0 where it never rains.
    pub open spec fn rain_threshold(self) -> int {
        match self {
            Clouds::NONE => 0,
            Clouds::FEW => 1,
            Clouds::LOTS => 4,
            Clouds::ALL => 10,
        }
    }

    /// The description of the sky as it is shown.
    pub open spec fn label_text(self) -> Seq<char> {
        match self {
            Clouds::NONE => "völlig wolkenlos"@,
            Clouds::FEW => "einzelne Wolken"@,
            Clouds::LOTS => "bewölkt mit Wolkenlücken"@,
            Clouds::ALL => "geschlossene Wolkendecke"@,
        }
    }

    /// The description of the sky as it is shown.
    pub fn label(&self) -> (r: &'static str)
        ensures
            r@ == self.label_text(),
    {
        match self {
            Clouds::NONE => "völlig wolkenlos",
            Clouds::FEW => "einzelne Wolken",
            Clouds::LOTS => "bewölkt mit Wolkenlücken",
            Clouds::ALL => "geschlossene Wolkendecke",
        }
    }
}

/// The strength of the wind.
#[derive(Clone, Copy, Debug, PartialEq, Eq, Structural)]
pub enum Wind {
    NONE,
    LIGHT,
    SOFT,
    FRESH,
    COOL,
    STRONG,
    STORM,
}

impl Wind {
    /// What the wind adds to the temperatures of day and night.
    pub open spec fn modifier(self) -> int {
        match self {
            Wind::NONE => 4,
            Wind::LIGHT => 2,
            Wind::SOFT | Wind::FRESH => 0,
            Wind::COOL => -2,
            Wind::STRONG => -4,
            Wind::STORM => -6,
        }
    }

    /// What the wind adds to the temperatures of day and night.
    pub fn temp_mod(&self) -> (r: i32)
        ensures
            r == self.modifier(),
    {
        match self {
            Wind::NONE => 4,
            Wind::LIGHT => 2,
            Wind::SOFT | Wind::FRESH => 0,
            Wind::COOL => -2,
            Wind::STRONG => -4,
            Wind::STORM => -6,
        }
    }

    /// The wind's place in the order from calm to storm.
    pub open spec fn strength(self) -> int {
        match self {
            Wind::NONE => 0,
            Wind::LIGHT => 1,
            Wind::SOFT => 2,
            Wind::FRESH => 3,
            Wind::COOL => 4,
            Wind::STRONG => 5,
            Wind::STORM => 6,
        }
    }

    /// The highest roll on which rain in this wind is light.
    pub open spec fn light_rain_up_to(self) -> int {
        match self {
            Wind::NONE => 12,
            Wind::LIGHT => 9,
            Wind::SOFT => 7,
            Wind::FRESH => 5,
            Wind::COOL => 3,
            Wind::STRONG => 2,
            Wind::STORM => 1,
        }
    }

    /// The highest roll on which rain in this wind is not yet a downpour.
    pub open spec fn steady_rain_up_to(self) -> int {
        match self {
            Wind::NONE => 19,
            Wind::LIGHT => 18,
            Wind::SOFT => 17,
            Wind::FRESH => 16,
            Wind::COOL => 15,
            Wind::STRONG => 13,
            Wind::STORM => 10,
        }
    }

    /// The description of the wind as it is shown.
    pub open spec fn label_text(self) -> Seq<char> {
        match self {
            Wind::NONE => "windstill"@,
            Wind::LIGHT => "leichter Wind"@,
            Wind::SOFT => "sanfte Brise"@,
            Wind::FRESH => "frische Brise"@,
            Wind::COOL => "steife Brise"@,
            Wind::STRONG => "starker Wind"@,
            Wind::STORM => "Sturm"@,
        }
    }

    /// The description of the wind as it is shown.
    pub fn label(&self) -> (r: &'static str)
        ensures
            r@ == self.label_text(),
    {
        match self {
            Wind::NONE => "windstill",
            Wind::LIGHT => "leichter Wind",
            Wind::SOFT => "sanfte Brise",
            Wind::FRESH => "frische Brise",
            Wind::COOL => "steife Brise",
            Wind::STRONG => "starker Wind",
            Wind::STORM => "Sturm",
        }
    }
}

/// How much it rains.
#[derive(Clone, Copy, Debug, PartialEq, Eq, Structural)]
pub enum Rain {
    NONE,
    LITTLE,
    LOTS,
    ALL,
}

/// The attributes of the weather that are rolled anew on a day; one that is
/// not set keeps the value of the day before.
#[derive(Clone, Copy, Debug, PartialEq, Eq, Structural)]
pub struct ChangeMask {
    pub clouds: bool,
    pub wind: bool,
    pub temperature: bool,
    pub rain: bool,
}

impl ChangeMask {
    /// The mask that changes nothing.
    pub open spec fn nothing() -> ChangeMask {
        ChangeMask { clouds: false, wind: false, temperature: false, rain: false }
    }

    /// The mask that changes every attribute.
    pub open spec fn everything() -> ChangeMask {
        ChangeMask { clouds: true, wind: true, temperature: true, rain: true }
    }

    /// The mask that changes every attribute, as the first day needs it.
    pub fn all() -> (m: ChangeMask)
        ensures
            m == ChangeMask::everything(),
    {
        ChangeMask { clouds: true, wind: true, temperature: true, rain: true }
    }
}

/// Where the travellers are and when: what the tables are chosen by.
#[derive(Clone, Copy, Debug, PartialEq, Eq, Structural)]
pub struct Conditions {
    pub region: Region,
    pub season: Season,
    pub is_desert: bool,
    pub is_windy: bool,
}

/// The cloud table: what a roll of a twenty-sided die means for the sky, in
/// the desert and elsewhere. `None` for a roll that is not on the die.
pub open spec fn clouds_table(is_desert: bool, roll: int) -> Option<Clouds> {
    if !on_d20(roll) {
        None
    } else if is_desert {
        if roll <= 16 {
            Some(Clouds::NONE)
        } else if roll <= 18 {
            Some(Clouds::FEW)
        } else if roll <= 19 {
            Some(Clouds::LOTS)
        } else {
            Some(Clouds::ALL)
        }
    } else {
        if roll <= 4 {
            Some(Clouds::NONE)
        } else if roll <= 10 {
            Some(Clouds::FEW)
        } else if roll <= 16 {
            Some(Clouds::LOTS)
        } else {
            Some(Clouds::ALL)
        }
    }
}

/// Looks a roll up in the cloud table.
pub fn clouds_for_roll(is_desert: bool, roll: u32) -> (r: Result<Clouds, GenError>)
    ensures
        r is Ok <==> on_d20(roll as int),
        match r {
            Ok(c) => clouds_table(is_desert, roll as int) == Some(c),
            Err(e) => e == (GenError::TableCoverage { roll }),
        },
{
    if is_desert {
        match roll {
            1..=16 => Ok(Clouds::NONE),
            17..=18 => Ok(Clouds::FEW),
            19 => Ok(Clouds::LOTS),
            20 => Ok(Clouds::ALL),
            _ => Err(GenError::TableCoverage { roll }),
        }
    } else {
        match roll {
            1..=4 => Ok(Clouds::NONE),
            5..=10 => Ok(Clouds::FEW),
            11..=16 => Ok(Clouds::LOTS),
            17..=20 => Ok(Clouds::ALL),
            _ => Err(GenError::TableCoverage { roll }),
        }
    }
}

/// What a wind roll counts for: in windy conditions two more than was rolled.
pub open spec fn wind_value(is_windy: bool, roll: int) -> int {
    if is_windy {
        roll + 2
    } else {
        roll
    }
}

/// The wind table: what a value between 1 and 22 means for the wind, in
/// autumn and in the other seasons. The last bucket takes the values that
/// windy conditions raise above 20. `None` for any other value.
pub open spec fn wind_table(is_autumn: bool, value: int) -> Option<Wind> {
    if value < 1 || value > 22 {
        None
    } else if is_autumn {
        if value <= 3 {
            Some(Wind::NONE)
        } else if value <= 5 {
            Some(Wind::LIGHT)
        } else if value <= 7 {
            Some(Wind::SOFT)
        } else if value <= 10 {
            Some(Wind::FRESH)
        } else if value <= 14 {
            Some(Wind::COOL)
        } else if value <= 18 {
            Some(Wind::STRONG)
        } else {
            Some(Wind::STORM)
        }
    } else {
        if value <= 4 {
            Some(Wind::NONE)
        } else if value <= 7 {
            Some(Wind::LIGHT)
        } else if value <= 10 {
            Some(Wind::SOFT)
        } else if value <= 13 {
            Some(Wind::FRESH)
        } else if value <= 16 {
            Some(Wind::COOL)
        } else if value <= 19 {
            Some(Wind::STRONG)
        } else {
            Some(Wind::STORM)
        }
    }
}

/// Looks a value up in the wind table of the season.
pub fn wind_for_value(season: &Season, value: u32) -> (r: Result<Wind, GenError>)
    ensures
        r is Ok <==> 1 <= value <= 22,
        match r {
            Ok(w) => wind_table(*season == Season::AUTUMN, value as int) == Some(w),
            Err(e) => e == (GenError::TableCoverage { roll: value }),
        },
{
    if *season == Season::AUTUMN {
        match value {
            1..=3 => Ok(Wind::NONE),
            4..=5 => Ok(Wind::LIGHT),
            6..=7 => Ok(Wind::SOFT),
            8..=10 => Ok(Wind::FRESH),
            11..=14 => Ok(Wind::COOL),
            15..=18 => Ok(Wind::STRONG),
            19..=22 => Ok(Wind::STORM),
            _ => Err(GenError::TableCoverage { roll: value }),
        }
    } else {
        match value {
            1..=4 => Ok(Wind::NONE),
            5..=7 => Ok(Wind::LIGHT),
            8..=10 => Ok(Wind::SOFT),
            11..=13 => Ok(Wind::FRESH),
            14..=16 => Ok(Wind::COOL),
            17..=19 => Ok(Wind::STRONG),
            20..=22 => Ok(Wind::STORM),
            _ => Err(GenError::TableCoverage { roll: value }),
        }
    }
}

/// The wind that a roll of a twenty-sided die gives under the conditions: in
/// windy conditions the roll counts for two more before it is looked up in
/// the season's table, so that 19 and 20 fall into the table's last bucket.
pub fn wind_for_roll(cond: &Conditions, roll: u32) -> (r: Result<Wind, GenError>)
    ensures
        r is Ok <==> on_d20(roll as int),
        match r {
            Ok(w) => wind_table(
                cond.season == Season::AUTUMN,
                wind_value(cond.is_windy, roll as int),
            ) == Some(w),
            Err(e) => e == (GenError::TableCoverage { roll }),
        },
{
    if roll < 1 || roll > 20 {
        return Err(GenError::TableCoverage { roll });
    }
    let value: u32 = if cond.is_windy {
        roll + 2
    } else {
        roll
    };
    wind_for_value(&cond.season, value)
}

/// The day's highest temperature: the region's base for the season, and what
/// wind and clouds add to it.
pub open spec fn day_high(cond: Conditions, clouds: Clouds, wind: Wind) -> int {
    cond.region.base_in(cond.season) + wind.modifier() + clouds.modifier()
}

/// The night's lowest temperature: the base and the wind's part, less the
/// clouds' part, less the roll and five.
pub open spec fn night_low(cond: Conditions, clouds: Clouds, wind: Wind, roll: int) -> int {
    cond.region.base_in(cond.season) + wind.modifier() - clouds.modifier() - (roll + 5)
}

/// The temperatures of day and night for a roll of a twenty-sided die.
pub fn temperature_pair(cond: &Conditions, clouds: &Clouds, wind: &Wind, roll: u32) -> (r: Result<
    (i32, i32),
    GenError,
>)
    ensures
        r is Ok <==> on_d20(roll as int),
        match r {
            Ok(t) => t.0 == day_high(*cond, *clouds, *wind) && t.1 == night_low(
                *cond,
                *clouds,
                *wind,
                roll as int,
            ),
            Err(e) => e == (GenError::TableCoverage { roll }),
        },
{
    if roll < 1 || roll > 20 {
        return Err(GenError::TableCoverage { roll });
    }
    let base: i32 = cond.region.temp_base(&cond.season);
    let drop: i32 = roll as i32 + 5;
    Ok((base + wind.temp_mod() + clouds.temp_mod(), base + wind.temp_mod() - clouds.temp_mod() - drop))
}

/// Whether it rains under the given clouds on the given roll.
pub open spec fn rain_falls(clouds: Clouds, roll: int) -> bool {
    roll <= clouds.rain_threshold()
}

/// Decides from a roll of a twenty-sided die whether it rains.
pub fn rain_occurs(clouds: &Clouds, roll: u32) -> (r: Result<bool, GenError>)
    ensures
        r is Ok <==> on_d20(roll as int),
        match r {
            Ok(b) => b == rain_falls(*clouds, roll as int),
            Err(e) => e == (GenError::TableCoverage { roll }),
        },
{
    if roll < 1 || roll > 20 {
        return Err(GenError::TableCoverage { roll });
    }
    Ok(
        match clouds {
            Clouds::NONE => false,
            Clouds::FEW => roll == 1,
            Clouds::LOTS => roll <= 4,
            Clouds::ALL => roll <= 10,
        },
    )
}

/// The rain table: how much it rains on a roll of a twenty-sided die in the
/// given wind. The stronger the wind, the sooner the rain is heavy. `None`
/// for a roll that is not on the die.
pub open spec fn rain_table(wind: Wind, roll: int) -> Option<Rain> {
    if !on_d20(roll) {
        None
    } else if roll <= wind.light_rain_up_to() {
        Some(Rain::LITTLE)
    } else if roll <= wind.steady_rain_up_to() {
        Some(Rain::LOTS)
    } else {
        Some(Rain::ALL)
    }
}

/// Looks a roll up in the rain table of the wind.
pub fn rain_for_roll(wind: &Wind, roll: u32) -> (r: Result<Rain, GenError>)
    ensures
        r is Ok <==> on_d20(roll as int),
        match r {
            Ok(x) => rain_table(*wind, roll as int) == Some(x),
            Err(e) => e == (GenError::TableCoverage { roll }),
        },
{
    match wind {
        Wind::NONE => match roll {
            1..=12 => Ok(Rain::LITTLE),
            13..=19 => Ok(Rain::LOTS),
            20 => Ok(Rain::ALL),
            _ => Err(GenError::TableCoverage { roll }),
        },
        Wind::LIGHT => match roll {
            1..=9 => Ok(Rain::LITTLE),
            10..=18 => Ok(Rain::LOTS),
            19..=20 => Ok(Rain::ALL),
            _ => Err(GenError::TableCoverage { roll }),
        },
        Wind::SOFT => match roll {
            1..=7 => Ok(Rain::LITTLE),
            8..=17 => Ok(Rain::LOTS),
            18..=20 => Ok(Rain::ALL),
            _ => Err(GenError::TableCoverage { roll }),
        },
        Wind::FRESH => match roll {
            1..=5 => Ok(Rain::LITTLE),
            6..=16 => Ok(Rain::LOTS),
            17..=20 => Ok(Rain::ALL),
            _ => Err(GenError::TableCoverage { roll }),
        },
        Wind::COOL => match roll {
            1..=3 => Ok(Rain::LITTLE),
            4..=15 => Ok(Rain::LOTS),
            16..=20 => Ok(Rain::ALL),
            _ => Err(GenError::TableCoverage { roll }),
        },
        Wind::STRONG => match roll {
            1..=2 => Ok(Rain::LITTLE),
            3..=13 => Ok(Rain::LOTS),
            14..=20 => Ok(Rain::ALL),
            _ => Err(GenError::TableCoverage { roll }),
        },
        Wind::STORM => match roll {
            1 => Ok(Rain::LITTLE),
            2..=10 => Ok(Rain::LOTS),
            11..=20 => Ok(Rain::ALL),
            _ => Err(GenError::TableCoverage { roll }),
        },
    }
}

/// The rows of the table of changes, from the first to the twelfth: nothing;
/// wind; temperature; rain; clouds and rain; wind and temperature, twice;
/// rain and temperature; all but clouds; all but wind; all but temperature;
/// everything.
pub open spec fn change_row(row: int) -> ChangeMask {
    if row <= 1 {
        ChangeMask::nothing()
    } else if row == 2 {
        ChangeMask { clouds: false, wind: true, temperature: false, rain: false }
    } else if row == 3 {
        ChangeMask { clouds: false, wind: false, temperature: true, rain: false }
    } else if row == 4 {
        ChangeMask { clouds: false, wind: false, temperature: false, rain: true }
    } else if row == 5 {
        ChangeMask { clouds: true, wind: false, temperature: false, rain: true }
    } else if row == 6 || row == 7 {
        ChangeMask { clouds: false, wind: true, temperature: true, rain: false }
    } else if row == 8 {
        ChangeMask { clouds: false, wind: false, temperature: true, rain: true }
    } else if row == 9 {
        ChangeMask { clouds: false, wind: true, temperature: true, rain: true }
    } else if row == 10 {
        ChangeMask { clouds: true, wind: false, temperature: true, rain: true }
    } else if row == 11 {
        ChangeMask { clouds: true, wind: true, temperature: false, rain: true }
    } else {
        ChangeMask::everything()
    }
}

/// The row of the table of changes that a roll falls into. In a stable
/// season the first row takes the rolls up to 9 and each later row one roll.
/// In a changeable season the first row takes the rolls up to 4, the fifth to
/// the eighth and the last row two rolls each, and the others one.
pub open spec fn change_row_of(stable: bool, roll: int) -> int {
    if stable {
        if roll <= 9 {
            1
        } else {
            roll - 8
        }
    } else {
        if roll <= 4 {
            1
        } else if roll <= 7 {
            roll - 3
        } else if roll <= 15 {
            5 + (roll - 8) / 2
        } else if roll <= 18 {
            roll - 7
        } else {
            12
        }
    }
}

/// The table of changes: which attributes the next day rolls anew, for a roll
/// of a twenty-sided die. `None` for a roll that is not on the die.
pub open spec fn changes_table(stable: bool, roll: int) -> Option<ChangeMask> {
    if !on_d20(roll) {
        None
    } else {
        Some(change_row(change_row_of(stable, roll)))
    }
}

/// Looks a roll up in the table of changes of the season.
pub fn changes_for_roll(season: &Season, roll: u32) -> (r: Result<ChangeMask, GenError>)
    ensures
        r is Ok <==> on_d20(roll as int),
        match r {
            Ok(m) => changes_table(season.is_stable(), roll as int) == Some(m),
            Err(e) => e == (GenError::TableCoverage { roll }),
        },
{
    let nothing = ChangeMask { clouds: false, wind: false, temperature: false, rain: false };
    let wind = ChangeMask { clouds: false, wind: true, temperature: false, rain: false };
    let temperature = ChangeMask { clouds: false, wind: false, temperature: true, rain: false };
    let rain = ChangeMask { clouds: false, wind: false, temperature: false, rain: true };
    let clouds_rain = ChangeMask { clouds: true, wind: false, temperature: false, rain: true };
    let wind_temperature = ChangeMask { clouds: false, wind: true, temperature: true, rain: false };
    let rain_temperature = ChangeMask { clouds: false, wind: false, temperature: true, rain: true };
    let but_clouds = ChangeMask { clouds: false, wind: true, temperature: true, rain: true };
    let but_wind = ChangeMask { clouds: true, wind: false, temperature: true, rain: true };
    let but_temperature = ChangeMask { clouds: true, wind: true, temperature: false, rain: true };
    if *season == Season::SUMMER || *season == Season::WINTER {
        match roll {
            1..=9 => Ok(nothing),
            10 => Ok(wind),
            11 => Ok(temperature),
            12 => Ok(rain),
            13 => Ok(clouds_rain),
            14 => Ok(wind_temperature),
            15 => Ok(wind_temperature),
            16 => Ok(rain_temperature),
            17 => Ok(but_clouds),
            18 => Ok(but_wind),
            19 => Ok(but_temperature),
            20 => Ok(ChangeMask::all()),
            _ => Err(GenError::TableCoverage { roll }),
        }
    } else {
        match roll {
            1..=4 => Ok(nothing),
            5 => Ok(wind),
            6 => Ok(temperature),
            7 => Ok(rain),
            8..=9 => Ok(clouds_rain),
            10..=11 => Ok(wind_temperature),
            12..=13 => Ok(wind_temperature),
            14..=15 => Ok(rain_temperature),
            16 => Ok(but_clouds),
            17 => Ok(but_wind),
            18 => Ok(but_temperature),
            19..=20 => Ok(ChangeMask::all()),
            _ => Err(GenError::TableCoverage { roll }),
        }
    }
}

/// One day of weather.
#[derive(Clone, Copy, Debug, PartialEq, Eq, Structural)]
pub struct Day {
    /// The day's number, counted from 1.
    pub no: u64,
    pub clouds: Clouds,
    pub wind: Wind,
    /// The highest temperature of the day, in degrees.
    pub day_temp: i32,
    /// The lowest temperature of the night, in degrees.
    pub night_temp: i32,
    pub rain: Rain,
}

impl Day {
    /// The day as an item of a list: `- Tag`, the number, a colon, sky and
    /// wind, and the two temperatures with a dash between them.
    pub open spec fn md_text(self) -> Seq<char> {
        "- Tag "@ + decimal(self.no as nat) + ": "@ + self.clouds.label_text() + ", "@
            + self.wind.label_text() + ", "@ + signed_decimal(self.day_temp as int) + " - "@
            + signed_decimal(self.night_temp as int)
    }

    /// The day as one row: `Tag` and the number, sky, wind and the two
    /// temperatures, with a comma and a blank between the fields.
    pub open spec fn csv_text(self) -> Seq<char> {
        "Tag "@ + decimal(self.no as nat) + ", "@ + self.clouds.label_text() + ", "@
            + self.wind.label_text() + ", "@ + signed_decimal(self.day_temp as int) + ", "@
            + signed_decimal(self.night_temp as int)
    }

    /// The day in three lines: its number; sky and wind; the temperatures.
    pub open spec fn plain_text(self) -> Seq<char> {
        "Tag "@ + decimal(self.no as nat) + "\n"@ + self.clouds.label_text() + " "@
            + self.wind.label_text() + "\nTemperatur von "@ + signed_decimal(self.day_temp as int)
            + " bis "@ + signed_decimal(self.night_temp as int)
    }

    /// The day as an item of a list.
    pub fn md(&self) -> (r: String)
        ensures
            r@ == self.md_text(),
    {
        let mut out = String::new();
        out.append("- Tag ");
        push_decimal(&mut out, self.no);
        out.append(": ");
        out.append(self.clouds.label());
        out.append(", ");
        out.append(self.wind.label());
        out.append(", ");
        push_signed(&mut out, self.day_temp);
        out.append(" - ");
        push_signed(&mut out, self.night_temp);
        assert(out@ =~= self.md_text());
        out
    }

    /// The day as one row of comma-separated fields.
    pub fn csv(&self) -> (r: String)
        ensures
            r@ == self.csv_text(),
    {
        let mut out = String::new();
        out.append("Tag ");
        push_decimal(&mut out, self.no);
        out.append(", ");
        out.append(self.clouds.label());
        out.append(", ");
        out.append(self.wind.label());
        out.append(", ");
        push_signed(&mut out, self.day_temp);
        out.append(", ");
        push_signed(&mut out, self.night_temp);
        assert(out@ =~= self.csv_text());
        out
    }

    /// The day in three lines of plain text.
    pub fn to_text(&self) -> (r: String)
        ensures
            r@ == self.plain_text(),
    {
        let mut out = String::new();
        out.append("Tag ");
        push_decimal(&mut out, self.no);
        out.append("\n");
        out.append(self.clouds.label());
        out.append(" ");
        out.append(self.wind.label());
        out.append("\nTemperatur von ");
        push_signed(&mut out, self.day_temp);
        out.append(" bis ");
        push_signed(&mut out, self.night_temp);
        assert(out@ =~= self.plain_text());
        out
    }
}

/// Whether some roll of a twenty-sided die gives these clouds.
pub open spec fn clouds_possible(cond: Conditions, clouds: Clouds) -> bool {
    exists|roll: int| on_d20(roll) && #[trigger] clouds_table(cond.is_desert, roll) == Some(clouds)
}

/// Whether some roll of a twenty-sided die gives this wind.
pub open spec fn wind_possible(cond: Conditions, wind: Wind) -> bool {
    exists|roll: int|
        on_d20(roll) && wind_table(
            cond.season == Season::AUTUMN,
            #[trigger] wind_value(cond.is_windy, roll),
        ) == Some(wind)
}

/// Whether some roll of a twenty-sided die gives this temperature at night.
pub open spec fn night_possible(cond: Conditions, clouds: Clouds, wind: Wind, night: int) -> bool {
    exists|roll: int| on_d20(roll) && #[trigger] night_low(cond, clouds, wind, roll) == night
}

/// The rain that two rolls give: the first decides by the clouds whether it
/// rains at all, and only then the second decides by the wind how much.
pub open spec fn rain_outcome(clouds: Clouds, wind: Wind, occurrence: int, amount: int) -> Option<
    Rain,
> {
    if rain_falls(clouds, occurrence) {
        rain_table(wind, amount)
    } else {
        Some(Rain::NONE)
    }
}

/// Whether some two rolls of a twenty-sided die give this rain.
pub open spec fn rain_possible(clouds: Clouds, wind: Wind, rain: Rain) -> bool {
    exists|occurrence: int, amount: int|
        on_d20(occurrence) && on_d20(amount) && #[trigger] rain_outcome(
            clouds,
            wind,
            occurrence,
            amount,
        ) == Some(rain)
}

/// The number of rolls that the rain of a day takes: none under a clear sky,
/// one where it stays dry, two where it rains.
pub open spec fn rain_draws(clouds: Clouds, rain: Rain) -> nat {
    if clouds == Clouds::NONE {
        0
    } else if rain == Rain::NONE {
        1
    } else {
        2
    }
}

/// Whether some roll of a twenty-sided die gives this mask in the season.
pub open spec fn mask_possible(cond: Conditions, mask: ChangeMask) -> bool {
    exists|roll: int|
        on_d20(roll) && #[trigger] changes_table(cond.season.is_stable(), roll) == Some(mask)
}

/// Rolls the clouds of a day.
pub fn roll_clouds(cond: &Conditions, dice: &mut Dice) -> (r: Clouds)
    ensures
        clouds_possible(*cond, r),
        final(dice).drawn() == old(dice).drawn() + 1,
{
    let roll: u32 = dice.d20();
    match clouds_for_roll(cond.is_desert, roll) {
        Ok(clouds) => {
            assert(clouds_table(cond.is_desert, roll as int) == Some(clouds));
            clouds
        },
        Err(_) => unreached(),
    }
}

/// Rolls the wind of a day: one roll, looked up under the conditions.
pub fn roll_wind(cond: &Conditions, dice: &mut Dice) -> (r: Wind)
    ensures
        wind_possible(*cond, r),
        final(dice).drawn() == old(dice).drawn() + 1,
{
    let roll: u32 = dice.d20();
    match wind_for_roll(cond, roll) {
        Ok(wind) => {
            assert(wind_table(
                cond.season == Season::AUTUMN,
                wind_value(cond.is_windy, roll as int),
            ) == Some(wind));
            wind
        },
        Err(_) => unreached(),
    }
}

/// Rolls the temperatures of a day under the given clouds and wind.
pub fn roll_temperatures(cond: &Conditions, clouds: &Clouds, wind: &Wind, dice: &mut Dice) -> (r: (
    i32,
    i32,
))
    ensures
        r.0 == day_high(*cond, *clouds, *wind),
        night_possible(*cond, *clouds, *wind, r.1 as int),
        final(dice).drawn() == old(dice).drawn() + 1,
{
    let roll: u32 = dice.d20();
    match temperature_pair(cond, clouds, wind, roll) {
        Ok(pair) => {
            assert(night_low(*cond, *clouds, *wind, roll as int) == pair.1);
            pair
        },
        Err(_) => unreached(),
    }
}

/// Rolls the rain of a day under the given clouds and wind. Under a clear
/// sky it stays dry and no roll is drawn.
pub fn roll_rain(clouds: &Clouds, wind: &Wind, dice: &mut Dice) -> (r: Rain)
    ensures
        rain_possible(*clouds, *wind, r),
        final(dice).drawn() == old(dice).drawn() + rain_draws(*clouds, r),
        *clouds == Clouds::NONE ==> r == Rain::NONE && final(dice).drawn() == old(dice).drawn(),
{
    if *clouds == Clouds::NONE {
        assert(rain_outcome(*clouds, *wind, 1, 1) == Some(Rain::NONE));
        return Rain::NONE;
    }
    let occurrence: u32 = dice.d20();
    let falls: bool = match rain_occurs(clouds, occurrence) {
        Ok(b) => b,
        Err(_) => unreached(),
    };
    if falls {
        let amount: u32 = dice.d20();
        match rain_for_roll(wind, amount) {
            Ok(rain) => {
                assert(rain_outcome(*clouds, *wind, occurrence as int, amount as int) == Some(
                    rain,
                ));
                rain
            },
            Err(_) => unreached(),
        }
    } else {
        assert(rain_outcome(*clouds, *wind, occurrence as int, 1) == Some(Rain::NONE));
        Rain::NONE
    }
}

/// Rolls which attributes the next day rolls anew.
pub fn roll_changes(cond: &Conditions, dice: &mut Dice) -> (r: ChangeMask)
    ensures
        mask_possible(*cond, r),
        final(dice).drawn() == old(dice).drawn() + 1,
{
    let roll: u32 = dice.d20();
    match changes_for_roll(&cond.season, roll) {
        Ok(mask) => {
            assert(changes_table(cond.season.is_stable(), roll as int) == Some(mask));
            mask
        },
        Err(_) => unreached(),
    }
}

/// Whether `day` can follow `prev` under `mask`: each attribute that the mask
/// sets is one that the dice can give, and each other attribute is that of
/// the day before.
pub open spec fn day_follows(cond: Conditions, mask: ChangeMask, prev: Option<Day>, day: Day) -> bool {
    &&& mask.clouds ==> clouds_possible(cond, day.clouds)
    &&& !mask.clouds ==> prev is Some && day.clouds == prev->0.clouds
    &&& mask.wind ==> wind_possible(cond, day.wind)
    &&& !mask.wind ==> prev is Some && day.wind == prev->0.wind
    &&& mask.temperature ==> day.day_temp == day_high(cond, day.clouds, day.wind) && night_possible(
        cond,
        day.clouds,
        day.wind,
        day.night_temp as int,
    )
    &&& !mask.temperature ==> prev is Some && day.day_temp == prev->0.day_temp && day.night_temp
        == prev->0.night_temp
    &&& mask.rain ==> rain_possible(day.clouds, day.wind, day.rain)
    &&& !mask.rain ==> prev is Some && day.rain == prev->0.rain
}

/// The number of rolls that a day takes under a mask.
pub open spec fn day_draws(mask: ChangeMask, day: Day) -> nat {
    (if mask.clouds { 1nat } else { 0nat }) + (if mask.wind { 1nat } else { 0nat })
        + (if mask.temperature { 1nat } else { 0nat })
        + (if mask.rain { rain_draws(day.clouds, day.rain) } else { 0nat })
}

/// Makes the day with the number `no`: rolls the attributes that `mask` sets,
/// in the order clouds, wind, temperatures, rain, and takes the others from
/// the day before. A first day, which has no day before it, needs the mask
/// that sets everything.
pub fn next_day(cond: &Conditions, no: u64, mask: &ChangeMask, prev: Option<Day>, dice: &mut Dice) -> (day: Day)
    requires
        prev is None ==> *mask == ChangeMask::everything(),
    ensures
        day.no == no,
        day_follows(*cond, *mask, prev, day),
        final(dice).drawn() == old(dice).drawn() + day_draws(*mask, day),
{
    let clouds: Clouds = match (mask.clouds, prev) {
        (false, Some(before)) => before.clouds,
        _ => roll_clouds(cond, dice),
    };
    let wind: Wind = match (mask.wind, prev) {
        (false, Some(before)) => before.wind,
        _ => roll_wind(cond, dice),
    };
    let temperatures: (i32, i32) = match (mask.temperature, prev) {
        (false, Some(before)) => (before.day_temp, before.night_temp),
        _ => roll_temperatures(cond, &clouds, &wind, dice),
    };
    let rain: Rain = match (mask.rain, prev) {
        (false, Some(before)) => before.rain,
        _ => roll_rain(&clouds, &wind, dice),
    };
    Day { no, clouds, wind, day_temp: temperatures.0, night_temp: temperatures.1, rain }
}

/// The day before the one at position `i`, where there is one.
pub open spec fn day_before(days: Seq<Day>, i: int) -> Option<Day> {
    if 0 < i <= days.len() {
        Some(days[i - 1])
    } else {
        None
    }
}

/// Whether `days` is a forecast made with the masks `masks`: the days are
/// numbered from 1, the first mask sets everything, each later mask is one
/// that the dice can give, and each day follows the one before it under its
/// mask.
#[verifier::opaque]
pub open spec fn is_forecast(cond: Conditions, days: Seq<Day>, masks: Seq<ChangeMask>) -> bool {
    &&& masks.len() == days.len()
    &&& days.len() > 0 ==> masks[0] == ChangeMask::everything()
    &&& forall|i: int| 0 <= i < days.len() ==> (#[trigger] days[i]).no == i + 1
    &&& forall|i: int| 0 < i < days.len() ==> mask_possible(cond, #[trigger] masks[i])
    &&& forall|i: int|
        0 <= i < days.len() ==> #[trigger] day_follows(
            cond,
            masks[i],
            day_before(days, i),
            days[i],
        )
}

/// The first day of a forecast is rolled anew in every attribute: clouds,
/// wind, temperatures and rain are what the dice can give.
pub proof fn lemma_first_day_is_rolled(cond: Conditions, days: Seq<Day>, masks: Seq<ChangeMask>)
    requires
        is_forecast(cond, days, masks),
        days.len() > 0,
    ensures
        masks[0] == ChangeMask::everything(),
        days[0].no == 1,
        clouds_possible(cond, days[0].clouds),
        wind_possible(cond, days[0].wind),
        days[0].day_temp == day_high(cond, days[0].clouds, days[0].wind),
        night_possible(cond, days[0].clouds, days[0].wind, days[0].night_temp as int),
        rain_possible(days[0].clouds, days[0].wind, days[0].rain),
{
    reveal(is_forecast);
    assert(day_follows(cond, masks[0], day_before(days, 0), days[0]));
}

/// On a later day of a forecast each attribute that the day's mask does not
/// set is that of the day before.
pub proof fn lemma_unset_attribute_is_kept(
    cond: Conditions,
    days: Seq<Day>,
    masks: Seq<ChangeMask>,
    i: int,
)
    requires
        is_forecast(cond, days, masks),
        0 < i < days.len(),
    ensures
        !masks[i].clouds ==> days[i].clouds == days[i - 1].clouds,
        !masks[i].wind ==> days[i].wind == days[i - 1].wind,
        !masks[i].temperature ==> days[i].day_temp == days[i - 1].day_temp && days[i].night_temp
            == days[i - 1].night_temp,
        !masks[i].rain ==> days[i].rain == days[i - 1].rain,
        days[i].no == days[i - 1].no + 1,
{
    reveal(is_forecast);
    assert(day_follows(cond, masks[i], day_before(days, i), days[i]));
}

/// Under a clear sky it never rains, whatever the wind, and the rain takes
/// no roll.
pub proof fn lemma_clear_sky_stays_dry(wind: Wind, rain: Rain)
    requires
        rain_possible(Clouds::NONE, wind, rain),
    ensures
        rain == Rain::NONE,
        rain_draws(Clouds::NONE, rain) == 0,
{
}

/// In the desert and elsewhere the lowest roll gives a clear sky and the
/// highest a closed cover of clouds.
pub proof fn lemma_cloud_table_ends(is_desert: bool)
    ensures
        clouds_table(is_desert, 1) == Some(Clouds::NONE),
        clouds_table(is_desert, 20) == Some(Clouds::ALL),
{
}

/// Every table gives an outcome for each value that its roll can take, and
/// for no other: the faces of the die, and for the wind the values up to 22.
pub proof fn lemma_tables_cover_their_rolls(cond: Conditions, clouds: Clouds, wind: Wind, roll: int)
    ensures
        clouds_table(cond.is_desert, roll) is Some <==> on_d20(roll),
        rain_table(wind, roll) is Some <==> on_d20(roll),
        changes_table(cond.season.is_stable(), roll) is Some <==> on_d20(roll),
        wind_table(cond.season == Season::AUTUMN, roll) is Some <==> 1 <= roll <= 22,
        on_d20(roll) ==> wind_table(
            cond.season == Season::AUTUMN,
            wind_value(cond.is_windy, roll),
        ) is Some,
{
}

/// In windy conditions every roll of the die gives a wind, which is that of
/// the season's table for two more than the roll: never a calmer wind than
/// the same roll gives otherwise, and a storm for each roll that is raised
/// above 20.
pub proof fn lemma_windy_rolls_are_raised(season: Season, region: Region, is_desert: bool, roll: int)
    requires
        on_d20(roll),
    ensures
        ({
            let windy = Conditions { region, season, is_desert, is_windy: true };
            let calm = Conditions { region, season, is_desert, is_windy: false };
            let autumn = season == Season::AUTUMN;
            let raised = wind_table(autumn, wind_value(windy.is_windy, roll));
            let plain = wind_table(autumn, wind_value(calm.is_windy, roll));
            &&& raised == wind_table(autumn, roll + 2)
            &&& plain == wind_table(autumn, roll)
            &&& raised is Some
            &&& plain is Some
            &&& raised->0.strength() >= plain->0.strength()
            &&& roll + 2 > 20 ==> raised == Some(Wind::STORM)
        }),
{
}

/// A forecast with one more day, which follows its last day under one more
/// mask, is a forecast.
pub proof fn lemma_forecast_grows(
    cond: Conditions,
    days: Seq<Day>,
    masks: Seq<ChangeMask>,
    day: Day,
    mask: ChangeMask,
)
    requires
        is_forecast(cond, days, masks),
        day.no == days.len() + 1,
        day_follows(cond, mask, day_before(days, days.len() as int), day),
        days.len() == 0 ==> mask == ChangeMask::everything(),
        days.len() > 0 ==> mask_possible(cond, mask),
    ensures
        is_forecast(cond, days.push(day), masks.push(mask)),
{
    reveal(is_forecast);
    let longer = days.push(day);
    let more = masks.push(mask);
    assert forall|k: int| 0 <= k < longer.len() implies #[trigger] day_follows(
        cond,
        more[k],
        day_before(longer, k),
        longer[k],
    ) by {
        if k < days.len() {
            assert(day_follows(cond, masks[k], day_before(days, k), days[k]));
            assert(day_before(longer, k) == day_before(days, k));
        } else {
            assert(day_before(longer, k) == day_before(days, k));
        }
    }
}

/// The number of rolls that a forecast takes: those of each day under its
/// mask, and after each day one for the mask of the next.
pub open spec fn forecast_draws(days: Seq<Day>, masks: Seq<ChangeMask>) -> nat
    decreases days.len(),
{
    if days.len() == 0 || masks.len() != days.len() {
        0
    } else {
        forecast_draws(days.drop_last(), masks.drop_last()) + day_draws(masks.last(), days.last())
            + 1
    }
}

/// Makes a forecast of `days` days, which must be at least one. The first day
/// is rolled anew in every attribute; after each day a roll decides which
/// attributes the next day rolls anew.
pub fn forecast(cond: &Conditions, days: u64, dice: &mut Dice) -> (r: Result<Vec<Day>, GenError>)
    ensures
        r is Err <==> days == 0,
        r is Err ==> r == Err::<Vec<Day>, GenError>(GenError::InvalidInput { value: days }),
        r is Err ==> final(dice).drawn() == old(dice).drawn(),
        r is Ok ==> r->Ok_0@.len() == days,
        r is Ok ==> exists|masks: Seq<ChangeMask>| #[trigger]
            is_forecast(*cond, r->Ok_0@, masks) && final(dice).drawn() == old(dice).drawn()
                + forecast_draws(r->Ok_0@, masks),
{
    if days == 0 {
        return Err(GenError::InvalidInput { value: days });
    }
    let mut list: Vec<Day> = Vec::new();
    let mut mask: ChangeMask = ChangeMask::all();
    let mut prev: Option<Day> = None;
    let ghost mut used: Seq<ChangeMask> = Seq::empty();
    let mut i: u64 = 0;
    proof {
        reveal(is_forecast);
    }
    while i < days
        invariant
            i <= days,
            list@.len() == i,
            is_forecast(*cond, list@, used),
            used.len() == i,
            dice.drawn() == old(dice).drawn() + forecast_draws(list@, used),
            prev == day_before(list@, i as int),
            i == 0 ==> mask == ChangeMask::everything(),
            i > 0 ==> mask_possible(*cond, mask),
        decreases days - i,
    {
        let ghost before = list@;
        let day: Day = next_day(cond, i + 1, &mask, prev, dice);
        list.push(day);
        proof {
            lemma_forecast_grows(*cond, before, used, day, mask);
            assert(list@.drop_last() =~= before);
            assert(used.push(mask).drop_last() =~= used);
            used = used.push(mask);
        }
        prev = Some(day);
        mask = roll_changes(cond, dice);
        i += 1;
    }
    let r: Result<Vec<Day>, GenError> = Ok(list);
    assert(is_forecast(*cond, r->Ok_0@, used));
    r
}

} // verus!

//! Poisons: the onset, damage and duration that a level gives, the table of
//! symptoms, and the list in which a symptom that is rolled again counts up.

use crate::source::{on_d20, Dice};
use crate::text::{decimal, push_decimal};
use crate::{Characteristic, DiceOverTime, GenError, Timeunit};
use vstd::prelude::*;
use vstd::string::StringExecFns;

verus! {

/// One effect of a poison.
#[derive(Clone, Debug, PartialEq, Eq)]
pub struct Symptom {
    /// How often the symptom was rolled.
    pub amount: u32,
    pub name: String,
    /// The characteristic that the symptom lowers.
    pub characteristic: Option<Characteristic>,
    /// The disadvantage that the symptom brings.
    pub disadvantage: Option<String>,
    pub unconsciousness: bool,
}

/// A symptom as a plain value.
pub ghost struct SymptomView {
    pub amount: nat,
    pub name: Seq<char>,
    pub characteristic: Option<Characteristic>,
    pub disadvantage: Option<Seq<char>>,
    pub unconsciousness: bool,
}

impl View for Symptom {
    type V = SymptomView;

    open spec fn view(&self) -> SymptomView {
        SymptomView {
            amount: self.amount as nat,
            name: self.name@,
            characteristic: self.characteristic,
            disadvantage: match self.disadvantage {
                Some(d) => Some(d@),
                None => None,
            },
            unconsciousness: self.unconsciousness,
        }
    }
}

/// The note on what a symptom lowers or brings: a blank, and in brackets the
/// name, a blank, the sign, as many dice as the symptom was rolled, and `W6`.
pub open spec fn dice_note(what: Seq<char>, sign: Seq<char>, amount: nat) -> Seq<char> {
    " ("@ + what + " "@ + sign + decimal(amount) + "W6)"@
}

impl SymptomView {
    /// The note on the characteristic that the symptom lowers, if any.
    pub open spec fn lowered_note(self) -> Seq<char> {
        match self.characteristic {
            Some(c) => dice_note(c.label_text(), "-"@, self.amount),
            None => Seq::<char>::empty(),
        }
    }

    /// The note on the disadvantage that the symptom brings, if any.
    pub open spec fn brought_note(self) -> Seq<char> {
        match self.disadvantage {
            Some(d) => dice_note(d, "+"@, self.amount),
            None => Seq::<char>::empty(),
        }
    }

    /// The note on a symptom that leaves its victim unconscious.
    pub open spec fn stunned_note(self) -> Seq<char> {
        if self.unconsciousness {
            " (bewusstlos)"@
        } else {
            Seq::<char>::empty()
        }
    }

    /// The symptom as it is shown: its name and its notes.
    pub open spec fn text(self) -> Seq<char> {
        self.name + self.lowered_note() + self.brought_note() + self.stunned_note()
    }

    /// The same symptom, rolled once more.
    pub open spec fn raised(self) -> SymptomView {
        SymptomView { amount: self.amount + 1, ..self }
    }
}

/// Appends the note on what a symptom lowers or brings to `out`.
fn push_dice_note(out: &mut String, what: &str, sign: &str, amount: u32)
    ensures
        final(out)@ == old(out)@ + dice_note(what@, sign@, amount as nat),
{
    out.append(" (");
    out.append(what);
    out.append(" ");
    out.append(sign);
    push_decimal(out, amount as u64);
    out.append("W6)");
    assert(final(out)@ =~= old(out)@ + dice_note(what@, sign@, amount as nat));
}

impl Symptom {
    /// Appends the symptom as it is shown to `out`.
    pub fn push_text(&self, out: &mut String)
        ensures
            final(out)@ == old(out)@ + self@.text(),
    {
        out.append(self.name.as_str());
        let ghost named = out@;
        match &self.characteristic {
            Some(c) => {
                push_dice_note(out, c.label(), "-", self.amount);
            },
            None => {
                assert(out@ =~= named + self@.lowered_note());
            },
        }
        let ghost lowered = out@;
        match &self.disadvantage {
            Some(d) => {
                push_dice_note(out, d.as_str(), "+", self.amount);
            },
            None => {
                assert(out@ =~= lowered + self@.brought_note());
            },
        }
        let ghost brought = out@;
        if self.unconsciousness {
            out.append(" (bewusstlos)");
        } else {
            assert(out@ =~= brought + self@.stunned_note());
        }
        assert(final(out)@ =~= old(out)@ + self@.text());
    }

    /// The symptom as it is shown.
    pub fn to_text(&self) -> (r: String)
        ensures
            r@ == self@.text(),
    {
        let mut out = String::new();
        self.push_text(&mut out);
        assert(Seq::<char>::empty() + self@.text() =~= self@.text());
        out
    }
}

/// A symptom rolled once that lowers a characteristic.
pub open spec fn lowering(name: Seq<char>, c: Characteristic) -> SymptomView {
    SymptomView {
        amount: 1,
        name,
        characteristic: Some(c),
        disadvantage: None,
        unconsciousness: false,
    }
}

/// A symptom rolled once that brings a disadvantage.
pub open spec fn bringing(name: Seq<char>, disadvantage: Seq<char>) -> SymptomView {
    SymptomView {
        amount: 1,
        name,
        characteristic: None,
        disadvantage: Some(disadvantage),
        unconsciousness: false,
    }
}

/// The table of symptoms: what a roll of a twenty-sided die brings, rolled
/// once. `None` for a roll that is not on the die.
pub open spec fn symptom_table(roll: int) -> Option<SymptomView> {
    if !on_d20(roll) {
        None
    } else if roll <= 4 {
        Some(lowering("Erbrechen"@, Characteristic::CH))
    } else if roll <= 6 {
        Some(lowering("Durchfall / Koliken"@, Characteristic::MU))
    } else if roll <= 8 {
        Some(lowering("Schweißausbrüche / Atemnot"@, Characteristic::KO))
    } else if roll <= 10 {
        Some(lowering("Schwäche"@, Characteristic::KK))
    } else if roll <= 12 {
        Some(lowering("Kopfschmerz / Schwindel"@, Characteristic::KL))
    } else if roll <= 14 {
        Some(lowering("Lähmungen"@, Characteristic::GE))
    } else if roll <= 16 {
        Some(lowering("Taubheiten"@, Characteristic::FF))
    } else if roll == 17 {
        Some(lowering("Schwellungen"@, Characteristic::GE))
    } else if roll == 18 {
        Some(bringing("Erregung"@, "Jähzorn"@))
    } else if roll == 19 {
        Some(bringing("Blutungen"@, "Aberglaube"@))
    } else {
        Some(
            SymptomView {
                amount: 1,
                name: "Bewusstlosigkeit"@,
                characteristic: None,
                disadvantage: None,
                unconsciousness: true,
            },
        )
    }
}

/// A symptom rolled once that lowers a characteristic.
fn lowers(name: &str, c: Characteristic) -> (s: Symptom)
    ensures
        s@ == lowering(name@, c),
{
    Symptom {
        amount: 1,
        name: String::from_str(name),
        characteristic: Some(c),
        disadvantage: None,
        unconsciousness: false,
    }
}

/// A symptom rolled once that brings a disadvantage.
fn brings(name: &str, disadvantage: &str) -> (s: Symptom)
    ensures
        s@ == bringing(name@, disadvantage@),
{
    Symptom {
        amount: 1,
        name: String::from_str(name),
        characteristic: None,
        disadvantage: Some(String::from_str(disadvantage)),
        unconsciousness: false,
    }
}

/// Looks a roll up in the table of symptoms.
pub fn symptom_for_roll(roll: u32) -> (r: Result<Symptom, GenError>)
    ensures
        r is Ok <==> on_d20(roll as int),
        r is Ok ==> symptom_table(roll as int) == Some(r->Ok_0@),
        r is Err ==> r->Err_0 == (GenError::TableCoverage { roll }),
{
    match roll {
        1..=4 => Ok(lowers("Erbrechen", Characteristic::CH)),
        5..=6 => Ok(lowers("Durchfall / Koliken", Characteristic::MU)),
        7..=8 => Ok(lowers("Schweißausbrüche / Atemnot", Characteristic::KO)),
        9..=10 => Ok(lowers("Schwäche", Characteristic::KK)),
        11..=12 => Ok(lowers("Kopfschmerz / Schwindel", Characteristic::KL)),
        13..=14 => Ok(lowers("Lähmungen", Characteristic::GE)),
        15..=16 => Ok(lowers("Taubheiten", Characteristic::FF)),
        17 => Ok(lowers("Schwellungen", Characteristic::GE)),
        18 => Ok(brings("Erregung", "Jähzorn")),
        19 => Ok(brings("Blutungen", "Aberglaube")),
        20 => Ok(
            Symptom {
                amount: 1,
                name: String::from_str("Bewusstlosigkeit"),
                characteristic: None,
                disadvantage: None,
                unconsciousness: true,
            },
        ),
        _ => Err(GenError::TableCoverage { roll }),
    }
}

/// Whether a symptom of the given name is in the list.
pub open spec fn has_name(list: Seq<SymptomView>, name: Seq<char>) -> bool {
    exists|i: int| 0 <= i < list.len() && (#[trigger] list[i]).name == name
}

/// Whether no two symptoms of the list have the same name.
pub open spec fn distinct_names(list: Seq<SymptomView>) -> bool {
    forall|i: int, j: int|
        0 <= i < j < list.len() ==> (#[trigger] list[i]).name != (#[trigger] list[j]).name
}

/// The list after `x` was rolled: where the list has a symptom of that name,
/// that symptom counts one more and nothing is added; else `x` comes last.
pub open spec fn merged(list: Seq<SymptomView>, x: SymptomView) -> Seq<SymptomView> {
    if has_name(list, x.name) {
        Seq::new(
            list.len(),
            |i: int|
                if list[i].name == x.name {
                    list[i].raised()
                } else {
                    list[i]
                },
        )
    } else {
        list.push(x)
    }
}

/// A list without two symptoms of one name has none after a symptom was
/// taken in.
pub proof fn lemma_merged_keeps_names_distinct(list: Seq<SymptomView>, x: SymptomView)
    requires
        distinct_names(list),
    ensures
        distinct_names(merged(list, x)),
{
    let after = merged(list, x);
    if has_name(list, x.name) {
        assert forall|i: int, j: int| 0 <= i < j < after.len() implies (#[trigger] after[i]).name
            != (#[trigger] after[j]).name by {
            assert(after[i].name == list[i].name);
            assert(after[j].name == list[j].name);
        }
    } else {
        assert forall|i: int, j: int| 0 <= i < j < after.len() implies (#[trigger] after[i]).name
            != (#[trigger] after[j]).name by {
            assert(after[i] == list[i]);
            if j < list.len() {
                assert(after[j] == list[j]);
            }
        }
    }
}

/// A symptom that is rolled twice stands in the list once, counted one more
/// than it was rolled with: the second roll adds no entry.
pub proof fn lemma_repeated_symptom_counts_up(list: Seq<SymptomView>, x: SymptomView)
    requires
        distinct_names(list),
        !has_name(list, x.name),
    ensures
        merged(merged(list, x), x) == list.push(x.raised()),
        merged(merged(list, x), x).len() == merged(list, x).len(),
{
    let once = merged(list, x);
    let twice = merged(once, x);
    assert(once[list.len() as int].name == x.name);
    assert(has_name(once, x.name));
    assert forall|i: int| 0 <= i < twice.len() implies twice[i] == list.push(x.raised())[i] by {
        if i < list.len() {
            assert(list[i].name != x.name);
        }
    }
    assert(twice =~= list.push(x.raised()));
}

/// A symptom whose name the list has adds no entry: each entry of that name
/// counts one more, and every other entry stays as it was.
pub proof fn lemma_known_symptom_adds_nothing(list: Seq<SymptomView>, x: SymptomView)
    requires
        has_name(list, x.name),
    ensures
        merged(list, x).len() == list.len(),
        forall|i: int|
            0 <= i < list.len() ==> #[trigger] merged(list, x)[i] == (if list[i].name == x.name {
                list[i].raised()
            } else {
                list[i]
            }),
{
}

/// In a list without two symptoms of one name, a symptom whose name stands at
/// position `k` changes that entry alone: it counts one more and keeps its
/// name and what it lowers or brings; length, order and every other entry
/// stay as they were.
pub proof fn lemma_known_symptom_counts_up_in_place(list: Seq<SymptomView>, x: SymptomView, k: int)
    requires
        distinct_names(list),
        0 <= k < list.len(),
        list[k].name == x.name,
    ensures
        merged(list, x) == list.update(k, list[k].raised()),
        merged(list, x).len() == list.len(),
        merged(list, x)[k].amount == list[k].amount + 1,
        merged(list, x)[k].name == list[k].name,
        merged(list, x)[k].characteristic == list[k].characteristic,
        merged(list, x)[k].disadvantage == list[k].disadvantage,
        merged(list, x)[k].unconsciousness == list[k].unconsciousness,
        forall|i: int| 0 <= i < list.len() && i != k ==> #[trigger] merged(list, x)[i] == list[i],
{
    assert(has_name(list, x.name));
    let after = merged(list, x);
    assert forall|i: int| 0 <= i < list.len() implies #[trigger] after[i] == list.update(
        k,
        list[k].raised(),
    )[i] by {
        if i != k {
            if i < k {
                assert(list[i].name != list[k].name);
            } else {
                assert(list[k].name != list[i].name);
            }
        }
    }
    assert(after =~= list.update(k, list[k].raised()));
}

/// The symptoms of a poison, in the order in which they were first rolled.
#[derive(Clone, Debug, PartialEq, Eq)]
pub struct SymptomList {
    symptoms: Vec<Symptom>,
}

impl View for SymptomList {
    type V = Seq<SymptomView>;

    closed spec fn view(&self) -> Seq<SymptomView> {
        Seq::new(self.symptoms@.len(), |i: int| self.symptoms@[i]@)
    }
}

impl SymptomList {
    /// No two symptoms of the list have the same name.
    pub open spec fn wf(&self) -> bool {
        distinct_names(self@)
    }

    /// The empty list.
    pub fn new() -> (r: SymptomList)
        ensures
            r@ == Seq::<SymptomView>::empty(),
            r.wf(),
    {
        let r = SymptomList { symptoms: Vec::new() };
        assert(r@ =~= Seq::<SymptomView>::empty());
        r
    }

    /// The number of symptoms in the list.
    pub fn len(&self) -> (n: usize)
        ensures
            n == self@.len(),
    {
        self.symptoms.len()
    }

    /// The symptom at position `i`.
    pub fn get(&self, i: usize) -> (s: &Symptom)
        requires
            i < self@.len(),
        ensures
            s@ == self@[i as int],
    {
        &self.symptoms[i]
    }

    /// Takes a rolled symptom into the list: one whose name the list has
    /// makes that entry count one more; any other is added at the end.
    pub fn push(&mut self, x: Symptom)
        requires
            old(self).wf(),
            forall|i: int|
                0 <= i < old(self)@.len() && (#[trigger] old(self)@[i]).name == x@.name
                    ==> old(self)@[i].amount < u32::MAX,
        ensures
            final(self).wf(),
            final(self)@ == merged(old(self)@, x@),
            !has_name(old(self)@, x@.name) ==> final(self)@ == old(self)@.push(x@),
            forall|k: int|
                0 <= k < old(self)@.len() && (#[trigger] old(self)@[k]).name == x@.name
                    ==> final(self)@ == old(self)@.update(k, old(self)@[k].raised()),
    {
        proof {
            assert forall|k: int|
                0 <= k < old(self)@.len() && (#[trigger] old(self)@[k]).name
                    == x@.name implies merged(old(self)@, x@) == old(self)@.update(
                k,
                old(self)@[k].raised(),
            ) by {
                lemma_known_symptom_counts_up_in_place(old(self)@, x@, k);
            }
        }
        let mut i: usize = 0;
        while i < self.symptoms.len()
            invariant
                i <= self.symptoms@.len(),
                self.symptoms@ == old(self).symptoms@,
                self@ == old(self)@,
                old(self).wf(),
                forall|k: int|
                    0 <= k < old(self)@.len() && (#[trigger] old(self)@[k]).name == x@.name
                        ==> old(self)@[k].amount < u32::MAX,
                forall|j: int| 0 <= j < i ==> (#[trigger] self@[j]).name != x@.name,
            decreases self.symptoms@.len() - i,
        {
            if self.symptoms[i].name == x.name {
                proof {
                    assert(self@[i as int].name == x@.name);
                    assert(self@[i as int].amount < u32::MAX);
                }
                self.symptoms[i].amount += 1;
                proof {
                    let before = old(self)@;
                    assert(has_name(before, x@.name)) by {
                        assert(before[i as int].name == x@.name);
                    }
                    assert(self@ =~= merged(before, x@));
                }
                return ;
            }
            i += 1;
        }
        proof {
            assert(!has_name(old(self)@, x@.name));
        }
        self.symptoms.push(x);
        proof {
            assert(self@ =~= old(self)@.push(x@));
        }
    }
}

/// The symptoms as they are shown, with a comma and a blank between them.
pub open spec fn joined(list: Seq<SymptomView>) -> Seq<char>
    decreases list.len(),
{
    if list.len() == 0 {
        Seq::<char>::empty()
    } else if list.len() == 1 {
        list[0].text()
    } else {
        joined(list.drop_last()) + ", "@ + list.last().text()
    }
}

/// The list as it is shown: the symptoms in square brackets.
pub open spec fn list_text(list: Seq<SymptomView>) -> Seq<char> {
    "["@ + joined(list) + "]"@
}

impl SymptomList {
    /// Appends the list as it is shown to `out`.
    pub fn push_text(&self, out: &mut String)
        ensures
            final(out)@ == old(out)@ + list_text(self@),
    {
        out.append("[");
        let ghost opened = out@;
        let mut i: usize = 0;
        assert(out@ =~= opened + joined(self@.take(0)));
        while i < self.symptoms.len()
            invariant
                i <= self.symptoms@.len(),
                self@.len() == self.symptoms@.len(),
                out@ == opened + joined(self@.take(i as int)),
            decreases self.symptoms@.len() - i,
        {
            let ghost shorter = self@.take(i as int);
            let ghost longer = self@.take(i + 1);
            proof {
                assert(longer.drop_last() =~= shorter);
                assert(longer.last() == self@[i as int]);
                assert(self.symptoms@[i as int]@ == self@[i as int]);
            }
            if i > 0 {
                out.append(", ");
            }
            self.symptoms[i].push_text(out);
            assert(out@ =~= opened + joined(longer));
            i += 1;
        }
        out.append("]");
        proof {
            assert(self@.take(i as int) =~= self@);
            assert(out@ =~= old(out)@ + list_text(self@));
        }
    }

    /// The list as it is shown.
    pub fn to_text(&self) -> (r: String)
        ensures
            r@ == list_text(self@),
    {
        let mut out = String::new();
        self.push_text(&mut out);
        assert(Seq::<char>::empty() + list_text(self@) =~= list_text(self@));
        out
    }
}

/// Whether a poison of this level exists.
pub open spec fn valid_level(level: int) -> bool {
    1 <= level <= 20
}

/// The number of dice of a poison: a quarter of its level, rounded up.
pub open spec fn dice_count_of(level: int) -> int {
    (level + 3) / 4
}

/// The number of symptom rolls of a poison: half its level, rounded up.
pub open spec fn symptom_rolls_of(level: int) -> int {
    (level + 1) / 2
}

/// The number of dice of a poison is the least number whose fourfold reaches
/// the level, and the number of its symptom rolls the least whose double does.
pub proof fn lemma_counts_round_up(level: int)
    requires
        level >= 0,
    ensures
        4 * (dice_count_of(level) - 1) < level <= 4 * dice_count_of(level),
        2 * (symptom_rolls_of(level) - 1) < level <= 2 * symptom_rolls_of(level),
{
}

/// The number of dice of a poison of the given level.
pub fn dice_count(level: u32) -> (r: u32)
    ensures
        r == dice_count_of(level as int),
{
    if level % 4 == 0 {
        level / 4
    } else {
        level / 4 + 1
    }
}

/// The number of symptom rolls of a poison of the given level.
pub fn symptom_roll_count(level: u32) -> (r: u32)
    ensures
        r == symptom_rolls_of(level as int),
{
    if level % 2 == 0 {
        level / 2
    } else {
        level / 2 + 1
    }
}

/// A dice expression as a plain value.
pub open spec fn dice_over_time(dice: int, flat: int, time: Timeunit) -> DiceOverTime {
    DiceOverTime { dice: dice as u32, flat: flat as u32, time }
}

/// After how long a poison of the given level sets in.
pub open spec fn start_of(level: int) -> DiceOverTime {
    if level <= 9 {
        dice_over_time(1, 0, Timeunit::SR)
    } else if level <= 15 {
        dice_over_time(1, 4, Timeunit::KR)
    } else {
        dice_over_time(1, 0, Timeunit::KR)
    }
}

/// The damage that a poison of the given level does again and again.
pub open spec fn damage_of(level: int) -> DiceOverTime {
    if level <= 5 {
        dice_over_time(0, 1, Timeunit::STD)
    } else if level <= 9 {
        dice_over_time(1, 0, Timeunit::SR)
    } else if level <= 15 {
        dice_over_time(2, 0, Timeunit::SR)
    } else {
        dice_over_time(1, 0, Timeunit::KR)
    }
}

/// How long a poison of the given level lasts.
pub open spec fn duration_of(level: int) -> DiceOverTime {
    if level <= 9 {
        dice_over_time(0, dice_count_of(level), Timeunit::SR)
    } else if level <= 15 {
        dice_over_time(0, dice_count_of(level) / 2, Timeunit::SR)
    } else {
        dice_over_time(0, dice_count_of(level), Timeunit::KR)
    }
}

/// Onset, damage and duration of a poison of the given level, which must be
/// between 1 and 20.
pub fn severity(level: u32) -> (r: Result<(DiceOverTime, DiceOverTime, DiceOverTime), GenError>)
    ensures
        r is Ok <==> valid_level(level as int),
        r is Ok ==> r->Ok_0 == (
            start_of(level as int),
            damage_of(level as int),
            duration_of(level as int),
        ),
        r is Err ==> r->Err_0 == (GenError::InvalidInput { value: level as u64 }),
{
    let dice: u32 = dice_count(level);
    match level {
        1..=5 => Ok(
            (
                DiceOverTime { dice: 1, flat: 0, time: Timeunit::SR },
                DiceOverTime { dice: 0, flat: 1, time: Timeunit::STD },
                DiceOverTime { dice: 0, flat: dice, time: Timeunit::SR },
            ),
        ),
        6..=9 => Ok(
            (
                DiceOverTime { dice: 1, flat: 0, time: Timeunit::SR },
                DiceOverTime { dice: 1, flat: 0, time: Timeunit::SR },
                DiceOverTime { dice: 0, flat: dice, time: Timeunit::SR },
            ),
        ),
        10..=15 => Ok(
            (
                DiceOverTime { dice: 1, flat: 4, time: Timeunit::KR },
                DiceOverTime { dice: 2, flat: 0, time: Timeunit::SR },
                DiceOverTime { dice: 0, flat: dice / 2, time: Timeunit::SR },
            ),
        ),
        16..=20 => Ok(
            (
                DiceOverTime { dice: 1, flat: 0, time: Timeunit::KR },
                DiceOverTime { dice: 1, flat: 0, time: Timeunit::KR },
                DiceOverTime { dice: 0, flat: dice, time: Timeunit::KR },
            ),
        ),
        _ => Err(GenError::InvalidInput { value: level as u64 }),
    }
}

/// Whether every roll of the sequence is a face of a twenty-sided die.
pub open spec fn all_on_d20(rolls: Seq<u32>) -> bool {
    forall|i: int| 0 <= i < rolls.len() ==> on_d20(#[trigger] rolls[i] as int)
}

/// Whether the roll at position `i` is the first that is not on the die.
pub open spec fn first_off_d20(rolls: Seq<u32>, i: int) -> bool {
    &&& 0 <= i < rolls.len()
    &&& !on_d20(rolls[i] as int)
    &&& all_on_d20(rolls.take(i))
}

/// The list of symptoms that the rolls give, taken in one after the other.
pub open spec fn symptoms_of(rolls: Seq<u32>) -> Seq<SymptomView>
    decreases rolls.len(),
{
    if rolls.len() == 0 {
        Seq::<SymptomView>::empty()
    } else {
        match symptom_table(rolls.last() as int) {
            Some(x) => merged(symptoms_of(rolls.drop_last()), x),
            None => symptoms_of(rolls.drop_last()),
        }
    }
}

/// A poison.
#[derive(Clone, Debug, PartialEq, Eq)]
pub struct Poison {
    pub level: u32,
    /// After how long the poison sets in.
    pub start: DiceOverTime,
    /// The damage that the poison does again and again.
    pub damage: DiceOverTime,
    /// How long the poison lasts.
    pub duration: DiceOverTime,
    pub symptoms: SymptomList,
}

impl Poison {
    /// Whether this is the poison of the given level, which is between 1 and
    /// 20, with the symptoms that the given rolls bring.
    pub open spec fn made_of(&self, level: u32, rolls: Seq<u32>) -> bool {
        &&& valid_level(level as int)
        &&& self.level == level
        &&& self.start == start_of(level as int)
        &&& self.damage == damage_of(level as int)
        &&& self.duration == duration_of(level as int)
        &&& self.symptoms.wf()
        &&& self.symptoms@ == symptoms_of(rolls)
    }

    /// The poison as a list of five items: level, onset, duration, damage
    /// with its unit, and symptoms.
    pub open spec fn md_text(&self) -> Seq<char> {
        "- Stufe "@ + decimal(self.level as nat) + "\n- Beginn nach "@ + self.start.full_text()
            + "\n- Dauer "@ + self.duration.full_text() + "\n- Schaden "@ + self.damage.roll_text()
            + " pro "@ + self.damage.time.label_text() + "\n- "@ + list_text(self.symptoms@)
    }

    /// The poison as one row of five quoted fields: level, onset, damage,
    /// duration and symptoms.
    pub open spec fn csv_text(&self) -> Seq<char> {
        "\""@ + decimal(self.level as nat) + "\",\""@ + self.start.full_text() + "\",\""@
            + self.damage.full_text() + "\",\""@ + self.duration.full_text() + "\",\""@ + list_text(
            self.symptoms@,
        ) + "\""@
    }

    /// The poison in five lines: level, onset, duration, damage with its
    /// unit, and symptoms.
    pub open spec fn plain_text(&self) -> Seq<char> {
        "Stufe "@ + decimal(self.level as nat) + "\nBeginn nach "@ + self.start.full_text()
            + "\nDauer "@ + self.duration.full_text() + "\nSchaden "@ + self.damage.roll_text()
            + " pro "@ + self.damage.time.label_text() + "\n"@ + list_text(self.symptoms@)
    }

    /// The poison as a list of five items.
    pub fn md(&self) -> (r: String)
        ensures
            r@ == self.md_text(),
    {
        let mut out = String::new();
        out.append("- Stufe ");
        push_decimal(&mut out, self.level as u64);
        out.append("\n- Beginn nach ");
        self.start.push_full(&mut out);
        out.append("\n- Dauer ");
        self.duration.push_full(&mut out);
        out.append("\n- Schaden ");
        self.damage.push_roll(&mut out);
        out.append(" pro ");
        out.append(self.damage.time.label());
        out.append("\n- ");
        self.symptoms.push_text(&mut out);
        assert(out@ =~= self.md_text());
        out
    }

    /// The poison as one row of five quoted fields.
    pub fn csv(&self) -> (r: String)
        ensures
            r@ == self.csv_text(),
    {
        let mut out = String::new();
        out.append("\"");
        push_decimal(&mut out, self.level as u64);
        out.append("\",\"");
        self.start.push_full(&mut out);
        out.append("\",\"");
        self.damage.push_full(&mut out);
        out.append("\",\"");
        self.duration.push_full(&mut out);
        out.append("\",\"");
        self.symptoms.push_text(&mut out);
        out.append("\"");
        assert(out@ =~= self.csv_text());
        out
    }

    /// The poison in five lines of plain text.
    pub fn to_text(&self) -> (r: String)
        ensures
            r@ == self.plain_text(),
    {
        let mut out = String::new();
        out.append("Stufe ");
        push_decimal(&mut out, self.level as u64);
        out.append("\nBeginn nach ");
        self.start.push_full(&mut out);
        out.append("\nDauer ");
        self.duration.push_full(&mut out);
        out.append("\nSchaden ");
        self.damage.push_roll(&mut out);
        out.append(" pro ");
        out.append(self.damage.time.label());
        out.append("\n");
        self.symptoms.push_text(&mut out);
        assert(out@ =~= self.plain_text());
        out
    }

    /// Makes the poison of the given level from the rolls for its symptoms.
    /// The level must be between 1 and 20 and each roll between 1 and 20.
    pub fn from_rolls(level: u32, rolls: &Vec<u32>) -> (r: Result<Poison, GenError>)
        requires
            rolls@.len() <= u32::MAX,
        ensures
            r is Ok <==> valid_level(level as int) && all_on_d20(rolls@),
            r is Ok ==> r->Ok_0.made_of(level, rolls@),
            !valid_level(level as int) ==> r is Err && r->Err_0 == (GenError::InvalidInput {
                value: level as u64,
            }),
            r is Err && valid_level(level as int) ==> exists|i: int| #[trigger]
                first_off_d20(rolls@, i) && r->Err_0 == (GenError::TableCoverage {
                    roll: rolls@[i],
                }),
    {
        let (start, damage, duration) = match severity(level) {
            Ok(triple) => triple,
            Err(e) => {
                return Err(e);
            },
        };
        let mut symptoms = SymptomList::new();
        let mut i: usize = 0;
        while i < rolls.len()
            invariant
                i <= rolls@.len(),
                rolls@.len() <= u32::MAX,
                valid_level(level as int),
                all_on_d20(rolls@.take(i as int)),
                symptoms.wf(),
                symptoms@ == symptoms_of(rolls@.take(i as int)),
                forall|k: int| 0 <= k < symptoms@.len() ==> (#[trigger] symptoms@[k]).amount <= i,
            decreases rolls@.len() - i,
        {
            let ghost shorter = rolls@.take(i as int);
            let ghost longer = rolls@.take(i + 1);
            proof {
                assert(longer.drop_last() =~= shorter);
                assert(longer.last() == rolls@[i as int]);
            }
            match symptom_for_roll(rolls[i]) {
                Ok(x) => {
                    let ghost before = symptoms@;
                    symptoms.push(x);
                    proof {
                        assert forall|k: int| 0 <= k < longer.len() implies on_d20(
                            #[trigger] longer[k] as int,
                        ) by {
                            if k < i {
                                assert(longer[k] == shorter[k]);
                            }
                        }
                        assert forall|k: int| 0 <= k < symptoms@.len() implies (
                        #[trigger] symptoms@[k]).amount <= i + 1 by {
                            if k < before.len() {
                                assert(before[k].amount <= i);
                            }
                        }
                    }
                },
                Err(e) => {
                    assert(first_off_d20(rolls@, i as int));
                    assert(!on_d20(rolls@[i as int] as int));
                    return Err(e);
                },
            }
            i += 1;
        }
        proof {
            assert(rolls@.take(i as int) =~= rolls@);
        }
        Ok(Poison { level, start, damage, duration, symptoms })
    }

    /// Makes a poison of the given level, which must be between 1 and 20,
    /// with the dice: one roll for each symptom roll of the level.
    pub fn generate(level: u32, dice: &mut Dice) -> (r: Result<Poison, GenError>)
        ensures
            r is Ok <==> valid_level(level as int),
            r is Err ==> r->Err_0 == (GenError::InvalidInput { value: level as u64 }),
            r is Err ==> final(dice).drawn() == old(dice).drawn(),
            r is Ok ==> final(dice).drawn() == old(dice).drawn() + symptom_rolls_of(level as int),
            r is Ok ==> exists|rolls: Seq<u32>|
                rolls.len() == symptom_rolls_of(level as int) && all_on_d20(rolls)
                    && #[trigger] r->Ok_0.made_of(level, rolls),
    {
        if level < 1 || level > 20 {
            return Err(GenError::InvalidInput { value: level as u64 });
        }
        let rolls: Vec<u32> = draw_d20s(dice, symptom_roll_count(level));
        let r = Poison::from_rolls(level, &rolls);
        proof {
            if r is Ok {
                assert(r->Ok_0.made_of(level, rolls@));
            }
        }
        r
    }
}

/// Draws `n` rolls of a twenty-sided die.
pub fn draw_d20s(dice: &mut Dice, n: u32) -> (rolls: Vec<u32>)
    ensures
        rolls@.len() == n,
        all_on_d20(rolls@),
        final(dice).drawn() == old(dice).drawn() + n,
{
    let mut rolls: Vec<u32> = Vec::new();
    let mut i: u32 = 0;
    while i < n
        invariant
            i <= n,
            rolls@.len() == i,
            all_on_d20(rolls@),
            dice.drawn() == old(dice).drawn() + i,
        decreases n - i,
    {
        let roll: u32 = dice.d20();
        rolls.push(roll);
        i += 1;
    }
    rolls
}

} // verus!

use dsa_tools::poison::{
    dice_count, draw_d20s, severity, symptom_for_roll, symptom_roll_count, Poison, Symptom,
    SymptomList,
};
use dsa_tools::source::Dice;
use dsa_tools::{Characteristic, DiceOverTime, GenError, Timeunit};

fn symptom(name: &str, characteristic: Option<Characteristic>) -> Symptom {
    Symptom {
        amount: 1,
        name: name.to_string(),
        characteristic,
        disadvantage: None,
        unconsciousness: false,
    }
}

fn expression(dice: u32, flat: u32, time: Timeunit) -> DiceOverTime {
    DiceOverTime { dice, flat, time }
}

#[test]
fn counts_at_the_ends_of_the_scale() {
    assert_eq!(dice_count(1), 1);
    assert_eq!(symptom_roll_count(1), 1);
    assert_eq!(dice_count(20), 5);
    assert_eq!(symptom_roll_count(20), 10);
}

#[test]
fn counts_round_up_for_every_level() {
    for level in 1u32..=20 {
        assert_eq!(dice_count(level), (level as f64 / 4.0).ceil() as u32);
        assert_eq!(symptom_roll_count(level), (level as f64 / 2.0).ceil() as u32);
    }
    assert_eq!(dice_count(4), 1);
    assert_eq!(dice_count(5), 2);
    assert_eq!(symptom_roll_count(5), 3);
    assert_eq!(dice_count(0), 0);
    assert_eq!(dice_count(u32::MAX), 1073741824);
    assert_eq!(symptom_roll_count(u32::MAX), 2147483648);
}

#[test]
fn severity_of_level_seven() {
    let (start, damage, duration) = severity(7).unwrap();
    assert_eq!(start, expression(1, 0, Timeunit::SR));
    assert_eq!(start.to_text(), "1W6+0 SR");
    assert_eq!(damage, expression(1, 0, Timeunit::SR));
    assert_eq!(duration, expression(0, 2, Timeunit::SR));
}

#[test]
fn severity_of_each_band() {
    for level in 1u32..=5 {
        let (start, damage, duration) = severity(level).unwrap();
        assert_eq!(start, expression(1, 0, Timeunit::SR));
        assert_eq!(damage, expression(0, 1, Timeunit::STD));
        assert_eq!(duration, expression(0, dice_count(level), Timeunit::SR));
    }
    for level in 6u32..=9 {
        let (start, damage, duration) = severity(level).unwrap();
        assert_eq!(start, expression(1, 0, Timeunit::SR));
        assert_eq!(damage, expression(1, 0, Timeunit::SR));
        assert_eq!(duration, expression(0, dice_count(level), Timeunit::SR));
    }
    for level in 10u32..=15 {
        let (start, damage, duration) = severity(level).unwrap();
        assert_eq!(start, expression(1, 4, Timeunit::KR));
        assert_eq!(damage, expression(2, 0, Timeunit::SR));
        assert_eq!(duration, expression(0, dice_count(level) / 2, Timeunit::SR));
    }
    for level in 16u32..=20 {
        let (start, damage, duration) = severity(level).unwrap();
        assert_eq!(start, expression(1, 0, Timeunit::KR));
        assert_eq!(damage, expression(1, 0, Timeunit::KR));
        assert_eq!(duration, expression(0, dice_count(level), Timeunit::KR));
    }
    assert_eq!(severity(12).unwrap().2, expression(0, 1, Timeunit::SR));
    assert_eq!(severity(13).unwrap().2, expression(0, 2, Timeunit::SR));
    assert_eq!(severity(20).unwrap().2, expression(0, 5, Timeunit::KR));
}

#[test]
fn severity_refuses_other_levels() {
    assert_eq!(severity(0), Err(GenError::InvalidInput { value: 0 }));
    assert_eq!(severity(21), Err(GenError::InvalidInput { value: 21 }));
    assert_eq!(severity(u32::MAX), Err(GenError::InvalidInput { value: 4294967295 }));
}

#[test]
fn symptom_table_row_by_row() {
    let rows: [(u32, u32, &str, Option<Characteristic>, Option<&str>, bool); 11] = [
        (1, 4, "Erbrechen", Some(Characteristic::CH), None, false),
        (5, 6, "Durchfall / Koliken", Some(Characteristic::MU), None, false),
        (7, 8, "Schweißausbrüche / Atemnot", Some(Characteristic::KO), None, false),
        (9, 10, "Schwäche", Some(Characteristic::KK), None, false),
        (11, 12, "Kopfschmerz / Schwindel", Some(Characteristic::KL), None, false),
        (13, 14, "Lähmungen", Some(Characteristic::GE), None, false),
        (15, 16, "Taubheiten", Some(Characteristic::FF), None, false),
        (17, 17, "Schwellungen", Some(Characteristic::GE), None, false),
        (18, 18, "Erregung", None, Some("Jähzorn"), false),
        (19, 19, "Blutungen", None, Some("Aberglaube"), false),
        (20, 20, "Bewusstlosigkeit", None, None, true),
    ];
    let mut seen: u32 = 0;
    for (low, high, name, characteristic, disadvantage, unconsciousness) in rows {
        for roll in low..=high {
            let s = symptom_for_roll(roll).unwrap();
            assert_eq!(s.amount, 1);
            assert_eq!(s.name, name);
            assert_eq!(s.characteristic, characteristic);
            assert_eq!(s.disadvantage.as_deref(), disadvantage);
            assert_eq!(s.unconsciousness, unconsciousness);
            seen += 1;
        }
    }
    assert_eq!(seen, 20);
}

#[test]
fn symptom_table_has_no_bucket_off_the_die() {
    assert_eq!(symptom_for_roll(0), Err(GenError::TableCoverage { roll: 0 }));
    assert_eq!(symptom_for_roll(21), Err(GenError::TableCoverage { roll: 21 }));
}

#[test]
fn same_symptom_twice_counts_up() {
    let mut list = SymptomList::new();
    assert_eq!(list.len(), 0);
    list.push(symptom("Erbrechen", Some(Characteristic::CH)));
    assert_eq!(list.len(), 1);
    assert_eq!(list.get(0).amount, 1);
    list.push(symptom("Erbrechen", Some(Characteristic::CH)));
    assert_eq!(list.len(), 1);
    assert_eq!(list.get(0).amount, 2);
    assert_eq!(list.get(0).name, "Erbrechen");
}

#[test]
fn symptoms_keep_the_order_of_their_first_roll() {
    let mut list = SymptomList::new();
    list.push(symptom("Schwäche", Some(Characteristic::KK)));
    list.push(symptom("Erbrechen", Some(Characteristic::CH)));
    list.push(symptom("Taubheiten", Some(Characteristic::FF)));
    list.push(symptom("Erbrechen", Some(Characteristic::CH)));
    list.push(symptom("Taubheiten", Some(Characteristic::FF)));
    list.push(symptom("Taubheiten", Some(Characteristic::FF)));
    assert_eq!(list.len(), 3);
    assert_eq!((list.get(0).name.as_str(), list.get(0).amount), ("Schwäche", 1));
    assert_eq!((list.get(1).name.as_str(), list.get(1).amount), ("Erbrechen", 2));
    assert_eq!((list.get(2).name.as_str(), list.get(2).amount), ("Taubheiten", 3));
}

#[test]
fn level_five_with_two_rolls_of_three() {
    let p = Poison::from_rolls(5, &vec![3, 3]).unwrap();
    assert_eq!(p.level, 5);
    assert_eq!(dice_count(p.level), 2);
    assert_eq!(p.start, expression(1, 0, Timeunit::SR));
    assert_eq!(p.damage, expression(0, 1, Timeunit::STD));
    assert_eq!(p.duration, expression(0, 2, Timeunit::SR));
    assert_eq!(p.symptoms.len(), 1);
    let s = p.symptoms.get(0);
    assert_eq!(s.name, "Erbrechen");
    assert_eq!(s.amount, 2);
    assert_eq!(s.characteristic, Some(Characteristic::CH));
    assert_eq!(s.disadvantage, None);
    assert!(!s.unconsciousness);
}

#[test]
fn rolls_are_merged_in_their_order() {
    let p = Poison::from_rolls(20, &vec![20, 1, 18, 4, 20, 17, 13, 14, 2, 19]).unwrap();
    let got: Vec<(String, u32)> =
        (0..p.symptoms.len()).map(|i| (p.symptoms.get(i).name.clone(), p.symptoms.get(i).amount)).collect();
    let want: Vec<(String, u32)> = vec![
        ("Bewusstlosigkeit".to_string(), 2),
        ("Erbrechen".to_string(), 3),
        ("Erregung".to_string(), 1),
        ("Schwellungen".to_string(), 1),
        ("Lähmungen".to_string(), 2),
        ("Blutungen".to_string(), 1),
    ];
    assert_eq!(got, want);
}

#[test]
fn from_rolls_refuses_a_level_off_the_scale() {
    assert_eq!(Poison::from_rolls(0, &vec![3]), Err(GenError::InvalidInput { value: 0 }));
    assert_eq!(Poison::from_rolls(21, &vec![3]), Err(GenError::InvalidInput { value: 21 }));
    assert_eq!(Poison::from_rolls(21, &vec![0]), Err(GenError::InvalidInput { value: 21 }));
}

#[test]
fn from_rolls_refuses_the_first_roll_off_the_die() {
    assert_eq!(
        Poison::from_rolls(5, &vec![3, 21, 0]),
        Err(GenError::TableCoverage { roll: 21 })
    );
    assert_eq!(Poison::from_rolls(5, &vec![0]), Err(GenError::TableCoverage { roll: 0 }));
}

#[test]
fn from_rolls_without_rolls_has_no_symptoms() {
    let p = Poison::from_rolls(1, &vec![]).unwrap();
    assert_eq!(p.symptoms.len(), 0);
    assert_eq!(p.symptoms.to_text(), "[]");
}

#[test]
fn generated_poison_counts_every_roll() {
    for seed in 0u64..50 {
        for level in 1u32..=20 {
            let mut dice = Dice::seeded(seed);
            let p = Poison::generate(level, &mut dice).unwrap();
            assert_eq!(p.level, level);
            let (start, damage, duration) = severity(level).unwrap();
            assert_eq!((p.start, p.damage, p.duration), (start, damage, duration));
            let mut total: u32 = 0;
            for i in 0..p.symptoms.len() {
                total += p.symptoms.get(i).amount;
                for j in 0..i {
                    assert_ne!(p.symptoms.get(i).name, p.symptoms.get(j).name);
                }
            }
            assert_eq!(total, symptom_roll_count(level));
        }
    }
}

#[test]
fn generated_poison_is_what_its_rolls_give() {
    let mut first = Dice::seeded(11);
    let mut second = Dice::seeded(11);
    let rolls = draw_d20s(&mut first, symptom_roll_count(9));
    assert_eq!(rolls.len(), 5);
    let p = Poison::generate(9, &mut second).unwrap();
    assert_eq!(p, Poison::from_rolls(9, &rolls).unwrap());
}

#[test]
fn generate_refuses_a_level_off_the_scale() {
    let mut dice = Dice::seeded(1);
    assert_eq!(Poison::generate(0, &mut dice), Err(GenError::InvalidInput { value: 0 }));
    assert_eq!(Poison::generate(21, &mut dice), Err(GenError::InvalidInput { value: 21 }));
    let mut untouched = Dice::seeded(1);
    assert_eq!(dice.d20(), untouched.d20());
}

#[test]
fn symptom_as_text() {
    let mut s = symptom("Erbrechen", Some(Characteristic::CH));
    s.amount = 2;
    assert_eq!(s.to_text(), "Erbrechen (CH -2W6)");
    assert_eq!(symptom_for_roll(18).unwrap().to_text(), "Erregung (Jähzorn +1W6)");
    assert_eq!(symptom_for_roll(20).unwrap().to_text(), "Bewusstlosigkeit (bewusstlos)");
    assert_eq!(symptom("Husten", None).to_text(), "Husten");
}

#[test]
fn poison_in_each_form() {
    let p = Poison::from_rolls(12, &vec![3, 19, 3, 20]).unwrap();
    let list = "[Erbrechen (CH -2W6), Blutungen (Aberglaube +1W6), Bewusstlosigkeit (bewusstlos)]";
    assert_eq!(p.symptoms.to_text(), list);
    assert_eq!(
        p.to_text(),
        format!("Stufe 12\nBeginn nach 1W6+4 KR\nDauer 0W6+1 SR\nSchaden 2W6+0 pro SR\n{}", list)
    );
    assert_eq!(
        p.md(),
        format!(
            "- Stufe 12\n- Beginn nach 1W6+4 KR\n- Dauer 0W6+1 SR\n- Schaden 2W6+0 pro SR\n- {}",
            list
        )
    );
    assert_eq!(
        p.csv(),
        format!("\"12\",\"1W6+4 KR\",\"2W6+0 SR\",\"0W6+1 SR\",\"{}\"", list)
    );
}

#[test]
fn poison_of_the_first_band_counts_damage_by_the_hour() {
    let p = Poison::from_rolls(1, &vec![7]).unwrap();
    assert_eq!(
        p.to_text(),
        "Stufe 1\nBeginn nach 1W6+0 SR\nDauer 0W6+1 SR\nSchaden 0W6+1 pro Stunde(n)\n[Schweißausbrüche / Atemnot (KO -1W6)]"
    );
}

#[test]
fn a_known_symptom_changes_its_entry_alone() {
    let mut list = SymptomList::new();
    for roll in [1u32, 18, 20, 9] {
        list.push(symptom_for_roll(roll).unwrap());
    }
    let before: Vec<Symptom> = (0..list.len()).map(|i| list.get(i).clone()).collect();
    for k in 0..before.len() {
        let mut grown = list.clone();
        let mut again = symptom("", None);
        again.name = before[k].name.clone();
        grown.push(again);
        assert_eq!(grown.len(), before.len());
        for i in 0..before.len() {
            let mut want = before[i].clone();
            if i == k {
                want.amount += 1;
            }
            assert_eq!(*grown.get(i), want);
        }
    }
}

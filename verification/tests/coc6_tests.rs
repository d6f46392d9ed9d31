use charsheet::coc6::{Dice, Sheet, Status, StatusType};

#[test]
fn int_status_applies_bonus() {
    let mut status = Status::new(StatusType::Int);
    let mut rolls = vec![4u8, 5u8].into_iter();
    status.roll_status_with(|_| rolls.next().expect("enough rolls"));
    assert_eq!(status.value(), 15);
    assert!(status.to_string().contains("(4+5+6)"));
}

#[test]
fn str_status_displays_padded_value() {
    let mut status = Status::new(StatusType::Str);
    let mut rolls = vec![2u8, 2u8, 3u8].into_iter();
    status.roll_status_with(|_| rolls.next().expect("enough rolls"));
    assert_eq!(status.value(), 7);
    assert!(status.to_string().contains("STR:  7 (2+2+3)"));
}

#[test]
fn coc6_dice_roll_with_clamps_out_of_range_values() {
    let mut dice = Dice::new(2, 6);
    let mut values = vec![8u8, 0u8].into_iter();
    dice.roll_with(|max| values.next().unwrap_or(max));
    assert_eq!(dice.display_rolls(), "6+1");
    assert_eq!(dice.result(), 7);
}

fn rolled(kind: StatusType, values: Vec<u8>) -> Status {
    let mut status = Status::new(kind);
    let mut source = values.into_iter();
    status.roll_status_with(|_| source.next().expect("enough rolls"));
    status
}

fn kinds() -> Vec<StatusType> {
    vec![
        StatusType::Str,
        StatusType::Con,
        StatusType::Pow,
        StatusType::Dex,
        StatusType::App,
        StatusType::Siz,
        StatusType::Int,
        StatusType::Edu,
    ]
}

#[test]
fn int_status_line_is_exact_and_unpadded() {
    let status = rolled(StatusType::Int, vec![4, 5]);
    assert_eq!(status.to_string(), "INT: 15 (4+5+6)");
    assert!(status.to_string().contains("15"));
}

#[test]
fn str_status_line_is_exact() {
    let status = rolled(StatusType::Str, vec![2, 2, 3]);
    assert_eq!(status.to_string(), "STR:  7 (2+2+3)");
}

#[test]
fn codes_follow_the_canonical_order() {
    let codes: Vec<&str> = StatusType::values().iter().map(|kind| kind.to_string()).collect();
    assert_eq!(codes, vec!["STR", "CON", "POW", "DEX", "APP", "SIZ", "INT", "EDU"]);
    assert_eq!(StatusType::values(), kinds());
}

#[test]
fn dice_formula_of_every_kind() {
    for kind in kinds() {
        let count = match kind {
            StatusType::Siz | StatusType::Int => 2,
            _ => 3,
        };
        let mut dice = kind.get_dice();
        assert!(dice.values().is_empty());
        let mut asked = Vec::new();
        dice.roll_with(|max| {
            asked.push(max);
            1
        });
        assert_eq!(asked, vec![6u8; count]);
        assert_eq!(dice.result(), count as i32);
    }
}

#[test]
fn bonus_of_every_kind() {
    let bonuses: Vec<i32> = kinds().iter().map(|kind| kind.roll_special()).collect();
    assert_eq!(bonuses, vec![0, 0, 0, 0, 0, 6, 6, 3]);
}

#[test]
fn scores_below_ten_get_one_space() {
    assert_eq!(rolled(StatusType::Str, vec![1, 1, 1]).to_string(), "STR:  3 (1+1+1)");
    assert_eq!(rolled(StatusType::Con, vec![3, 3, 3]).to_string(), "CON:  9 (3+3+3)");
    assert_eq!(rolled(StatusType::Siz, vec![1, 1]).to_string(), "SIZ:  8 (1+1+6)");
    assert_eq!(rolled(StatusType::Edu, vec![1, 1, 1]).to_string(), "EDU:  6 (1+1+1+3)");
}

#[test]
fn scores_from_ten_get_no_space() {
    assert_eq!(rolled(StatusType::Pow, vec![3, 3, 4]).to_string(), "POW: 10 (3+3+4)");
    assert_eq!(rolled(StatusType::Dex, vec![6, 6, 6]).to_string(), "DEX: 18 (6+6+6)");
    assert_eq!(rolled(StatusType::Siz, vec![6, 6]).to_string(), "SIZ: 18 (6+6+6)");
    assert_eq!(rolled(StatusType::Edu, vec![6, 6, 6]).to_string(), "EDU: 21 (6+6+6+3)");
}

#[test]
fn bonus_is_shown_only_where_there_is_one() {
    for kind in kinds() {
        let status = rolled(kind, vec![2, 2, 2]);
        let line = status.to_string();
        let inside = &line[line.find('(').expect("an opening parenthesis")..];
        let bonus = kind.roll_special();
        let dice = status.rolls().len();
        if bonus > 0 {
            assert!(inside.ends_with(&format!("+{})", bonus)));
            assert_eq!(inside.matches('+').count(), dice);
        } else {
            assert!(inside.ends_with("2)"));
            assert!(!inside.contains("+0"));
            assert_eq!(inside.matches('+').count(), dice - 1);
        }
    }
}

#[test]
fn status_with_generator_out_of_range_is_clamped() {
    let status = rolled(StatusType::App, vec![0, 9, 200]);
    assert_eq!(status.rolls(), &vec![1u8, 6, 6]);
    assert_eq!(status.value(), 13);
    assert_eq!(status.to_string(), "APP: 13 (1+6+6)");
}

#[test]
fn generator_is_handed_the_faces() {
    let mut status = Status::new(StatusType::Edu);
    let mut asked = Vec::new();
    status.roll_status_with(|max| {
        asked.push(max);
        max
    });
    assert_eq!(asked, vec![6u8, 6, 6]);
    assert_eq!(status.value(), 21);
}

#[test]
fn unrolled_status_holds_the_bonus_alone() {
    for kind in kinds() {
        let status = Status::new(kind);
        assert_eq!(status.status_type(), kind);
        assert!(status.rolls().is_empty());
        assert_eq!(status.value(), kind.roll_special());
    }
    assert_eq!(Status::new(StatusType::Int).to_string(), "INT:  6 (+6)");
    assert_eq!(Status::new(StatusType::Str).to_string(), "STR:  0 ()");
}

#[test]
fn roll_status_scores_the_dice_and_the_bonus() {
    for kind in kinds() {
        let mut status = Status::new(kind);
        for _ in 0..50 {
            status.roll_status();
            let expected = if matches!(kind, StatusType::Siz | StatusType::Int) { 2 } else { 3 };
            assert_eq!(status.status_type(), kind);
            assert_eq!(status.rolls().len(), expected);
            let mut sum = 0;
            for value in status.rolls().iter() {
                assert!(1 <= *value && *value <= 6);
                sum += i32::from(*value);
            }
            assert_eq!(status.value(), sum + kind.roll_special());
        }
    }
}

#[test]
fn rolling_a_status_again_replaces_the_roll() {
    let mut status = rolled(StatusType::Siz, vec![1, 2]);
    assert_eq!(status.to_string(), "SIZ:  9 (1+2+6)");
    let mut source = vec![5u8, 6].into_iter();
    status.roll_status_with(|_| source.next().expect("enough rolls"));
    assert_eq!(status.to_string(), "SIZ: 17 (5+6+6)");
    assert_eq!(status.value(), 17);
}

#[test]
fn new_sheet_holds_every_kind_in_order() {
    for _ in 0..50 {
        let sheet = Sheet::new();
        let found: Vec<StatusType> = sheet.statuses.iter().map(|s| s.status_type()).collect();
        assert_eq!(found, kinds());
        for status in sheet.statuses.iter() {
            let sum: i32 = status.rolls().iter().map(|value| i32::from(*value)).sum();
            assert!(status.rolls().iter().all(|value| 1 <= *value && *value <= 6));
            assert_eq!(status.value(), sum + status.status_type().roll_special());
        }
    }
}

#[test]
fn status_lines_follow_the_entries() {
    let sheet = Sheet::new();
    let lines = sheet.status_lines();
    assert_eq!(lines.len(), 8);
    for (line, status) in lines.iter().zip(sheet.statuses.iter()) {
        assert_eq!(line, &status.to_string());
    }
    let codes: Vec<&str> = lines.iter().map(|line| &line[..5]).collect();
    assert_eq!(codes, vec!["STR: ", "CON: ", "POW: ", "DEX: ", "APP: ", "SIZ: ", "INT: ", "EDU: "]);
}

#[test]
fn status_lines_of_a_given_sheet() {
    let sheet = Sheet {
        statuses: vec![
            rolled(StatusType::Edu, vec![1, 2, 3]),
            rolled(StatusType::Str, vec![6, 6, 6]),
        ],
    };
    assert_eq!(sheet.status_lines(), vec!["EDU:  9 (1+2+3+3)", "STR: 18 (6+6+6)"]);
    let empty = Sheet { statuses: Vec::new() };
    assert!(empty.status_lines().is_empty());
}

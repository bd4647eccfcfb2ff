use yutf8::mappings::{
    latin_to_yutf8, lookup, macedonian_to_yutf8, serbian_cyrillic_to_yutf8, yutf8_to_latin,
    yutf8_to_macedonian, yutf8_to_serbian_cyrillic, Direction, ScriptType,
};

const LATIN: [(u32, u32); 10] = [
    (0x40, 0x017D),
    (0x5B, 0x0160),
    (0x5C, 0x0110),
    (0x5D, 0x0106),
    (0x5E, 0x010C),
    (0x60, 0x017E),
    (0x7B, 0x0161),
    (0x7C, 0x0111),
    (0x7D, 0x0107),
    (0x7E, 0x010D),
];

const SERBIAN_CYRILLIC: [(u32, u32); 18] = [
    (0x40, 0x0416),
    (0x51, 0x0409),
    (0x57, 0x040A),
    (0x58, 0x040F),
    (0x5A, 0x0417),
    (0x5B, 0x0428),
    (0x5C, 0x0402),
    (0x5D, 0x040B),
    (0x5E, 0x0427),
    (0x60, 0x0436),
    (0x71, 0x0459),
    (0x77, 0x045A),
    (0x78, 0x045F),
    (0x7A, 0x0437),
    (0x7B, 0x0448),
    (0x7C, 0x0452),
    (0x7D, 0x045B),
    (0x7E, 0x0447),
];

const MACEDONIAN: [(u32, u32); 20] = [
    (0x40, 0x0416),
    (0x51, 0x0409),
    (0x57, 0x040A),
    (0x58, 0x040F),
    (0x59, 0x0405),
    (0x5A, 0x0417),
    (0x5B, 0x0428),
    (0x5C, 0x0403),
    (0x5D, 0x040C),
    (0x5E, 0x0427),
    (0x60, 0x0436),
    (0x71, 0x0459),
    (0x77, 0x045A),
    (0x78, 0x045F),
    (0x79, 0x0455),
    (0x7A, 0x0437),
    (0x7B, 0x0448),
    (0x7C, 0x0453),
    (0x7D, 0x045C),
    (0x7E, 0x0447),
];

fn rows(script: ScriptType) -> &'static [(u32, u32)] {
    match script {
        ScriptType::Latin => &LATIN,
        ScriptType::SerbianCyrillic => &SERBIAN_CYRILLIC,
        ScriptType::Macedonian => &MACEDONIAN,
    }
}

fn scalar(value: u32) -> char {
    char::from_u32(value).unwrap()
}

const SCRIPTS: [ScriptType; 3] =
    [ScriptType::Latin, ScriptType::SerbianCyrillic, ScriptType::Macedonian];

#[test]
fn every_row_is_in_both_tables() {
    for script in SCRIPTS {
        for &(code, letter) in rows(script) {
            assert_eq!(lookup(script, Direction::ToYutf8, scalar(letter)), Some(scalar(code)));
            assert_eq!(lookup(script, Direction::FromYutf8, scalar(code)), Some(scalar(letter)));
        }
    }
}

#[test]
fn tables_hold_nothing_but_their_rows() {
    for script in SCRIPTS {
        let mut encoded = 0;
        let mut decoded = 0;
        for value in 0u32..0x3000 {
            let c = scalar(value);
            match lookup(script, Direction::ToYutf8, c) {
                Some(code) => {
                    encoded += 1;
                    assert!(rows(script).contains(&(u32::from(code), value)));
                }
                None => {}
            }
            match lookup(script, Direction::FromYutf8, c) {
                Some(letter) => {
                    decoded += 1;
                    assert!(rows(script).contains(&(value, u32::from(letter))));
                }
                None => {}
            }
        }
        assert_eq!(encoded, rows(script).len());
        assert_eq!(decoded, rows(script).len());
    }
}

#[test]
fn tables_of_a_script_undo_each_other() {
    for script in SCRIPTS {
        for value in 0u32..0x3000 {
            let c = scalar(value);
            if let Some(code) = lookup(script, Direction::ToYutf8, c) {
                assert_eq!(lookup(script, Direction::FromYutf8, code), Some(c));
                assert_eq!(lookup(script, Direction::FromYutf8, c), None);
            }
            if let Some(letter) = lookup(script, Direction::FromYutf8, c) {
                assert_eq!(lookup(script, Direction::ToYutf8, letter), Some(c));
                assert_eq!(lookup(script, Direction::ToYutf8, c), None);
            }
        }
    }
}

#[test]
fn no_two_keys_share_a_value() {
    for script in SCRIPTS {
        for direction in [Direction::ToYutf8, Direction::FromYutf8] {
            let mut values: Vec<char> = Vec::new();
            for value in 0u32..0x3000 {
                if let Some(mapped) = lookup(script, direction, scalar(value)) {
                    assert!(!values.contains(&mapped));
                    values.push(mapped);
                }
            }
        }
    }
}

#[test]
fn legacy_code_points_are_printable_ascii() {
    for script in SCRIPTS {
        for &(_, letter) in rows(script) {
            let code = lookup(script, Direction::ToYutf8, scalar(letter)).unwrap();
            assert!(('\u{40}'..='\u{7E}').contains(&code));
            assert!(letter > 0x7F);
        }
    }
}

#[test]
fn lookup_agrees_with_the_single_tables() {
    for value in 0u32..0x3000 {
        let c = scalar(value);
        assert_eq!(lookup(ScriptType::Latin, Direction::ToYutf8, c), latin_to_yutf8(c));
        assert_eq!(lookup(ScriptType::Latin, Direction::FromYutf8, c), yutf8_to_latin(c));
        assert_eq!(
            lookup(ScriptType::SerbianCyrillic, Direction::ToYutf8, c),
            serbian_cyrillic_to_yutf8(c)
        );
        assert_eq!(
            lookup(ScriptType::SerbianCyrillic, Direction::FromYutf8, c),
            yutf8_to_serbian_cyrillic(c)
        );
        assert_eq!(lookup(ScriptType::Macedonian, Direction::ToYutf8, c), macedonian_to_yutf8(c));
        assert_eq!(lookup(ScriptType::Macedonian, Direction::FromYutf8, c), yutf8_to_macedonian(c));
    }
}

#[test]
fn absent_characters_give_none() {
    for script in SCRIPTS {
        for direction in [Direction::ToYutf8, Direction::FromYutf8] {
            for c in ['0', '9', ' ', '.', ',', '!', '?', 'A', 'a', 'P', 'А', 'а', '_', '\u{7F}'] {
                assert_eq!(lookup(script, direction, c), None);
            }
        }
    }
    assert_eq!(yutf8_to_serbian_cyrillic('Y'), None);
    assert_eq!(yutf8_to_serbian_cyrillic('y'), None);
    assert_eq!(yutf8_to_macedonian('Y'), Some('Ѕ'));
    assert_eq!(yutf8_to_macedonian('y'), Some('ѕ'));
    assert_eq!(yutf8_to_latin('Q'), None);
    assert_eq!(latin_to_yutf8('Ж'), None);
    assert_eq!(serbian_cyrillic_to_yutf8('Ž'), None);
    assert_eq!(serbian_cyrillic_to_yutf8('Ѕ'), None);
    assert_eq!(macedonian_to_yutf8('Ђ'), None);
    assert_eq!(serbian_cyrillic_to_yutf8('Ѓ'), None);
}

#[test]
fn script_type_and_direction_compare_and_copy() {
    let script = ScriptType::Macedonian;
    let copy = script;
    assert_eq!(script, copy);
    assert_ne!(ScriptType::Latin, ScriptType::SerbianCyrillic);
    assert_ne!(Direction::ToYutf8, Direction::FromYutf8);
    assert_eq!(format!("{:?}", ScriptType::SerbianCyrillic), "SerbianCyrillic");
    assert_eq!(format!("{:?}", Direction::FromYutf8), "FromYutf8");
}

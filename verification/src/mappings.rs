//! The substitution tables, one per script and direction.
//!
//! A table maps single Unicode scalar values to single Unicode scalar values.
//! The tables that lead to YUTF-8 take a script's own letters to printable
//! ASCII code points between `0x40` and `0x7E`; the tables that lead back are
//! their inverses.  All three scripts occupy the ten code points of
//! ``@ [ \ ] ^ ` { | } ~``; the Cyrillic scripts also occupy `Q`, `W`, `X`, `Z`
//! and their lower-case forms, and Macedonian `Y` and `y` as well.  No other
//! character has an entry in any table.

use vstd::prelude::*;

verus! {

/// The Unicode letter repertoire on the modern side of a conversion.
#[derive(Debug, Clone, Copy, PartialEq, Eq, Structural)]
pub enum ScriptType {
    Latin,
    SerbianCyrillic,
    Macedonian,
}

/// Which way a table converts.
#[derive(Debug, Clone, Copy, PartialEq, Eq, Structural)]
pub enum Direction {
    /// From a script's Unicode letters to legacy code points.
    ToYutf8,
    /// From legacy code points to a script's Unicode letters.
    FromYutf8,
}

/// The legacy code point of each Serbian Latin letter that has one.
pub open spec fn latin_to_yutf8_table() -> Map<char, char> {
    map![
        'Ž' => '@', // 0x40
        'Š' => '[', // 0x5B
        'Đ' => '\\', // 0x5C
        'Ć' => ']', // 0x5D
        'Č' => '^', // 0x5E
        'ž' => '`', // 0x60
        'š' => '{', // 0x7B
        'đ' => '|', // 0x7C
        'ć' => '}', // 0x7D
        'č' => '~', // 0x7E
    ]
}

/// The Serbian Latin letter that each occupied legacy code point stands for.
pub open spec fn yutf8_to_latin_table() -> Map<char, char> {
    map![
        '@' => 'Ž', // 0x40
        '[' => 'Š', // 0x5B
        '\\' => 'Đ', // 0x5C
        ']' => 'Ć', // 0x5D
        '^' => 'Č', // 0x5E
        '`' => 'ž', // 0x60
        '{' => 'š', // 0x7B
        '|' => 'đ', // 0x7C
        '}' => 'ć', // 0x7D
        '~' => 'č', // 0x7E
    ]
}

/// The legacy code point of each Serbian Cyrillic letter that has one.
pub open spec fn serbian_cyrillic_to_yutf8_table() -> Map<char, char> {
    map![
        'Ж' => '@', // 0x40
        'Љ' => 'Q', // 0x51
        'Њ' => 'W', // 0x57
        'Џ' => 'X', // 0x58
        'З' => 'Z', // 0x5A
        'Ш' => '[', // 0x5B
        'Ђ' => '\\', // 0x5C
        'Ћ' => ']', // 0x5D
        'Ч' => '^', // 0x5E
        'ж' => '`', // 0x60
        'љ' => 'q', // 0x71
        'њ' => 'w', // 0x77
        'џ' => 'x', // 0x78
        'з' => 'z', // 0x7A
        'ш' => '{', // 0x7B
        'ђ' => '|', // 0x7C
        'ћ' => '}', // 0x7D
        'ч' => '~', // 0x7E
    ]
}

/// The Serbian Cyrillic letter that each occupied legacy code point stands for.
pub open spec fn yutf8_to_serbian_cyrillic_table() -> Map<char, char> {
    map![
        '@' => 'Ж', // 0x40
        'Q' => 'Љ', // 0x51
        'W' => 'Њ', // 0x57
        'X' => 'Џ', // 0x58
        'Z' => 'З', // 0x5A
        '[' => 'Ш', // 0x5B
        '\\' => 'Ђ', // 0x5C
        ']' => 'Ћ', // 0x5D
        '^' => 'Ч', // 0x5E
        '`' => 'ж', // 0x60
        'q' => 'љ', // 0x71
        'w' => 'њ', // 0x77
        'x' => 'џ', // 0x78
        'z' => 'з', // 0x7A
        '{' => 'ш', // 0x7B
        '|' => 'ђ', // 0x7C
        '}' => 'ћ', // 0x7D
        '~' => 'ч', // 0x7E
    ]
}

/// The legacy code point of each Macedonian Cyrillic letter that has one.
pub open spec fn macedonian_to_yutf8_table() -> Map<char, char> {
    map![
        'Ж' => '@', // 0x40
        'Љ' => 'Q', // 0x51
        'Њ' => 'W', // 0x57
        'Џ' => 'X', // 0x58
        'Ѕ' => 'Y', // 0x59
        'З' => 'Z', // 0x5A
        'Ш' => '[', // 0x5B
        'Ѓ' => '\\', // 0x5C
        'Ќ' => ']', // 0x5D
        'Ч' => '^', // 0x5E
        'ж' => '`', // 0x60
        'љ' => 'q', // 0x71
        'њ' => 'w', // 0x77
        'џ' => 'x', // 0x78
        'ѕ' => 'y', // 0x79
        'з' => 'z', // 0x7A
        'ш' => '{', // 0x7B
        'ѓ' => '|', // 0x7C
        'ќ' => '}', // 0x7D
        'ч' => '~', // 0x7E
    ]
}

/// The Macedonian Cyrillic letter that each occupied legacy code point stands for.
pub open spec fn yutf8_to_macedonian_table() -> Map<char, char> {
    map![
        '@' => 'Ж', // 0x40
        'Q' => 'Љ', // 0x51
        'W' => 'Њ', // 0x57
        'X' => 'Џ', // 0x58
        'Y' => 'Ѕ', // 0x59
        'Z' => 'З', // 0x5A
        '[' => 'Ш', // 0x5B
        '\\' => 'Ѓ', // 0x5C
        ']' => 'Ќ', // 0x5D
        '^' => 'Ч', // 0x5E
        '`' => 'ж', // 0x60
        'q' => 'љ', // 0x71
        'w' => 'њ', // 0x77
        'x' => 'џ', // 0x78
        'y' => 'ѕ', // 0x79
        'z' => 'з', // 0x7A
        '{' => 'ш', // 0x7B
        '|' => 'ѓ', // 0x7C
        '}' => 'ќ', // 0x7D
        '~' => 'ч', // 0x7E
    ]
}

/// The table that a script and a direction select.
pub open spec fn character_map(script: ScriptType, direction: Direction) -> Map<char, char> {
    match (script, direction) {
        (ScriptType::Latin, Direction::ToYutf8) => latin_to_yutf8_table(),
        (ScriptType::Latin, Direction::FromYutf8) => yutf8_to_latin_table(),
        (ScriptType::SerbianCyrillic, Direction::ToYutf8) => serbian_cyrillic_to_yutf8_table(),
        (ScriptType::SerbianCyrillic, Direction::FromYutf8) => yutf8_to_serbian_cyrillic_table(),
        (ScriptType::Macedonian, Direction::ToYutf8) => macedonian_to_yutf8_table(),
        (ScriptType::Macedonian, Direction::FromYutf8) => yutf8_to_macedonian_table(),
    }
}

/// Looks a character up among the Serbian Latin letters.
pub fn latin_to_yutf8(letter: char) -> (mapped: Option<char>)
    ensures
        mapped == latin_to_yutf8_table().get(letter),
{
    match letter {
        'Ž' => Some('@'), // 0x40
        'Š' => Some('['), // 0x5B
        'Đ' => Some('\\'), // 0x5C
        'Ć' => Some(']'), // 0x5D
        'Č' => Some('^'), // 0x5E
        'ž' => Some('`'), // 0x60
        'š' => Some('{'), // 0x7B
        'đ' => Some('|'), // 0x7C
        'ć' => Some('}'), // 0x7D
        'č' => Some('~'), // 0x7E
        _ => None,
    }
}

/// Looks a character up among the legacy code points that Serbian Latin occupies.
pub fn yutf8_to_latin(code: char) -> (mapped: Option<char>)
    ensures
        mapped == yutf8_to_latin_table().get(code),
{
    match code {
        '@' => Some('Ž'), // 0x40
        '[' => Some('Š'), // 0x5B
        '\\' => Some('Đ'), // 0x5C
        ']' => Some('Ć'), // 0x5D
        '^' => Some('Č'), // 0x5E
        '`' => Some('ž'), // 0x60
        '{' => Some('š'), // 0x7B
        '|' => Some('đ'), // 0x7C
        '}' => Some('ć'), // 0x7D
        '~' => Some('č'), // 0x7E
        _ => None,
    }
}

/// Looks a character up among the Serbian Cyrillic letters.
pub fn serbian_cyrillic_to_yutf8(letter: char) -> (mapped: Option<char>)
    ensures
        mapped == serbian_cyrillic_to_yutf8_table().get(letter),
{
    match letter {
        'Ж' => Some('@'), // 0x40
        'Љ' => Some('Q'), // 0x51
        'Њ' => Some('W'), // 0x57
        'Џ' => Some('X'), // 0x58
        'З' => Some('Z'), // 0x5A
        'Ш' => Some('['), // 0x5B
        'Ђ' => Some('\\'), // 0x5C
        'Ћ' => Some(']'), // 0x5D
        'Ч' => Some('^'), // 0x5E
        'ж' => Some('`'), // 0x60
        'љ' => Some('q'), // 0x71
        'њ' => Some('w'), // 0x77
        'џ' => Some('x'), // 0x78
        'з' => Some('z'), // 0x7A
        'ш' => Some('{'), // 0x7B
        'ђ' => Some('|'), // 0x7C
        'ћ' => Some('}'), // 0x7D
        'ч' => Some('~'), // 0x7E
        _ => None,
    }
}

/// Looks a character up among the legacy code points that Serbian Cyrillic occupies.
pub fn yutf8_to_serbian_cyrillic(code: char) -> (mapped: Option<char>)
    ensures
        mapped == yutf8_to_serbian_cyrillic_table().get(code),
{
    match code {
        '@' => Some('Ж'), // 0x40
        'Q' => Some('Љ'), // 0x51
        'W' => Some('Њ'), // 0x57
        'X' => Some('Џ'), // 0x58
        'Z' => Some('З'), // 0x5A
        '[' => Some('Ш'), // 0x5B
        '\\' => Some('Ђ'), // 0x5C
        ']' => Some('Ћ'), // 0x5D
        '^' => Some('Ч'), // 0x5E
        '`' => Some('ж'), // 0x60
        'q' => Some('љ'), // 0x71
        'w' => Some('њ'), // 0x77
        'x' => Some('џ'), // 0x78
        'z' => Some('з'), // 0x7A
        '{' => Some('ш'), // 0x7B
        '|' => Some('ђ'), // 0x7C
        '}' => Some('ћ'), // 0x7D
        '~' => Some('ч'), // 0x7E
        _ => None,
    }
}

/// Looks a character up among the Macedonian Cyrillic letters.
pub fn macedonian_to_yutf8(letter: char) -> (mapped: Option<char>)
    ensures
        mapped == macedonian_to_yutf8_table().get(letter),
{
    match letter {
        'Ж' => Some('@'), // 0x40
        'Љ' => Some('Q'), // 0x51
        'Њ' => Some('W'), // 0x57
        'Џ' => Some('X'), // 0x58
        'Ѕ' => Some('Y'), // 0x59
        'З' => Some('Z'), // 0x5A
        'Ш' => Some('['), // 0x5B
        'Ѓ' => Some('\\'), // 0x5C
        'Ќ' => Some(']'), // 0x5D
        'Ч' => Some('^'), // 0x5E
        'ж' => Some('`'), // 0x60
        'љ' => Some('q'), // 0x71
        'њ' => Some('w'), // 0x77
        'џ' => Some('x'), // 0x78
        'ѕ' => Some('y'), // 0x79
        'з' => Some('z'), // 0x7A
        'ш' => Some('{'), // 0x7B
        'ѓ' => Some('|'), // 0x7C
        'ќ' => Some('}'), // 0x7D
        'ч' => Some('~'), // 0x7E
        _ => None,
    }
}

/// Looks a character up among the legacy code points that Macedonian Cyrillic occupies.
pub fn yutf8_to_macedonian(code: char) -> (mapped: Option<char>)
    ensures
        mapped == yutf8_to_macedonian_table().get(code),
{
    match code {
        '@' => Some('Ж'), // 0x40
        'Q' => Some('Љ'), // 0x51
        'W' => Some('Њ'), // 0x57
        'X' => Some('Џ'), // 0x58
        'Y' => Some('Ѕ'), // 0x59
        'Z' => Some('З'), // 0x5A
        '[' => Some('Ш'), // 0x5B
        '\\' => Some('Ѓ'), // 0x5C
        ']' => Some('Ќ'), // 0x5D
        '^' => Some('Ч'), // 0x5E
        '`' => Some('ж'), // 0x60
        'q' => Some('љ'), // 0x71
        'w' => Some('њ'), // 0x77
        'x' => Some('џ'), // 0x78
        'y' => Some('ѕ'), // 0x79
        'z' => Some('з'), // 0x7A
        '{' => Some('ш'), // 0x7B
        '|' => Some('ѓ'), // 0x7C
        '}' => Some('ќ'), // 0x7D
        '~' => Some('ч'), // 0x7E
        _ => None,
    }
}

/// Looks a character up in the table that `script` and `direction` select.
///
/// A character without an entry gives `None`; leaving it unchanged is the
/// caller's business.
pub fn lookup(script: ScriptType, direction: Direction, c: char) -> (mapped: Option<char>)
    ensures
        mapped == character_map(script, direction).get(c),
{
    match (script, direction) {
        (ScriptType::Latin, Direction::ToYutf8) => latin_to_yutf8(c),
        (ScriptType::Latin, Direction::FromYutf8) => yutf8_to_latin(c),
        (ScriptType::SerbianCyrillic, Direction::ToYutf8) => serbian_cyrillic_to_yutf8(c),
        (ScriptType::SerbianCyrillic, Direction::FromYutf8) => yutf8_to_serbian_cyrillic(c),
        (ScriptType::Macedonian, Direction::ToYutf8) => macedonian_to_yutf8(c),
        (ScriptType::Macedonian, Direction::FromYutf8) => yutf8_to_macedonian(c),
    }
}

/// Whether two tables undo each other: every pair of one, read backwards, is a
/// pair of the other.
pub open spec fn are_inverse(forward: Map<char, char>, backward: Map<char, char>) -> bool {
    &&& forall|k: char, v: char| #[trigger]
        forward.contains_pair(k, v) ==> backward.contains_pair(v, k)
    &&& forall|k: char, v: char| #[trigger]
        backward.contains_pair(k, v) ==> forward.contains_pair(v, k)
}

/// The two tables of a script are exact inverses of each other, and neither
/// sends two characters to the same one.
pub proof fn lemma_tables_are_inverse(script: ScriptType)
    ensures
        are_inverse(
            character_map(script, Direction::ToYutf8),
            character_map(script, Direction::FromYutf8),
        ),
        character_map(script, Direction::ToYutf8).is_injective(),
        character_map(script, Direction::FromYutf8).is_injective(),
        character_map(script, Direction::FromYutf8) == character_map(
            script,
            Direction::ToYutf8,
        ).invert(),
        character_map(script, Direction::ToYutf8) == character_map(
            script,
            Direction::FromYutf8,
        ).invert(),
{
    let to = character_map(script, Direction::ToYutf8);
    let from = character_map(script, Direction::FromYutf8);
    assert(are_inverse(to, from));
    assert(to.is_injective());
    assert(from.is_injective());
    lemma_inverse_is_invert(to, from);
    lemma_inverse_is_invert(from, to);
}

/// The number of letters of a script that the legacy encoding gives a code
/// point of their own.
pub open spec fn table_size(script: ScriptType) -> nat {
    match script {
        ScriptType::Latin => 10,
        ScriptType::SerbianCyrillic => 18,
        ScriptType::Macedonian => 20,
    }
}

/// Each table of a script has one key for each of the script's encoded
/// letters: no two of its entries share a key.
pub proof fn lemma_table_sizes(script: ScriptType, direction: Direction)
    ensures
        character_map(script, direction).dom().finite(),
        character_map(script, direction).dom().len() == table_size(script),
{
}

/// The legacy side of every table is printable ASCII between `0x40` and
/// `0x7E`, and the script side lies above the ASCII range.
pub proof fn lemma_legacy_side_is_ascii(script: ScriptType)
    ensures
        forall|c: char| #[trigger]
            character_map(script, Direction::FromYutf8).contains_key(c) ==> '\x40' <= c <= '\x7E',
        forall|c: char| #[trigger]
            character_map(script, Direction::ToYutf8).contains_key(c) ==> c > '\x7F',
{
}

/// No character is a key of both tables of a script: what one table reads,
/// the other only writes.
pub proof fn lemma_tables_share_no_key(script: ScriptType)
    ensures
        character_map(script, Direction::ToYutf8).dom().disjoint(
            character_map(script, Direction::FromYutf8).dom(),
        ),
{
}

/// Two tables that undo each other are each the other's `invert`.
proof fn lemma_inverse_is_invert(forward: Map<char, char>, backward: Map<char, char>)
    requires
        are_inverse(forward, backward),
    ensures
        backward == forward.invert(),
{
    assert forall|v: char| backward.contains_key(v) <==> forward.contains_value(v) by {
        if backward.contains_key(v) {
            assert(backward.contains_pair(v, backward[v]));
            assert(forward.contains_pair(backward[v], v));
        }
        if forward.contains_value(v) {
            let k = choose|k: char| forward.contains_key(k) && forward[k] == v;
            assert(forward.contains_pair(k, v));
            assert(backward.contains_pair(v, k));
        }
    }
    assert forall|v: char| backward.contains_key(v) implies backward[v] == forward.invert()[v] by {
        assert(backward.contains_pair(v, backward[v]));
        assert(forward.contains_pair(backward[v], v));
        let k = choose|k: char| forward.contains_pair(k, v);
        assert(backward.contains_pair(v, k));
    }
    assert(backward =~= forward.invert());
}

} // verus!

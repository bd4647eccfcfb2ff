//! The transcoder: applies one substitution table to every character of a text.
//!
//! A conversion is a single pass over the Unicode scalar values of the input.
//! Each character is replaced by its table entry or, where the table has none,
//! passed through unchanged; no character's fate depends on its neighbours.

pub use crate::mappings::ScriptType;
use crate::mappings::{
    are_inverse, character_map, lemma_legacy_side_is_ascii, lemma_tables_are_inverse,
    lemma_tables_share_no_key, lookup, Direction,
};
use vstd::prelude::*;

verus! {

/// What a table makes of one character: its entry, or the character itself
/// where the table has none.
pub open spec fn substitute(table: Map<char, char>, c: char) -> char {
    if table.contains_key(c) {
        table[c]
    } else {
        c
    }
}

/// A text with every character substituted on its own, in place.
pub open spec fn apply_table(table: Map<char, char>, text: Seq<char>) -> Seq<char> {
    text.map_values(|c: char| substitute(table, c))
}

/// A text of `script` written in the legacy encoding.
pub open spec fn to_legacy(text: Seq<char>, script: ScriptType) -> Seq<char> {
    apply_table(character_map(script, Direction::ToYutf8), text)
}

/// A legacy-encoded text written in the Unicode letters of `script`.
pub open spec fn from_legacy(text: Seq<char>, script: ScriptType) -> Seq<char> {
    apply_table(character_map(script, Direction::FromYutf8), text)
}

/// Converts `text` with the table that `script` and `direction` select.
///
/// Works on Unicode scalar values, one at a time and each independently of its
/// neighbours, so the result has as many characters as the input.
pub fn transcode(text: &str, script: ScriptType, direction: Direction) -> (converted: String)
    ensures
        converted@ == apply_table(character_map(script, direction), text@),
        converted@.len() == text@.len(),
{
    let mut converted = String::new();
    for c in it: text.chars()
        invariant
            it.seq() == text@,
            converted@ == apply_table(character_map(script, direction), text@.take(it.index())),
    {
        let out = match lookup(script, direction, c) {
            Some(mapped) => mapped,
            None => c,
        };
        converted.push(out);
    }
    converted
}

/// Converts Unicode text of `script` to YUTF-8.
pub fn convert_to_yutf8(text: &str, script: ScriptType) -> (converted: String)
    ensures
        converted@ == to_legacy(text@, script),
        converted@.len() == text@.len(),
{
    transcode(text, script, Direction::ToYutf8)
}

/// Converts YUTF-8 text to the Unicode letters of `script`.
pub fn convert_from_yutf8(text: &str, script: ScriptType) -> (converted: String)
    ensures
        converted@ == from_legacy(text@, script),
        converted@.len() == text@.len(),
{
    transcode(text, script, Direction::FromYutf8)
}

/// Converts Serbian Latin (also Croatian and Slovenian) text to YUTF-8.
pub fn convert_latin_to_yutf8(text: &str) -> (converted: String)
    ensures
        converted@ == to_legacy(text@, ScriptType::Latin),
        converted@.len() == text@.len(),
{
    convert_to_yutf8(text, ScriptType::Latin)
}

/// Converts Serbian Cyrillic text to YUTF-8.
pub fn convert_serbian_cyrillic_to_yutf8(text: &str) -> (converted: String)
    ensures
        converted@ == to_legacy(text@, ScriptType::SerbianCyrillic),
        converted@.len() == text@.len(),
{
    convert_to_yutf8(text, ScriptType::SerbianCyrillic)
}

/// Converts Macedonian Cyrillic text to YUTF-8.
pub fn convert_macedonian_to_yutf8(text: &str) -> (converted: String)
    ensures
        converted@ == to_legacy(text@, ScriptType::Macedonian),
        converted@.len() == text@.len(),
{
    convert_to_yutf8(text, ScriptType::Macedonian)
}

/// Converts YUTF-8 text to Serbian Latin (also Croatian and Slovenian).
pub fn convert_yutf8_to_latin(text: &str) -> (converted: String)
    ensures
        converted@ == from_legacy(text@, ScriptType::Latin),
        converted@.len() == text@.len(),
{
    convert_from_yutf8(text, ScriptType::Latin)
}

/// Converts YUTF-8 text to Serbian Cyrillic.
pub fn convert_yutf8_to_serbian_cyrillic(text: &str) -> (converted: String)
    ensures
        converted@ == from_legacy(text@, ScriptType::SerbianCyrillic),
        converted@.len() == text@.len(),
{
    convert_from_yutf8(text, ScriptType::SerbianCyrillic)
}

/// Converts YUTF-8 text to Macedonian Cyrillic.
pub fn convert_yutf8_to_macedonian(text: &str) -> (converted: String)
    ensures
        converted@ == from_legacy(text@, ScriptType::Macedonian),
        converted@.len() == text@.len(),
{
    convert_from_yutf8(text, ScriptType::Macedonian)
}

/// Whether no character of `text` is a key of `table`.
pub open spec fn avoids_keys(text: Seq<char>, table: Map<char, char>) -> bool {
    forall|i: int| 0 <= i < text.len() ==> !table.contains_key(#[trigger] text[i])
}

/// Whether every character of `text` fits the single byte of the legacy
/// encoding, that is, lies in the ASCII range.
pub open spec fn is_legacy_text(text: Seq<char>) -> bool {
    forall|i: int| 0 <= i < text.len() ==> #[trigger] text[i] <= '\x7F'
}

/// Whether a character is a decimal digit, a full stop, a comma, an
/// exclamation mark, a question mark or a space.
pub open spec fn is_plain(c: char) -> bool {
    ('0' <= c && c <= '9') || c == '.' || c == ',' || c == '!' || c == '?' || c == ' '
}

/// A table leaves a text as it is exactly when the text holds none of the
/// table's keys.
pub proof fn lemma_unchanged_iff_avoids_keys(
    text: Seq<char>,
    script: ScriptType,
    direction: Direction,
)
    ensures
        apply_table(character_map(script, direction), text) == text <==> avoids_keys(
            text,
            character_map(script, direction),
        ),
{
    lemma_tables_are_inverse(script);
    lemma_tables_share_no_key(script);
    lemma_inverse_tables_move_keys(
        character_map(script, Direction::ToYutf8),
        character_map(script, Direction::FromYutf8),
    );
    lemma_apply_table_unchanged(text, character_map(script, direction));
}

/// A text of digits, `.`, `,`, `!`, `?` and spaces is the same in every
/// script and in both directions.
pub proof fn lemma_plain_text_is_unchanged(text: Seq<char>, script: ScriptType)
    requires
        forall|i: int| 0 <= i < text.len() ==> is_plain(#[trigger] text[i]),
    ensures
        to_legacy(text, script) == text,
        from_legacy(text, script) == text,
{
    lemma_legacy_side_is_ascii(script);
    lemma_unchanged_iff_avoids_keys(text, script, Direction::ToYutf8);
    lemma_unchanged_iff_avoids_keys(text, script, Direction::FromYutf8);
}

/// Every character converts on its own: a text in two parts converts to the
/// conversions of its parts, one after the other.
pub proof fn lemma_parts_convert_apart(table: Map<char, char>, left: Seq<char>, right: Seq<char>)
    ensures
        apply_table(table, left + right) == apply_table(table, left) + apply_table(table, right),
{
    assert(apply_table(table, left + right) =~= apply_table(table, left) + apply_table(
        table,
        right,
    ));
}

/// The empty text converts to the empty text, whatever the script and the
/// direction.
pub proof fn lemma_empty_text_stays_empty(script: ScriptType, direction: Direction)
    ensures
        apply_table(character_map(script, direction), Seq::<char>::empty()) == Seq::<char>::empty(),
{
    assert(apply_table(character_map(script, direction), Seq::<char>::empty()) =~= Seq::<
        char,
    >::empty());
}

/// Converting to the legacy encoding and back restores a text exactly when
/// none of its characters is a legacy code point that the script occupies.
///
/// An occupied code point in the input stays as it is on the way out and
/// becomes a letter on the way back, so such a text does not come back.
pub proof fn lemma_round_trip_through_legacy(text: Seq<char>, script: ScriptType)
    ensures
        from_legacy(to_legacy(text, script), script) == text <==> avoids_keys(
            text,
            character_map(script, Direction::FromYutf8),
        ),
{
    lemma_tables_are_inverse(script);
    lemma_tables_share_no_key(script);
    lemma_apply_inverse_tables(
        text,
        character_map(script, Direction::ToYutf8),
        character_map(script, Direction::FromYutf8),
    );
}

/// Decoding a text and encoding it again restores the text exactly when none
/// of its characters is a letter that the script's table encodes.
pub proof fn lemma_round_trip_through_script(text: Seq<char>, script: ScriptType)
    ensures
        to_legacy(from_legacy(text, script), script) == text <==> avoids_keys(
            text,
            character_map(script, Direction::ToYutf8),
        ),
{
    lemma_tables_are_inverse(script);
    lemma_tables_share_no_key(script);
    lemma_apply_inverse_tables(
        text,
        character_map(script, Direction::FromYutf8),
        character_map(script, Direction::ToYutf8),
    );
}

/// Every legacy-encoded text survives decoding and encoding again, in every
/// script.
pub proof fn lemma_legacy_text_round_trips(text: Seq<char>, script: ScriptType)
    requires
        is_legacy_text(text),
    ensures
        to_legacy(from_legacy(text, script), script) == text,
{
    lemma_legacy_side_is_ascii(script);
    lemma_round_trip_through_script(text, script);
}

/// Inverse tables without a common key send no key to itself.
proof fn lemma_inverse_tables_move_keys(out: Map<char, char>, back: Map<char, char>)
    requires
        are_inverse(out, back),
        out.dom().disjoint(back.dom()),
    ensures
        forall|c: char| out.contains_key(c) ==> #[trigger] out[c] != c,
        forall|c: char| back.contains_key(c) ==> #[trigger] back[c] != c,
{
    assert forall|c: char| out.contains_key(c) implies #[trigger] out[c] != c by {
        assert(out.contains_pair(c, out[c]));
        assert(back.contains_pair(out[c], c));
    }
    assert forall|c: char| back.contains_key(c) implies #[trigger] back[c] != c by {
        assert(back.contains_pair(c, back[c]));
        assert(out.contains_pair(back[c], c));
    }
}

/// A table that sends no key to itself changes exactly the texts that hold
/// one of its keys.
proof fn lemma_apply_table_unchanged(text: Seq<char>, table: Map<char, char>)
    requires
        forall|c: char| table.contains_key(c) ==> #[trigger] table[c] != c,
    ensures
        apply_table(table, text) == text <==> avoids_keys(text, table),
{
    let converted = apply_table(table, text);
    if avoids_keys(text, table) {
        assert(converted =~= text);
    }
    if converted == text {
        assert forall|i: int| 0 <= i < text.len() implies !table.contains_key(
            #[trigger] text[i],
        ) by {
            assert(converted[i] == substitute(table, text[i]));
        }
    }
}

/// Applying a table and then its inverse restores exactly the texts that hold
/// no key of the inverse, provided the two tables have no key in common.
proof fn lemma_apply_inverse_tables(text: Seq<char>, out: Map<char, char>, back: Map<char, char>)
    requires
        are_inverse(out, back),
        out.dom().disjoint(back.dom()),
    ensures
        apply_table(back, apply_table(out, text)) == text <==> avoids_keys(text, back),
{
    let there = apply_table(out, text);
    let again = apply_table(back, there);
    assert forall|i: int| 0 <= i < text.len() implies (again[i] == #[trigger] text[i]
        <==> !back.contains_key(text[i])) by {
        let c = text[i];
        assert(there[i] == substitute(out, c));
        assert(again[i] == substitute(back, there[i]));
        if out.contains_key(c) {
            assert(out.contains_pair(c, out[c]));
            assert(back.contains_pair(out[c], c));
        }
        if back.contains_key(c) {
            assert(back.contains_pair(c, back[c]));
            assert(out.contains_pair(back[c], c));
        }
    }
    if avoids_keys(text, back) {
        assert(again =~= text);
    }
}

} // verus!

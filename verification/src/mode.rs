//! The mode keywords by which a caller names a conversion.

use crate::mappings::{Direction, ScriptType};
use crate::strings::same_text;
use vstd::prelude::*;

verus! {

/// The conversion that a mode keyword names.
///
/// The bare script names convert from YUTF-8 to the script, the names with
/// the prefix `to_` convert from the script to YUTF-8, and nothing else is a
/// keyword.
pub open spec fn keyword_mode(keyword: Seq<char>) -> Option<(ScriptType, Direction)> {
    if keyword == "latin"@ {
        Some((ScriptType::Latin, Direction::FromYutf8))
    } else if keyword == "cyrillic"@ {
        Some((ScriptType::SerbianCyrillic, Direction::FromYutf8))
    } else if keyword == "macedonian"@ {
        Some((ScriptType::Macedonian, Direction::FromYutf8))
    } else if keyword == "to_latin"@ {
        Some((ScriptType::Latin, Direction::ToYutf8))
    } else if keyword == "to_cyrillic"@ {
        Some((ScriptType::SerbianCyrillic, Direction::ToYutf8))
    } else if keyword == "to_macedonian"@ {
        Some((ScriptType::Macedonian, Direction::ToYutf8))
    } else {
        None
    }
}

/// Reads a mode keyword: the script and direction it names, or `None` where
/// it is none of the six keywords.  Keywords are matched exactly, case
/// included.
pub fn mode_from_keyword(keyword: &str) -> (mode: Option<(ScriptType, Direction)>)
    ensures
        mode == keyword_mode(keyword@),
{
    if same_text(keyword, "latin") {
        Some((ScriptType::Latin, Direction::FromYutf8))
    } else if same_text(keyword, "cyrillic") {
        Some((ScriptType::SerbianCyrillic, Direction::FromYutf8))
    } else if same_text(keyword, "macedonian") {
        Some((ScriptType::Macedonian, Direction::FromYutf8))
    } else if same_text(keyword, "to_latin") {
        Some((ScriptType::Latin, Direction::ToYutf8))
    } else if same_text(keyword, "to_cyrillic") {
        Some((ScriptType::SerbianCyrillic, Direction::ToYutf8))
    } else if same_text(keyword, "to_macedonian") {
        Some((ScriptType::Macedonian, Direction::ToYutf8))
    } else {
        None
    }
}

} // verus!

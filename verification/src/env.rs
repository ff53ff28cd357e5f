//! Conventional boolean flags read from the environment.
use crate::text::{chars_equal, lemma_trim_ignores_line_ending, normalize, normalized};
use vstd::prelude::*;

verus! {

/// The normalized values that switch a flag on.
pub open spec fn is_enabled_word(w: Seq<char>) -> bool {
    ||| w == "1"@
    ||| w == "true"@
    ||| w == "yes"@
    ||| w == "on"@
    ||| w == "enabled"@
}

/// Whether an environment flag with the given value (`None` when unset) is switched on.
pub open spec fn env_flag_value_enabled(value: Option<Seq<char>>) -> bool {
    match value {
        None => false,
        Some(v) => is_enabled_word(normalized(v)),
    }
}

/// Unset variables and the conventional "off" words (in any ASCII case, with surrounding
/// whitespace) leave a flag off, and the conventional "on" words switch it on.
pub proof fn lemma_flag_words(value: Seq<char>)
    ensures
        !env_flag_value_enabled(None),
        (normalized(value) == ""@ || normalized(value) == "0"@ || normalized(value) == "false"@
            || normalized(value) == "no"@ || normalized(value) == "off"@ || normalized(value)
            == "disabled"@) ==> !env_flag_value_enabled(Some(value)),
        (normalized(value) == "1"@ || normalized(value) == "true"@ || normalized(value) == "yes"@
            || normalized(value) == "on"@ || normalized(value) == "enabled"@) ==> env_flag_value_enabled(
            Some(value),
        ),
        env_flag_value_enabled(Some(value)) ==> (normalized(value) == "1"@ || normalized(value)
            == "true"@ || normalized(value) == "yes"@ || normalized(value) == "on"@
            || normalized(value) == "enabled"@),
{
    reveal_strlit("");
    reveal_strlit("0");
    reveal_strlit("false");
    reveal_strlit("no");
    reveal_strlit("off");
    reveal_strlit("disabled");
    reveal_strlit("1");
    reveal_strlit("true");
    reveal_strlit("yes");
    reveal_strlit("on");
    reveal_strlit("enabled");
    assert("0"@[0] != "1"@[0]);
    assert("no"@[0] != "on"@[0]);
    assert("off"@[0] != "yes"@[0]);
    let offs = seq![""@, "0"@, "false"@, "no"@, "off"@, "disabled"@];
    let ons = seq!["1"@, "true"@, "yes"@, "on"@, "enabled"@];
    assert forall|i: int, j: int| 0 <= i < offs.len() && 0 <= j < ons.len() implies #[trigger] offs[i]
        != #[trigger] ons[j] by {
        if offs[i].len() == ons[j].len() {
            assert(offs[i][0] != ons[j][0]);
        }
    }
    assert(!is_enabled_word(offs[0]) && !is_enabled_word(offs[1]) && !is_enabled_word(offs[2])
        && !is_enabled_word(offs[3]) && !is_enabled_word(offs[4]) && !is_enabled_word(offs[5]));
}

/// A flag value that still carries its line ending, `\n` or `\r\n`, reads as the value
/// without it.
pub proof fn lemma_flag_ignores_line_ending(value: Seq<char>)
    ensures
        env_flag_value_enabled(Some(value + "\n"@)) == env_flag_value_enabled(Some(value)),
        env_flag_value_enabled(Some(value + "\r\n"@)) == env_flag_value_enabled(Some(value)),
{
    lemma_trim_ignores_line_ending(value);
}

/// Interprets the value of a conventional boolean environment flag.
///
/// The value is trimmed and compared case-insensitively (ASCII). `1`, `true`, `yes`, `on` and
/// `enabled` switch the flag on; an unset variable and every other value (among them the empty
/// string, `0`, `false`, `no`, `off` and `disabled`) leave it off.
pub fn env_flag_enabled(value: Option<&str>) -> (r: bool)
    ensures
        r == env_flag_value_enabled(
            match value {
                Some(v) => Some(v@),
                None => None,
            },
        ),
{
    match value {
        None => false,
        Some(v) => {
            let w = normalize(v);
            chars_equal(&w, "1") || chars_equal(&w, "true") || chars_equal(&w, "yes")
                || chars_equal(&w, "on") || chars_equal(&w, "enabled")
        },
    }
}

} // verus!

use vstd::prelude::*;
use vstd::string::StringExecFns;

verus! {

/// The single persisted toggle: `Enabled` means downtime (blocking) is
/// active, `Disabled` means it is not.
#[derive(Clone, Copy, Debug, PartialEq, Eq, Structural)]
pub enum Toggle {
    Disabled,
    Enabled,
}

/// The literal text the state store persists for each toggle state.
pub open spec fn state_text(t: Toggle) -> Seq<char> {
    if t is Enabled {
        "enabled"@
    } else {
        "disabled"@
    }
}

/// What loading the persisted state yields: the exact text `enabled` means
/// `Enabled`; a missing file or any other content means `Disabled`.
pub open spec fn parsed_state(content: Option<Seq<char>>) -> Toggle {
    match content {
        Some(s) => if s == "enabled"@ {
            Toggle::Enabled
        } else {
            Toggle::Disabled
        },
        None => Toggle::Disabled,
    }
}

/// The view of the state file's content as read: `None` when the file was
/// missing or unreadable.
pub open spec fn content_view(content: Option<&String>) -> Option<Seq<char>> {
    match content {
        Some(s) => Some(s@),
        None => None,
    }
}

/// The text to write to the state file when persisting a toggle state.
pub fn render_state(t: Toggle) -> (r: String)
    ensures
        r@ == state_text(t),
{
    match t {
        Toggle::Enabled => String::from_str("enabled"),
        Toggle::Disabled => String::from_str("disabled"),
    }
}

/// Interprets the content of the state file, `None` standing for a missing
/// or unreadable file.
pub fn parse_state(content: Option<&String>) -> (t: Toggle)
    ensures
        t == parsed_state(content_view(content)),
{
    match content {
        Some(s) => {
            let key = String::from_str("enabled");
            if *s == key {
                Toggle::Enabled
            } else {
                Toggle::Disabled
            }
        },
        None => Toggle::Disabled,
    }
}

/// State round-trip law: parsing the exact text persisted for a toggle state
/// yields that state back, and loading with no state file yields `Disabled`.
pub proof fn lemma_state_round_trip(t: Toggle)
    ensures
        parsed_state(Some(state_text(t))) == t,
        parsed_state(None) == Toggle::Disabled,
{
    reveal_strlit("enabled");
    reveal_strlit("disabled");
    assert("enabled"@.len() == 7);
    assert("disabled"@.len() == 8);
}

} // verus!

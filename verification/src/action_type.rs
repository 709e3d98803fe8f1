//! The closed enumeration of action kinds that a record may carry.

use vstd::prelude::*;

verus! {

/// The kind of action an agent can perform. The set is fixed: extending it
/// is a versioned change of the library, not a runtime behaviour.
#[derive(Clone, Copy, Debug, PartialEq, Eq, Structural)]
pub enum ActionType {
    Movement,
    Interaction,
    Crafting,
    Combat,
    Trading,
    Quest,
}

/// The decoding of a one-byte action code: exactly the codes 0 through 5
/// are valid, in the order the enumeration lists its kinds.
pub open spec fn spec_from_u8(value: u8) -> Option<ActionType> {
    if value == 0 {
        Some(ActionType::Movement)
    } else if value == 1 {
        Some(ActionType::Interaction)
    } else if value == 2 {
        Some(ActionType::Crafting)
    } else if value == 3 {
        Some(ActionType::Combat)
    } else if value == 4 {
        Some(ActionType::Trading)
    } else if value == 5 {
        Some(ActionType::Quest)
    } else {
        None
    }
}

/// Whether a one-byte action code names a kind of the enumeration.
pub open spec fn valid_action_code(value: u8) -> bool {
    spec_from_u8(value) is Some
}

impl ActionType {
    /// Decodes a one-byte action code, failing on anything outside the
    /// closed set of valid codes.
    pub fn from_u8(value: u8) -> (r: Option<ActionType>)
        ensures
            r == spec_from_u8(value),
    {
        match value {
            0 => Some(ActionType::Movement),
            1 => Some(ActionType::Interaction),
            2 => Some(ActionType::Crafting),
            3 => Some(ActionType::Combat),
            4 => Some(ActionType::Trading),
            5 => Some(ActionType::Quest),
            _ => None,
        }
    }

    /// The one-byte code of this kind; `from_u8` inverts it.
    pub fn as_u8(&self) -> (r: u8)
        ensures
            spec_from_u8(r) == Some(*self),
    {
        match self {
            ActionType::Movement => 0,
            ActionType::Interaction => 1,
            ActionType::Crafting => 2,
            ActionType::Combat => 3,
            ActionType::Trading => 4,
            ActionType::Quest => 5,
        }
    }
}

} // verus!

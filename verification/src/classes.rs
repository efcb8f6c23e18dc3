//! The three symbol groups and the ASCII codes each of them covers.

use vstd::prelude::*;

verus! {

/// One of the three symbol groups a password may draw from.
#[derive(Clone, Copy, Debug, PartialEq, Eq, Structural)]
pub enum CharacterClass {
    Lowercase,
    Uppercase,
    Digit,
}

impl CharacterClass {
    /// The code of the first symbol of the group.
    pub open spec fn first_code(self) -> nat {
        match self {
            CharacterClass::Lowercase => 97,
            CharacterClass::Uppercase => 65,
            CharacterClass::Digit => 48,
        }
    }

    /// The code of the last symbol of the group.
    pub open spec fn last_code(self) -> nat {
        match self {
            CharacterClass::Lowercase => 122,
            CharacterClass::Uppercase => 90,
            CharacterClass::Digit => 57,
        }
    }

    /// Whether `code` is the code of a symbol of the group.
    pub open spec fn covers(self, code: nat) -> bool {
        self.first_code() <= code <= self.last_code()
    }

    /// Whether `symbol` belongs to the group.
    pub open spec fn contains(self, symbol: char) -> bool {
        self.covers(symbol as nat)
    }

    /// The codes of the group as a half-open range: the first code, and the
    /// code after the last.
    pub fn code_range(self) -> (range: (u8, u8))
        ensures
            range.0 == self.first_code(),
            range.1 == self.last_code() + 1,
    {
        match self {
            CharacterClass::Lowercase => (97, 123),
            CharacterClass::Uppercase => (65, 91),
            CharacterClass::Digit => (48, 58),
        }
    }
}

/// Whether `class` is among the groups that the three toggles select.
pub open spec fn selects(
    include_uppercase: bool,
    include_lowercase: bool,
    include_digits: bool,
    class: CharacterClass,
) -> bool {
    match class {
        CharacterClass::Lowercase => include_lowercase,
        CharacterClass::Uppercase => include_uppercase,
        CharacterClass::Digit => include_digits,
    }
}

/// The selected groups in the order in which a group is picked from them:
/// lowercase letters, then uppercase letters, then digits.
pub open spec fn selected_classes(
    include_uppercase: bool,
    include_lowercase: bool,
    include_digits: bool,
) -> Seq<CharacterClass> {
    let lowercase = if include_lowercase {
        seq![CharacterClass::Lowercase]
    } else {
        Seq::empty()
    };
    let uppercase = if include_uppercase {
        seq![CharacterClass::Uppercase]
    } else {
        Seq::empty()
    };
    let digits = if include_digits {
        seq![CharacterClass::Digit]
    } else {
        Seq::empty()
    };
    lowercase + uppercase + digits
}

/// Builds the list of selected groups.
pub fn select_classes(
    include_uppercase: bool,
    include_lowercase: bool,
    include_digits: bool,
) -> (choices: Vec<CharacterClass>)
    ensures
        choices@ == selected_classes(include_uppercase, include_lowercase, include_digits),
{
    let mut choices: Vec<CharacterClass> = Vec::new();
    if include_lowercase {
        choices.push(CharacterClass::Lowercase);
    }
    if include_uppercase {
        choices.push(CharacterClass::Uppercase);
    }
    if include_digits {
        choices.push(CharacterClass::Digit);
    }
    choices
}

/// Whether a password for the three toggles may hold `symbol`: the symbol
/// belongs to a selected group, and to no group that is not selected.
pub open spec fn permitted(
    include_uppercase: bool,
    include_lowercase: bool,
    include_digits: bool,
    symbol: char,
) -> bool {
    &&& {
        ||| include_lowercase && CharacterClass::Lowercase.contains(symbol)
        ||| include_uppercase && CharacterClass::Uppercase.contains(symbol)
        ||| include_digits && CharacterClass::Digit.contains(symbol)
    }
    &&& !include_lowercase ==> !CharacterClass::Lowercase.contains(symbol)
    &&& !include_uppercase ==> !CharacterClass::Uppercase.contains(symbol)
    &&& !include_digits ==> !CharacterClass::Digit.contains(symbol)
}

/// The list of selected groups holds exactly the groups that the toggles
/// select, each once, and is empty only when no toggle is set.
pub proof fn lemma_selected_classes(
    include_uppercase: bool,
    include_lowercase: bool,
    include_digits: bool,
)
    ensures
        ({
            let classes = selected_classes(include_uppercase, include_lowercase, include_digits);
            &&& forall|class: CharacterClass| #[trigger]
                classes.contains(class) <==> selects(
                    include_uppercase,
                    include_lowercase,
                    include_digits,
                    class,
                )
            &&& classes.no_duplicates()
            &&& classes.len() > 0 <==> include_uppercase || include_lowercase || include_digits
        }),
{
    let classes = selected_classes(include_uppercase, include_lowercase, include_digits);
    assert forall|class: CharacterClass|
        selects(include_uppercase, include_lowercase, include_digits, class) implies #[trigger]
        classes.contains(class) by {
        let position = match class {
            CharacterClass::Lowercase => 0int,
            CharacterClass::Uppercase => if include_lowercase {
                1int
            } else {
                0int
            },
            CharacterClass::Digit => classes.len() - 1,
        };
        assert(classes[position] == class);
    }
}

} // verus!

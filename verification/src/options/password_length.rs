//! The length categories and the average length that each stands for.

use std::str::FromStr;
use vstd::prelude::*;

verus! {

/// A named length category. Each resolves to the average length that a
/// generation run is asked for.
#[derive(Clone, Copy, Debug, PartialEq, Eq, Structural)]
pub enum PasswordLength {
    Short,
    Regular,
    Long,
}

impl PasswordLength {
    /// The average length of a category: 8 for short, 16 for regular and
    /// 32 for long passwords.
    pub open spec fn spec_average_length(self) -> usize {
        match self {
            PasswordLength::Short => 8,
            PasswordLength::Regular => 16,
            PasswordLength::Long => 32,
        }
    }

    /// The category that a name stands for: the first letter of `short`,
    /// `regular` or `long`, in either case. Any other name stands for none.
    pub open spec fn named(name: Seq<char>) -> Option<PasswordLength> {
        if name == seq!['s'] || name == seq!['S'] {
            Some(PasswordLength::Short)
        } else if name == seq!['r'] || name == seq!['R'] {
            Some(PasswordLength::Regular)
        } else if name == seq!['l'] || name == seq!['L'] {
            Some(PasswordLength::Long)
        } else {
            None
        }
    }

    /// The average length to ask a generation run for.
    #[verifier::when_used_as_spec(spec_average_length)]
    pub fn average_length(self) -> (average: usize)
        ensures
            average == self.spec_average_length(),
    {
        match self {
            PasswordLength::Short => 8,
            PasswordLength::Regular => 16,
            PasswordLength::Long => 32,
        }
    }

    /// The names of the categories, in lower case, shortest category first.
    pub fn variants() -> (names: [&'static str; 3])
        ensures
            names[0]@ == seq!['s'],
            names[1]@ == seq!['r'],
            names[2]@ == seq!['l'],
    {
        proof {
            reveal_strlit("s");
            reveal_strlit("r");
            reveal_strlit("l");
            assert("s"@ =~= seq!['s']);
            assert("r"@ =~= seq!['r']);
            assert("l"@ =~= seq!['l']);
        }
        ["s", "r", "l"]
    }

    /// Resolves a name to its category, if it names one.
    pub fn from_name(name: &str) -> (length: Option<PasswordLength>)
        ensures
            length == Self::named(name@),
    {
        if name.unicode_len() != 1 {
            return None;
        }
        let letter = name.get_char(0);
        assert(name@ =~= seq![letter]);
        if letter == 's' || letter == 'S' {
            Some(PasswordLength::Short)
        } else if letter == 'r' || letter == 'R' {
            Some(PasswordLength::Regular)
        } else if letter == 'l' || letter == 'L' {
            Some(PasswordLength::Long)
        } else {
            assert(seq![letter][0] == letter);
            None
        }
    }
}

impl FromStr for PasswordLength {
    type Err = String;

    /// Resolves a name as `from_name` does, with a message for a name that
    /// stands for no category.
    fn from_str(name: &str) -> (length: Result<Self, String>)
        ensures
            match length {
                Ok(found) => Self::named(name@) == Some(found),
                Err(message) => Self::named(name@) == None::<PasswordLength> && message@
                    == "valid values: s, r, l"@,
            },
    {
        match PasswordLength::from_name(name) {
            Some(length) => Ok(length),
            None => Err("valid values: s, r, l".to_owned()),
        }
    }
}

} // verus!

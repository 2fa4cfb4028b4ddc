//! Optimization levels.
use vstd::prelude::*;

verus! {

/// Optimization level.
#[derive(Debug, Clone, Copy, PartialEq, Eq, Structural)]
pub enum OptLevel {
    O0,
    O1,
    O2,
    O3,
    Os,
    Oz,
}

impl OptLevel {
    /// The name of the level.
    pub open spec fn spec_name(self) -> Seq<char> {
        match self {
            OptLevel::O0 => "0"@,
            OptLevel::O1 => "1"@,
            OptLevel::O2 => "2"@,
            OptLevel::O3 => "3"@,
            OptLevel::Os => "s"@,
            OptLevel::Oz => "z"@,
        }
    }

    /// Whether the level asks for small code.
    pub open spec fn for_size(self) -> bool {
        self is Os || self is Oz
    }

    /// The level as it is shown: as it stands in a configuration, where a letter needs
    /// quotes and a digit does not, or, in the alternate form, the bare name.
    pub open spec fn shown(self, alternate: bool) -> Seq<char> {
        if self.for_size() && !alternate {
            "\""@ + self.spec_name() + "\""@
        } else {
            self.spec_name()
        }
    }

    /// Returns the name of the level.
    pub fn name(self) -> (name: &'static str)
        ensures
            name@ == self.spec_name(),
    {
        match self {
            OptLevel::O0 => "0",
            OptLevel::O1 => "1",
            OptLevel::O2 => "2",
            OptLevel::O3 => "3",
            OptLevel::Os => "s",
            OptLevel::Oz => "z",
        }
    }

    /// Returns whether the opt-level optimizes for size.
    pub fn optimize_for_size(self) -> (r: bool)
        ensures
            r == self.for_size(),
    {
        matches!(self, OptLevel::Os | OptLevel::Oz)
    }

    /// Shows the level, in the alternate form or not.
    pub fn fmt(self, alternate: bool) -> (text: String)
        ensures
            text@ == self.shown(alternate),
    {
        if alternate || !self.optimize_for_size() {
            self.name().to_string()
        } else {
            "\"".to_string().concat(self.name()).concat("\"")
        }
    }
}

/// No two levels are shown alike, in either form.
pub proof fn law_levels_are_told_apart(a: OptLevel, b: OptLevel, alternate: bool)
    ensures
        a.shown(alternate) == b.shown(alternate) <==> a == b,
{
    reveal_strlit("0");
    reveal_strlit("1");
    reveal_strlit("2");
    reveal_strlit("3");
    reveal_strlit("s");
    reveal_strlit("z");
    reveal_strlit("\"");
    if a.for_size() && !alternate {
        assert(a.shown(alternate)[1] == a.spec_name()[0]);
    }
    if b.for_size() && !alternate {
        assert(b.shown(alternate)[1] == b.spec_name()[0]);
    }
    assert(a.spec_name()[0] == b.spec_name()[0] ==> a == b);
}

/// A level is shown as its own character, which stands in quotes exactly if it is a letter
/// and the form is not the alternate one. The letters are the levels for size.
pub proof fn law_level_is_shown_as_its_character(
    level: OptLevel,
    alternate: bool,
    name: &'static str,
    text: String,
    small: bool,
)
    requires
        call_ensures(OptLevel::name, (level,), name),
        call_ensures(OptLevel::fmt, (level, alternate), text),
        call_ensures(OptLevel::optimize_for_size, (level,), small),
    ensures
        ({
            let c = match level {
                OptLevel::O0 => '0',
                OptLevel::O1 => '1',
                OptLevel::O2 => '2',
                OptLevel::O3 => '3',
                OptLevel::Os => 's',
                OptLevel::Oz => 'z',
            };
            &&& name@ == seq![c]
            &&& small <==> 'a' <= c <= 'z'
            &&& text@ == if small && !alternate {
                seq!['"', c, '"']
            } else {
                seq![c]
            }
        }),
{
    reveal_strlit("0");
    reveal_strlit("1");
    reveal_strlit("2");
    reveal_strlit("3");
    reveal_strlit("s");
    reveal_strlit("z");
    reveal_strlit("\"");
    assert(name@ =~= seq![name@[0]]);
    if small && !alternate {
        assert(text@ =~= seq!['"', name@[0], '"']);
    }
}

} // verus!

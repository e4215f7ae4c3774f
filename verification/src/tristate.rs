//! A setting that is forced on, forced off, or left to a default.

use vstd::prelude::*;
use vstd::std_specs::convert::FromSpecImpl;

verus! {

/// A tri-state value that is forced on or off, or has an automatic (default) value.
#[derive(Clone, Copy, Debug, PartialEq, Eq, Structural, PartialOrd, Ord, Hash)]
pub enum OptionalBool {
    Off,
    Auto,
    On,
}

impl OptionalBool {
    /// The setting that a level stands for: 0 is off, 1 is automatic, and
    /// every other level, negative ones included, is on.
    pub open spec fn of_level(level: int) -> OptionalBool {
        if level == 0 {
            OptionalBool::Off
        } else if level == 1 {
            OptionalBool::Auto
        } else {
            OptionalBool::On
        }
    }

    /// The boolean that the setting resolves to when `default` stands in for
    /// the automatic case.
    pub open spec fn resolve(self, default: bool) -> bool {
        match self {
            OptionalBool::On => true,
            OptionalBool::Off => false,
            OptionalBool::Auto => default,
        }
    }

    /// The level that a setting is written as.
    pub open spec fn level(self) -> int {
        match self {
            OptionalBool::Off => 0,
            OptionalBool::Auto => 1,
            OptionalBool::On => 2,
        }
    }

    /// Decodes a level.
    pub fn from_level(level: i32) -> (r: OptionalBool)
        ensures
            r == Self::of_level(level as int),
    {
        if level == 0 {
            OptionalBool::Off
        } else if level == 1 {
            OptionalBool::Auto
        } else {
            OptionalBool::On
        }
    }

    /// Returns the boolean value or a provided default.
    #[inline]
    pub fn unwrap_or(self, default: bool) -> (r: bool)
        ensures
            r == self.resolve(default),
    {
        match self {
            OptionalBool::On => true,
            OptionalBool::Off => false,
            OptionalBool::Auto => default,
        }
    }

    /// Returns the boolean value or computes it from a closure. The closure
    /// runs only in the automatic case.
    #[inline]
    pub fn unwrap_or_else<F: FnOnce() -> bool>(self, f: F) -> (r: bool)
        requires
            self == OptionalBool::Auto ==> f.requires(()),
        ensures
            self == OptionalBool::On ==> r,
            self == OptionalBool::Off ==> !r,
            self == OptionalBool::Auto ==> f.ensures((), r),
    {
        match self {
            OptionalBool::On => true,
            OptionalBool::Off => false,
            OptionalBool::Auto => f(),
        }
    }

    /// The word that the setting is shown as: `false`, `auto` or `true`.
    pub fn as_str(self) -> (r: &'static str)
        ensures
            r@ == match self {
                OptionalBool::Off => "false"@,
                OptionalBool::Auto => "auto"@,
                OptionalBool::On => "true"@,
            },
    {
        match self {
            OptionalBool::Off => "false",
            OptionalBool::Auto => "auto",
            OptionalBool::On => "true",
        }
    }
}

impl Default for OptionalBool {
    #[inline]
    fn default() -> (r: OptionalBool)
        ensures
            r == OptionalBool::Auto,
    {
        OptionalBool::Auto
    }
}

impl From<Option<bool>> for OptionalBool {
    fn from(ob: Option<bool>) -> (r: OptionalBool) {
        match ob {
            Some(true) => OptionalBool::On,
            Some(false) => OptionalBool::Off,
            None => OptionalBool::Auto,
        }
    }
}

impl FromSpecImpl<Option<bool>> for OptionalBool {
    open spec fn obeys_from_spec() -> bool {
        true
    }

    open spec fn from_spec(ob: Option<bool>) -> OptionalBool {
        match ob {
            Some(true) => OptionalBool::On,
            Some(false) => OptionalBool::Off,
            None => OptionalBool::Auto,
        }
    }
}

impl From<OptionalBool> for Option<bool> {
    fn from(ob: OptionalBool) -> (r: Option<bool>) {
        match ob {
            OptionalBool::On => Some(true),
            OptionalBool::Off => Some(false),
            OptionalBool::Auto => None,
        }
    }
}

impl FromSpecImpl<OptionalBool> for Option<bool> {
    open spec fn obeys_from_spec() -> bool {
        true
    }

    open spec fn from_spec(ob: OptionalBool) -> Option<bool> {
        match ob {
            OptionalBool::On => Some(true),
            OptionalBool::Off => Some(false),
            OptionalBool::Auto => None,
        }
    }
}

} // verus!

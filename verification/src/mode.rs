//! Training modes and their persisted integer codes.

use vstd::prelude::*;

verus! {

/// The rule set governing one practice session.
///
/// - `Blind`: digits are typed blind; a wrong digit is recorded but the
///   session continues.
/// - `Learn`: upcoming digits are pre-rendered as placeholders and judged
///   in place as the trainee types.
/// - `InstantDeath`: one wrong digit ends the session immediately.
#[derive(Debug, Copy, Clone, PartialEq, Eq, Structural)]
pub enum AppMode {
    Blind,
    Learn,
    InstantDeath,
}

impl AppMode {
    /// The integer code under which this mode is persisted.
    pub open spec fn spec_code(self) -> u8 {
        match self {
            AppMode::Blind => 0,
            AppMode::Learn => 1,
            AppMode::InstantDeath => 2,
        }
    }

    /// The mode persisted under the given integer code, if any.
    pub open spec fn spec_from_code(code: u8) -> Option<AppMode> {
        match code {
            0u8 => Some(AppMode::Blind),
            1u8 => Some(AppMode::Learn),
            2u8 => Some(AppMode::InstantDeath),
            _ => None,
        }
    }

    /// Maps this mode to its persisted integer code.
    #[verifier::when_used_as_spec(spec_code)]
    pub fn code(self) -> (code: u8)
        ensures
            code == self.spec_code(),
            Self::spec_from_code(code) == Some(self),
    {
        match self {
            AppMode::Blind => 0,
            AppMode::Learn => 1,
            AppMode::InstantDeath => 2,
        }
    }

    /// Maps a persisted integer code back to its mode; codes that stand
    /// for no mode are rejected.
    #[verifier::when_used_as_spec(spec_from_code)]
    pub fn from_code(code: u8) -> (mode: Option<AppMode>)
        ensures
            mode == Self::spec_from_code(code),
            mode matches Some(m) ==> m.spec_code() == code,
            mode is None <==> code >= 3,
    {
        match code {
            0 => Some(AppMode::Blind),
            1 => Some(AppMode::Learn),
            2 => Some(AppMode::InstantDeath),
            _ => None,
        }
    }
}

} // verus!

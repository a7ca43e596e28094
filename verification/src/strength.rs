//! Compression strength: the speed/ratio trade-off handed to the encoder.

use vstd::prelude::*;
use vstd::string::StringExecFns;

verus! {

/// The three strengths a job can ask for.
#[derive(Clone, Copy, Debug, PartialEq, Eq, Structural)]
pub enum Strength {
    Fast,
    Default,
    Best,
}

/// The strength that a name selects: `fast` and `best` select themselves,
/// every other name selects the default.
pub open spec fn strength_named(name: Seq<char>) -> Strength {
    if name == "fast"@ {
        Strength::Fast
    } else if name == "best"@ {
        Strength::Best
    } else {
        Strength::Default
    }
}

impl Strength {
    /// The deflate level of this strength, on the usual scale from 0 to 9.
    pub open spec fn spec_level(self) -> u32 {
        match self {
            Strength::Fast => 1,
            Strength::Default => 6,
            Strength::Best => 9,
        }
    }

    /// The deflate level of this strength. These are the levels that `flate2`
    /// gives to `Compression::fast()`, `Compression::default()` and
    /// `Compression::best()`.
    #[verifier::when_used_as_spec(spec_level)]
    pub fn level(self) -> (level: u32)
        ensures
            level == self.spec_level(),
            1 <= level <= 9,
    {
        match self {
            Strength::Fast => 1,
            Strength::Default => 6,
            Strength::Best => 9,
        }
    }
}

/// Maps the name given on the command line to a strength. A name that is
/// neither `fast` nor `best` is not rejected: it silently selects the default.
pub fn get_compression_level(level: &str) -> (strength: Strength)
    ensures
        strength == strength_named(level@),
{
    let name = String::from_str(level);
    if name == String::from_str("fast") {
        Strength::Fast
    } else if name == String::from_str("best") {
        Strength::Best
    } else {
        Strength::Default
    }
}

} // verus!

use vstd::prelude::*;

verus! {

/// Why a configuration value could not be turned into the bot's setup.
#[derive(Debug, Clone, Copy, PartialEq, Eq, Structural)]
pub enum ConfigError {
    /// A delimiter setting did not hold exactly one character.
    InvalidDelimiter,
    /// The lore text held no line with any content.
    EmptyCorpus,
    /// The reply chance was above one million parts per million.
    ChanceOutOfRange,
    /// The cooldown was not a non-negative integer number of seconds.
    InvalidCooldown,
    /// The phrase matcher could not be compiled from its phrases.
    MatcherBuild,
}

} // verus!

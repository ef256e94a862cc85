use vstd::prelude::*;
use crate::error::ConfigError;
use crate::pool::flat_pool::FlatPool;

verus! {

/// Turns the settings of a pool into a configuration of type `T`.
///
/// A builder reads the pool through [`FlatPool`] alone, so it works on any
/// pool, and it either hands back a complete `T` or the first error it met.
/// One type may build several configurations, one impl for each `T`.
pub trait ConfigBuilder<T> {
    fn build(&self, config_pool: &impl FlatPool) -> Result<T, ConfigError>;
}

} // verus!

pub mod flat_pool;
pub mod layered_flat_pool;
pub mod simple_flat_pool;

pub use flat_pool::FlatPool;
pub use layered_flat_pool::LayeredFlatPool;
pub use simple_flat_pool::SimpleFlatPool;

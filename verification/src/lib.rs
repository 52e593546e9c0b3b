pub mod bridge;
pub mod charge;
pub mod gas;
pub mod memory;
pub mod testing;
pub mod tracker;

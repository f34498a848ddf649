pub mod clock;
pub mod path;
pub mod rotate;
pub mod router;
pub mod time;

pub use time::Timestamp;

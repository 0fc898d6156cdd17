pub mod clock;
pub mod delay_heap;
pub mod laws;
pub mod queue;
pub mod shared;

//! Small utilities: checksums and the clock.
pub mod hashing;
pub mod clock;

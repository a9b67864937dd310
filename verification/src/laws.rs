//! What holds of every restore, whatever the backup holds and whatever the
//! operator and the server answer.

pub mod extraction;
pub mod preparation;
pub mod runs;

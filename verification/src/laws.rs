//! What holds of the scheduler whatever the router and the Readyset
//! instances answer.
pub mod discovery;
pub mod normalisation;
pub mod promotion;
pub mod statements;
pub mod sweep;

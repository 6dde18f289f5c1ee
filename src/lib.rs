//! A growable contiguous array that manages its own capacity: it starts
//! without storage, reserves room for four elements on the first append, and
//! doubles whenever a full buffer receives another element.
pub mod growth;
pub mod my_vec;

pub use my_vec::MyVec;

//! What holds of the library as a whole: theorems over the models that the
//! contracts of the executable functions are stated in.

pub mod cursor;
pub mod direction;
pub mod kill;
pub mod listing;
pub mod ports;
pub mod rows;
pub mod search;
pub mod snapshot;
pub mod stability;
pub mod well_formed;
pub mod words;

//! What each operation promises, stated on calls: of any call that meets the contract,
//! how its result follows from what was handed in, and how the results of two calls
//! relate.

pub mod documents;
pub mod files;
pub mod jobs;
pub mod messages;
pub mod options;
pub mod pictures;
pub mod resources;
pub mod sizes;
pub mod transfers;
pub mod urls;

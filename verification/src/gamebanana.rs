pub mod builder;
pub mod models;
pub mod search;
pub mod util;

pub mod category;
pub mod file;
pub mod game;
pub mod modpage;
pub mod preview;
pub mod search_result;

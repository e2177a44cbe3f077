pub mod availables;
pub mod configuration;
pub mod help;
pub mod parsing;
pub mod runs;
pub mod selection;
pub mod storage;
pub mod text;

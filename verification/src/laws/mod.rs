//! What holds of the library as a whole, in terms of what goes in and what comes out.

pub mod calendar;
pub mod calls;
pub mod cards;
pub mod messages;
pub mod outside;
pub mod publishing;
pub mod records;
pub mod routing;
pub mod sessions;
pub mod settings;
pub mod stores;
pub mod tasks;
pub mod text;
pub mod tokens;
pub mod wire;
pub mod words;

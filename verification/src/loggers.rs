//! The concrete loggers: [`TextLogger`] and [`CompositeLogger`].

pub mod composite;
pub mod text;

pub use self::composite::CompositeLogger;
pub use self::text::TextLogger;

//! Named colour themes for a graphical interface, with a parser for
//! `#RRGGBB` colour strings.

pub mod color;
pub mod theme;

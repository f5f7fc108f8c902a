//! Domain types of a newsletter service, with the rules that a subscriber's
//! name has to meet stated as contracts and proved.

pub mod domain;
pub mod forbidden;
pub mod graphemes;
pub mod whitespace;

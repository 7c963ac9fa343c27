//! A greeting-card renderer: composes a themed background with a user photo,
//! then lays out recipient, greeting and signature text blocks, auto-scaled so
//! the recipient line never overflows the card width.

pub mod card;
pub mod codec;
pub mod color;
pub mod compose;
pub mod error;
pub mod imgops;
pub mod layout;
pub mod measure;
pub mod parse;

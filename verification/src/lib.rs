//! The core of a database driver's client side: the model of the values and
//! concepts that answers hold, the encoding of answers as generic documents,
//! and the life of sessions that a caller holds by handle.

pub mod answer;
pub mod bridge;
pub mod concept;
pub mod session;
pub mod text;

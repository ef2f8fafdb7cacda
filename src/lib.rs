//! Decoding of the 32-bit "compact" target encoding into a 512-bit magnitude,
//! together with a screen of drawable components, points and lengths with an
//! explicit addition, and a little text layout.
pub mod compact;
pub mod geometry;
pub mod screen;
pub mod text;

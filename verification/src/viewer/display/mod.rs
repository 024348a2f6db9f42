//! Display-side logic: pixel conversion for the GDI blit and the scripted
//! drive client's decisions.

pub mod drive;
pub mod gdi;
pub mod win;

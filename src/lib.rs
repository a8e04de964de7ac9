//! A capability bridge: a conformant native object is wrapped behind a shared
//! descriptor, handed across a boundary as an opaque integer handle, rebuilt as a
//! proxy on the way back, and reclaimed exactly once.
pub mod bridge;
pub mod entry;
pub mod lemmas;
pub mod thing;

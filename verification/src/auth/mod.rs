//! Who is acting: roles, membership status, the session that carries them,
//! and the tier that a session has towards an event.

pub mod role;
pub mod session;
pub mod gate;

//! Desktop composition for a WebView2 host.
//!
//! The library holds the decisions: which controller a window belongs to, which
//! calls move a visual from one composition target to another and what a failed
//! call leads to, how an unsupported URI scheme is carried over HTTP. It makes no
//! operating-system call itself. An operation that needs one hands out a
//! description of the call, and goes on when it is given the reply.

pub mod bounds;
pub mod controller_ptr;
pub mod dpi;
pub mod error;
pub mod host;
pub mod mode;
pub mod platform;
pub mod prepare;
pub mod registration;
pub mod state;
pub mod step;
pub mod text;
pub mod transition;
pub mod uri;
pub mod window;

//! Verified core of PolyDraw, a small line-drawing window program:
//! the decoding of window messages, the decisions of the window procedure
//! and of the message loop, the responses of the line-drawing handler and
//! the text it reports.

pub mod words;
pub mod color;
pub mod text;
pub mod messages;
pub mod window;
pub mod polyd;
pub mod ctypes;

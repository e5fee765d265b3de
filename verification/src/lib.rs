//! Verified core of the picoha-io firmware: the command protocol spoken
//! over the USB serial link, the framing of the lines sent back, the
//! bookkeeping of received bytes and the small pieces of board logic.

pub mod decimal;
pub mod text;
pub mod protocol;
pub mod framing;
pub mod serial_rx;
pub mod board;

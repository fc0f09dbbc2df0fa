//! Client-side driver for one multiplexed (HTTP/2-style) connection, written as
//! verified state machines: the connection driver that admits and dispatches
//! queued requests, the background task that keeps the session running until
//! it can shut down, and the pipe that streams a request body. The host runtime
//! performs each action a machine names and answers it with the event it
//! observed.

pub mod background;
pub mod body_pipe;
pub mod driver;
pub mod request;
pub mod trace;

pub use background::{Background, BackgroundAction, BackgroundTask, Signal};
pub use body_pipe::{BodyPipe, Pipe, PipeAction, PipeEvent, Resume};
pub use driver::{Action, Client, Event, Phase};
pub use request::{content_length_to_set, is_connection_specific};

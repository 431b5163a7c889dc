//! One accepted connection: a frame task and a dispatcher, joined by two
//! bounded channels, one for each direction.
//!
//! The frame task sends decoded commands one way, the dispatcher sends
//! instructions the other way. Neither shares memory with the other. When
//! one of them stops and drops its ends of the channels, the other finds the
//! channel closed and stops too; the dispatcher cleans up first.

use crate::dispatcher::Dispatcher;
use crate::dispatcher::DispatcherView;
use crate::frame::FrameTask;
use crate::frame::FrameView;
use vstd::prelude::*;

verus! {

/// How many values each of the two channels holds. One command is in flight
/// at a time, so a small bound never blocks.
pub const CHANNEL_CAPACITY: usize = 2;

/// The two tasks of a client connection, before either is started.
#[derive(Debug)]
pub struct Connection {
    /// The task that owns the socket.
    pub frame: FrameTask,
    /// The task that owns the session state.
    pub dispatcher: Dispatcher,
}

impl Connection {
    /// Sets up the two tasks of a connection that was just accepted. Each
    /// is started by the event that says so.
    pub fn init() -> (connection: Connection)
        ensures
            connection.frame@ == FrameView::initial(),
            connection.dispatcher@ == DispatcherView::initial(),
    {
        Connection { frame: FrameTask::new(), dispatcher: Dispatcher::new() }
    }
}

} // verus!

//! The errors the monitor can surface.

use vstd::prelude::*;

verus! {

/// What a [`MonitorError`] says, with the reason as a sequence of characters.
pub enum MonitorErrorView {
    InvalidInput,
    SampleError { reason: Seq<char> },
    ChannelClosed,
}

/// Why the monitor refused to start, or why its worker gave up.
#[derive(Debug, Clone, PartialEq, Eq)]
pub enum MonitorError {
    /// The process name is empty. Raised before any sampling begins.
    InvalidInput,
    /// The process table could not be queried. The state of the process is
    /// unknown, which is not the same as "not running".
    SampleError { reason: String },
    /// The consumer end of the channel is gone; nothing more can be delivered.
    ChannelClosed,
}

impl View for MonitorError {
    type V = MonitorErrorView;

    open spec fn view(&self) -> MonitorErrorView {
        match self {
            MonitorError::InvalidInput => MonitorErrorView::InvalidInput,
            MonitorError::SampleError { reason } => MonitorErrorView::SampleError {
                reason: reason@,
            },
            MonitorError::ChannelClosed => MonitorErrorView::ChannelClosed,
        }
    }
}

} // verus!

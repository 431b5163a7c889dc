//! The values that travel between the two tasks of a connection.

use vstd::prelude::*;

verus! {

/// A command of the broadcaster, as the codec decodes it.
///
/// The fields of `Connect` and `Attribute` are optional because the codec
/// accepts lines in which they are missing; the dispatcher rejects those.
#[derive(Debug, Clone, PartialEq, Eq)]
pub enum FtlCommand {
    /// Asks for the session challenge.
    HMAC,
    /// Names the stream the session publishes to.
    Connect { stream_key: Option<String>, channel_id: Option<String> },
    /// Declares one negotiated attribute.
    Attribute { key: Option<String>, value: Option<String> },
    /// Ends the negotiation and asks for the media port.
    Dot,
    /// Keepalive.
    Ping,
    /// Ends the session.
    Disconnect,
    /// Any command the dispatcher has no handling for.
    Unknown,
}

/// The mathematical content of an [`FtlCommand`].
pub enum CommandView {
    HMAC,
    Connect { stream_key: Option<Seq<char>>, channel_id: Option<Seq<char>> },
    Attribute { key: Option<Seq<char>>, value: Option<Seq<char>> },
    Dot,
    Ping,
    Disconnect,
    Unknown,
}

impl View for FtlCommand {
    type V = CommandView;

    open spec fn view(&self) -> CommandView {
        match *self {
            FtlCommand::HMAC => CommandView::HMAC,
            FtlCommand::Connect { stream_key, channel_id } => CommandView::Connect {
                stream_key: stream_key.deep_view(),
                channel_id: channel_id.deep_view(),
            },
            FtlCommand::Attribute { key, value } => CommandView::Attribute {
                key: key.deep_view(),
                value: value.deep_view(),
            },
            FtlCommand::Dot => CommandView::Dot,
            FtlCommand::Ping => CommandView::Ping,
            FtlCommand::Disconnect => CommandView::Disconnect,
            FtlCommand::Unknown => CommandView::Unknown,
        }
    }
}

/// Why the dispatcher turned a command down. A rejected command changes
/// nothing and no line is written for it; the session goes on with the next
/// command.
#[derive(Debug, Clone, Copy, PartialEq, Eq, Structural)]
pub enum Rejection {
    /// `Connect` without a stream key.
    MissingStreamKey,
    /// `Connect` without a channel id.
    MissingChannelId,
    /// `Attribute` without a key.
    MissingAttributeKey,
    /// `Attribute` without a value.
    MissingAttributeValue,
    /// `Video` with a value other than `true` or `false`.
    InvalidVideoValue,
    /// `Audio` with a value other than `true` or `false`.
    InvalidAudioValue,
    /// `Attribute` with a key that names no negotiated field.
    UnknownAttribute,
    /// A command kind that has no handling.
    Unimplemented,
}

/// An instruction of the dispatcher to the task that owns the socket.
#[derive(Debug, Clone, PartialEq, Eq)]
pub enum FrameCommand {
    /// Write these pieces to the socket, in this order.
    Send { data: Vec<String> },
}

impl View for FrameCommand {
    /// The pieces to write.
    type V = Seq<Seq<char>>;

    open spec fn view(&self) -> Seq<Seq<char>> {
        match *self {
            FrameCommand::Send { data } => data.deep_view(),
        }
    }
}

impl DeepView for FrameCommand {
    type V = Seq<Seq<char>>;

    open spec fn deep_view(&self) -> Seq<Seq<char>> {
        self@
    }
}

/// The text that reaches the socket when `pieces` are written in order.
pub open spec fn wire_text(pieces: Seq<Seq<char>>) -> Seq<char>
    decreases pieces.len(),
{
    if pieces.len() == 0 {
        Seq::empty()
    } else {
        wire_text(pieces.drop_last()) + pieces.last()
    }
}

} // verus!

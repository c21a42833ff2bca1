//! The message model: commands, responses, and the envelopes that bind each
//! to a correlation identifier.
use vstd::prelude::*;
use crate::ident::Uuid;
use crate::number::Number;

verus! {

/// An instruction to the tick processor.
#[derive(Clone, Debug, PartialEq)]
pub enum Command {
    Ping,
    Restart,
    Shutdown,
    AddSMA { period: Number },
    RemoveSMA { period: Number },
}

/// A command as a mathematical value: the period as its number's canonical
/// text.
pub enum CommandView {
    Ping,
    Restart,
    Shutdown,
    AddSMA { period: Seq<char> },
    RemoveSMA { period: Seq<char> },
}

impl View for Command {
    type V = CommandView;

    open spec fn view(&self) -> CommandView {
        match self {
            Command::Ping => CommandView::Ping,
            Command::Restart => CommandView::Restart,
            Command::Shutdown => CommandView::Shutdown,
            Command::AddSMA { period } => CommandView::AddSMA { period: period@ },
            Command::RemoveSMA { period } => CommandView::RemoveSMA { period: period@ },
        }
    }
}

/// The outcome of executing a command.
#[derive(Clone, Debug, PartialEq)]
pub enum Response {
    Okay,
    Error { status: String },
    Pong,
}

/// A response as a mathematical value.
pub enum ResponseView {
    Okay,
    Error { status: Seq<char> },
    Pong,
}

impl View for Response {
    type V = ResponseView;

    open spec fn view(&self) -> ResponseView {
        match self {
            Response::Okay => ResponseView::Okay,
            Response::Error { status } => ResponseView::Error { status: status@ },
            Response::Pong => ResponseView::Pong,
        }
    }
}

/// A command bound to the identifier that its response will carry.
#[derive(Clone, Debug, PartialEq)]
pub struct WrappedCommand {
    pub uuid: Uuid,
    pub cmd: Command,
}

impl View for WrappedCommand {
    type V = (u128, CommandView);

    open spec fn view(&self) -> (u128, CommandView) {
        (self.uuid.value, self.cmd@)
    }
}

/// A response bound to the identifier of the command that caused it.
#[derive(Clone, Debug, PartialEq)]
pub struct WrappedResponse {
    pub uuid: Uuid,
    pub res: Response,
}

impl View for WrappedResponse {
    type V = (u128, ResponseView);

    open spec fn view(&self) -> (u128, ResponseView) {
        (self.uuid.value, self.res@)
    }
}

/// Why a text could not be decoded.
#[derive(Clone, Copy, Debug, PartialEq, Eq, Structural)]
pub enum DecodeError {
    /// The text is not syntactically valid JSON.
    MalformedText,
    /// The text does not have the shape of the expected message.
    SchemaMismatch,
    /// The identifier is not a valid UUID text.
    InvalidIdentifier,
}

impl WrappedCommand {
    /// Binds `cmd` to a fresh random identifier.
    pub fn new(cmd: Command) -> (r: WrappedCommand)
        ensures
            r.cmd@ == cmd@,
            r.uuid.value & 0xF000_C000_0000_0000_0000u128 == 0x4000_8000_0000_0000_0000u128,
    {
        WrappedCommand { uuid: Uuid::new_v4(), cmd }
    }
}

impl WrappedResponse {
    /// Binds `res` to the identifier of the command it answers.
    pub fn reply_to(cmd: &WrappedCommand, res: Response) -> (r: WrappedResponse)
        ensures
            r.uuid == cmd.uuid,
            r.res@ == res@,
    {
        WrappedResponse { uuid: cmd.uuid, res }
    }
}

} // verus!

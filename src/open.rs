//! The steps that open an endpoint, and the error that a failed step gives.
use vstd::prelude::*;
use crate::settings::StreamOption;

verus! {

/// Whether an endpoint is opened as a source or as a sink of bytes.
#[derive(Debug, Clone, Copy, PartialEq, Eq, Structural)]
pub enum Direction {
    Read,
    Write,
}

/// One operating-system step of opening an endpoint. The steps of a plan are
/// carried out in order, and the first one that fails ends the opening.
#[derive(Debug, Clone, Copy, PartialEq, Eq, Structural)]
pub enum OpenStep {
    /// Open the configured path for reading.
    OpenFile,
    /// Create or truncate the configured path for writing.
    CreateFile,
    /// Resolve the configured host and port and dial it, with no timeout.
    Connect,
    /// Bind a listener to exactly the configured host and port.
    Bind,
    /// Wait for one client on the bound listener and take its connection.
    Accept,
    /// Bind a UDP socket to a port that the system picks.
    BindEphemeral,
    /// Read the configured host and port as a destination address.
    ParseAddress,
}

/// Why an endpoint could not be opened.
#[derive(Debug, Clone, Copy, PartialEq, Eq, Structural)]
pub enum OpenError {
    NotFound,
    Bind,
    Connect,
    Accept,
    InvalidAddress,
    Io,
}

/// The steps that open an endpoint of the given kind in the given direction.
pub open spec fn open_plan(option: StreamOption, direction: Direction) -> Seq<OpenStep> {
    match (option, direction) {
        (StreamOption::File, Direction::Read) => seq![OpenStep::OpenFile],
        (StreamOption::File, Direction::Write) => seq![OpenStep::CreateFile],
        (StreamOption::TcpClient, _) => seq![OpenStep::Connect],
        (StreamOption::TcpServer, _) => seq![OpenStep::Bind, OpenStep::Accept],
        (StreamOption::Udp, Direction::Read) => seq![OpenStep::BindEphemeral],
        (StreamOption::Udp, Direction::Write) => seq![OpenStep::ParseAddress, OpenStep::BindEphemeral],
    }
}

/// The error that a failure of `step` gives; `not_found` tells whether the
/// system reported that the path does not exist.
pub open spec fn step_failure(step: OpenStep, not_found: bool) -> OpenError {
    match step {
        OpenStep::OpenFile | OpenStep::CreateFile => if not_found {
            OpenError::NotFound
        } else {
            OpenError::Io
        },
        OpenStep::Connect => OpenError::Connect,
        OpenStep::Bind | OpenStep::BindEphemeral => OpenError::Bind,
        OpenStep::Accept => OpenError::Accept,
        OpenStep::ParseAddress => OpenError::InvalidAddress,
    }
}

/// The steps that open an endpoint of kind `option` in `direction`.
pub fn open_steps(option: StreamOption, direction: Direction) -> (r: Vec<OpenStep>)
    ensures
        r@ == open_plan(option, direction),
{
    match (option, direction) {
        (StreamOption::File, Direction::Read) => vec![OpenStep::OpenFile],
        (StreamOption::File, Direction::Write) => vec![OpenStep::CreateFile],
        (StreamOption::TcpClient, _) => vec![OpenStep::Connect],
        (StreamOption::TcpServer, _) => vec![OpenStep::Bind, OpenStep::Accept],
        (StreamOption::Udp, Direction::Read) => vec![OpenStep::BindEphemeral],
        (StreamOption::Udp, Direction::Write) => vec![OpenStep::ParseAddress, OpenStep::BindEphemeral],
    }
}

impl OpenStep {
    /// The error that a failure of this step gives.
    pub fn failure(&self, not_found: bool) -> (r: OpenError)
        ensures
            r == step_failure(*self, not_found),
    {
        match self {
            OpenStep::OpenFile | OpenStep::CreateFile => if not_found {
                OpenError::NotFound
            } else {
                OpenError::Io
            },
            OpenStep::Connect => OpenError::Connect,
            OpenStep::Bind | OpenStep::BindEphemeral => OpenError::Bind,
            OpenStep::Accept => OpenError::Accept,
            OpenStep::ParseAddress => OpenError::InvalidAddress,
        }
    }
}

/// A TCP server endpoint binds exactly its configured address first and
/// never a port that the system picks; when that bind fails (the port is
/// taken), opening fails with `OpenError::Bind` before any accept.
pub proof fn lemma_server_bind_failure(direction: Direction, not_found: bool)
    ensures
        open_plan(StreamOption::TcpServer, direction)[0] == OpenStep::Bind,
        !open_plan(StreamOption::TcpServer, direction).contains(OpenStep::BindEphemeral),
        step_failure(open_plan(StreamOption::TcpServer, direction)[0], not_found) == OpenError::Bind,
{
    let plan = open_plan(StreamOption::TcpServer, direction);
    assert(plan[0] != OpenStep::BindEphemeral && plan[1] != OpenStep::BindEphemeral);
}

/// A UDP sink reads its destination before any socket is made, so a bad
/// address fails with `OpenError::InvalidAddress`.
pub proof fn lemma_udp_address_checked_first(not_found: bool)
    ensures
        open_plan(StreamOption::Udp, Direction::Write)[0] == OpenStep::ParseAddress,
        step_failure(OpenStep::ParseAddress, not_found) == OpenError::InvalidAddress,
{
}

} // verus!

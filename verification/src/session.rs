//! What the daemon does with one accepted connection.
//!
//! A session is one-shot: the daemon sends its greeting, closes the
//! connection and drops it. A client that has gone away, or a connection
//! that fails, ends the session early and nothing else.

use vstd::prelude::*;

verus! {

/// How a session came to its end.
#[derive(Clone, Copy, Debug, PartialEq, Eq, Structural)]
pub enum SessionEnd {
    /// The greeting was sent and the connection was closed.
    Served,
    /// The greeting could not be sent.
    WriteFailed,
    /// The greeting was sent, but the connection could not be closed.
    ShutdownFailed,
}

/// Where a session stands.
#[derive(Clone, Copy, Debug, PartialEq, Eq, Structural)]
pub enum Session {
    /// The greeting is being sent.
    Greeting,
    /// The connection is being closed.
    Closing,
    /// The session is over.
    Ended(SessionEnd),
}

/// What the caller is to do with the connection next.
#[derive(Clone, Copy, Debug, PartialEq, Eq, Structural)]
pub enum SessionAction {
    /// Write the greeting, all of it.
    SendGreeting,
    /// Shut the connection down in both directions.
    Shutdown,
    /// Drop the connection.
    Drop,
}

/// The bytes that greet a client: `HELO;`.
pub open spec fn greeting_bytes() -> Seq<u8> {
    seq![0x48u8, 0x45u8, 0x4cu8, 0x4fu8, 0x3bu8]
}

/// The state that follows `session` when the pending action is reported
/// to have succeeded or failed.
pub open spec fn session_step(session: Session, succeeded: bool) -> Session {
    match session {
        Session::Greeting => if succeeded {
            Session::Closing
        } else {
            Session::Ended(SessionEnd::WriteFailed)
        },
        Session::Closing => if succeeded {
            Session::Ended(SessionEnd::Served)
        } else {
            Session::Ended(SessionEnd::ShutdownFailed)
        },
        Session::Ended(end) => Session::Ended(end),
    }
}

/// The action that a session asks for.
pub open spec fn session_action(session: Session) -> SessionAction {
    match session {
        Session::Greeting => SessionAction::SendGreeting,
        Session::Closing => SessionAction::Shutdown,
        Session::Ended(_) => SessionAction::Drop,
    }
}

/// The greeting that the daemon writes to every new connection.
pub fn greeting() -> (bytes: Vec<u8>)
    ensures
        bytes@ == greeting_bytes(),
{
    let mut bytes: Vec<u8> = Vec::new();
    bytes.push(0x48);
    bytes.push(0x45);
    bytes.push(0x4c);
    bytes.push(0x4f);
    bytes.push(0x3b);
    assert(bytes@ =~= greeting_bytes());
    bytes
}

impl Session {
    /// The session of a connection that was just accepted.
    pub fn open() -> (session: Session)
        ensures
            session == Session::Greeting,
    {
        Session::Greeting
    }

    /// Takes the result of the action that the session asked for and
    /// moves on.
    pub fn step(self, succeeded: bool) -> (next: Session)
        ensures
            next == session_step(self, succeeded),
    {
        match self {
            Session::Greeting => if succeeded {
                Session::Closing
            } else {
                Session::Ended(SessionEnd::WriteFailed)
            },
            Session::Closing => if succeeded {
                Session::Ended(SessionEnd::Served)
            } else {
                Session::Ended(SessionEnd::ShutdownFailed)
            },
            Session::Ended(end) => Session::Ended(end),
        }
    }

    /// The action whose result the session awaits.
    pub fn action(&self) -> (action: SessionAction)
        ensures
            action == session_action(*self),
    {
        match self {
            Session::Greeting => SessionAction::SendGreeting,
            Session::Closing => SessionAction::Shutdown,
            Session::Ended(_) => SessionAction::Drop,
        }
    }

    /// How the session ended, once it has.
    pub fn end(&self) -> (end: Option<SessionEnd>)
        ensures
            end == match *self {
                Session::Ended(end) => Some(end),
                _ => None::<SessionEnd>,
            },
    {
        match self {
            Session::Ended(end) => Some(*end),
            _ => None,
        }
    }
}

/// The greeting is the text `HELO;` in ASCII.
pub proof fn lemma_greeting_text()
    ensures
        greeting_bytes() == "HELO;"@.map_values(|c: char| c as u8),
{
    reveal_strlit("HELO;");
    assert(greeting_bytes() =~= "HELO;"@.map_values(|c: char| c as u8));
}

/// A session is over after two reports, whatever they say, and once over
/// it stays as it is. The connection is closed only after the greeting
/// was sent, and the session counts as served only if both succeeded.
pub proof fn lemma_session_is_one_shot(first: bool, second: bool, third: bool)
    ensures
        session_step(session_step(Session::Greeting, first), second) is Ended,
        session_step(session_step(session_step(Session::Greeting, first), second), third)
            == session_step(session_step(Session::Greeting, first), second),
        session_action(session_step(Session::Greeting, first)) == SessionAction::Shutdown
            <==> first,
        session_step(session_step(Session::Greeting, first), second) == Session::Ended(
            SessionEnd::Served,
        ) <==> first && second,
{
}

} // verus!

//! The per-connection session protocol.
//!
//! A session moves through a strictly linear chain of states with one
//! branch point each: `Start → Read → {Execute | Incorrect} →
//! {Validate | Incorrect} → {Correct | Incorrect} → Finished`.  The
//! decisions — too few bytes, timeout, execution outcome, acceptance —
//! are all here; reading from and writing to the transport, and the
//! clock, belong to the caller, which hands in the bytes read and the
//! elapsed time and sends the returned messages.

use vstd::prelude::*;

verus! {

use vstd::string::StringExecFns;

use crate::instructions::InstructionError;
use crate::machine::{
    MACHINE_SIZE,
    Machine,
    MachineError,
    MachineV,
    machine_error_text,
    machine_of_payload,
    run,
    valid_spec,
};
use crate::memory::MemoryError;
use crate::profile::Profile;
use crate::registers::RegisterError;
use crate::text::spec_decimal;

/// The read timeout: how long after `Start` a payload may still be
/// accepted, in milliseconds.
pub const TIMEOUT_MILLIS: u64 = 10000;

pub type GameResult<M> = Result<M, GameError>;

/// A session failure.  The transport failures are the caller's
/// (`IoError`); the rest wrap the lower layers' errors.
#[derive(Debug)]
pub enum GameError {
    InstructionError(InstructionError),
    RegisterError(RegisterError),
    MemoryError(MemoryError),
    MachineError(MachineError),
    IoError(std::io::Error),
    Incorrect(usize),
}

/// Declares `std::io::Error` so a session error can carry a transport
/// failure; nothing is assumed of the type.
#[verifier::external_type_specification]
#[verifier::external_body]
pub struct ExIoError(std::io::Error);

impl From<InstructionError> for GameError {
    fn from(err: InstructionError) -> (r: GameError) {
        GameError::InstructionError(err)
    }
}

impl vstd::std_specs::convert::FromSpecImpl<InstructionError> for GameError {
    open spec fn obeys_from_spec() -> bool {
        true
    }

    open spec fn from_spec(err: InstructionError) -> GameError {
        GameError::InstructionError(err)
    }
}

impl From<RegisterError> for GameError {
    fn from(err: RegisterError) -> (r: GameError) {
        GameError::RegisterError(err)
    }
}

impl vstd::std_specs::convert::FromSpecImpl<RegisterError> for GameError {
    open spec fn obeys_from_spec() -> bool {
        true
    }

    open spec fn from_spec(err: RegisterError) -> GameError {
        GameError::RegisterError(err)
    }
}

impl From<MemoryError> for GameError {
    fn from(err: MemoryError) -> (r: GameError) {
        GameError::MemoryError(err)
    }
}

impl vstd::std_specs::convert::FromSpecImpl<MemoryError> for GameError {
    open spec fn obeys_from_spec() -> bool {
        true
    }

    open spec fn from_spec(err: MemoryError) -> GameError {
        GameError::MemoryError(err)
    }
}

impl From<MachineError> for GameError {
    fn from(err: MachineError) -> (r: GameError) {
        GameError::MachineError(err)
    }
}

impl vstd::std_specs::convert::FromSpecImpl<MachineError> for GameError {
    open spec fn obeys_from_spec() -> bool {
        true
    }

    open spec fn from_spec(err: MachineError) -> GameError {
        GameError::MachineError(err)
    }
}

impl From<std::io::Error> for GameError {
    fn from(err: std::io::Error) -> (r: GameError) {
        GameError::IoError(err)
    }
}

impl vstd::std_specs::convert::FromSpecImpl<std::io::Error> for GameError {
    open spec fn obeys_from_spec() -> bool {
        true
    }

    open spec fn from_spec(err: std::io::Error) -> GameError {
        GameError::IoError(err)
    }
}

/// Why a session was rejected.
#[derive(Clone, Copy, Debug, PartialEq, Eq, Structural)]
pub enum Reason {
    Timeout,
    ReadTooSmall,
    BadExecution,
    WrongAnswer,
}

/// The rejection line written for each reason, after the common
/// failure header.
pub open spec fn reason_text(r: Reason) -> Seq<char> {
    "\nFailed to complete TinyMachine\n"@ + match r {
        Reason::Timeout => "Too slow, timeout\n"@,
        Reason::ReadTooSmall => "Not enough bytes sent\n"@,
        Reason::BadExecution => "Your machine did something wrong\n"@,
        Reason::WrongAnswer => "Sorry, incorrect answer.\n"@,
    }
}

impl Reason {
    /// Render the rejection text.
    pub fn text(&self) -> (s: String)
        ensures
            s@ == reason_text(*self),
    {
        let mut s = "\nFailed to complete TinyMachine\n".to_owned();
        match *self {
            Reason::Timeout => s.append("Too slow, timeout\n"),
            Reason::ReadTooSmall => s.append("Not enough bytes sent\n"),
            Reason::BadExecution => s.append("Your machine did something wrong\n"),
            Reason::WrongAnswer => s.append("Sorry, incorrect answer.\n"),
        };
        proof {
            assert(s@ =~= reason_text(*self));
        }
        s
    }
}

/// The session states.  `Incorrect` and `Correct` carry the message
/// already composed for the client, less the terminal reason or flag
/// text that `poll_incorrect`/`poll_correct` append.
#[derive(Debug)]
pub enum Game {
    Start { id: usize },
    Read { id: usize },
    Execute { id: usize, machine: Machine },
    Validate { id: usize, machine: Machine },
    Incorrect { id: usize, reason: Reason, message: String },
    Correct { id: usize, message: String },
    Finished(usize),
    Error(GameError),
}

/// The prompt written to the client when a session starts.
pub open spec fn prompt_text() -> Seq<char> {
    "Submit your TinyMachine here:\n"@
}

/// The message naming the number of executed instructions, written
/// whether or not the machine is accepted.
pub open spec fn executed_text(cc: nat) -> Seq<char> {
    "Executed "@ + spec_decimal(cc) + " instructions"@
}

/// The success header standing between the executed-instruction count
/// and the secret token.
pub open spec fn correct_text() -> Seq<char> {
    "\nYou provided the correct machine!\nFlag: "@
}

impl Game {
    /// The session id a state carries.
    pub open spec fn sid(self) -> usize
        recommends
            !(self is Error),
    {
        match self {
            Game::Start { id } => id,
            Game::Read { id } => id,
            Game::Execute { id, .. } => id,
            Game::Validate { id, .. } => id,
            Game::Incorrect { id, .. } => id,
            Game::Correct { id, .. } => id,
            Game::Finished(id) => id,
            Game::Error(_) => 0,
        }
    }

    /// Any machine the state carries is well formed.
    pub open spec fn wf(self) -> bool {
        match self {
            Game::Execute { machine, .. } => machine.wf(),
            Game::Validate { machine, .. } => machine.wf(),
            _ => true,
        }
    }

    /// A fresh session.
    pub fn start(id: usize) -> (g: Game)
        ensures
            g == (Game::Start { id }),
    {
        Game::Start { id }
    }

    /// The prompt to write while in `Start`.
    pub fn prompt() -> (s: String)
        ensures
            s@ == prompt_text(),
    {
        "Submit your TinyMachine here:\n".to_owned()
    }

    /// `Start → Read`: taken once the prompt has been written.
    pub fn poll_start(self) -> (g: Game)
        requires
            self is Start,
        ensures
            g == (Game::Read { id: self.sid() }),
    {
        match self {
            Game::Start { id } => Game::Read { id },
            other => other,
        }
    }

    /// `Read → Execute | Incorrect`: judge the bytes that arrived.  A
    /// payload shorter than ten bytes is rejected before any machine is
    /// built; one that arrived after the timeout is rejected next; a
    /// timely full payload becomes the machine to execute.
    pub fn poll_read(self, buf: &Vec<u8>, elapsed_millis: u64, profile: Profile) -> (g: Game)
        requires
            self is Read,
        ensures
            buf@.len() < MACHINE_SIZE ==> (g matches Game::Incorrect { id, reason, message }
                && id == self.sid() && reason is ReadTooSmall && message@ == Seq::<
                char,
            >::empty()),
            buf@.len() >= MACHINE_SIZE && elapsed_millis > TIMEOUT_MILLIS ==> (g matches
                Game::Incorrect { id, reason, message } && id == self.sid() && reason is Timeout
                && message@ == Seq::<char>::empty()),
            buf@.len() >= MACHINE_SIZE && elapsed_millis <= TIMEOUT_MILLIS ==> (g matches
                Game::Execute { id, machine } && id == self.sid() && machine@
                == machine_of_payload(buf@, profile) && machine.wf()),
    {
        let id = match &self {
            Game::Read { id } => *id,
            _ => 0,
        };
        if buf.len() < MACHINE_SIZE {
            Game::Incorrect { id, reason: Reason::ReadTooSmall, message: String::new() }
        } else if timeout(elapsed_millis) {
            Game::Incorrect { id, reason: Reason::Timeout, message: String::new() }
        } else {
            let machine = Machine::from_payload(buf, profile);
            Game::Execute { id, machine }
        }
    }

    /// `Execute → Validate | Incorrect`: run the fetch-execute loop.
    /// A normal end carries the machine on to validation; an execution
    /// failure is rejected with its description as the message.
    pub fn poll_execute(self, profile: Profile) -> (g: Game)
        requires
            self is Execute,
            self.wf(),
        ensures
            g.wf(),
            self matches Game::Execute { id, machine } ==> {
                let s = run(machine@, profile);
                match s.1 {
                    Ok(()) => g matches Game::Validate { id: gid, machine: gm } && gid == id
                        && gm@ == s.0,
                    Err(e) => g matches Game::Incorrect { id: gid, reason, message } && gid == id
                        && reason is BadExecution && message@ == machine_error_text(
                        MachineError::InstructionError(e),
                    ),
                }
            },
    {
        match self {
            Game::Execute { id, mut machine } => {
                match machine.exec(profile) {
                    Ok(_) => Game::Validate { id, machine },
                    Err(e) => Game::Incorrect {
                        id,
                        reason: Reason::BadExecution,
                        message: e.describe(),
                    },
                }
            },
            other => other,
        }
    }

    /// `Validate → Correct | Incorrect`: apply the acceptance
    /// predicate.  Either way the message names the number of executed
    /// instructions.
    pub fn poll_validate(self, profile: Profile) -> (g: Game)
        requires
            self is Validate,
            self.wf(),
        ensures
            self matches Game::Validate { id, machine } ==> {
                if valid_spec(machine@, profile) {
                    g matches Game::Correct { id: gid, message } && gid == id && message@
                        == executed_text(machine@.cc)
                } else {
                    g matches Game::Incorrect { id: gid, reason, message } && gid == id
                        && reason is WrongAnswer && message@ == executed_text(machine@.cc)
                }
            },
    {
        match self {
            Game::Validate { id, machine } => {
                let mut message = "Executed ".to_owned();
                let count = crate::text::decimal_string(machine.get_cc());
                message.append(count.as_str());
                message.append(" instructions");
                proof {
                    assert(message@ =~= executed_text(machine@.cc));
                }
                if machine.is_valid(profile) {
                    Game::Correct { id, message }
                } else {
                    Game::Incorrect { id, reason: Reason::WrongAnswer, message }
                }
            },
            other => other,
        }
    }

    /// `Incorrect → Finished`: the terminal failure message is the
    /// composed message followed by the rejection text.
    pub fn poll_incorrect(self) -> (r: (Game, String))
        requires
            self is Incorrect,
        ensures
            self matches Game::Incorrect { id, reason, message } ==> r.0 == Game::Finished(id)
                && r.1@ == message@ + reason_text(reason),
    {
        match self {
            Game::Incorrect { id, reason, message } => {
                let mut out = message;
                let tail = reason.text();
                out.append(tail.as_str());
                (Game::Finished(id), out)
            },
            other => (other, String::new()),
        }
    }

    /// `Correct → Finished`: the terminal success message is the
    /// composed message, the success header and the secret token.
    pub fn poll_correct(self, flag: &str) -> (r: (Game, String))
        requires
            self is Correct,
        ensures
            self matches Game::Correct { id, message } ==> r.0 == Game::Finished(id) && r.1@
                == message@ + correct_text() + flag@,
    {
        match self {
            Game::Correct { id, message } => {
                let mut out = message;
                out.append("\nYou provided the correct machine!\nFlag: ");
                out.append(flag);
                (Game::Finished(id), out)
            },
            other => (other, String::new()),
        }
    }
}

/// Whether the elapsed time since `Start` has passed the read timeout.
pub fn timeout(elapsed_millis: u64) -> (r: bool)
    ensures
        r == (elapsed_millis > TIMEOUT_MILLIS),
{
    TIMEOUT_MILLIS < elapsed_millis
}

} // verus!

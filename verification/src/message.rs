//! Typed messages of the overlay, the CLI command set, and the critical
//! operations.
//!
//! A message names its kind (`code`), carries the sender's clock, and names
//! both the direct sender and the site that initiated the enclosing wave.
//! Network endpoints are a front-end concern: the library speaks of site
//! ranks only.

use vstd::prelude::*;
use crate::clock::Clock;
use crate::mutex::MutexStamp;
use crate::snapshot::SnapshotMode;
use crate::store::str_eq;
use crate::store::Transaction;

verus! {

/// Available commands in the system.
#[derive(Clone, Debug, PartialEq)]
pub enum Command {
    /// Create a new user account.
    CreateUser,
    /// List all user accounts.
    UserAccounts,
    /// Display transactions for a specific user.
    PrintUserTransactions,
    /// Display all system transactions.
    PrintTransactions,
    /// Deposit money into an account.
    Deposit,
    /// Withdraw money from an account.
    Withdraw,
    /// Transfer money between accounts.
    Transfer,
    /// Make a payment.
    Pay,
    /// Process a refund.
    Refund,
    /// Display help information.
    Help,
    /// Display system information.
    Info,
    /// Unknown command.
    Unknown(String),
    /// Error command.
    Error(String),
    /// Start a system snapshot.
    Snapshot,
}

/// The command a trimmed CLI line names, if any.
pub open spec fn known_command(line: Seq<char>) -> Option<Command> {
    if line == "/create_user"@ {
        Some(Command::CreateUser)
    } else if line == "/user_accounts"@ {
        Some(Command::UserAccounts)
    } else if line == "/print_user_tsx"@ {
        Some(Command::PrintUserTransactions)
    } else if line == "/print_tsx"@ {
        Some(Command::PrintTransactions)
    } else if line == "/deposit"@ {
        Some(Command::Deposit)
    } else if line == "/withdraw"@ {
        Some(Command::Withdraw)
    } else if line == "/transfer"@ {
        Some(Command::Transfer)
    } else if line == "/pay"@ {
        Some(Command::Pay)
    } else if line == "/refund"@ {
        Some(Command::Refund)
    } else if line == "/help"@ {
        Some(Command::Help)
    } else if line == "/info"@ {
        Some(Command::Info)
    } else if line == "/start_snapshot"@ {
        Some(Command::Snapshot)
    } else {
        None
    }
}

/// Parses one trimmed line of CLI input into a `Command`. A line that names
/// no known command comes back as `Unknown` with the line itself.
pub fn parse_command(line: &str) -> (c: Command)
    ensures
        known_command(line@) is Some ==> c == known_command(line@).unwrap(),
        known_command(line@) is None ==> (c matches Command::Unknown(s) && s@ == line@),
{
    if str_eq(line, "/create_user") {
        Command::CreateUser
    } else if str_eq(line, "/user_accounts") {
        Command::UserAccounts
    } else if str_eq(line, "/print_user_tsx") {
        Command::PrintUserTransactions
    } else if str_eq(line, "/print_tsx") {
        Command::PrintTransactions
    } else if str_eq(line, "/deposit") {
        Command::Deposit
    } else if str_eq(line, "/withdraw") {
        Command::Withdraw
    } else if str_eq(line, "/transfer") {
        Command::Transfer
    } else if str_eq(line, "/pay") {
        Command::Pay
    } else if str_eq(line, "/refund") {
        Command::Refund
    } else if str_eq(line, "/help") {
        Command::Help
    } else if str_eq(line, "/info") {
        Command::Info
    } else if str_eq(line, "/start_snapshot") {
        Command::Snapshot
    } else {
        Command::Unknown(line.to_owned())
    }
}

/// Critical commands that can be executed on our site, inside the critical
/// section only. Amounts are fixed-point integers in the smallest currency
/// unit.
#[derive(Clone, Debug, PartialEq)]
pub enum CriticalCommands {
    /// Create a new user account.
    CreateUser { name: String },
    /// Deposit money into an account.
    Deposit { name: String, amount: i64 },
    /// Withdraw money from an account.
    Withdraw { name: String, amount: i64 },
    /// Transfer money between accounts.
    Transfer { from: String, to: String, amount: i64 },
    /// Make a payment.
    Pay { name: String, amount: i64 },
    /// Refund the transaction keyed `(lamport, node)`.
    Refund { name: String, lamport: u64, node: usize },
    /// Request a snapshot to save as a document.
    FileSnapshot,
    /// Request a snapshot to update our database.
    SyncSnapshot,
}

/// Kind of a network message.
#[derive(Clone, Copy, Debug, PartialEq, Eq, Structural)]
pub enum NetworkMessageCode {
    /// A critical operation travelling in a wave.
    Transaction,
    /// A mutex request.
    MutexRequest,
    /// A mutex acknowledgment.
    MutexAck,
    /// A mutex release.
    MutexRelease,
    /// An echo acknowledgment of a wave message.
    WaveAck,
    /// A snapshot request travelling in a wave.
    SnapshotRequest,
    /// A site's recorded state, sent to the snapshot initiator.
    SnapshotResponse,
    /// A peer announcing itself.
    Discovery,
    /// A peer leaving the overlay.
    Disconnect,
}

/// One message recorded on an incoming channel while a snapshot is open.
#[derive(Clone, Debug)]
pub struct RecordedMsg {
    /// Rank of the sending site.
    pub from: usize,
    /// Rank of the recording site.
    pub to: usize,
    /// Kind of the recorded message.
    pub code: NetworkMessageCode,
    /// The critical operation it carried, if any.
    pub op: Option<CriticalCommands>,
    /// Lamport time the message carried.
    pub lamport: u64,
    /// Rank of the site that initiated the enclosing wave.
    pub origin: usize,
}

/// What one site hands to the snapshot initiator: its recorded local state
/// and the messages caught on its incoming channels.
#[derive(Clone, Debug)]
pub struct SiteRecord {
    /// Rank of the recorded site.
    pub site: usize,
    /// Its clock at recording time.
    pub clock: Clock,
    /// Its account names at recording time.
    pub users: Vec<String>,
    /// Its ledger at recording time.
    pub transactions: Vec<Transaction>,
    /// Its mutex stamp table at recording time.
    pub fifo: Vec<(usize, MutexStamp)>,
    /// What its incoming channels carried while recording was open.
    pub recorded: Vec<RecordedMsg>,
}

/// Payload of a message.
#[derive(Clone, Debug)]
pub enum MessageInfo {
    /// Create a user account.
    CreateUser { name: String },
    /// Credit an account.
    Deposit { name: String, amount: i64 },
    /// Debit an account.
    Withdraw { name: String, amount: i64 },
    /// Move money between accounts.
    Transfer { from: String, to: String, amount: i64 },
    /// Pay out of an account.
    Pay { name: String, amount: i64 },
    /// Refund the transaction keyed `(lamport, node)`.
    Refund { name: String, lamport: u64, node: usize },
    /// Acknowledge a mutex request, at the carried date.
    AckMutex { date: u64 },
    /// Ask for the mutex, at the carried date.
    AcquireMutex { date: u64 },
    /// Give the mutex up, at the carried date.
    ReleaseMutex { date: u64 },
    /// A snapshot request, carrying the asked mode.
    Snapshot { mode: SnapshotMode },
    /// A site's snapshot record.
    SnapshotResponse(SiteRecord),
    /// No payload.
    Empty,
}

/// One message of the overlay.
#[derive(Clone, Debug)]
pub struct Message {
    /// The CLI command the payload stems from, if any.
    pub command: Option<Command>,
    /// Payload.
    pub info: MessageInfo,
    /// Kind.
    pub code: NetworkMessageCode,
    /// Clock of the sender when the message was built.
    pub clock: Clock,
    /// Rank of the direct sender.
    pub sender_id: usize,
    /// Rank of the site that initiated the enclosing wave.
    pub initiator_id: usize,
}

/// Copy of one critical command, field for field.
pub fn clone_critical(c: &CriticalCommands) -> (r: CriticalCommands)
    ensures
        r == *c,
{
    match c {
        CriticalCommands::CreateUser { name } => CriticalCommands::CreateUser {
            name: name.clone(),
        },
        CriticalCommands::Deposit { name, amount } => CriticalCommands::Deposit {
            name: name.clone(),
            amount: *amount,
        },
        CriticalCommands::Withdraw { name, amount } => CriticalCommands::Withdraw {
            name: name.clone(),
            amount: *amount,
        },
        CriticalCommands::Transfer { from, to, amount } => CriticalCommands::Transfer {
            from: from.clone(),
            to: to.clone(),
            amount: *amount,
        },
        CriticalCommands::Pay { name, amount } => CriticalCommands::Pay {
            name: name.clone(),
            amount: *amount,
        },
        CriticalCommands::Refund { name, lamport, node } => CriticalCommands::Refund {
            name: name.clone(),
            lamport: *lamport,
            node: *node,
        },
        CriticalCommands::FileSnapshot => CriticalCommands::FileSnapshot,
        CriticalCommands::SyncSnapshot => CriticalCommands::SyncSnapshot,
    }
}

/// Copy of one recorded message, field for field.
pub fn clone_recorded(m: &RecordedMsg) -> (r: RecordedMsg)
    ensures
        r == *m,
{
    let op: Option<CriticalCommands> = match &m.op {
        Some(c) => Some(clone_critical(c)),
        None => None,
    };
    RecordedMsg { from: m.from, to: m.to, code: m.code, op, lamport: m.lamport, origin: m.origin }
}

} // verus!


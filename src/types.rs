use vstd::prelude::*;
use crate::amount::Amount;

verus! {

/// Who takes part in an escrow: an account or contract, named by its 32-byte hash.
#[derive(Clone, Copy, Debug)]
pub struct Identity {
    pub hash: [u8; 32],
}

impl Identity {
    /// Whether two identities name the same party.
    pub open spec fn same(self, other: Identity) -> bool {
        self.hash@ == other.hash@
    }

    /// Whether this identity and `other` name the same party.
    pub fn same_as(&self, other: &Identity) -> (r: bool)
        ensures
            r == self.same(*other),
    {
        let mut i: usize = 0;
        while i < 32
            invariant
                i <= 32,
                forall|j: int| 0 <= j < i ==> self.hash@[j] == other.hash@[j],
            decreases 32 - i,
        {
            if self.hash[i] != other.hash[i] {
                return false;
            }
            i = i + 1;
        }
        assert(self.hash@ =~= other.hash@);
        true
    }
}

/// A reference to an isolated holding of funds that the host opened for one escrow.
#[derive(Clone, Copy, Debug)]
pub struct CustodyHandle {
    pub address: [u8; 32],
}

/// Where an escrow is in its lifecycle.
#[derive(Clone, Copy, Debug, PartialEq, Eq, Structural)]
pub enum Status {
    Initiated,
    Funded,
    Settled,
    Cancelled,
}

/// The numeric code under which a status is persisted.
pub open spec fn status_code(s: Status) -> u8 {
    match s {
        Status::Initiated => 0,
        Status::Funded => 1,
        Status::Settled => 2,
        Status::Cancelled => 3,
    }
}

impl Status {
    /// The numeric code under which this status is persisted.
    pub fn code(self) -> (r: u8)
        ensures
            r == status_code(self),
    {
        match self {
            Status::Initiated => 0,
            Status::Funded => 1,
            Status::Settled => 2,
            Status::Cancelled => 3,
        }
    }

    /// The status persisted under `code`, or `None` for a code that names none.
    pub fn from_code(code: u8) -> (r: Option<Status>)
        ensures
            match r {
                Some(s) => status_code(s) == code,
                None => code > 3,
            },
    {
        match code {
            0 => Some(Status::Initiated),
            1 => Some(Status::Funded),
            2 => Some(Status::Settled),
            3 => Some(Status::Cancelled),
            _ => None,
        }
    }

    /// Whether no further transition is permitted from this status.
    pub open spec fn is_terminal(self) -> bool {
        self == Status::Settled || self == Status::Cancelled
    }
}

/// Why an escrow operation was refused.
#[derive(Clone, Copy, Debug, PartialEq, Eq, Structural)]
pub enum EscrowError {
    /// No escrow is recorded under the identifier.
    NotFound,
    /// The escrow is not in a status from which the operation may start.
    InvalidState,
    /// The amount paid is below the amount the escrow requires.
    InsufficientAmount,
    /// The caller is not the configured relayer.
    Unauthorized,
    /// The host could not move the funds.
    TransferFailed,
}

/// A failure the host reported for a transfer, with its error code.
#[derive(Clone, Copy, Debug)]
pub struct TransferError {
    pub code: u32,
}

/// The holding that keeps an escrow's deposit, and what was deposited into it.
#[derive(Clone, Copy, Debug)]
pub struct Custody {
    pub handle: CustodyHandle,
    pub deposited: Amount,
}

/// One escrow: who is paid, how much is required, and where it stands.
#[derive(Clone, Copy, Debug)]
pub struct EscrowRecord {
    pub recipient: Identity,
    pub amount: Amount,
    pub status: Status,
    pub custody: Option<Custody>,
}

impl EscrowRecord {
    /// A custody holding is present exactly once the escrow has been funded:
    /// never before, always while funded or settled.
    pub open spec fn consistent(self) -> bool {
        &&& self.status == Status::Initiated ==> self.custody is None
        &&& (self.status == Status::Funded || self.status == Status::Settled) ==> self.custody is Some
    }
}

/// One side of a transfer that the host is asked to make.
#[derive(Clone, Copy, Debug)]
pub enum Endpoint {
    /// The primary funds of the party invoking the operation.
    CallerFunds,
    /// A custody holding that the host opens for this transfer.
    NewCustody,
    /// An existing custody holding.
    Custody(CustodyHandle),
    /// The account of an identity.
    Account(Identity),
}

/// A movement of value that an operation needs the host to perform.
#[derive(Clone, Copy, Debug)]
pub struct Transfer {
    pub from: Endpoint,
    pub to: Endpoint,
    pub amount: Amount,
}

/// Configuration fixed when the escrow ledger is deployed.
#[derive(Clone, Copy, Debug)]
pub struct EscrowConfig {
    pub owner: Identity,
    pub relayer: Identity,
}

impl EscrowConfig {
    /// The configuration with the given owner and relayer.
    pub fn new(owner: Identity, relayer: Identity) -> (r: EscrowConfig)
        ensures
            r.owner == owner,
            r.relayer == relayer,
    {
        EscrowConfig { owner, relayer }
    }

    /// Whether `caller` may settle or cancel escrows.
    pub fn is_relayer(&self, caller: &Identity) -> (r: bool)
        ensures
            r == caller.same(self.relayer),
    {
        caller.same_as(&self.relayer)
    }
}

} // verus!

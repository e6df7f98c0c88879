use vstd::prelude::*;
use crate::amount::Amount;
use crate::types::{
    Custody, CustodyHandle, Endpoint, EscrowConfig, EscrowError, EscrowRecord, Identity, Status,
    Transfer, TransferError,
};

verus! {

/// The abstract content of a ledger: each escrow identifier with its record.
pub type Escrows = Map<Seq<char>, EscrowRecord>;

/// The record that `CreateEscrow` inserts: initiated, with no custody holding.
pub open spec fn initiated(recipient: Identity, amount: Amount) -> EscrowRecord {
    EscrowRecord { recipient, amount, status: Status::Initiated, custody: None }
}

/// The escrows after creating `id` (an existing record under `id` is replaced).
pub open spec fn created(m: Escrows, id: Seq<char>, recipient: Identity, amount: Amount) -> Escrows {
    m.insert(id, initiated(recipient, amount))
}

/// Whether `id` may be funded with `paid`, and if so the transfer owed:
/// `paid` from the payer's primary funds into a newly opened custody holding.
pub open spec fn fund_check(m: Escrows, id: Seq<char>, paid: Amount) -> Result<Transfer, EscrowError> {
    if !m.contains_key(id) {
        Err(EscrowError::NotFound)
    } else if m[id].status != Status::Initiated {
        Err(EscrowError::InvalidState)
    } else if paid.value() < m[id].amount.value() {
        Err(EscrowError::InsufficientAmount)
    } else {
        Ok(Transfer { from: Endpoint::CallerFunds, to: Endpoint::NewCustody, amount: paid })
    }
}

/// The result and the escrows after funding `id` with `paid` into the holding
/// `handle`, where the host reported `outcome` for the transfer.
pub open spec fn fund_step(
    m: Escrows,
    id: Seq<char>,
    paid: Amount,
    handle: CustodyHandle,
    outcome: Result<(), TransferError>,
) -> (Result<(), EscrowError>, Escrows) {
    match fund_check(m, id, paid) {
        Err(e) => (Err(e), m),
        Ok(_) => match outcome {
            Err(_) => (Err(EscrowError::TransferFailed), m),
            Ok(_) => (
                Ok(()),
                m.insert(
                    id,
                    EscrowRecord {
                        status: Status::Funded,
                        custody: Some(Custody { handle, deposited: paid }),
                        ..m[id]
                    },
                ),
            ),
        },
    }
}

/// Whether `caller` may settle `id`, and if so the transfer owed: the deposit,
/// from the escrow's custody holding to its recipient.
pub open spec fn settle_check(
    config: EscrowConfig,
    m: Escrows,
    id: Seq<char>,
    caller: Identity,
) -> Result<Transfer, EscrowError> {
    if !caller.same(config.relayer) {
        Err(EscrowError::Unauthorized)
    } else if !m.contains_key(id) {
        Err(EscrowError::NotFound)
    } else {
        match (m[id].status, m[id].custody) {
            (Status::Funded, Some(c)) => Ok(
                Transfer {
                    from: Endpoint::Custody(c.handle),
                    to: Endpoint::Account(m[id].recipient),
                    amount: c.deposited,
                },
            ),
            _ => Err(EscrowError::InvalidState),
        }
    }
}

/// `m` with the status of `id` set to `status`, all else kept.
pub open spec fn with_status(m: Escrows, id: Seq<char>, status: Status) -> Escrows {
    m.insert(id, EscrowRecord { status, ..m[id] })
}

/// The result and the escrows after `caller` settles `id`, where the host
/// reported `outcome` for the transfer.
pub open spec fn settle_step(
    config: EscrowConfig,
    m: Escrows,
    id: Seq<char>,
    caller: Identity,
    outcome: Result<(), TransferError>,
) -> (Result<(), EscrowError>, Escrows) {
    match settle_check(config, m, id, caller) {
        Err(e) => (Err(e), m),
        Ok(_) => match outcome {
            Err(_) => (Err(EscrowError::TransferFailed), m),
            Ok(_) => (Ok(()), with_status(m, id, Status::Settled)),
        },
    }
}

/// Whether `caller` may cancel `id`, and if so the transfer owed: for a funded
/// escrow the deposit, from its custody holding back to the caller; for an
/// initiated one none.
pub open spec fn cancel_check(
    config: EscrowConfig,
    m: Escrows,
    id: Seq<char>,
    caller: Identity,
) -> Result<Option<Transfer>, EscrowError> {
    if !caller.same(config.relayer) {
        Err(EscrowError::Unauthorized)
    } else if !m.contains_key(id) {
        Err(EscrowError::NotFound)
    } else {
        match (m[id].status, m[id].custody) {
            (Status::Initiated, _) => Ok(None),
            (Status::Funded, Some(c)) => Ok(
                Some(
                    Transfer {
                        from: Endpoint::Custody(c.handle),
                        to: Endpoint::Account(caller),
                        amount: c.deposited,
                    },
                ),
            ),
            _ => Err(EscrowError::InvalidState),
        }
    }
}

/// The result and the escrows after `caller` cancels `id`, where the host
/// reported `outcome` for the refund (not consulted when no refund is owed).
pub open spec fn cancel_step(
    config: EscrowConfig,
    m: Escrows,
    id: Seq<char>,
    caller: Identity,
    outcome: Result<(), TransferError>,
) -> (Result<(), EscrowError>, Escrows) {
    match cancel_check(config, m, id, caller) {
        Err(e) => (Err(e), m),
        Ok(None) => (Ok(()), with_status(m, id, Status::Cancelled)),
        Ok(Some(_)) => match outcome {
            Err(_) => (Err(EscrowError::TransferFailed), m),
            Ok(_) => (Ok(()), with_status(m, id, Status::Cancelled)),
        },
    }
}

/// Every record of `m` keeps its custody holding consistent with its status.
pub open spec fn all_consistent(m: Escrows) -> bool {
    forall|k: Seq<char>| #[trigger] m.contains_key(k) ==> m[k].consistent()
}

/// The escrow ledger: one record per identifier, under a fixed configuration.
pub struct EscrowLedger {
    config: EscrowConfig,
    ids: Vec<String>,
    records: Vec<EscrowRecord>,
    escrows: Ghost<Escrows>,
}

impl EscrowLedger {
    /// The escrows this ledger holds.
    pub closed spec fn view(&self) -> Escrows {
        self.escrows@
    }

    /// The configuration this ledger was deployed with.
    pub closed spec fn config(&self) -> EscrowConfig {
        self.config
    }

    /// The stored identifiers are distinct, each stands beside its record, and
    /// they are exactly the keys of the view, whose records are consistent.
    pub closed spec fn wf(&self) -> bool {
        &&& self.ids@.len() == self.records@.len()
        &&& forall|i: int, j: int|
            0 <= i < j < self.ids@.len() ==> #[trigger] self.ids@[i]@ != #[trigger] self.ids@[j]@
        &&& forall|i: int|
            0 <= i < self.ids@.len() ==> #[trigger] self.escrows@.contains_key(self.ids@[i]@)
                && self.escrows@[self.ids@[i]@] == self.records@[i]
        &&& forall|k: Seq<char>|
            #[trigger] self.escrows@.contains_key(k) ==> exists|i: int|
                0 <= i < self.ids@.len() && #[trigger] self.ids@[i]@ == k
        &&& all_consistent(self.escrows@)
    }

    /// Every escrow of a well-formed ledger has a custody holding exactly once
    /// it has been funded: none while initiated, one while funded or settled.
    pub proof fn lemma_records_consistent(&self)
        requires
            self.wf(),
        ensures
            all_consistent(self@),
    {
    }

    /// An empty ledger under `config`.
    pub fn new(config: EscrowConfig) -> (r: EscrowLedger)
        ensures
            r.wf(),
            r.config() == config,
            r@ == Map::<Seq<char>, EscrowRecord>::empty(),
    {
        EscrowLedger {
            config,
            ids: Vec::new(),
            records: Vec::new(),
            escrows: Ghost(Map::empty()),
        }
    }

    /// The configuration this ledger was deployed with.
    pub fn get_config(&self) -> (r: EscrowConfig)
        ensures
            r == self.config(),
    {
        self.config
    }

    /// The position of `id` among the stored identifiers.
    fn find(&self, id: &String) -> (r: Option<usize>)
        requires
            self.wf(),
        ensures
            match r {
                Some(i) => i < self.ids@.len() && self.ids@[i as int]@ == id@
                    && self@.contains_key(id@) && self@[id@] == self.records@[i as int],
                None => !self@.contains_key(id@),
            },
    {
        let mut i: usize = 0;
        while i < self.ids.len()
            invariant
                self.wf(),
                i <= self.ids@.len(),
                forall|j: int| 0 <= j < i ==> self.ids@[j]@ != id@,
            decreases self.ids@.len() - i,
        {
            if self.ids[i] == *id {
                return Some(i);
            }
            i = i + 1;
        }
        None
    }

    /// The record stored under `id`, if any.
    pub fn get(&self, id: &String) -> (r: Option<EscrowRecord>)
        requires
            self.wf(),
        ensures
            r == (if self@.contains_key(id@) { Some(self@[id@]) } else { None::<EscrowRecord> }),
    {
        match self.find(id) {
            Some(i) => Some(self.records[i]),
            None => None,
        }
    }

    /// Replaces the record at position `i` (which stands for `id`) with `rec`.
    fn put_at(&mut self, i: usize, Ghost(id): Ghost<Seq<char>>, rec: EscrowRecord)
        requires
            old(self).wf(),
            i < old(self).ids@.len(),
            old(self).ids@[i as int]@ == id,
            rec.consistent(),
        ensures
            final(self).wf(),
            final(self)@ == old(self)@.insert(id, rec),
            final(self).config() == old(self).config(),
    {
        self.records.set(i, rec);
        self.escrows = Ghost(self.escrows@.insert(id, rec));
        assert forall|k: Seq<char>| #[trigger] self.escrows@.contains_key(k) implies exists|j: int|
            0 <= j < self.ids@.len() && #[trigger] self.ids@[j]@ == k by {
            if k != id {
                assert(old(self).escrows@.contains_key(k));
                let j = choose|j: int| 0 <= j < old(self).ids@.len() && #[trigger] old(self).ids@[j]@ == k;
                assert(self.ids@[j]@ == k);
            } else {
                assert(self.ids@[i as int]@ == k);
            }
        }
    }

    /// Records a new escrow `id` at `Initiated`, for `recipient` and the
    /// required `amount`, and returns its identifier. A record already stored
    /// under `id` is replaced, whatever its status: callers that must not
    /// lose a funded escrow check with `get` first.
    pub fn create_escrow(&mut self, id: String, recipient: Identity, amount: Amount) -> (r: String)
        requires
            old(self).wf(),
        ensures
            final(self).wf(),
            r@ == id@,
            final(self)@ == created(old(self)@, id@, recipient, amount),
            final(self).config() == old(self).config(),
    {
        let rec = EscrowRecord { recipient, amount, status: Status::Initiated, custody: None };
        match self.find(&id) {
            Some(i) => {
                self.put_at(i, Ghost(id@), rec);
                id
            },
            None => {
                let ghost key = id@;
                let out = id.clone();
                self.ids.push(id);
                self.records.push(rec);
                self.escrows = Ghost(self.escrows@.insert(key, rec));
                let ghost n = self.ids@.len() - 1;
                assert(self.ids@[n]@ == key);
                assert forall|k: Seq<char>| #[trigger] self.escrows@.contains_key(k) implies exists|j: int|
                    0 <= j < self.ids@.len() && #[trigger] self.ids@[j]@ == k by {
                    if k != key {
                        assert(old(self).escrows@.contains_key(k));
                        let j = choose|j: int| 0 <= j < old(self).ids@.len() && #[trigger] old(self).ids@[j]@ == k;
                        assert(self.ids@[j]@ == k);
                    } else {
                        assert(self.ids@[n]@ == k);
                    }
                }
                assert forall|j: int| 0 <= j < self.ids@.len() implies #[trigger] self.escrows@.contains_key(self.ids@[j]@)
                    && self.escrows@[self.ids@[j]@] == self.records@[j] by {
                    if j < n {
                        assert(old(self).escrows@.contains_key(old(self).ids@[j]@));
                    }
                }
                out
            },
        }
    }

    /// Validates funding `id` with `paid` and names the transfer the host must
    /// make before `commit_fund`: `paid` from the payer's primary funds into a
    /// newly opened custody holding. Any payer may fund.
    pub fn prepare_fund(&self, id: &String, paid: Amount) -> (r: Result<Transfer, EscrowError>)
        requires
            self.wf(),
        ensures
            r == fund_check(self@, id@, paid),
    {
        match self.find(id) {
            None => Err(EscrowError::NotFound),
            Some(i) => {
                let rec = self.records[i];
                if rec.status != Status::Initiated {
                    Err(EscrowError::InvalidState)
                } else if !paid.covers(&rec.amount) {
                    Err(EscrowError::InsufficientAmount)
                } else {
                    Ok(Transfer { from: Endpoint::CallerFunds, to: Endpoint::NewCustody, amount: paid })
                }
            },
        }
    }

    /// Funds `id` with `paid`, now held in the custody holding `handle`, given
    /// the `outcome` the host reported for that transfer. The escrow becomes
    /// `Funded` only when funding is still valid and the transfer succeeded;
    /// otherwise the ledger is left unchanged.
    pub fn commit_fund(
        &mut self,
        id: &String,
        paid: Amount,
        handle: CustodyHandle,
        outcome: Result<(), TransferError>,
    ) -> (r: Result<(), EscrowError>)
        requires
            old(self).wf(),
        ensures
            final(self).wf(),
            (r, final(self)@) == fund_step(old(self)@, id@, paid, handle, outcome),
            final(self).config() == old(self).config(),
    {
        match self.prepare_fund(id, paid) {
            Err(e) => Err(e),
            Ok(_) => match outcome {
                Err(_) => Err(EscrowError::TransferFailed),
                Ok(_) => {
                    let i = self.find(id).unwrap();
                    let rec = self.records[i];
                    let next = EscrowRecord {
                        status: Status::Funded,
                        custody: Some(Custody { handle, deposited: paid }),
                        ..rec
                    };
                    self.put_at(i, Ghost(id@), next);
                    Ok(())
                },
            },
        }
    }

    /// Validates settling `id` by `caller` and names the transfer the host
    /// must make before `commit_settle`: the deposit, from the escrow's
    /// custody holding to its recipient. Only the relayer may settle.
    pub fn prepare_settle(&self, id: &String, caller: &Identity) -> (r: Result<Transfer, EscrowError>)
        requires
            self.wf(),
        ensures
            r == settle_check(self.config(), self@, id@, *caller),
    {
        if !self.config.is_relayer(caller) {
            return Err(EscrowError::Unauthorized);
        }
        match self.find(id) {
            None => Err(EscrowError::NotFound),
            Some(i) => {
                let rec = self.records[i];
                match (rec.status, rec.custody) {
                    (Status::Funded, Some(c)) => Ok(
                        Transfer {
                            from: Endpoint::Custody(c.handle),
                            to: Endpoint::Account(rec.recipient),
                            amount: c.deposited,
                        },
                    ),
                    _ => Err(EscrowError::InvalidState),
                }
            },
        }
    }

    /// Settles `id` by `caller`, given the `outcome` the host reported for
    /// paying the deposit to the recipient. The escrow becomes `Settled` only
    /// when settling is still valid and the transfer succeeded; otherwise the
    /// ledger is left unchanged.
    pub fn commit_settle(
        &mut self,
        id: &String,
        caller: &Identity,
        outcome: Result<(), TransferError>,
    ) -> (r: Result<(), EscrowError>)
        requires
            old(self).wf(),
        ensures
            final(self).wf(),
            (r, final(self)@) == settle_step(old(self).config(), old(self)@, id@, *caller, outcome),
            final(self).config() == old(self).config(),
    {
        match self.prepare_settle(id, caller) {
            Err(e) => Err(e),
            Ok(_) => match outcome {
                Err(_) => Err(EscrowError::TransferFailed),
                Ok(_) => {
                    let i = self.find(id).unwrap();
                    let rec = self.records[i];
                    self.put_at(i, Ghost(id@), EscrowRecord { status: Status::Settled, ..rec });
                    Ok(())
                },
            },
        }
    }

    /// Validates cancelling `id` by `caller` and names the refund the host
    /// must make before `commit_cancel`: for a funded escrow the deposit, from
    /// its custody holding to the caller; for an initiated one none. Only the
    /// relayer may cancel.
    pub fn prepare_cancel(&self, id: &String, caller: &Identity) -> (r: Result<
        Option<Transfer>,
        EscrowError,
    >)
        requires
            self.wf(),
        ensures
            r == cancel_check(self.config(), self@, id@, *caller),
    {
        if !self.config.is_relayer(caller) {
            return Err(EscrowError::Unauthorized);
        }
        match self.find(id) {
            None => Err(EscrowError::NotFound),
            Some(i) => {
                let rec = self.records[i];
                match (rec.status, rec.custody) {
                    (Status::Initiated, _) => Ok(None),
                    (Status::Funded, Some(c)) => Ok(
                        Some(
                            Transfer {
                                from: Endpoint::Custody(c.handle),
                                to: Endpoint::Account(*caller),
                                amount: c.deposited,
                            },
                        ),
                    ),
                    _ => Err(EscrowError::InvalidState),
                }
            },
        }
    }

    /// Cancels `id` by `caller`, given the `outcome` the host reported for the
    /// refund (not consulted when none was owed). The escrow becomes
    /// `Cancelled` only when cancelling is still valid and any refund owed
    /// succeeded; otherwise the ledger is left unchanged.
    pub fn commit_cancel(
        &mut self,
        id: &String,
        caller: &Identity,
        outcome: Result<(), TransferError>,
    ) -> (r: Result<(), EscrowError>)
        requires
            old(self).wf(),
        ensures
            final(self).wf(),
            (r, final(self)@) == cancel_step(old(self).config(), old(self)@, id@, *caller, outcome),
            final(self).config() == old(self).config(),
    {
        let refund = self.prepare_cancel(id, caller);
        match refund {
            Err(e) => Err(e),
            Ok(due) => {
                if due.is_some() && outcome.is_err() {
                    return Err(EscrowError::TransferFailed);
                }
                let i = self.find(id).unwrap();
                let rec = self.records[i];
                self.put_at(i, Ghost(id@), EscrowRecord { status: Status::Cancelled, ..rec });
                Ok(())
            },
        }
    }
}

} // verus!

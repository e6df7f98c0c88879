//! Properties of the escrow lifecycle, proved over the transition functions
//! that the ledger's operations are specified by.
use vstd::prelude::*;
use crate::amount::Amount;
use crate::ledger::{
    cancel_check, cancel_step, created, fund_check, fund_step, settle_check, settle_step,
    with_status, Escrows,
};
use crate::types::{
    status_code, Custody, CustodyHandle, Endpoint, EscrowConfig, EscrowError, Identity, Status,
    Transfer, TransferError,
};

verus! {

/// Creating an escrow leaves it initiated, with no custody holding, whatever
/// was stored under its identifier before.
pub proof fn law_create_then_get(m: Escrows, id: Seq<char>, recipient: Identity, amount: Amount)
    ensures
        created(m, id, recipient, amount).contains_key(id),
        created(m, id, recipient, amount)[id].status == Status::Initiated,
        created(m, id, recipient, amount)[id].custody is None,
        created(m, id, recipient, amount)[id].recipient == recipient,
        created(m, id, recipient, amount)[id].amount == amount,
{
}

/// Funding an initiated escrow with less than its required amount fails with
/// `InsufficientAmount`, owes no transfer, and leaves the escrow initiated.
pub proof fn law_underpaid_fund_refused(
    m: Escrows,
    id: Seq<char>,
    paid: Amount,
    handle: CustodyHandle,
    outcome: Result<(), TransferError>,
)
    requires
        m.contains_key(id),
        m[id].status == Status::Initiated,
        paid.value() < m[id].amount.value(),
    ensures
        fund_check(m, id, paid) == Err::<Transfer, EscrowError>(EscrowError::InsufficientAmount),
        fund_step(m, id, paid, handle, outcome) == (
        Err::<(), EscrowError>(EscrowError::InsufficientAmount),
        m,
        ),
        fund_step(m, id, paid, handle, outcome).1[id].status == Status::Initiated,
{
}

/// Funding an initiated escrow with at least its required amount moves exactly
/// the amount paid from the payer's funds into a new custody holding and makes
/// the escrow funded; funding it a second time then fails with `InvalidState`.
pub proof fn law_fund_once(
    m: Escrows,
    id: Seq<char>,
    paid: Amount,
    handle: CustodyHandle,
    again: Amount,
    again_handle: CustodyHandle,
    again_outcome: Result<(), TransferError>,
)
    requires
        m.contains_key(id),
        m[id].status == Status::Initiated,
        paid.value() >= m[id].amount.value(),
    ensures
        fund_check(m, id, paid) == Ok::<Transfer, EscrowError>(
            Transfer { from: Endpoint::CallerFunds, to: Endpoint::NewCustody, amount: paid },
        ),
        fund_step(m, id, paid, handle, Ok(())).0 == Ok::<(), EscrowError>(()),
        fund_step(m, id, paid, handle, Ok(())).1[id].status == Status::Funded,
        fund_step(m, id, paid, handle, Ok(())).1[id].custody == Some(
            Custody { handle, deposited: paid },
        ),
        fund_check(fund_step(m, id, paid, handle, Ok(())).1, id, again) == Err::<
            Transfer,
            EscrowError,
        >(EscrowError::InvalidState),
        fund_step(fund_step(m, id, paid, handle, Ok(())).1, id, again, again_handle, again_outcome)
            == (Err::<(), EscrowError>(EscrowError::InvalidState), fund_step(
            m,
            id,
            paid,
            handle,
            Ok(()),
        ).1),
{
}

/// Settling by anyone but the relayer fails with `Unauthorized`, whatever the
/// escrow's status and whether it exists, and changes nothing.
pub proof fn law_settle_needs_relayer(
    config: EscrowConfig,
    m: Escrows,
    id: Seq<char>,
    caller: Identity,
    outcome: Result<(), TransferError>,
)
    requires
        !caller.same(config.relayer),
    ensures
        settle_check(config, m, id, caller) == Err::<Transfer, EscrowError>(
            EscrowError::Unauthorized,
        ),
        settle_step(config, m, id, caller, outcome) == (
        Err::<(), EscrowError>(EscrowError::Unauthorized),
        m,
        ),
{
}

/// Settling a funded escrow by the relayer pays exactly the custodied deposit
/// to the recipient and makes the escrow settled; settling it again fails with
/// `InvalidState`, owes no transfer and changes nothing.
pub proof fn law_settle_once(
    config: EscrowConfig,
    m: Escrows,
    id: Seq<char>,
    caller: Identity,
    again_outcome: Result<(), TransferError>,
)
    requires
        caller.same(config.relayer),
        m.contains_key(id),
        m[id].consistent(),
        m[id].status == Status::Funded,
    ensures
        settle_check(config, m, id, caller) == Ok::<Transfer, EscrowError>(
            Transfer {
                from: Endpoint::Custody(m[id].custody.unwrap().handle),
                to: Endpoint::Account(m[id].recipient),
                amount: m[id].custody.unwrap().deposited,
            },
        ),
        settle_step(config, m, id, caller, Ok(())) == (
        Ok::<(), EscrowError>(()),
        with_status(m, id, Status::Settled),
        ),
        settle_check(config, with_status(m, id, Status::Settled), id, caller) == Err::<
            Transfer,
            EscrowError,
        >(EscrowError::InvalidState),
        settle_step(config, with_status(m, id, Status::Settled), id, caller, again_outcome) == (
        Err::<(), EscrowError>(EscrowError::InvalidState),
        with_status(m, id, Status::Settled),
        ),
{
}

/// Cancelling a funded escrow by the relayer returns exactly the custodied
/// deposit to the caller and makes the escrow cancelled.
pub proof fn law_cancel_funded_refunds(
    config: EscrowConfig,
    m: Escrows,
    id: Seq<char>,
    caller: Identity,
)
    requires
        caller.same(config.relayer),
        m.contains_key(id),
        m[id].consistent(),
        m[id].status == Status::Funded,
    ensures
        cancel_check(config, m, id, caller) == Ok::<Option<Transfer>, EscrowError>(
            Some(
                Transfer {
                    from: Endpoint::Custody(m[id].custody.unwrap().handle),
                    to: Endpoint::Account(caller),
                    amount: m[id].custody.unwrap().deposited,
                },
            ),
        ),
        cancel_step(config, m, id, caller, Ok(())) == (
        Ok::<(), EscrowError>(()),
        with_status(m, id, Status::Cancelled),
        ),
        with_status(m, id, Status::Cancelled)[id].status == Status::Cancelled,
{
}

/// Cancelling an initiated escrow by the relayer makes it cancelled and owes
/// no transfer, so no funds move whatever outcome is reported.
pub proof fn law_cancel_initiated_moves_nothing(
    config: EscrowConfig,
    m: Escrows,
    id: Seq<char>,
    caller: Identity,
    outcome: Result<(), TransferError>,
)
    requires
        caller.same(config.relayer),
        m.contains_key(id),
        m[id].status == Status::Initiated,
    ensures
        cancel_check(config, m, id, caller) == Ok::<Option<Transfer>, EscrowError>(None),
        cancel_step(config, m, id, caller, outcome) == (
        Ok::<(), EscrowError>(()),
        with_status(m, id, Status::Cancelled),
        ),
        with_status(m, id, Status::Cancelled)[id].status == Status::Cancelled,
{
}

/// Funding, settling and cancelling touch only the escrow they name, keep the
/// set of identifiers, and never change an escrow's recipient or amount.
pub proof fn law_steps_touch_one_escrow(
    config: EscrowConfig,
    m: Escrows,
    id: Seq<char>,
    paid: Amount,
    handle: CustodyHandle,
    caller: Identity,
    outcome: Result<(), TransferError>,
    k: Seq<char>,
)
    requires
        m.contains_key(k),
    ensures
        ({
            let after = fund_step(m, id, paid, handle, outcome).1;
            &&& after.dom() == m.dom()
            &&& after[k].recipient == m[k].recipient
            &&& after[k].amount == m[k].amount
            &&& k != id ==> after[k] == m[k]
        }),
        ({
            let after = settle_step(config, m, id, caller, outcome).1;
            &&& after.dom() == m.dom()
            &&& after[k].recipient == m[k].recipient
            &&& after[k].amount == m[k].amount
            &&& k != id ==> after[k] == m[k]
        }),
        ({
            let after = cancel_step(config, m, id, caller, outcome).1;
            &&& after.dom() == m.dom()
            &&& after[k].recipient == m[k].recipient
            &&& after[k].amount == m[k].amount
            &&& k != id ==> after[k] == m[k]
        }),
{
    if m.contains_key(id) {
        assert(m.insert(id, m[id]).dom() =~= m.dom());
        assert(fund_step(m, id, paid, handle, outcome).1.dom() =~= m.dom());
        assert(settle_step(config, m, id, caller, outcome).1.dom() =~= m.dom());
        assert(cancel_step(config, m, id, caller, outcome).1.dom() =~= m.dom());
    }
}

/// Each status has its own persisted code, at most 3, so decoding the code of
/// a status gives that status back and every larger code is rejected.
pub proof fn law_status_code_round_trip(s: Status, t: Status)
    ensures
        status_code(s) <= 3,
        status_code(s) == status_code(t) ==> s == t,
{
}

} // verus!

//! The transfer lifecycle controller.
//!
//! Per id the state machine is: absent, then pending once created, then
//! absent again once resolved. Each operation validates its preconditions
//! against the store and the collaborator data the host reports, performs at
//! most one store mutation, and returns exactly one custody-transfer
//! instruction together with its audit attributes — or an error, in which
//! case the store is untouched.
//!
//! The asset registry and the ledger are externally owned: each operation
//! takes the data they report at call time (asset classification, the
//! caller's balance, the permission grants on the asset class) as arguments,
//! and its contract is stated relative to that snapshot.
use vstd::prelude::*;

use crate::auth::{grants_view, spec_is_administrator, AccessGrant, AccessGrantV};
use crate::error::{ContractError, ErrorV};
use crate::msg::{execute_invalid_fields, ExecuteMsg};
use crate::state::{at_id, has_id, remove_id, Store, Transfer, TransferV};

verus! {

/// How the asset registry classifies a denomination: a restricted
/// (permissioned) asset class, or anything else.
#[derive(Clone, Copy, Debug, PartialEq, Eq, Structural)]
pub enum AssetClass {
    Restricted,
    Other,
}

/// The operation an audit attribute set records.
#[derive(Clone, Copy, Debug, PartialEq, Eq, Structural)]
pub enum Action {
    Transfer,
    Approve,
    Reject,
    Cancel,
}

impl Action {
    /// The audit label of the action.
    pub fn label(&self) -> (s: &'static str)
        ensures
            s@ == self.spec_label(),
    {
        match self {
            Action::Transfer => "create_transfer",
            Action::Approve => "approve",
            Action::Reject => "reject",
            Action::Cancel => "cancel",
        }
    }

    /// The audit label of the action.
    pub open spec fn spec_label(&self) -> Seq<char> {
        match self {
            Action::Transfer => "create_transfer"@,
            Action::Approve => "approve"@,
            Action::Reject => "reject"@,
            Action::Cancel => "cancel"@,
        }
    }
}

/// One native coin attached to a call.
#[derive(Debug, PartialEq)]
pub struct Coin {
    pub denom: String,
    pub amount: u128,
}

/// The mathematical shape of a `Coin`.
pub struct CoinV {
    pub denom: Seq<char>,
    pub amount: u128,
}

impl View for Coin {
    type V = CoinV;

    open spec fn view(&self) -> CoinV {
        CoinV { denom: self.denom@, amount: self.amount }
    }
}

/// The view of a list of attached coins.
pub open spec fn funds_view(funds: Seq<Coin>) -> Seq<CoinV> {
    funds.map_values(|c: Coin| c@)
}

/// One privileged custody transfer the ledger is instructed to perform:
/// `amount` units of `denom` move from `from` to `to`.
#[derive(Debug, PartialEq)]
pub struct TransferInstruction {
    pub amount: u128,
    pub denom: String,
    pub from: String,
    pub to: String,
}

/// The mathematical shape of a `TransferInstruction`.
pub struct InstructionV {
    pub amount: u128,
    pub denom: Seq<char>,
    pub from: Seq<char>,
    pub to: Seq<char>,
}

impl View for TransferInstruction {
    type V = InstructionV;

    open spec fn view(&self) -> InstructionV {
        InstructionV { amount: self.amount, denom: self.denom@, from: self.from@, to: self.to@ }
    }
}

/// What a successful operation commits besides its store mutation: the audit
/// attribute set and exactly one custody-transfer instruction.
#[derive(Debug, PartialEq)]
pub struct ExecuteResponse {
    pub action: Action,
    pub id: String,
    pub denom: String,
    pub amount: u128,
    pub sender: String,
    pub recipient: Option<String>,
    pub admin: Option<String>,
    pub instruction: TransferInstruction,
}

/// The mathematical shape of an `ExecuteResponse`.
pub struct ResponseV {
    pub action: Action,
    pub id: Seq<char>,
    pub denom: Seq<char>,
    pub amount: u128,
    pub sender: Seq<char>,
    pub recipient: Option<Seq<char>>,
    pub admin: Option<Seq<char>>,
    pub instruction: InstructionV,
}

impl View for ExecuteResponse {
    type V = ResponseV;

    open spec fn view(&self) -> ResponseV {
        ResponseV {
            action: self.action,
            id: self.id@,
            denom: self.denom@,
            amount: self.amount,
            sender: self.sender@,
            recipient: match &self.recipient {
                Some(r) => Some(r@),
                None => None,
            },
            admin: match &self.admin {
                Some(a) => Some(a@),
                None => None,
            },
            instruction: self.instruction@,
        }
    }
}

/// What creating a transfer does: escrow `amount` of `denom` from `sender`
/// into the contract's custody and persist the pending record — or fail,
/// leaving the store as it was.
///
/// The checks run in this order: asset class first, then attached funds, then
/// the sender's balance, then id uniqueness.
pub open spec fn spec_create(
    store: Seq<TransferV>,
    contract: Seq<char>,
    sender: Seq<char>,
    funds: Seq<CoinV>,
    id: Seq<char>,
    denom: Seq<char>,
    amount: u128,
    recipient: Seq<char>,
    class: AssetClass,
    sender_balance: u128,
) -> Result<(Seq<TransferV>, ResponseV), ErrorV> {
    if class != AssetClass::Restricted {
        Err(ErrorV::UnsupportedMarkerType)
    } else if funds.len() != 0 {
        Err(ErrorV::SentFundsUnsupported)
    } else if sender_balance < amount {
        Err(ErrorV::InsufficientFunds)
    } else if has_id(store, id) {
        Err(ErrorV::InvalidFields { fields: seq!["id"@] })
    } else {
        let t = TransferV { id, sender, denom, amount, recipient };
        let resp = ResponseV {
            action: Action::Transfer,
            id,
            denom,
            amount,
            sender,
            recipient: Some(recipient),
            admin: None,
            instruction: InstructionV { amount, denom, from: sender, to: contract },
        };
        Ok((store.push(t), resp))
    }
}

/// What cancelling a pending transfer does: only its original sender may
/// cancel; the escrowed amount returns from contract custody to the sender
/// and the record is deleted — or the operation fails, leaving the store as
/// it was.
///
/// A missing record short-circuits before the funds check, which precedes the
/// authorization check.
pub open spec fn spec_cancel(
    store: Seq<TransferV>,
    contract: Seq<char>,
    caller: Seq<char>,
    funds: Seq<CoinV>,
    id: Seq<char>,
) -> Result<(Seq<TransferV>, ResponseV), ErrorV> {
    if !has_id(store, id) {
        Err(ErrorV::LoadTransferFailed)
    } else if funds.len() != 0 {
        Err(ErrorV::SentFundsUnsupported)
    } else {
        let t = at_id(store, id);
        if caller != t.sender {
            Err(ErrorV::Unauthorized)
        } else {
            let resp = ResponseV {
                action: Action::Cancel,
                id,
                denom: t.denom,
                amount: t.amount,
                sender: t.sender,
                recipient: None,
                admin: None,
                instruction: InstructionV {
                    amount: t.amount,
                    denom: t.denom,
                    from: contract,
                    to: t.sender,
                },
            };
            Ok((remove_id(store, id), resp))
        }
    }
}

/// What rejecting a pending transfer does: only an administrator of the
/// transfer's asset class may reject; the escrowed amount returns from
/// contract custody to the sender and the record is deleted — or the
/// operation fails, leaving the store as it was.
///
/// `grants` is the permission list the asset registry reports for the
/// transfer's denomination at call time.
pub open spec fn spec_reject(
    store: Seq<TransferV>,
    contract: Seq<char>,
    caller: Seq<char>,
    funds: Seq<CoinV>,
    id: Seq<char>,
    grants: Seq<AccessGrantV>,
) -> Result<(Seq<TransferV>, ResponseV), ErrorV> {
    if !has_id(store, id) {
        Err(ErrorV::LoadTransferFailed)
    } else if funds.len() != 0 {
        Err(ErrorV::SentFundsUnsupported)
    } else if !spec_is_administrator(grants, caller) {
        Err(ErrorV::Unauthorized)
    } else {
        let t = at_id(store, id);
        let resp = ResponseV {
            action: Action::Reject,
            id,
            denom: t.denom,
            amount: t.amount,
            sender: t.sender,
            recipient: None,
            admin: Some(caller),
            instruction: InstructionV {
                amount: t.amount,
                denom: t.denom,
                from: contract,
                to: t.sender,
            },
        };
        Ok((remove_id(store, id), resp))
    }
}

/// What approving a pending transfer does: only an administrator of the
/// transfer's asset class may approve; the escrowed amount moves from
/// contract custody to the recipient and the record is deleted — or the
/// operation fails, leaving the store as it was.
///
/// `grants` is the permission list the asset registry reports for the
/// transfer's denomination at call time.
pub open spec fn spec_approve(
    store: Seq<TransferV>,
    contract: Seq<char>,
    caller: Seq<char>,
    funds: Seq<CoinV>,
    id: Seq<char>,
    grants: Seq<AccessGrantV>,
) -> Result<(Seq<TransferV>, ResponseV), ErrorV> {
    if !has_id(store, id) {
        Err(ErrorV::LoadTransferFailed)
    } else if funds.len() != 0 {
        Err(ErrorV::SentFundsUnsupported)
    } else if !spec_is_administrator(grants, caller) {
        Err(ErrorV::Unauthorized)
    } else {
        let t = at_id(store, id);
        let resp = ResponseV {
            action: Action::Approve,
            id,
            denom: t.denom,
            amount: t.amount,
            sender: t.sender,
            recipient: Some(t.recipient),
            admin: Some(caller),
            instruction: InstructionV {
                amount: t.amount,
                denom: t.denom,
                from: contract,
                to: t.recipient,
            },
        };
        Ok((remove_id(store, id), resp))
    }
}

/// Creates a pending transfer, escrowing `amount` of `denom` from `sender`
/// with the contract at address `contract`.
///
/// `class` is the registry's classification of `denom` and `sender_balance`
/// the ledger's balance of `denom` held by `sender`, both at call time.
pub fn create_transfer(
    store: &mut Store,
    contract: &String,
    sender: &String,
    funds: &Vec<Coin>,
    id: String,
    denom: String,
    amount: u128,
    recipient: String,
    class: AssetClass,
    sender_balance: u128,
) -> (r: Result<ExecuteResponse, ContractError>)
    requires
        old(store).wf(),
    ensures
        final(store).wf(),
        match r {
            Ok(resp) => spec_create(
                old(store)@,
                contract@,
                sender@,
                funds_view(funds@),
                id@,
                denom@,
                amount,
                recipient@,
                class,
                sender_balance,
            ) == Ok::<(Seq<TransferV>, ResponseV), ErrorV>((final(store)@, resp@)),
            Err(e) => spec_create(
                old(store)@,
                contract@,
                sender@,
                funds_view(funds@),
                id@,
                denom@,
                amount,
                recipient@,
                class,
                sender_balance,
            ) == Err::<(Seq<TransferV>, ResponseV), ErrorV>(e@) && *final(store) == *old(store),
        },
{
    if !matches!(class, AssetClass::Restricted) {
        return Err(ContractError::UnsupportedMarkerType);
    }
    if funds.len() != 0 {
        return Err(ContractError::SentFundsUnsupported);
    }
    if sender_balance < amount {
        return Err(ContractError::InsufficientFunds);
    }
    if store.contains(&id) {
        let e = ContractError::InvalidFields { fields: vec!["id".to_owned()] };
        proof {
            assert(e@ matches ErrorV::InvalidFields { fields } && fields =~= seq!["id"@]);
        }
        return Err(e);
    }
    let transfer = Transfer {
        id: id.clone(),
        sender: sender.clone(),
        denom: denom.clone(),
        amount,
        recipient: recipient.clone(),
    };
    store.put(transfer);
    let resp = ExecuteResponse {
        action: Action::Transfer,
        id,
        denom: denom.clone(),
        amount,
        sender: sender.clone(),
        recipient: Some(recipient),
        admin: None,
        instruction: TransferInstruction {
            amount,
            denom,
            from: sender.clone(),
            to: contract.clone(),
        },
    };
    Ok(resp)
}

/// Cancels the pending transfer `id` on behalf of `caller`, returning the
/// escrowed funds from contract custody to the original sender.
pub fn cancel_transfer(
    store: &mut Store,
    contract: &String,
    caller: &String,
    funds: &Vec<Coin>,
    id: String,
) -> (r: Result<ExecuteResponse, ContractError>)
    requires
        old(store).wf(),
    ensures
        final(store).wf(),
        match r {
            Ok(resp) => spec_cancel(old(store)@, contract@, caller@, funds_view(funds@), id@)
                == Ok::<(Seq<TransferV>, ResponseV), ErrorV>((final(store)@, resp@)),
            Err(e) => spec_cancel(old(store)@, contract@, caller@, funds_view(funds@), id@)
                == Err::<(Seq<TransferV>, ResponseV), ErrorV>(e@) && *final(store) == *old(store),
        },
{
    let record = match store.get(&id) {
        Some(t) => t,
        None => {
            return Err(ContractError::LoadTransferFailed);
        }
    };
    if funds.len() != 0 {
        return Err(ContractError::SentFundsUnsupported);
    }
    if !(*caller == record.sender) {
        return Err(ContractError::Unauthorized);
    }
    let removed = store.delete(&id);
    let resp = ExecuteResponse {
        action: Action::Cancel,
        id,
        denom: removed.denom.clone(),
        amount: removed.amount,
        sender: removed.sender.clone(),
        recipient: None,
        admin: None,
        instruction: TransferInstruction {
            amount: removed.amount,
            denom: removed.denom,
            from: contract.clone(),
            to: removed.sender,
        },
    };
    Ok(resp)
}

/// Rejects the pending transfer `id` on behalf of `caller`, returning the
/// escrowed funds from contract custody to the original sender.
///
/// `grants` is the permission list the asset registry reports for the
/// transfer's denomination at call time; only an administrator among them may
/// reject.
pub fn reject_transfer(
    store: &mut Store,
    contract: &String,
    caller: &String,
    funds: &Vec<Coin>,
    id: String,
    grants: &Vec<AccessGrant>,
) -> (r: Result<ExecuteResponse, ContractError>)
    requires
        old(store).wf(),
    ensures
        final(store).wf(),
        match r {
            Ok(resp) => spec_reject(
                old(store)@,
                contract@,
                caller@,
                funds_view(funds@),
                id@,
                grants_view(grants@),
            ) == Ok::<(Seq<TransferV>, ResponseV), ErrorV>((final(store)@, resp@)),
            Err(e) => spec_reject(
                old(store)@,
                contract@,
                caller@,
                funds_view(funds@),
                id@,
                grants_view(grants@),
            ) == Err::<(Seq<TransferV>, ResponseV), ErrorV>(e@) && *final(store) == *old(store),
        },
{
    if !store.contains(&id) {
        return Err(ContractError::LoadTransferFailed);
    }
    if funds.len() != 0 {
        return Err(ContractError::SentFundsUnsupported);
    }
    if !crate::auth::is_administrator(grants, caller) {
        return Err(ContractError::Unauthorized);
    }
    let removed = store.delete(&id);
    let resp = ExecuteResponse {
        action: Action::Reject,
        id,
        denom: removed.denom.clone(),
        amount: removed.amount,
        sender: removed.sender.clone(),
        recipient: None,
        admin: Some(caller.clone()),
        instruction: TransferInstruction {
            amount: removed.amount,
            denom: removed.denom,
            from: contract.clone(),
            to: removed.sender,
        },
    };
    Ok(resp)
}

/// Approves the pending transfer `id` on behalf of `caller`, moving the
/// escrowed funds from contract custody to the recipient.
///
/// `grants` is the permission list the asset registry reports for the
/// transfer's denomination at call time; only an administrator among them may
/// approve.
pub fn approve_transfer(
    store: &mut Store,
    contract: &String,
    caller: &String,
    funds: &Vec<Coin>,
    id: String,
    grants: &Vec<AccessGrant>,
) -> (r: Result<ExecuteResponse, ContractError>)
    requires
        old(store).wf(),
    ensures
        final(store).wf(),
        match r {
            Ok(resp) => spec_approve(
                old(store)@,
                contract@,
                caller@,
                funds_view(funds@),
                id@,
                grants_view(grants@),
            ) == Ok::<(Seq<TransferV>, ResponseV), ErrorV>((final(store)@, resp@)),
            Err(e) => spec_approve(
                old(store)@,
                contract@,
                caller@,
                funds_view(funds@),
                id@,
                grants_view(grants@),
            ) == Err::<(Seq<TransferV>, ResponseV), ErrorV>(e@) && *final(store) == *old(store),
        },
{
    if !store.contains(&id) {
        return Err(ContractError::LoadTransferFailed);
    }
    if funds.len() != 0 {
        return Err(ContractError::SentFundsUnsupported);
    }
    if !crate::auth::is_administrator(grants, caller) {
        return Err(ContractError::Unauthorized);
    }
    let removed = store.delete(&id);
    let resp = ExecuteResponse {
        action: Action::Approve,
        id,
        denom: removed.denom.clone(),
        amount: removed.amount,
        sender: removed.sender.clone(),
        recipient: Some(removed.recipient.clone()),
        admin: Some(caller.clone()),
        instruction: TransferInstruction {
            amount: removed.amount,
            denom: removed.denom,
            from: contract.clone(),
            to: removed.recipient,
        },
    };
    Ok(resp)
}

/// What an execute call does: reject a malformed payload, then run the
/// requested lifecycle operation against the store and the host-reported
/// snapshot.
///
/// `class` and `sender_balance` are consulted only by a create; `grants` only
/// by an approve or reject.
pub open spec fn spec_execute(
    store: Seq<TransferV>,
    contract: Seq<char>,
    sender: Seq<char>,
    funds: Seq<CoinV>,
    msg: ExecuteMsg,
    class: AssetClass,
    sender_balance: u128,
    grants: Seq<AccessGrantV>,
) -> Result<(Seq<TransferV>, ResponseV), ErrorV> {
    if execute_invalid_fields(msg).len() != 0 {
        Err(ErrorV::InvalidFields { fields: execute_invalid_fields(msg) })
    } else {
        match msg {
            ExecuteMsg::ApproveTransfer { id } => spec_approve(
                store,
                contract,
                sender,
                funds,
                id@,
                grants,
            ),
            ExecuteMsg::CancelTransfer { id } => spec_cancel(store, contract, sender, funds, id@),
            ExecuteMsg::RejectTransfer { id } => spec_reject(
                store,
                contract,
                sender,
                funds,
                id@,
                grants,
            ),
            ExecuteMsg::Transfer { id, denom, amount, recipient } => spec_create(
                store,
                contract,
                sender,
                funds,
                id@,
                denom@,
                amount,
                recipient@,
                class,
                sender_balance,
            ),
        }
    }
}

/// The execute entrypoint of the contract core: validates the payload and
/// dispatches to the requested lifecycle operation.
///
/// `contract` is the contract's own custody address, `sender` the caller and
/// `funds` the natively attached coins. `class`, `sender_balance` and
/// `grants` are the asset registry's and the ledger's answers for the
/// denomination the call concerns, read at call time.
pub fn execute(
    store: &mut Store,
    contract: &String,
    sender: &String,
    funds: &Vec<Coin>,
    msg: ExecuteMsg,
    class: AssetClass,
    sender_balance: u128,
    grants: &Vec<AccessGrant>,
) -> (r: Result<ExecuteResponse, ContractError>)
    requires
        old(store).wf(),
    ensures
        final(store).wf(),
        match r {
            Ok(resp) => spec_execute(
                old(store)@,
                contract@,
                sender@,
                funds_view(funds@),
                msg,
                class,
                sender_balance,
                grants_view(grants@),
            ) == Ok::<(Seq<TransferV>, ResponseV), ErrorV>((final(store)@, resp@)),
            Err(e) => spec_execute(
                old(store)@,
                contract@,
                sender@,
                funds_view(funds@),
                msg,
                class,
                sender_balance,
                grants_view(grants@),
            ) == Err::<(Seq<TransferV>, ResponseV), ErrorV>(e@) && *final(store) == *old(store),
        },
{
    match msg.validate() {
        Ok(()) => {}
        Err(e) => {
            return Err(e);
        }
    }
    match msg {
        ExecuteMsg::ApproveTransfer { id } => approve_transfer(
            store,
            contract,
            sender,
            funds,
            id,
            grants,
        ),
        ExecuteMsg::CancelTransfer { id } => cancel_transfer(store, contract, sender, funds, id),
        ExecuteMsg::RejectTransfer { id } => reject_transfer(
            store,
            contract,
            sender,
            funds,
            id,
            grants,
        ),
        ExecuteMsg::Transfer { id, denom, amount, recipient } => create_transfer(
            store,
            contract,
            sender,
            funds,
            id,
            denom,
            amount,
            recipient,
            class,
            sender_balance,
        ),
    }
}

/// The query surface: the pending transfer under `id`, or
/// `LoadTransferFailed` where none is live. Read-only.
pub fn get_transfer(store: &Store, id: &String) -> (r: Result<Transfer, ContractError>)
    requires
        store.wf(),
    ensures
        match r {
            Ok(t) => has_id(store@, id@) && t@ == at_id(store@, id@),
            Err(e) => !has_id(store@, id@) && e@ == ErrorV::LoadTransferFailed,
        },
{
    match store.get(id) {
        Some(t) => Ok(t),
        None => Err(ContractError::LoadTransferFailed),
    }
}

} // verus!

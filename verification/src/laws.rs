//! The laws of the escrow lifecycle, proved once and for all over the spec
//! transitions that the executable operations are verified against:
//! uniqueness of live ids, conservation of the escrowed amount, the
//! authorization rules, the no-attached-funds rule, and idempotence of
//! failure.
use vstd::prelude::*;

use crate::auth::{spec_is_administrator, AccessGrantV};
use crate::contract::{
    spec_approve, spec_cancel, spec_create, spec_execute, spec_reject, AssetClass, CoinV,
    ResponseV,
};
use crate::error::ErrorV;
use crate::msg::{execute_invalid_fields, ExecuteMsg};
use crate::state::{at_id, has_id, ids_unique, TransferV};

verus! {

/// Law (uniqueness): at most one live transfer carries any given id — in a
/// well-formed store, two positions holding the same id are one position.
pub proof fn lemma_at_most_one_per_id(store: Seq<TransferV>, i: int, j: int)
    requires
        ids_unique(store),
        0 <= i < store.len(),
        0 <= j < store.len(),
        store[i].id == store[j].id,
    ensures
        i == j,
{
}

/// Appending a record under a fresh id keeps ids unique, and the new record
/// is the one found under its id.
proof fn lemma_at_id_push(store: Seq<TransferV>, t: TransferV)
    requires
        ids_unique(store),
        !has_id(store, t.id),
    ensures
        ids_unique(store.push(t)),
        has_id(store.push(t), t.id),
        at_id(store.push(t), t.id) == t,
{
    let pushed = store.push(t);
    assert(pushed[store.len() as int] == t);
    assert forall|i: int, j: int|
        0 <= i < pushed.len() && 0 <= j < pushed.len() && i != j
        implies pushed[i].id != pushed[j].id by {
        if i < store.len() && j < store.len() {
            assert(store[i].id != store[j].id);
        } else if i < store.len() {
            assert(!(store[i].id == t.id));
        } else if j < store.len() {
            assert(!(store[j].id == t.id));
        }
    }
    let k = crate::state::idx_of(pushed, t.id);
    assert(pushed[k].id == t.id);
    if k < store.len() {
        assert(store[k].id == t.id);
        assert(has_id(store, t.id));
    }
}

/// Law (uniqueness): creating a transfer under an id that is already live
/// always fails with `InvalidFields` over the id — and, by the operation's
/// contract, a failure leaves every record unchanged. The request is
/// otherwise acceptable: restricted class, no funds, sufficient balance.
pub proof fn lemma_create_duplicate_fails(
    store: Seq<TransferV>,
    contract: Seq<char>,
    sender: Seq<char>,
    funds: Seq<CoinV>,
    id: Seq<char>,
    denom: Seq<char>,
    amount: u128,
    recipient: Seq<char>,
    sender_balance: u128,
)
    requires
        has_id(store, id),
        funds.len() == 0,
        sender_balance >= amount,
    ensures
        spec_create(
            store,
            contract,
            sender,
            funds,
            id,
            denom,
            amount,
            recipient,
            AssetClass::Restricted,
            sender_balance,
        ) == Err::<(Seq<TransferV>, ResponseV), ErrorV>(
            ErrorV::InvalidFields { fields: seq!["id"@] },
        ),
{
}

/// Law (conservation, approve): what an approval pays out is exactly what the
/// creation escrowed — the same amount of the same denomination, moved once
/// from the sender into contract custody and once from custody to the
/// recipient, after which the record is gone.
pub proof fn lemma_conservation_approve(
    store0: Seq<TransferV>,
    contract: Seq<char>,
    sender: Seq<char>,
    funds_create: Seq<CoinV>,
    id: Seq<char>,
    denom: Seq<char>,
    amount: u128,
    recipient: Seq<char>,
    class: AssetClass,
    sender_balance: u128,
    store1: Seq<TransferV>,
    resp1: ResponseV,
    caller: Seq<char>,
    funds_resolve: Seq<CoinV>,
    grants: Seq<AccessGrantV>,
    store2: Seq<TransferV>,
    resp2: ResponseV,
)
    requires
        ids_unique(store0),
        spec_create(
            store0,
            contract,
            sender,
            funds_create,
            id,
            denom,
            amount,
            recipient,
            class,
            sender_balance,
        ) == Ok::<(Seq<TransferV>, ResponseV), ErrorV>((store1, resp1)),
        spec_approve(store1, contract, caller, funds_resolve, id, grants)
            == Ok::<(Seq<TransferV>, ResponseV), ErrorV>((store2, resp2)),
    ensures
        resp1.instruction.amount == amount,
        resp1.instruction.denom == denom,
        resp1.instruction.from == sender,
        resp1.instruction.to == contract,
        resp2.instruction.amount == amount,
        resp2.instruction.denom == denom,
        resp2.instruction.from == contract,
        resp2.instruction.to == recipient,
        !has_id(store2, id),
{
    let t = TransferV { id, sender, denom, amount, recipient };
    lemma_at_id_push(store0, t);
    lemma_remove_id_drops(store1, id);
}

/// Law (conservation, cancel and reject): either way of returning an escrow
/// pays back exactly what the creation escrowed — the same amount of the same
/// denomination, from contract custody to the original sender, after which
/// the record is gone.
pub proof fn lemma_conservation_return(
    store0: Seq<TransferV>,
    contract: Seq<char>,
    sender: Seq<char>,
    funds_create: Seq<CoinV>,
    id: Seq<char>,
    denom: Seq<char>,
    amount: u128,
    recipient: Seq<char>,
    class: AssetClass,
    sender_balance: u128,
    store1: Seq<TransferV>,
    resp1: ResponseV,
    caller: Seq<char>,
    funds_resolve: Seq<CoinV>,
    grants: Seq<AccessGrantV>,
)
    requires
        ids_unique(store0),
        spec_create(
            store0,
            contract,
            sender,
            funds_create,
            id,
            denom,
            amount,
            recipient,
            class,
            sender_balance,
        ) == Ok::<(Seq<TransferV>, ResponseV), ErrorV>((store1, resp1)),
    ensures
        spec_cancel(store1, contract, caller, funds_resolve, id) matches Ok((store2, resp2))
            ==> resp2.instruction == (crate::contract::InstructionV {
                amount,
                denom,
                from: contract,
                to: sender,
            }) && !has_id(store2, id),
        spec_reject(store1, contract, caller, funds_resolve, id, grants) matches Ok(
            (store2, resp2),
        ) ==> resp2.instruction == (crate::contract::InstructionV {
            amount,
            denom,
            from: contract,
            to: sender,
        }) && !has_id(store2, id),
{
    let t = TransferV { id, sender, denom, amount, recipient };
    lemma_at_id_push(store0, t);
    lemma_remove_id_drops(store1, id);
}

/// Deleting the record under an id in a well-formed store leaves no record
/// under that id.
proof fn lemma_remove_id_drops(store: Seq<TransferV>, id: Seq<char>)
    requires
        ids_unique(store),
        has_id(store, id),
    ensures
        !has_id(crate::state::remove_id(store, id), id),
        ids_unique(crate::state::remove_id(store, id)),
{
    let k = crate::state::idx_of(store, id);
    assert(store[k].id == id);
    let removed = store.remove(k);
    assert forall|m: int| 0 <= m < removed.len() implies removed[m].id != id by {
        let m0 = if m < k {
            m
        } else {
            m + 1
        };
        assert(store[m0].id == removed[m].id);
        assert(store[m0].id != store[k].id);
    }
    assert forall|m: int, n: int|
        0 <= m < removed.len() && 0 <= n < removed.len() && m != n
        implies removed[m].id != removed[n].id by {
        let m0 = if m < k {
            m
        } else {
            m + 1
        };
        let n0 = if n < k {
            n
        } else {
            n + 1
        };
        assert(store[m0].id != store[n0].id);
    }
}

/// Law (authorization): on a live record and a funds-free call, approve and
/// reject succeed exactly when the caller is an administrator of the asset
/// class, cancel exactly when the caller is the original sender; every other
/// caller gets `Unauthorized` — and, by the operations' contracts, a failure
/// leaves every record unchanged.
pub proof fn lemma_authorization(
    store: Seq<TransferV>,
    contract: Seq<char>,
    caller: Seq<char>,
    funds: Seq<CoinV>,
    id: Seq<char>,
    grants: Seq<AccessGrantV>,
)
    requires
        has_id(store, id),
        funds.len() == 0,
    ensures
        spec_approve(store, contract, caller, funds, id, grants) is Ok <==> spec_is_administrator(
            grants,
            caller,
        ),
        spec_reject(store, contract, caller, funds, id, grants) is Ok <==> spec_is_administrator(
            grants,
            caller,
        ),
        spec_cancel(store, contract, caller, funds, id) is Ok <==> caller == at_id(
            store,
            id,
        ).sender,
        !spec_is_administrator(grants, caller) ==> spec_approve(
            store,
            contract,
            caller,
            funds,
            id,
            grants,
        ) == Err::<(Seq<TransferV>, ResponseV), ErrorV>(ErrorV::Unauthorized),
        !spec_is_administrator(grants, caller) ==> spec_reject(
            store,
            contract,
            caller,
            funds,
            id,
            grants,
        ) == Err::<(Seq<TransferV>, ResponseV), ErrorV>(ErrorV::Unauthorized),
        caller != at_id(store, id).sender ==> spec_cancel(store, contract, caller, funds, id)
            == Err::<(Seq<TransferV>, ResponseV), ErrorV>(ErrorV::Unauthorized),
{
}

/// Law (no attached funds): an execute call that attaches funds fails with
/// `SentFundsUnsupported` and changes nothing — stated for calls on which the
/// funds check is reached: a well-formed payload, a restricted class for a
/// create, a live record for a resolution (a missing record or an unsupported
/// class fails first, by the documented check order).
pub proof fn lemma_nonempty_funds_rejected(
    store: Seq<TransferV>,
    contract: Seq<char>,
    sender: Seq<char>,
    funds: Seq<CoinV>,
    msg: ExecuteMsg,
    class: AssetClass,
    sender_balance: u128,
    grants: Seq<AccessGrantV>,
)
    requires
        funds.len() != 0,
        execute_invalid_fields(msg).len() == 0,
        msg matches ExecuteMsg::Transfer { .. } ==> class == AssetClass::Restricted,
        match msg {
            ExecuteMsg::ApproveTransfer { id } => has_id(store, id@),
            ExecuteMsg::CancelTransfer { id } => has_id(store, id@),
            ExecuteMsg::RejectTransfer { id } => has_id(store, id@),
            ExecuteMsg::Transfer { .. } => true,
        },
    ensures
        spec_execute(store, contract, sender, funds, msg, class, sender_balance, grants)
            == Err::<(Seq<TransferV>, ResponseV), ErrorV>(ErrorV::SentFundsUnsupported),
{
}

/// The store an execute call leaves behind: its successor store on success,
/// the store it was given on failure.
pub open spec fn spec_execute_store(
    store: Seq<TransferV>,
    contract: Seq<char>,
    sender: Seq<char>,
    funds: Seq<CoinV>,
    msg: ExecuteMsg,
    class: AssetClass,
    sender_balance: u128,
    grants: Seq<AccessGrantV>,
) -> Seq<TransferV> {
    match spec_execute(store, contract, sender, funds, msg, class, sender_balance, grants) {
        Ok((next, resp)) => next,
        Err(e) => store,
    }
}

/// The store after re-issuing one and the same execute call `n` times.
pub open spec fn spec_execute_iter(
    n: nat,
    store: Seq<TransferV>,
    contract: Seq<char>,
    sender: Seq<char>,
    funds: Seq<CoinV>,
    msg: ExecuteMsg,
    class: AssetClass,
    sender_balance: u128,
    grants: Seq<AccessGrantV>,
) -> Seq<TransferV>
    decreases n,
{
    if n == 0 {
        store
    } else {
        spec_execute_store(
            spec_execute_iter(
                (n - 1) as nat,
                store,
                contract,
                sender,
                funds,
                msg,
                class,
                sender_balance,
                grants,
            ),
            contract,
            sender,
            funds,
            msg,
            class,
            sender_balance,
            grants,
        )
    }
}

/// Law (idempotent failure): a failed execute call leaves the store exactly
/// as it was, so re-issuing it any number of times keeps producing the same
/// error and never mutates the store.
pub proof fn lemma_failure_idempotent(
    n: nat,
    store: Seq<TransferV>,
    contract: Seq<char>,
    sender: Seq<char>,
    funds: Seq<CoinV>,
    msg: ExecuteMsg,
    class: AssetClass,
    sender_balance: u128,
    grants: Seq<AccessGrantV>,
    e: ErrorV,
)
    requires
        spec_execute(store, contract, sender, funds, msg, class, sender_balance, grants)
            == Err::<(Seq<TransferV>, ResponseV), ErrorV>(e),
    ensures
        spec_execute_iter(n, store, contract, sender, funds, msg, class, sender_balance, grants)
            == store,
        spec_execute(
            spec_execute_iter(n, store, contract, sender, funds, msg, class, sender_balance, grants),
            contract,
            sender,
            funds,
            msg,
            class,
            sender_balance,
            grants,
        ) == Err::<(Seq<TransferV>, ResponseV), ErrorV>(e),
    decreases n,
{
    if n > 0 {
        lemma_failure_idempotent(
            (n - 1) as nat,
            store,
            contract,
            sender,
            funds,
            msg,
            class,
            sender_balance,
            grants,
            e,
        );
    }
}

} // verus!

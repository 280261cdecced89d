//! The ledger as a whole: the records at all addresses, and what a sequence
//! of requests makes of them. A request is served on the accounts at the
//! addresses it names, and the records it leaves are stored at those
//! addresses again.

use crate::address::{derived_address, reward_pool_seeds, task_record_seeds};
use crate::instruction::InstructionModel;
use crate::laws::{
    law_fees_stay_percentages, law_nonce_moves_only_by_withdrawal,
    law_paused_pool_refuses_work, law_task_records_only_get_claimed,
    law_withdrawal_claims_its_tasks, lemma_position_follows_keys, lemma_withdrawal_shape,
    task_position,
};
use crate::processor::execute;
use crate::state::{AccountModel, DataModel};
use crate::withdrawal::{is_first_with_key, lemma_first_is_position, position_of};
use vstd::prelude::*;

verus! {

/// The records of the ledger by their addresses. An address that is not
/// in the map holds nothing.
pub type Store = Map<Seq<u8>, DataModel>;

/// An address that a request names, and whether its owner signed.
pub struct AccountKey {
    pub key: Seq<u8>,
    pub is_signer: bool,
}

/// A request with the accounts it names and the slot at which it is served.
pub struct Request {
    pub accounts: Seq<AccountKey>,
    pub instruction: InstructionModel,
    pub slot: nat,
}

/// What is stored at an address.
pub open spec fn record_at(store: Store, key: Seq<u8>) -> DataModel {
    if store.dom().contains(key) {
        store[key]
    } else {
        DataModel::Empty
    }
}

/// The accounts that a request is served on: what the store holds at the
/// addresses it names.
pub open spec fn handed(store: Store, request: Request) -> Seq<AccountModel> {
    Seq::new(
        request.accounts.len(),
        |i: int|
            AccountModel {
                key: request.accounts[i].key,
                is_signer: request.accounts[i].is_signer,
                data: record_at(store, request.accounts[i].key),
            },
    )
}

/// The store after the accounts have been written back. Where an address
/// stands twice among the accounts, its first account counts, as it does
/// when a record is looked up.
pub open spec fn stored(store: Store, accounts: Seq<AccountModel>) -> Store {
    Map::new(
        |key: Seq<u8>| store.dom().contains(key) || position_of(accounts, key) is Some,
        |key: Seq<u8>|
            match position_of(accounts, key) {
                Some(i) => accounts[i].data,
                None => store[key],
            },
    )
}

/// Whether the request is served, not refused.
pub open spec fn served(program_id: Seq<u8>, store: Store, request: Request) -> bool {
    execute(program_id, handed(store, request), request.instruction, request.slot) is Ok
}

/// The store after a request: as the request leaves it where it is served,
/// and as it was where it is refused.
pub open spec fn apply(program_id: Seq<u8>, store: Store, request: Request) -> Store {
    match execute(program_id, handed(store, request), request.instruction, request.slot) {
        Ok((after, _)) => stored(store, after),
        Err(_) => store,
    }
}

/// The store after a sequence of requests.
pub open spec fn run(program_id: Seq<u8>, store: Store, requests: Seq<Request>) -> Store
    decreases requests.len(),
{
    if requests.len() == 0 {
        store
    } else {
        run(program_id, apply(program_id, store, requests[0]), requests.drop_first())
    }
}

/// Whether the request is a withdrawal whose batch names the task.
pub open spec fn withdraws(request: Request, task_id: Seq<char>) -> bool {
    request.instruction matches InstructionModel::WithdrawRewards { task_ids, .. }
        && task_ids.contains(task_id)
}

/// Whether the store holds the record of the task, with its reward claimed.
pub open spec fn is_claimed(program_id: Seq<u8>, store: Store, task_id: Seq<char>) -> bool {
    derived_address(task_record_seeds(task_id), program_id) matches Some(key) && record_at(
        store,
        key,
    ) matches DataModel::Task(task) && task.is_claimed
}

/// How many of the requests pay out the reward of the task: how many are
/// withdrawals that name it and are served.
pub open spec fn times_claimed(
    program_id: Seq<u8>,
    store: Store,
    requests: Seq<Request>,
    task_id: Seq<char>,
) -> nat
    decreases requests.len(),
{
    if requests.len() == 0 {
        0
    } else {
        let rest = times_claimed(
            program_id,
            apply(program_id, store, requests[0]),
            requests.drop_first(),
            task_id,
        );
        if served(program_id, store, requests[0]) && withdraws(requests[0], task_id) {
            rest + 1
        } else {
            rest
        }
    }
}

/// What is stored at an address after the accounts have been written back.
pub proof fn lemma_record_after_storing(store: Store, accounts: Seq<AccountModel>, key: Seq<u8>)
    ensures
        record_at(stored(store, accounts), key) == match position_of(accounts, key) {
            Some(i) => accounts[i].data,
            None => record_at(store, key),
        },
{
}

/// An account that is handed to a request holds what is stored at its
/// address.
pub proof fn lemma_handed_holds_the_record(store: Store, request: Request, key: Seq<u8>)
    ensures
        position_of(handed(store, request), key) matches Some(i) ==> {
            &&& 0 <= i < request.accounts.len()
            &&& handed(store, request)[i].key == key
            &&& handed(store, request)[i].data == record_at(store, key)
        },
{
    let accounts = handed(store, request);
    if position_of(accounts, key) is Some {
        let i = choose|i: int| is_first_with_key(accounts, key, i);
        assert(is_first_with_key(accounts, key, i));
    }
}

/// No request changes the record of a task whose reward is claimed, and no
/// withdrawal that names such a task is served.
pub proof fn lemma_claimed_stays_claimed(
    program_id: Seq<u8>,
    store: Store,
    request: Request,
    task_id: Seq<char>,
)
    requires
        is_claimed(program_id, store, task_id),
    ensures
        is_claimed(program_id, apply(program_id, store, request), task_id),
        !(served(program_id, store, request) && withdraws(request, task_id)),
{
    let key = derived_address(task_record_seeds(task_id), program_id)->Some_0;
    let accounts = handed(store, request);
    if served(program_id, store, request) {
        let after = execute(program_id, accounts, request.instruction, request.slot)->Ok_0.0;
        law_task_records_only_get_claimed(
            program_id,
            accounts,
            request.instruction,
            request.slot,
        );
        lemma_handed_holds_the_record(store, request, key);
        lemma_record_after_storing(store, after, key);
        lemma_position_follows_keys(accounts, after, key);
        if position_of(accounts, key) is Some {
            let i = position_of(accounts, key)->Some_0;
            assert(after[i] == accounts[i]);
        }
        if withdraws(request, task_id) {
            let task_ids = request.instruction->WithdrawRewards_task_ids;
            let expected_nonce = request.instruction->WithdrawRewards_expected_nonce;
            let k = choose|k: int| 0 <= k < task_ids.len() && task_ids[k] == task_id;
            law_withdrawal_claims_its_tasks(
                program_id,
                accounts,
                task_ids,
                expected_nonce,
                request.slot,
            );
            assert(task_position(accounts, program_id, task_ids[k]) is Some);
        }
    }
}

/// A withdrawal that names a task and is served leaves the reward of the
/// task claimed.
pub proof fn lemma_withdrawal_leaves_claimed(
    program_id: Seq<u8>,
    store: Store,
    request: Request,
    task_id: Seq<char>,
)
    requires
        served(program_id, store, request),
        withdraws(request, task_id),
    ensures
        !is_claimed(program_id, store, task_id),
        is_claimed(program_id, apply(program_id, store, request), task_id),
{
    let accounts = handed(store, request);
    let after = execute(program_id, accounts, request.instruction, request.slot)->Ok_0.0;
    let task_ids = request.instruction->WithdrawRewards_task_ids;
    let expected_nonce = request.instruction->WithdrawRewards_expected_nonce;
    let k = choose|k: int| 0 <= k < task_ids.len() && task_ids[k] == task_id;
    law_withdrawal_claims_its_tasks(program_id, accounts, task_ids, expected_nonce, request.slot);
    assert(task_position(accounts, program_id, task_ids[k]) is Some);
    let key = derived_address(task_record_seeds(task_id), program_id)->Some_0;
    lemma_handed_holds_the_record(store, request, key);
    lemma_record_after_storing(store, after, key);
}

/// Once the reward of a task is claimed, no later request pays it out.
pub proof fn lemma_claimed_is_never_paid_again(
    program_id: Seq<u8>,
    store: Store,
    requests: Seq<Request>,
    task_id: Seq<char>,
)
    requires
        is_claimed(program_id, store, task_id),
    ensures
        times_claimed(program_id, store, requests, task_id) == 0,
        is_claimed(program_id, run(program_id, store, requests), task_id),
    decreases requests.len(),
{
    if requests.len() > 0 {
        lemma_claimed_stays_claimed(program_id, store, requests[0], task_id);
        lemma_claimed_is_never_paid_again(
            program_id,
            apply(program_id, store, requests[0]),
            requests.drop_first(),
            task_id,
        );
    }
}

/// Whatever the store holds and whatever is asked of it, the reward of a
/// task is paid out once at most: among any requests, served one after the
/// other, at most one withdrawal that names the task is served.
pub proof fn law_task_is_claimed_once(
    program_id: Seq<u8>,
    store: Store,
    requests: Seq<Request>,
    task_id: Seq<char>,
)
    ensures
        times_claimed(program_id, store, requests, task_id) <= 1,
        times_claimed(program_id, store, requests, task_id) == 1 ==> is_claimed(
            program_id,
            run(program_id, store, requests),
            task_id,
        ),
    decreases requests.len(),
{
    if requests.len() > 0 {
        let next = apply(program_id, store, requests[0]);
        if served(program_id, store, requests[0]) && withdraws(requests[0], task_id) {
            lemma_withdrawal_leaves_claimed(program_id, store, requests[0], task_id);
            lemma_claimed_is_never_paid_again(program_id, next, requests.drop_first(), task_id);
        } else {
            law_task_is_claimed_once(program_id, next, requests.drop_first(), task_id);
        }
    }
}

/// Every pool in the store takes a fee of 100 percent at most.
pub open spec fn fees_in_bounds(store: Store) -> bool {
    forall|key: Seq<u8>|
        #[trigger] record_at(store, key) matches DataModel::RewardPool(pool)
            ==> pool.platform_fee_percentage <= 100
}

/// The fee of a pool is a percentage at all times: where it is one in every
/// pool of the store, it is one after any requests.
pub proof fn law_fee_is_always_a_percentage(
    program_id: Seq<u8>,
    store: Store,
    requests: Seq<Request>,
)
    requires
        fees_in_bounds(store),
    ensures
        fees_in_bounds(run(program_id, store, requests)),
    decreases requests.len(),
{
    if requests.len() > 0 {
        let accounts = handed(store, requests[0]);
        let next = apply(program_id, store, requests[0]);
        if served(program_id, store, requests[0]) {
            let after = execute(
                program_id,
                accounts,
                requests[0].instruction,
                requests[0].slot,
            )->Ok_0.0;
            assert forall|i: int| 0 <= i < accounts.len() implies (
            #[trigger] accounts[i].data matches DataModel::RewardPool(pool)
                ==> pool.platform_fee_percentage <= 100) by {
                assert(accounts[i].data == record_at(store, requests[0].accounts[i].key));
            }
            law_fees_stay_percentages(
                program_id,
                accounts,
                requests[0].instruction,
                requests[0].slot,
            );
            assert forall|key: Seq<u8>| #[trigger] record_at(next, key) is RewardPool implies (
            record_at(next, key)->RewardPool_0.platform_fee_percentage <= 100) by {
                lemma_record_after_storing(store, after, key);
                if position_of(after, key) is Some {
                    let i = choose|i: int| is_first_with_key(after, key, i);
                    assert(is_first_with_key(after, key, i));
                    assert(after[i].data is RewardPool
                        ==> after[i].data->RewardPool_0.platform_fee_percentage <= 100);
                } else {
                    assert(record_at(store, key) == record_at(next, key));
                }
            }
        }
        law_fee_is_always_a_percentage(program_id, next, requests.drop_first());
    }
}

/// Whether the request is a withdrawal from the ledger at `key` that is
/// served.
pub open spec fn withdraws_from(
    program_id: Seq<u8>,
    store: Store,
    request: Request,
    key: Seq<u8>,
) -> bool {
    &&& served(program_id, store, request)
    &&& request.instruction is WithdrawRewards
    &&& request.accounts.len() >= 2
    &&& request.accounts[1].key == key
}

/// How many of the requests are withdrawals from the ledger at `key` that
/// are served.
pub open spec fn withdrawals_from(
    program_id: Seq<u8>,
    store: Store,
    requests: Seq<Request>,
    key: Seq<u8>,
) -> nat
    decreases requests.len(),
{
    if requests.len() == 0 {
        0
    } else {
        let rest = withdrawals_from(
            program_id,
            apply(program_id, store, requests[0]),
            requests.drop_first(),
            key,
        );
        if withdraws_from(program_id, store, requests[0], key) {
            rest + 1
        } else {
            rest
        }
    }
}

/// One request raises the nonce of a ledger by one where it is a withdrawal
/// from that ledger that is served, and leaves it as it was otherwise.
pub proof fn lemma_nonce_after_request(
    program_id: Seq<u8>,
    store: Store,
    request: Request,
    key: Seq<u8>,
)
    requires
        record_at(store, key) is Farmer,
    ensures
        record_at(apply(program_id, store, request), key) matches DataModel::Farmer(after) && {
            let before = record_at(store, key)->Farmer_0;
            &&& after.farmer_address == before.farmer_address
            &&& after.withdrawal_nonce == before.withdrawal_nonce + if withdraws_from(
                program_id,
                store,
                request,
                key,
            ) {
                1nat
            } else {
                0nat
            }
        },
{
    let accounts = handed(store, request);
    if served(program_id, store, request) {
        let after = execute(program_id, accounts, request.instruction, request.slot)->Ok_0.0;
        law_nonce_moves_only_by_withdrawal(
            program_id,
            accounts,
            request.instruction,
            request.slot,
        );
        law_task_records_only_get_claimed(
            program_id,
            accounts,
            request.instruction,
            request.slot,
        );
        lemma_handed_holds_the_record(store, request, key);
        lemma_record_after_storing(store, after, key);
        lemma_position_follows_keys(accounts, after, key);
        if request.instruction is WithdrawRewards && request.accounts.len() >= 2 {
            lemma_withdrawal_shape(
                program_id,
                accounts,
                request.instruction->WithdrawRewards_task_ids,
                request.instruction->WithdrawRewards_expected_nonce,
                request.slot,
            );
            if request.accounts[1].key == key {
                // The first account holds the pool, so the ledger is found at the second.
                assert(accounts[0].key != key);
                assert(is_first_with_key(accounts, key, 1));
                lemma_first_is_position(accounts, key, 1);
            }
        }
    }
}

/// The nonce of a ledger counts the withdrawals from it: after any
/// requests, it has risen by the number of withdrawals from that ledger
/// that were served, by one for each and by nothing else.
pub proof fn law_nonce_counts_all_withdrawals(
    program_id: Seq<u8>,
    store: Store,
    requests: Seq<Request>,
    key: Seq<u8>,
)
    requires
        record_at(store, key) is Farmer,
    ensures
        record_at(run(program_id, store, requests), key) matches DataModel::Farmer(after)
            && after.withdrawal_nonce == record_at(store, key)->Farmer_0.withdrawal_nonce
            + withdrawals_from(program_id, store, requests, key),
    decreases requests.len(),
{
    if requests.len() > 0 {
        lemma_nonce_after_request(program_id, store, requests[0], key);
        law_nonce_counts_all_withdrawals(
            program_id,
            apply(program_id, store, requests[0]),
            requests.drop_first(),
            key,
        );
    }
}

/// Whether the store holds the pool of the program at its address, paused.
pub open spec fn is_paused(program_id: Seq<u8>, store: Store) -> bool {
    derived_address(reward_pool_seeds(), program_id) matches Some(key) && record_at(
        store,
        key,
    ) matches DataModel::RewardPool(pool) && pool.is_paused
}

/// While the pool is paused, no request to record a task and no withdrawal
/// is served, whatever accounts it names, and the store stays as it is.
pub proof fn law_paused_ledger_refuses_work(program_id: Seq<u8>, store: Store, request: Request)
    requires
        is_paused(program_id, store),
        request.instruction is RecordTaskCompletion || request.instruction is WithdrawRewards,
    ensures
        !served(program_id, store, request),
        apply(program_id, store, request) == store,
{
    law_paused_pool_refuses_work(
        program_id,
        handed(store, request),
        request.instruction,
        request.slot,
    );
}

} // verus!

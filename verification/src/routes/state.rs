//! `GET /state`: the latest block number.
use vstd::prelude::*;

use crate::error::{answer, AppError, AppErrorModel};
use crate::history::TransactionRecord;
use crate::json::{number, Fields, Json, JsonModel};
use crate::routes::block::{
    block_page, blocks_hold_every_deposit, came_to, deposits, incoming_deposits, latest_block,
    only_the_latest_block_is_short, page, pages_before, PAGE_SIZE,
};
use crate::text::joined;

verus! {

/// The answer to `GET /state` of the device `device`.
pub open spec fn state_answer(
    device: Seq<char>,
    history: Result<Vec<TransactionRecord>, String>,
) -> Result<JsonModel, AppErrorModel> {
    match history {
        Ok(records) => Ok(
            JsonModel::Object(
                seq![
                    (
                        "tick"@,
                        JsonModel::Number(
                            latest_block(deposits(records@, device).len() as int) as u64,
                        ),
                    ),
                ],
            ),
        ),
        Err(why) => Err(AppErrorModel::Sdk("get_transaction_history: "@ + why@)),
    }
}

/// Answers `GET /state`, given the history; `device` is this device's id in the store's own
/// notation.
pub fn get_state(device: &String, history: Result<Vec<TransactionRecord>, String>) -> (r: Result<
    Json,
    AppError,
>)
    ensures
        answer(r) == state_answer(device@, history),
{
    match history {
        Ok(records) => {
            let count: u64 = incoming_deposits(records, device).len() as u64;
            Ok(Fields::new().with("tick", number(count / PAGE_SIZE as u64)).object())
        },
        Err(why) => Err(AppError::Sdk(joined("get_transaction_history: ", why.as_str()))),
    }
}

/// The number that `GET /state` answers with is that of the latest block: reading the blocks up to
/// it, one after another, gives all the deposits, and every later block is empty.
pub proof fn state_names_the_latest_block(device: Seq<char>, records: Vec<TransactionRecord>, n: u64)
    requires
        records@.len() <= usize::MAX,
    ensures
        ({
            let tick = latest_block(deposits(records@, device).len() as int);
            let history = Ok::<Vec<TransactionRecord>, String>(records);
            &&& state_answer(device, history) == Ok::<JsonModel, AppErrorModel>(
                JsonModel::Object(seq![("tick"@, JsonModel::Number(tick as u64))]),
            )
            &&& tick as u64 == tick
            &&& pages_before(deposits(records@, device), (tick + 1) as nat) == deposits(
                records@,
                device,
            )
            &&& n > tick ==> block_page(n, device, history) == Ok::<
                Seq<TransactionRecord>,
                AppErrorModel,
            >(Seq::empty())
        }),
{
    let items = deposits(records@, device);
    records@.lemma_filter_len(came_to(device));
    blocks_hold_every_deposit(items);
    only_the_latest_block_is_short(items, n as int);
    if n > latest_block(items.len() as int) {
        assert(page(items, n as int) =~= Seq::<TransactionRecord>::empty());
    }
}

/// The number that `GET /state` answers with is how often a full block fits into the deposits.
pub proof fn tick_counts_the_full_blocks(device: Seq<char>, records: Vec<TransactionRecord>, tick: u64)
    requires
        records@.len() <= usize::MAX,
        state_answer(device, Ok::<Vec<TransactionRecord>, String>(records)) matches Ok(body)
            && body.shows("tick"@, JsonModel::Number(tick)),
    ensures
        100 * tick <= deposits(records@, device).len() < 100 * tick + 100,
        state_answer(device, Ok::<Vec<TransactionRecord>, String>(records))->Ok_0.size() == 1,
{
    let body = state_answer(device, Ok::<Vec<TransactionRecord>, String>(records))->Ok_0;
    records@.lemma_filter_len(came_to(device));
    assert(body->Object_0[0].0 == "tick"@);
}

/// `GET /state` shows a tick where the store can be read, and passes on why where it cannot.
pub proof fn state_shows_a_tick(device: Seq<char>, records: Vec<TransactionRecord>, why: String)
    ensures
        state_answer(device, Ok::<Vec<TransactionRecord>, String>(records)) matches Ok(body)
            && exists|tick: u64| #[trigger] body.shows("tick"@, JsonModel::Number(tick)),
        state_answer(device, Err::<Vec<TransactionRecord>, String>(why)) matches Err(e)
            && e.status() == 422 && why@.is_suffix_of(e.message()),
{
    let tick = latest_block(deposits(records@, device).len() as int) as u64;
    let body = state_answer(device, Ok::<Vec<TransactionRecord>, String>(records))->Ok_0;
    assert(body->Object_0[0] == ("tick"@, JsonModel::Number(tick)));
    assert(body.shows("tick"@, JsonModel::Number(tick)));
    let words = "get_transaction_history: "@;
    assert((words + why@).subrange(words.len() as int, (words + why@).len() as int) =~= why@);
}

} // verus!

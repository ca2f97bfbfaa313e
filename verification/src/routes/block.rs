//! `GET /block/{n}`: page `n` of the incoming deposits, the transactions to this device.
//!
//! A page holds `PAGE_SIZE` deposits. The latest page number is the number of deposits
//! divided by `PAGE_SIZE`, rounded down.
use vstd::prelude::*;

use crate::error::{AppError, AppErrorModel};
use crate::hexcode::{hex_bytes, hex_text_of_hex_bytes, is_hex};
use crate::history::{
    describes, transaction_body, transaction_is_described_as_stored, transaction_object, Notation, RecordIds, RecordIdsModel, TransactionRecord,
};
use crate::json::{list, models, number, Fields, Json, JsonModel};
use crate::node::identity::IdentityState;
use crate::text::joined;

verus! {

/// The number of deposits on a full page.
pub const PAGE_SIZE: usize = 100;

/// The number of transactions that the store is asked for to cut blocks from.
pub const BLOCK_HISTORY: usize = 1_000_000;

/// Whether a transaction came to `device`.
pub open spec fn came_to(device: Seq<char>) -> spec_fn(TransactionRecord) -> bool {
    |record: TransactionRecord| record.to_device@ == device
}

/// The transactions of `history` that came to `device`, in order.
pub open spec fn deposits(history: Seq<TransactionRecord>, device: Seq<char>) -> Seq<
    TransactionRecord,
> {
    history.filter(came_to(device))
}

/// Page `n` of `items`.
pub open spec fn page<T>(items: Seq<T>, n: int) -> Seq<T> {
    let start = n * PAGE_SIZE;
    if start >= items.len() {
        Seq::empty()
    } else if start + PAGE_SIZE >= items.len() {
        items.subrange(start, items.len() as int)
    } else {
        items.subrange(start, start + PAGE_SIZE)
    }
}

/// Keeps the transactions that came to `device`, whose id is in the store's own notation.
pub fn incoming_deposits(history: Vec<TransactionRecord>, device: &String) -> (r: Vec<
    TransactionRecord,
>)
    ensures
        r@ == deposits(history@, device@),
{
    let ghost all = history@;
    let ghost wanted = came_to(device@);
    let mut kept: Vec<TransactionRecord> = Vec::new();
    for record in it: history
        invariant
            it.seq() == all,
            wanted == came_to(device@),
            kept@ == all.take(it.index() as int).filter(wanted),
    {
        let ghost i = it.index() as int;
        assert(all.take(i + 1).drop_last() =~= all.take(i));
        reveal(Seq::filter);
        if record.to_device == *device {
            kept.push(record);
        }
    }
    assert(all.take(all.len() as int) =~= all);
    kept
}

/// What `GET /block/{n}` lists: page `n` of the deposits to `device`.
pub open spec fn block_page(
    n: u64,
    device: Seq<char>,
    history: Result<Vec<TransactionRecord>, String>,
) -> Result<Seq<TransactionRecord>, AppErrorModel> {
    match history {
        Ok(records) => Ok(page(deposits(records@, device), n as int)),
        Err(why) => Err(AppErrorModel::Sdk("get_transaction_history: "@ + why@)),
    }
}

/// Picks the transactions of block `n` out of the history; `device` is this device's id in the
/// store's own notation. A block past the last deposit is empty.
pub fn get_block_page(
    n: u64,
    device: &String,
    history: Result<Vec<TransactionRecord>, String>,
) -> (r: Result<Vec<TransactionRecord>, AppError>)
    ensures
        match r {
            Ok(records) => block_page(n, device@, history) == Ok::<
                Seq<TransactionRecord>,
                AppErrorModel,
            >(records@),
            Err(e) => block_page(n, device@, history) == Err::<
                Seq<TransactionRecord>,
                AppErrorModel,
            >(e@),
        },
{
    match history {
        Ok(records) => {
            let incoming = incoming_deposits(records, device);
            let ghost all = incoming@;
            let total: usize = incoming.len();
            let start: usize = if n > (usize::MAX / PAGE_SIZE) as u64 {
                usize::MAX
            } else {
                n as usize * PAGE_SIZE
            };
            let mut taken: Vec<TransactionRecord> = Vec::new();
            let mut i: usize = 0;
            for record in it: incoming
                invariant
                    it.seq() == all,
                    it.index() == i,
                    all.len() == total,
                    taken@ == (if i <= start {
                        Seq::empty()
                    } else if i - start <= PAGE_SIZE {
                        all.subrange(start as int, i as int)
                    } else {
                        all.subrange(start as int, start + PAGE_SIZE)
                    }),
            {
                if i >= start && i - start < PAGE_SIZE {
                    taken.push(record);
                    assert(taken@ =~= all.subrange(start as int, i + 1));
                }
                i = i + 1;
            }
            assert(taken@ =~= page(all, n as int));
            Ok(taken)
        },
        Err(why) => Err(AppError::Sdk(joined("get_transaction_history: ", why.as_str()))),
    }
}

proof fn filtered_is_part_of_all<T>(items: Seq<T>, wanted: spec_fn(T) -> bool, k: int)
    requires
        0 <= k < items.filter(wanted).len(),
    ensures
        items.contains(items.filter(wanted)[k]),
    decreases items.len(),
{
    reveal(Seq::filter);
    let init = items.drop_last();
    if k < init.filter(wanted).len() {
        filtered_is_part_of_all(init, wanted, k);
        let i = choose|i: int| 0 <= i < init.len() && init[i] == init.filter(wanted)[k];
        assert(items[i] == items.filter(wanted)[k]);
    } else {
        assert(items.last() == items[items.len() - 1]);
    }
}

/// A block lists nothing but transactions to this device that are in the history.
pub proof fn blocks_list_only_deposits(
    n: u64,
    device: Seq<char>,
    records: Vec<TransactionRecord>,
    i: int,
)
    ensures
        block_page(n, device, Ok::<Vec<TransactionRecord>, String>(records)) matches Ok(listed)
            ==> listed.len() <= PAGE_SIZE && (0 <= i < listed.len() ==> listed[i].to_device@ == device
            && records@.contains(listed[i])),
{
    let wanted = came_to(device);
    let items = deposits(records@, device);
    let listed = page(items, n as int);
    if 0 <= i < listed.len() {
        let k = n * PAGE_SIZE + i;
        assert(listed[i] == items[k]);
        records@.lemma_filter_pred(wanted, k);
        filtered_is_part_of_all(records@, wanted, k);
    }
}

/// Every transaction to this device is in one of the blocks.
pub proof fn every_deposit_is_listed(device: Seq<char>, records: Vec<TransactionRecord>, i: int)
    requires
        0 <= i < records@.len(),
        records@[i].to_device@ == device,
    ensures
        exists|n: int|
            0 <= n <= latest_block(deposits(records@, device).len() as int) && (#[trigger] page(
                deposits(records@, device),
                n,
            )).contains(records@[i]),
{
    let wanted = came_to(device);
    let items = deposits(records@, device);
    records@.lemma_filter_contains(wanted, i);
    let k = choose|k: int| 0 <= k < items.len() && items[k] == records@[i];
    deposit_stands_in_its_block(items, k);
    assert(page(items, latest_block(k))[k % PAGE_SIZE as int] == records@[i]);
}

/// The answer to `GET /block/{n}` whose transactions are `records`, with the bytes of their ids.
pub open spec fn block_object(
    n: u64,
    records: Seq<TransactionRecord>,
    ids: Seq<RecordIdsModel>,
) -> JsonModel {
    JsonModel::Object(
        seq![
            ("block"@, JsonModel::Number(n)),
            (
                "transactions"@,
                JsonModel::List(
                    Seq::new(records.len(), |i: int| transaction_object(records[i], ids[i])),
                ),
            ),
            ("count"@, JsonModel::Number(records.len() as u64)),
        ],
    )
}

/// Answers `GET /block/{n}`, given the block's transactions and the bytes of their ids.
pub fn get_block(n: u64, records: &Vec<TransactionRecord>, ids: &Vec<RecordIds>) -> (r: Json)
    requires
        records@.len() == ids@.len(),
    ensures
        r@ == block_object(n, records@, ids@.map_values(|one: RecordIds| one@)),
{
    let mut items: Vec<Json> = Vec::new();
    let mut i: usize = 0;
    while i < records.len()
        invariant
            i <= records@.len(),
            records@.len() == ids@.len(),
            items@.len() == i,
            forall|j: int|
                0 <= j < i ==> (#[trigger] items@[j])@ == transaction_object(records@[j], ids@[j]@),
        decreases records@.len() - i,
    {
        items.push(transaction_body(&records[i], &ids[i]));
        i = i + 1;
    }
    let ghost shown = ids@.map_values(|one: RecordIds| one@);
    assert(models(items@) =~= Seq::new(
        records@.len(),
        |i: int| transaction_object(records@[i], shown[i]),
    ));
    let fields = Fields::new().with("block", number(n)).with("transactions", list(items)).with(
        "count",
        number(records.len() as u64),
    );
    assert(fields@ =~= block_object(n, records@, shown)->Object_0);
    fields.object()
}

/// The latest block number of a device with `count` deposits.
pub open spec fn latest_block(count: int) -> int {
    count / PAGE_SIZE as int
}

/// The pages of `items` before page `n`, one after another.
pub open spec fn pages_before<T>(items: Seq<T>, n: nat) -> Seq<T>
    decreases n,
{
    if n == 0 {
        Seq::empty()
    } else {
        pages_before(items, (n - 1) as nat) + page(items, n - 1)
    }
}

proof fn pages_before_are_a_prefix<T>(items: Seq<T>, n: nat)
    ensures
        pages_before(items, n) == items.take(
            if n * PAGE_SIZE < items.len() {
                n * PAGE_SIZE
            } else {
                items.len() as int
            },
        ),
    decreases n,
{
    if n == 0 {
        assert(items.take(0) =~= Seq::empty());
    } else {
        pages_before_are_a_prefix(items, (n - 1) as nat);
        assert(pages_before(items, n) =~= items.take(
            if n * PAGE_SIZE < items.len() {
                n * PAGE_SIZE
            } else {
                items.len() as int
            },
        ));
    }
}

/// The blocks from the first up to the latest, read one after another, are all the deposits:
/// each in one block, none missing and none twice.
pub proof fn blocks_hold_every_deposit<T>(items: Seq<T>)
    ensures
        pages_before(items, (latest_block(items.len() as int) + 1) as nat) == items,
{
    let n = (latest_block(items.len() as int) + 1) as nat;
    pages_before_are_a_prefix(items, n);
    assert(items.take(items.len() as int) =~= items);
}

/// The deposit at index `i` stands in block `i / PAGE_SIZE`, which is none later than the latest,
/// at the remaining offset.
pub proof fn deposit_stands_in_its_block<T>(items: Seq<T>, i: int)
    requires
        0 <= i < items.len(),
    ensures
        latest_block(i) <= latest_block(items.len() as int),
        (i % PAGE_SIZE as int) < page(items, latest_block(i)).len(),
        page(items, latest_block(i))[i % PAGE_SIZE as int] == items[i],
{
}

/// Every block before the latest is full, the latest is not, and those after it are empty.
pub proof fn only_the_latest_block_is_short<T>(items: Seq<T>, n: int)
    requires
        n >= 0,
    ensures
        n < latest_block(items.len() as int) ==> page(items, n).len() == PAGE_SIZE,
        n == latest_block(items.len() as int) ==> page(items, n).len() < PAGE_SIZE,
        n > latest_block(items.len() as int) ==> page(items, n).len() == 0,
{
}

/// Every transaction that a block lists is shown as one to this node: under `to_device` stands the
/// device id of its identity. The id is in lower case, and its Base32 text, by which the store
/// knows the device, is not itself hexadecimal.
pub proof fn deposits_are_shown_with_our_id(
    base32: Notation,
    state: IdentityState,
    n: u64,
    records: Vec<TransactionRecord>,
    i: int,
)
    requires
        base32.is_base32(),
        is_hex(state.device_id_hex@),
        forall|k: int|
            0 <= k < state.device_id_hex@.len() ==> !('A' <= #[trigger] state.device_id_hex@[k]
                && state.device_id_hex@[k] <= 'F'),
        !is_hex(base32.text(hex_bytes(state.device_id_hex@))),
    ensures
        ({
            let device = base32.text(hex_bytes(state.device_id_hex@));
            let history = Ok::<Vec<TransactionRecord>, String>(records);
            block_page(n, device, history) matches Ok(listed) ==> 0 <= i < listed.len() ==> {
                let ids = listed.map_values(|record: TransactionRecord| base32.ids_of(record));
                let shown = block_object(n, listed, ids)->Object_0[1].1->List_0;
                shown[i]->Object_0[3] == ("to_device"@, JsonModel::Text(state.device_id_hex@))
            }
        }),
{
    let bytes = hex_bytes(state.device_id_hex@);
    let device = base32.text(bytes);
    blocks_list_only_deposits(n, device, records, i);
    hex_text_of_hex_bytes(state.device_id_hex@);
    assert(base32.bytes(device) == Some(bytes));
}

/// The answer to `GET /block/{n}` shows the block's number, describes every one of its transactions
/// in order, as it is stored, and counts them.
pub proof fn block_is_shown_in_full(
    n: u64,
    records: Seq<TransactionRecord>,
    ids: Seq<RecordIdsModel>,
    listed: Seq<JsonModel>,
)
    requires
        block_object(n, records, ids).shows("transactions"@, JsonModel::List(listed)),
    ensures
        block_object(n, records, ids).size() == 3,
        block_object(n, records, ids).shows("block"@, JsonModel::Number(n)),
        block_object(n, records, ids).shows("count"@, JsonModel::Number(records.len() as u64)),
        listed.len() == records.len(),
        forall|i: int|
            0 <= i < records.len() ==> {
                &&& describes(#[trigger] listed[i], records[i], ids[i])
                &&& listed[i].shows("status"@, JsonModel::Text(records[i].status@))
                &&& listed[i].shows("amount"@, JsonModel::Number(records[i].amount))
            },
{
    reveal_strlit("block");
    reveal_strlit("transactions");
    reveal_strlit("count");
    assert("block"@[0] != "count"@[0]);
    let members = block_object(n, records, ids)->Object_0;
    assert(members[0].0 == "block"@);
    assert(members[1].0 == "transactions"@);
    assert(members[2].0 == "count"@);
    let shown = members[1].1->List_0;
    assert(listed == shown);
    assert forall|i: int| 0 <= i < records.len() implies {
        &&& describes(#[trigger] listed[i], records[i], ids[i])
        &&& listed[i].shows("status"@, JsonModel::Text(records[i].status@))
        &&& listed[i].shows("amount"@, JsonModel::Number(records[i].amount))
    } by {
        transaction_is_described_as_stored(records[i], ids[i]);
    }
}

/// The answer to `GET /block/{n}` lists transactions.
pub proof fn block_shows_a_list(n: u64, records: Seq<TransactionRecord>, ids: Seq<RecordIdsModel>)
    ensures
        exists|listed: Seq<JsonModel>| #[trigger]
            block_object(n, records, ids).shows("transactions"@, JsonModel::List(listed)),
{
    reveal_strlit("block");
    reveal_strlit("transactions");
    reveal_strlit("count");
    assert("block"@[0] != "count"@[0]);
    let members = block_object(n, records, ids)->Object_0;
    assert(members[1].0 == "transactions"@);
    assert(block_object(n, records, ids).shows(
        "transactions"@,
        JsonModel::List(members[1].1->List_0),
    ));
}

/// Deposits keep the order of the history: a further transaction comes last among them if it is one
/// to the device, and changes nothing otherwise.
pub proof fn deposits_keep_their_order(
    history: Seq<TransactionRecord>,
    device: Seq<char>,
    further: TransactionRecord,
)
    ensures
        deposits(Seq::empty(), device).len() == 0,
        further.to_device@ == device ==> deposits(history.push(further), device) == deposits(
            history,
            device,
        ).push(further),
        further.to_device@ != device ==> deposits(history.push(further), device) == deposits(
            history,
            device,
        ),
{
    reveal(Seq::filter);
    assert(history.push(further).drop_last() =~= history);
}

/// Where the store cannot be read there is no block, and the answer passes on why.
pub proof fn unreadable_store_has_no_blocks(n: u64, device: Seq<char>, why: String)
    ensures
        block_page(n, device, Err::<Vec<TransactionRecord>, String>(why)) matches Err(e)
            && e.status() == 422 && why@.is_suffix_of(e.message()),
{
    let words = "get_transaction_history: "@;
    assert((words + why@).subrange(words.len() as int, (words + why@).len() as int) =~= why@);
}

/// Block `n` holds the deposits from number `100 * n` on, in order, up to a hundred of them.
pub proof fn block_holds_its_hundred_deposits(
    n: u64,
    device: Seq<char>,
    records: Vec<TransactionRecord>,
)
    ensures
        block_page(n, device, Ok::<Vec<TransactionRecord>, String>(records)) matches Ok(listed) && {
            let all = deposits(records@, device);
            &&& listed.len() == (if all.len() <= 100 * n {
                0int
            } else if all.len() - 100 * n < 100 {
                all.len() - 100 * n
            } else {
                100int
            })
            &&& forall|i: int| 0 <= i < listed.len() ==> #[trigger] listed[i] == all[100 * n + i]
        },
{
}

} // verus!

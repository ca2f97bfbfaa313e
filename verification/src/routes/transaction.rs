//! `GET /transaction/{hash}`: a local transfer receipt.
//!
//! A transaction is found by its hash, in hexadecimal or in Crockford Base32, or by its id.
use vstd::prelude::*;

use crate::error::{AppError, AppErrorModel};
use crate::hexcode::{
    capitals_read_the_same, decode, hex_bytes, hex_round_trip, hex_text, in_capitals, is_hex,
};
use crate::history::{
    describes, transaction_is_described_as_stored, transaction_object, Notation, TransactionRecord,
};
use crate::json::JsonModel;
use crate::routes::block::BLOCK_HISTORY;
use crate::search::{
    first, first_index, first_index_goes_by_meaning, first_index_is_first, first_index_is_unique,
};
use crate::text::{joined, joined3};

verus! {

/// The number of transactions that the store is asked for to look one up.
pub const LOOKUP_HISTORY: usize = 10_000;

/// The bytes that the requested hash stands for, where it is hexadecimal.
pub open spec fn hash_bytes(hash: Seq<char>) -> Option<Seq<u8>> {
    if is_hex(hash) {
        Some(hex_bytes(hash))
    } else {
        None
    }
}

/// Reads the requested hash as hexadecimal, to look it up in the store's own notation.
pub fn get_transaction_bytes(hash: &str) -> (r: Option<Vec<u8>>)
    ensures
        match r {
            Some(bytes) => hash_bytes(hash@) == Some(bytes@),
            None => hash_bytes(hash@) is None,
        },
{
    match decode(hash) {
        Ok(bytes) => Some(bytes),
        Err(_) => None,
    }
}

/// Whether `record` is what a request for `hash` asks for; `as_b32` is the hash in the store's
/// own notation, where it is hexadecimal.
pub open spec fn is_requested(
    record: TransactionRecord,
    hash: Seq<char>,
    as_b32: Option<Seq<char>>,
) -> bool {
    ||| record.tx_hash@ == hash
    ||| record.tx_id@ == hash
    ||| as_b32 == Some(record.tx_hash@)
}

/// The transaction that `GET /transaction/{hash}` describes: the first that fits.
pub open spec fn transaction_found(
    hash: Seq<char>,
    as_b32: Option<Seq<char>>,
    history: Result<Vec<TransactionRecord>, String>,
) -> Result<TransactionRecord, AppErrorModel> {
    match history {
        Err(why) => Err(AppErrorModel::Internal("get_transaction_history: "@ + why@)),
        Ok(records) => match first(
            records@,
            |record: TransactionRecord| is_requested(record, hash, as_b32),
        ) {
            Some(record) => Ok(record),
            None => Err(AppErrorModel::NotFound("transaction "@ + hash + " not found"@)),
        },
    }
}

/// The model of an optional text.
pub open spec fn optional_text(t: Option<String>) -> Option<Seq<char>> {
    match t {
        Some(s) => Some(s@),
        None => None,
    }
}

/// Looks up the requested transaction; `as_b32` is the hash in the store's own notation, where
/// it is hexadecimal.
pub fn get_transaction(
    hash: &String,
    as_b32: &Option<String>,
    history: Result<Vec<TransactionRecord>, String>,
) -> (r: Result<TransactionRecord, AppError>)
    ensures
        match r {
            Ok(record) => transaction_found(hash@, optional_text(*as_b32), history) == Ok::<
                TransactionRecord,
                AppErrorModel,
            >(record),
            Err(e) => transaction_found(hash@, optional_text(*as_b32), history) == Err::<
                TransactionRecord,
                AppErrorModel,
            >(e@),
        },
{
    match history {
        Err(why) => Err(AppError::Internal(joined("get_transaction_history: ", why.as_str()))),
        Ok(records) => {
            let ghost b32 = optional_text(*as_b32);
            let ghost wanted = |record: TransactionRecord| is_requested(record, hash@, b32);
            let ghost all = records@;
            for record in it: records
                invariant
                    it.seq() == all,
                    wanted == (|record: TransactionRecord| is_requested(record, hash@, b32)),
                    b32 == optional_text(*as_b32),
                    history == Ok::<Vec<TransactionRecord>, String>(records),
                    all == records@,
                    forall|j: int| 0 <= j < it.index() ==> !wanted(#[trigger] all[j]),
            {
                let fits_b32 = match as_b32 {
                    Some(text) => record.tx_hash == *text,
                    None => false,
                };
                if record.tx_hash == *hash || record.tx_id == *hash || fits_b32 {
                    proof {
                        first_index_is_unique(all, wanted, it.index() as int);
                    }
                    return Ok(record);
                }
            }
            proof {
                first_index_is_first(all, wanted);
            }
            Err(AppError::NotFound(joined3("transaction ", hash.as_str(), " not found")))
        },
    }
}

/// The requested hash in the notation `base32`, where it is hexadecimal.
pub open spec fn in_base32(base32: Notation, hash: Seq<char>) -> Option<Seq<char>> {
    match hash_bytes(hash) {
        Some(bytes) => Some(base32.text(bytes)),
        None => None,
    }
}

/// The answer to `GET /transaction/{hash}` of a store that keeps its ids in the notation `base32`.
pub open spec fn transaction_answer(
    base32: Notation,
    hash: Seq<char>,
    history: Result<Vec<TransactionRecord>, String>,
) -> Result<JsonModel, AppErrorModel> {
    match transaction_found(hash, in_base32(base32, hash), history) {
        Ok(record) => Ok(transaction_object(record, base32.ids_of(record))),
        Err(e) => Err(e),
    }
}

/// The length of a transaction hash in bytes.
pub const TX_HASH_LEN: usize = 32;

/// Whether `text` is the Base32 text of a transaction hash.
pub open spec fn is_hash_text(base32: Notation, text: Seq<char>) -> bool {
    base32.bytes(text) matches Some(bytes) && bytes.len() == TX_HASH_LEN && base32.text(bytes)
        == text
}

/// Whether every transaction has a hash in Base32.
pub open spec fn hashes_are_base32(base32: Notation, records: Seq<TransactionRecord>) -> bool {
    forall|i: int| 0 <= i < records.len() ==> is_hash_text(base32, (#[trigger] records[i]).tx_hash@)
}

/// Whether two requests have the same answer: they find the same transaction, or neither finds
/// one.
pub open spec fn same_answer(
    left: Result<JsonModel, AppErrorModel>,
    right: Result<JsonModel, AppErrorModel>,
) -> bool {
    match (left, right) {
        (Ok(body), Ok(other)) => body == other,
        (Err(e), Err(other)) => e is NotFound && other is NotFound,
        _ => false,
    }
}

/// A hash finds the same transaction in hexadecimal, however it is spelt, as in Base32, unless
/// either is also the id of a transaction.
pub proof fn spelling_does_not_matter(
    base32: Notation,
    records: Vec<TransactionRecord>,
    hash: Seq<u8>,
    spelling: Seq<char>,
)
    requires
        base32.is_base32(),
        hash.len() == TX_HASH_LEN,
        hash_bytes(spelling) == Some(hash),
        hashes_are_base32(base32, records@),
        forall|i: int|
            0 <= i < records@.len() ==> (#[trigger] records@[i]).tx_id@ != spelling
                && records@[i].tx_id@ != base32.text(hash),
    ensures
        same_answer(
            transaction_answer(base32, spelling, Ok::<Vec<TransactionRecord>, String>(records)),
            transaction_answer(
                base32,
                base32.text(hash),
                Ok::<Vec<TransactionRecord>, String>(records),
            ),
        ),
{
    let stored = base32.text(hash);
    let by_hex = |record: TransactionRecord|
        is_requested(record, spelling, in_base32(base32, spelling));
    let by_base32 = |record: TransactionRecord|
        is_requested(record, stored, in_base32(base32, stored));
    assert(spelling.len() == 2 * TX_HASH_LEN);
    assert forall|i: int| 0 <= i < records@.len() implies by_hex(#[trigger] records@[i])
        == by_base32(records@[i]) by {
        let record = records@[i];
        assert(is_hash_text(base32, record.tx_hash@));
        assert(record.tx_hash@.len() == stored.len());
        assert(record.tx_hash@ != spelling);
        if let Some(bytes) = hash_bytes(stored) {
            assert(bytes.len() != TX_HASH_LEN);
            assert(base32.bytes(base32.text(bytes)) == Some(bytes));
        }
    }
    first_index_goes_by_meaning(records@, by_hex, by_base32);
}

/// A hash finds the same transaction in lower-case hexadecimal, in upper-case hexadecimal and in
/// Base32, unless one of them is also the id of a transaction.
pub proof fn either_notation_finds_the_same(
    base32: Notation,
    records: Vec<TransactionRecord>,
    hash: Seq<u8>,
)
    requires
        base32.is_base32(),
        hash.len() == TX_HASH_LEN,
        hashes_are_base32(base32, records@),
        forall|i: int|
            0 <= i < records@.len() ==> (#[trigger] records@[i]).tx_id@ != hex_text(hash)
                && records@[i].tx_id@ != in_capitals(hex_text(hash)) && records@[i].tx_id@
                != base32.text(hash),
    ensures
        ({
            let history = Ok::<Vec<TransactionRecord>, String>(records);
            let lower = transaction_answer(base32, hex_text(hash), history);
            let upper = transaction_answer(base32, in_capitals(hex_text(hash)), history);
            let stored = transaction_answer(base32, base32.text(hash), history);
            same_answer(lower, upper) && same_answer(lower, stored) && same_answer(upper, stored)
        }),
{
    hex_round_trip(hash);
    capitals_read_the_same(hex_text(hash));
    spelling_does_not_matter(base32, records, hash, hex_text(hash));
    spelling_does_not_matter(base32, records, hash, in_capitals(hex_text(hash)));
}

/// A transaction can be looked up by the hash that it is shown with, as long as its stored hash,
/// if it is Base32, is the text of its bytes. What is found is shown with that same hash where
/// the stored hashes up to it are Base32 and the shown one is not the id of a transaction before
/// it.
pub proof fn shown_hash_is_found(base32: Notation, records: Vec<TransactionRecord>, i: int)
    requires
        base32.is_base32(),
        0 <= i < records@.len(),
        base32.bytes(records@[i].tx_hash@) matches Some(bytes) ==> base32.text(bytes)
            == records@[i].tx_hash@,
    ensures
        ({
            let shown = base32.shown_hash(records@[i]);
            let found = transaction_found(
                shown,
                in_base32(base32, shown),
                Ok::<Vec<TransactionRecord>, String>(records),
            );
            &&& found is Ok
            &&& hashes_are_base32(base32, records@.take(i + 1)) && (forall|j: int|
                0 <= j < i ==> (#[trigger] records@[j]).tx_id@ != shown) ==> {
                &&& found->Ok_0.tx_hash@ == records@[i].tx_hash@
                &&& base32.shown_hash(found->Ok_0) == shown
            }
        }),
{
    let record = records@[i];
    let shown = base32.shown_hash(record);
    let as_b32 = in_base32(base32, shown);
    if let Some(bytes) = base32.bytes(record.tx_hash@) {
        hex_round_trip(bytes);
    }
    let wanted = |record: TransactionRecord| is_requested(record, shown, as_b32);
    first_index_is_first(records@, wanted);
    assert(wanted(record));
    let k = first_index(records@, wanted)->0;
    assert(wanted(records@[k]));
    assert(k <= i);
    if hashes_are_base32(base32, records@.take(i + 1)) {
        assert(records@.take(i + 1)[k] == records@[k] && records@.take(i + 1)[i] == record);
        assert(is_hash_text(base32, records@[k].tx_hash@));
        assert(is_hash_text(base32, record.tx_hash@));
        if let Some(bytes) = hash_bytes(shown) {
            assert(base32.bytes(base32.text(bytes)) == Some(bytes));
        }
    }
}

/// An id finds its own transaction, as long as no transaction before it answers to it: none of
/// them has the same id, nor a hash that the id is, or that it reads as in hexadecimal.
pub proof fn id_finds_its_transaction(base32: Notation, records: Vec<TransactionRecord>, i: int)
    requires
        0 <= i < records@.len(),
        forall|j: int|
            0 <= j < i ==> {
                &&& (#[trigger] records@[j]).tx_id@ != records@[i].tx_id@
                &&& records@[j].tx_hash@ != records@[i].tx_id@
                &&& in_base32(base32, records@[i].tx_id@) != Some(records@[j].tx_hash@)
            },
    ensures
        transaction_answer(
            base32,
            records@[i].tx_id@,
            Ok::<Vec<TransactionRecord>, String>(records),
        ) == Ok::<JsonModel, AppErrorModel>(
            transaction_object(records@[i], base32.ids_of(records@[i])),
        ),
{
    let id = records@[i].tx_id@;
    let wanted = |record: TransactionRecord| is_requested(record, id, in_base32(base32, id));
    assert(wanted(records@[i]));
    first_index_is_unique(records@, wanted, i);
}

/// Every transaction of the history is found by its id and by its stored hash.
pub proof fn stored_transaction_is_found(
    records: Vec<TransactionRecord>,
    i: int,
    as_b32: Option<Seq<char>>,
)
    requires
        0 <= i < records@.len(),
    ensures
        transaction_found(
            records@[i].tx_id@,
            as_b32,
            Ok::<Vec<TransactionRecord>, String>(records),
        ) is Ok,
        transaction_found(
            records@[i].tx_hash@,
            as_b32,
            Ok::<Vec<TransactionRecord>, String>(records),
        ) is Ok,
{
    let by_id = |record: TransactionRecord| is_requested(record, records@[i].tx_id@, as_b32);
    let by_hash = |record: TransactionRecord| is_requested(record, records@[i].tx_hash@, as_b32);
    first_index_is_first(records@, by_id);
    first_index_is_first(records@, by_hash);
    assert(by_id(records@[i]));
    assert(by_hash(records@[i]));
}

/// What is found fits the request.
pub proof fn found_transaction_fits(
    hash: Seq<char>,
    as_b32: Option<Seq<char>>,
    records: Vec<TransactionRecord>,
)
    ensures
        transaction_found(hash, as_b32, Ok::<Vec<TransactionRecord>, String>(records)) matches Ok(
            record,
        ) ==> records@.contains(record) && is_requested(record, hash, as_b32),
{
    let wanted = |record: TransactionRecord| is_requested(record, hash, as_b32);
    first_index_is_first(records@, wanted);
    if let Some(i) = first_index(records@, wanted) {
        assert(wanted(records@[i]));
        assert(records@.contains(records@[i]));
    }
}

/// Whether a request for `hash` means `record`: by its stored hash, by its id, or by the bytes of
/// its hash in hexadecimal.
pub open spec fn means(base32: Notation, hash: Seq<char>, record: TransactionRecord) -> bool {
    ||| record.tx_hash@ == hash
    ||| record.tx_id@ == hash
    ||| is_hex(hash) && record.tx_hash@ == base32.text(hex_bytes(hash))
}

/// `GET /transaction/{hash}` describes the first transaction that the request means, as it is
/// stored, status and amount included; where it means none the answer is that the hash is not
/// found, and says which.
pub proof fn requested_transaction_is_described(
    base32: Notation,
    hash: Seq<char>,
    records: Vec<TransactionRecord>,
)
    ensures
        match transaction_answer(base32, hash, Ok::<Vec<TransactionRecord>, String>(records)) {
            Ok(body) => exists|i: int|
                {
                    &&& 0 <= i < records@.len()
                    &&& means(base32, hash, #[trigger] records@[i])
                    &&& forall|j: int| 0 <= j < i ==> !means(base32, hash, #[trigger] records@[j])
                    &&& describes(body, records@[i], base32.ids_of(records@[i]))
                    &&& body.shows("status"@, JsonModel::Text(records@[i].status@))
                    &&& body.shows("amount"@, JsonModel::Number(records@[i].amount))
                },
            Err(e) => {
                &&& forall|i: int|
                    0 <= i < records@.len() ==> !means(base32, hash, #[trigger] records@[i])
                &&& e is NotFound
                &&& e.status() == 404
                &&& e.message() == "transaction "@ + hash + " not found"@
            },
        },
{
    let wanted = |record: TransactionRecord|
        is_requested(record, hash, in_base32(base32, hash));
    first_index_is_first(records@, wanted);
    assert forall|j: int| 0 <= j < records@.len() implies means(base32, hash, #[trigger] records@[j])
        == wanted(records@[j]) by {}
    if let Some(i) = first_index(records@, wanted) {
        transaction_is_described_as_stored(records@[i], base32.ids_of(records@[i]));
        assert(means(base32, hash, records@[i]));
    }
}

/// Where the store cannot be read the answer is an internal error that passes on why.
pub proof fn unreadable_store_is_reported(base32: Notation, hash: Seq<char>, why: String)
    ensures
        transaction_answer(base32, hash, Err::<Vec<TransactionRecord>, String>(why)) matches Err(e)
            && e.status() == 500 && why@.is_suffix_of(e.message()),
{
    let words = "get_transaction_history: "@;
    assert((words + why@).subrange(words.len() as int, (words + why@).len() as int) =~= why@);
}

/// A lookup goes through at most ten thousand transactions; blocks are cut from a hundred times as
/// many.
pub proof fn lookups_are_limited()
    ensures
        LOOKUP_HISTORY == 10_000,
        BLOCK_HISTORY == 100 * LOOKUP_HISTORY,
{
}

} // verus!

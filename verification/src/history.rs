//! Transactions as the local store keeps them.
use vstd::prelude::*;
use vstd::utf8::{
    decode_utf8, encode_utf8, encode_utf8_decode_utf8, encode_utf8_valid_utf8, valid_utf8,
};

use crate::hexcode::{
    decode, encode, hex_bytes, hex_round_trip, hex_text, is_hex, optional_bytes,
};
use crate::json::{number, text, Fields, Json, JsonModel};

verus! {

/// Named byte strings that are attached to a transaction.
#[derive(Debug)]
pub struct Metadata {
    entries: Vec<(String, Vec<u8>)>,
}

/// What `entries` map each name to: of several entries of one name the last one counts.
pub closed spec fn entries_map(entries: Seq<(String, Vec<u8>)>) -> Map<Seq<char>, Seq<u8>>
    decreases entries.len(),
{
    if entries.len() == 0 {
        Map::empty()
    } else {
        entries_map(entries.drop_last()).insert(entries.last().0@, entries.last().1@)
    }
}

impl View for Metadata {
    type V = Map<Seq<char>, Seq<u8>>;

    closed spec fn view(&self) -> Map<Seq<char>, Seq<u8>> {
        entries_map(self.entries@)
    }
}

impl Metadata {
    /// Nothing attached.
    pub fn new() -> (r: Metadata)
        ensures
            r@ == Map::<Seq<char>, Seq<u8>>::empty(),
    {
        Metadata { entries: Vec::new() }
    }

    /// Attaches `value` under `name`, in place of what was there.
    pub fn insert(&mut self, name: String, value: Vec<u8>)
        ensures
            final(self)@ == old(self)@.insert(name@, value@),
    {
        self.entries.push((name, value));
        assert(self.entries@.drop_last() =~= old(self).entries@);
    }

    /// What is attached under `name`.
    pub fn get(&self, name: &String) -> (r: Option<&Vec<u8>>)
        ensures
            match r {
                Some(value) => self@.contains_key(name@) && self@[name@] == value@,
                None => !self@.contains_key(name@),
            },
    {
        let mut i: usize = self.entries.len();
        assert(self.entries@.subrange(0, i as int) =~= self.entries@);
        while i > 0
            invariant
                i <= self.entries@.len(),
                self@.contains_key(name@) <==> entries_map(
                    self.entries@.subrange(0, i as int),
                ).contains_key(name@),
                self@[name@] == entries_map(self.entries@.subrange(0, i as int))[name@],
            decreases i,
        {
            let ghost seen = self.entries@.subrange(0, i as int);
            assert(seen.drop_last() =~= self.entries@.subrange(0, i - 1));
            i = i - 1;
            if self.entries[i].0 == *name {
                return Some(&self.entries[i].1);
            }
        }
        None
    }
}

/// A transaction of the local store.
#[derive(Debug)]
pub struct TransactionRecord {
    pub tx_id: String,
    /// Crockford Base32, as are the two device ids.
    pub tx_hash: String,
    pub from_device: String,
    pub to_device: String,
    pub amount: u64,
    pub tx_type: String,
    pub status: String,
    pub chain_height: u64,
    pub metadata: Metadata,
}

/// The bytes that the Base32 texts of a transaction stand for, each absent where the text is
/// not Base32.
#[derive(Debug)]
pub struct RecordIds {
    pub tx_hash: Option<Vec<u8>>,
    pub from_device: Option<Vec<u8>>,
    pub to_device: Option<Vec<u8>>,
}

/// The mathematical counterpart of [`RecordIds`].
pub struct RecordIdsModel {
    pub tx_hash: Option<Seq<u8>>,
    pub from_device: Option<Seq<u8>>,
    pub to_device: Option<Seq<u8>>,
}

impl View for RecordIds {
    type V = RecordIdsModel;

    open spec fn view(&self) -> RecordIdsModel {
        RecordIdsModel {
            tx_hash: optional_bytes(self.tx_hash),
            from_device: optional_bytes(self.from_device),
            to_device: optional_bytes(self.to_device),
        }
    }
}

/// A notation for byte strings: the text of each, and the bytes of each text that has some.
pub struct Notation {
    pub text_of: spec_fn(Seq<u8>) -> Seq<char>,
    pub bytes_of: spec_fn(Seq<char>) -> Option<Seq<u8>>,
}

impl Notation {
    /// The text of `bytes`.
    pub open spec fn text(self, bytes: Seq<u8>) -> Seq<char> {
        (self.text_of)(bytes)
    }

    /// The bytes that `text` stands for, if any.
    pub open spec fn bytes(self, text: Seq<char>) -> Option<Seq<u8>> {
        (self.bytes_of)(text)
    }

    /// What holds of Base32: a character stands for five bits, with no padding, and reading the
    /// text of some bytes gives those bytes.
    pub open spec fn is_base32(self) -> bool {
        forall|bytes: Seq<u8>|
            {
                &&& (#[trigger] self.text(bytes)).len() == (8 * bytes.len() + 4) / 5
                &&& self.bytes(self.text(bytes)) == Some(bytes)
            }
    }

    /// The bytes of the ids of `record`.
    pub open spec fn ids_of(self, record: TransactionRecord) -> RecordIdsModel {
        RecordIdsModel {
            tx_hash: self.bytes(record.tx_hash@),
            from_device: self.bytes(record.from_device@),
            to_device: self.bytes(record.to_device@),
        }
    }

    /// How the hash of `record` is shown.
    pub open spec fn shown_hash(self, record: TransactionRecord) -> Seq<char> {
        shown_id(record.tx_hash@, self.bytes(record.tx_hash@))
    }
}

/// `String::from_utf8`. Claimed of it: it accepts exactly well-formed UTF-8 and gives the
/// characters that the bytes encode.
#[verifier::external_body]
fn utf8_text(bytes: Vec<u8>) -> (r: Option<String>)
    ensures
        match r {
            Some(s) => valid_utf8(bytes@) && s@ == decode_utf8(bytes@),
            None => !valid_utf8(bytes@),
        },
{
    String::from_utf8(bytes).ok()
}

/// The memo that `metadata` carries: the text under "memo", or nothing where there is no such
/// entry or it is not UTF-8.
pub open spec fn memo(metadata: Map<Seq<char>, Seq<u8>>) -> Seq<char> {
    if metadata.contains_key("memo"@) && valid_utf8(metadata["memo"@]) {
        decode_utf8(metadata["memo"@])
    } else {
        Seq::empty()
    }
}

/// Reads the memo out of a transaction's metadata.
pub fn extract_memo(metadata: &Metadata) -> (r: String)
    ensures
        r@ == memo(metadata@),
{
    match metadata.get(&"memo".to_owned()) {
        Some(bytes) => match utf8_text(bytes.clone()) {
            Some(s) => s,
            None => String::new(),
        },
        None => String::new(),
    }
}

/// How a stored id is shown: unchanged where it is hexadecimal already, else its bytes in
/// lower-case hexadecimal, or unchanged again where it is not Base32 either.
pub open spec fn shown_id(stored: Seq<char>, decoded: Option<Seq<u8>>) -> Seq<char> {
    if is_hex(stored) {
        stored
    } else {
        match decoded {
            Some(bytes) => hex_text(bytes),
            None => stored,
        }
    }
}

/// Turns a stored id into hexadecimal; `decoded` holds the bytes that it stands for as Crockford
/// Base32. A text that is hexadecimal already, or in any other format, is returned unchanged.
pub fn b32_or_hex_to_hex(stored: &str, decoded: &Option<Vec<u8>>) -> (r: String)
    ensures
        r@ == shown_id(stored@, optional_bytes(*decoded)),
{
    if decode(stored).is_ok() {
        return stored.to_owned();
    }
    match decoded {
        Some(bytes) => encode(bytes.as_slice()),
        None => stored.to_owned(),
    }
}

/// Showing an id that was shown before changes nothing, except where it is in neither notation:
/// then it stays as long as it is not taken for Base32.
pub proof fn shown_id_stays(stored: Seq<char>, first: Option<Seq<u8>>, second: Option<Seq<u8>>)
    requires
        is_hex(stored) || first is Some || second is None,
    ensures
        shown_id(shown_id(stored, first), second) == shown_id(stored, first),
{
    if let Some(bytes) = first {
        hex_round_trip(bytes);
    }
}

/// The JSON object that describes a transaction.
pub open spec fn transaction_object(record: TransactionRecord, ids: RecordIdsModel) -> JsonModel {
    JsonModel::Object(
        seq![
            ("tx_id"@, JsonModel::Text(record.tx_id@)),
            ("tx_hash"@, JsonModel::Text(shown_id(record.tx_hash@, ids.tx_hash))),
            ("from_device"@, JsonModel::Text(shown_id(record.from_device@, ids.from_device))),
            ("to_device"@, JsonModel::Text(shown_id(record.to_device@, ids.to_device))),
            ("amount"@, JsonModel::Number(record.amount)),
            ("tx_type"@, JsonModel::Text(record.tx_type@)),
            ("status"@, JsonModel::Text(record.status@)),
            ("chain_height"@, JsonModel::Number(record.chain_height)),
            ("memo"@, JsonModel::Text(memo(record.metadata@))),
        ],
    )
}

/// Describes a transaction.
pub fn transaction_body(record: &TransactionRecord, ids: &RecordIds) -> (r: Json)
    ensures
        r@ == transaction_object(*record, ids@),
{
    let tx_hash = b32_or_hex_to_hex(record.tx_hash.as_str(), &ids.tx_hash);
    let from_device = b32_or_hex_to_hex(record.from_device.as_str(), &ids.from_device);
    let to_device = b32_or_hex_to_hex(record.to_device.as_str(), &ids.to_device);
    let memo = extract_memo(&record.metadata);
    let fields = Fields::new().with("tx_id", text(record.tx_id.as_str())).with(
        "tx_hash",
        text(tx_hash.as_str()),
    ).with("from_device", text(from_device.as_str())).with(
        "to_device",
        text(to_device.as_str()),
    ).with("amount", number(record.amount)).with(
        "tx_type",
        text(record.tx_type.as_str()),
    ).with("status", text(record.status.as_str())).with(
        "chain_height",
        number(record.chain_height),
    ).with("memo", text(memo.as_str()));
    assert(fields@ =~= transaction_object(*record, ids@)->Object_0);
    fields.object()
}

/// Whether `body` describes `record` as it is stored: its id, amount, type, status and height are
/// the record's own, its hash and devices are the stored ids as they are shown.
pub open spec fn describes(
    body: JsonModel,
    record: TransactionRecord,
    ids: RecordIdsModel,
) -> bool {
    &&& body.shows("tx_id"@, JsonModel::Text(record.tx_id@))
    &&& body.shows("tx_hash"@, JsonModel::Text(shown_id(record.tx_hash@, ids.tx_hash)))
    &&& body.shows("from_device"@, JsonModel::Text(shown_id(record.from_device@, ids.from_device)))
    &&& body.shows("to_device"@, JsonModel::Text(shown_id(record.to_device@, ids.to_device)))
    &&& body.shows("amount"@, JsonModel::Number(record.amount))
    &&& body.shows("tx_type"@, JsonModel::Text(record.tx_type@))
    &&& body.shows("status"@, JsonModel::Text(record.status@))
    &&& body.shows("chain_height"@, JsonModel::Number(record.chain_height))
    &&& body.shows("memo"@, JsonModel::Text(memo(record.metadata@)))
    &&& body.size() == 9
}

/// A transaction is described as it is stored, and nothing else is said of it.
pub proof fn transaction_is_described_as_stored(record: TransactionRecord, ids: RecordIdsModel)
    ensures
        describes(transaction_object(record, ids), record, ids),
        transaction_object(record, ids).shows("status"@, JsonModel::Text(record.status@)),
        transaction_object(record, ids).shows("amount"@, JsonModel::Number(record.amount)),
        transaction_object(record, ids).shows("tx_type"@, JsonModel::Text(record.tx_type@)),
        transaction_object(record, ids).shows(
            "chain_height"@,
            JsonModel::Number(record.chain_height),
        ),
        transaction_object(record, ids).shows("tx_id"@, JsonModel::Text(record.tx_id@)),
{
    reveal_strlit("tx_id");
    reveal_strlit("tx_hash");
    reveal_strlit("from_device");
    reveal_strlit("to_device");
    reveal_strlit("amount");
    reveal_strlit("tx_type");
    reveal_strlit("status");
    reveal_strlit("chain_height");
    reveal_strlit("memo");
    assert("tx_hash"@[3] != "tx_type"@[3]);
    assert("amount"@[0] != "status"@[0]);
    let members = transaction_object(record, ids)->Object_0;
    assert(members[0].0 == "tx_id"@);
    assert(members[1].0 == "tx_hash"@);
    assert(members[2].0 == "from_device"@);
    assert(members[3].0 == "to_device"@);
    assert(members[4].0 == "amount"@);
    assert(members[5].0 == "tx_type"@);
    assert(members[6].0 == "status"@);
    assert(members[7].0 == "chain_height"@);
    assert(members[8].0 == "memo"@);
}

/// Transactions that differ in status, amount, type, height, id or memo are never described alike.
pub proof fn different_transactions_are_told_apart(
    left: TransactionRecord,
    left_ids: RecordIdsModel,
    right: TransactionRecord,
    right_ids: RecordIdsModel,
)
    requires
        transaction_object(left, left_ids) == transaction_object(right, right_ids),
    ensures
        left.status@ == right.status@,
        left.amount == right.amount,
        left.tx_type@ == right.tx_type@,
        left.chain_height == right.chain_height,
        left.tx_id@ == right.tx_id@,
        memo(left.metadata@) == memo(right.metadata@),
{
    transaction_is_described_as_stored(left, left_ids);
    transaction_is_described_as_stored(right, right_ids);
}

/// A stored id is shown in hexadecimal: as it is where it is hexadecimal already, else in lower-case
/// digits that read back as the bytes of its Base32; only an id that is neither stays in its own
/// notation.
pub proof fn id_is_shown_in_hexadecimal(stored: Seq<char>, decoded: Option<Seq<u8>>)
    ensures
        is_hex(stored) ==> shown_id(stored, decoded) == stored,
        !is_hex(stored) ==> (decoded matches Some(bytes) ==> {
            let shown = shown_id(stored, decoded);
            &&& is_hex(shown)
            &&& hex_bytes(shown) == bytes
            &&& forall|i: int|
                0 <= i < shown.len() ==> !('A' <= #[trigger] shown[i] && shown[i] <= 'F')
        }),
        !is_hex(stored) && decoded is None ==> shown_id(stored, decoded) == stored,
{
    if let Some(bytes) = decoded {
        hex_round_trip(bytes);
    }
}

/// The memo is the text that is attached under "memo": whatever text was attached is read back,
/// nothing is read where none is attached or it is not UTF-8, and what else is attached does not
/// matter.
pub proof fn memo_is_the_attached_text(
    metadata: Map<Seq<char>, Seq<u8>>,
    text: Seq<char>,
    name: Seq<char>,
    value: Seq<u8>,
)
    ensures
        memo(metadata.insert("memo"@, encode_utf8(text))) == text,
        !metadata.contains_key("memo"@) ==> memo(metadata).len() == 0,
        !valid_utf8(value) ==> memo(metadata.insert("memo"@, value)).len() == 0,
        name != "memo"@ ==> memo(metadata.insert(name, value)) == memo(metadata),
{
    encode_utf8_valid_utf8(text);
    encode_utf8_decode_utf8(text);
}

} // verus!

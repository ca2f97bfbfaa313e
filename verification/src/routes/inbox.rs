//! `GET /inbox` and `POST /inbox/ack`: pending messages and their acknowledgement.
use vstd::prelude::*;

use crate::error::{answer, AppError, AppErrorModel};
use crate::hexcode::{encode, hex_text};
use crate::json::{list, models, number, text, truth, Fields, Json, JsonModel};
use crate::node::http::{is_success, success};
use crate::node::identity::{bytes_or_error, device_id_of, known_device_id, IdentityState};
use crate::reply::{
    undecodable, undecodable_error, unexpected, unexpected_error, CallKind, Envelope, InboxItem,
    Message, MessageModel, Payload, SdkCall, SdkCallModel,
};
use crate::text::{joined, joined3, trim_end, trim_end_slashes};

verus! {

/// The number of messages that are pulled where the request names none.
pub const DEFAULT_LIMIT: u32 = 50;

/// The query of `GET /inbox`.
#[derive(Debug)]
pub struct InboxParams {
    pub limit: Option<u32>,
}

/// The call that pulls at most `limit` messages, or the default number.
pub open spec fn inbox_request(limit: Option<u32>) -> SdkCallModel {
    SdkCallModel {
        kind: CallKind::Query,
        path: "inbox.pull"@,
        message: MessageModel::Inbox {
            limit: match limit {
                Some(limit) => limit,
                None => DEFAULT_LIMIT,
            },
            chain_tip: Seq::empty(),
        },
    }
}

/// The call that pulls the pending messages.
pub fn inbox_call(params: &InboxParams) -> (r: SdkCall)
    ensures
        r@ == inbox_request(params.limit),
        r.message matches Message::Inbox { limit, chain_tip } && chain_tip@.len() == 0 && (
        params.limit matches Some(named) ==> limit == named) && (params.limit is None ==> limit
            == 50),
{
    SdkCall {
        kind: CallKind::Query,
        path: "inbox.pull".to_owned(),
        message: Message::Inbox {
            limit: match params.limit {
                Some(limit) => limit,
                None => DEFAULT_LIMIT,
            },
            chain_tip: String::new(),
        },
    }
}

/// The JSON object that describes a message.
pub open spec fn item_object(item: InboxItem) -> JsonModel {
    JsonModel::Object(
        seq![
            ("id"@, JsonModel::Text(item.id@)),
            ("preview"@, JsonModel::Text(item.preview@)),
            ("tick"@, JsonModel::Number(item.tick)),
            ("sender_id"@, JsonModel::Text(item.sender_id@)),
            ("payload_hex"@, JsonModel::Text(hex_text(item.payload@))),
            ("is_stale_route"@, JsonModel::Bool(item.is_stale_route)),
        ],
    )
}

fn item_body(item: &InboxItem) -> (r: Json)
    ensures
        r@ == item_object(*item),
{
    let payload = encode(item.payload.as_slice());
    let fields = Fields::new().with("id", text(item.id.as_str())).with(
        "preview",
        text(item.preview.as_str()),
    ).with("tick", number(item.tick)).with("sender_id", text(item.sender_id.as_str())).with(
        "payload_hex",
        text(payload.as_str()),
    ).with("is_stale_route", truth(item.is_stale_route));
    assert(fields@ =~= item_object(*item)->Object_0);
    fields.object()
}

/// The JSON object that lists messages.
pub open spec fn inbox_object(items: Seq<InboxItem>) -> JsonModel {
    JsonModel::Object(
        seq![
            ("items"@, JsonModel::List(items.map_values(|item: InboxItem| item_object(item)))),
            ("count"@, JsonModel::Number(items.len() as u64)),
        ],
    )
}

fn inbox_body(items: &Vec<InboxItem>) -> (r: Json)
    ensures
        r@ == inbox_object(items@),
{
    let mut bodies: Vec<Json> = Vec::new();
    let mut i: usize = 0;
    while i < items.len()
        invariant
            i <= items@.len(),
            bodies@.len() == i,
            forall|j: int| 0 <= j < i ==> (#[trigger] bodies@[j])@ == item_object(items@[j]),
        decreases items@.len() - i,
    {
        bodies.push(item_body(&items[i]));
        i = i + 1;
    }
    assert(models(bodies@) =~= items@.map_values(|item: InboxItem| item_object(item)));
    let fields = Fields::new().with("items", list(bodies)).with(
        "count",
        number(items.len() as u64),
    );
    assert(fields@ =~= inbox_object(items@)->Object_0);
    fields.object()
}

/// The answer to `GET /inbox`.
pub open spec fn inbox_answer(decoded: Result<Envelope, String>) -> Result<
    JsonModel,
    AppErrorModel,
> {
    match decoded {
        Err(why) => Err(undecodable(why@)),
        Ok(envelope) => match envelope.payload {
            Payload::Inbox(items) => Ok(inbox_object(items@)),
            _ => Err(unexpected(envelope)),
        },
    }
}

/// Answers `GET /inbox`; `decoded` is the envelope that [`inbox_call`] was answered with, or the
/// reason why it could not be decoded.
pub fn get_inbox(decoded: Result<Envelope, String>) -> (r: Result<Json, AppError>)
    ensures
        answer(r) == inbox_answer(decoded),
{
    match decoded {
        Err(why) => Err(undecodable_error(&why)),
        Ok(envelope) => match envelope.payload {
            Payload::Inbox(items) => Ok(inbox_body(&items)),
            _ => Err(unexpected_error(&envelope.payload_text)),
        },
    }
}

/// The body of `POST /inbox/ack`.
#[derive(Debug)]
pub struct AckRequest {
    /// Message ids in Crockford Base32, as `GET /inbox` shows them.
    pub message_ids_b32: Vec<String>,
}

/// What the storage nodes are sent: one envelope per message id, with nothing else in it.
#[derive(Debug, PartialEq, Eq)]
pub struct BatchEnvelope {
    pub message_ids: Vec<Vec<u8>>,
    pub batch_signature: Vec<u8>,
    pub atomic_execution: bool,
}

/// What an acknowledgement comes to.
#[derive(Debug, PartialEq, Eq)]
pub enum AckPlan {
    /// There is nothing to acknowledge: the request is answered at once.
    Nothing(Json),
    /// These messages are to be acknowledged.
    Batch(BatchEnvelope),
}

/// Plans the acknowledgement; `decoded` holds, for each id of the request, the bytes that it
/// stands for as Crockford Base32. The first id that is not Base32 is reported.
pub fn post_inbox_ack_plan(request: &AckRequest, decoded: Vec<Option<Vec<u8>>>) -> (r: Result<
    AckPlan,
    AppError,
>)
    requires
        request.message_ids_b32@.len() == decoded@.len(),
    ensures
        match r {
            Ok(AckPlan::Nothing(body)) => {
                &&& decoded@.len() == 0
                &&& body@ == JsonModel::Object(seq![("acked"@, JsonModel::Number(0))])
            },
            Ok(AckPlan::Batch(batch)) => {
                &&& decoded@.len() > 0
                &&& batch.message_ids@.len() == decoded@.len()
                &&& forall|i: int|
                    0 <= i < decoded@.len() ==> #[trigger] decoded@[i] == Some(
                        batch.message_ids@[i],
                    )
                &&& batch.batch_signature@.len() == 0
                &&& !batch.atomic_execution
            },
            Err(e) => exists|i: int|
                {
                    &&& 0 <= i < decoded@.len()
                    &&& (#[trigger] decoded@[i]) is None
                    &&& forall|j: int| 0 <= j < i ==> (#[trigger] decoded@[j]) is Some
                    &&& e@ == AppErrorModel::BadRequest(
                        "message_id is not valid Crockford Base32: "@
                            + request.message_ids_b32@[i]@,
                    )
                },
        },
{
    if request.message_ids_b32.is_empty() {
        return Ok(AckPlan::Nothing(Fields::new().with("acked", number(0)).object()));
    }
    let ghost all = decoded@;
    let mut message_ids: Vec<Vec<u8>> = Vec::new();
    for one in it: decoded
        invariant
            it.seq() == all,
            all == decoded@,
            request.message_ids_b32@.len() == all.len(),
            message_ids@.len() == it.index(),
            forall|j: int| 0 <= j < it.index() ==> #[trigger] all[j] == Some(message_ids@[j]),
    {
        match one {
            Some(bytes) => {
                message_ids.push(bytes);
            },
            None => {
                let i: usize = message_ids.len();
                assert(decoded@[i as int] is None);
                return Err(
                    AppError::BadRequest(
                        joined(
                            "message_id is not valid Crockford Base32: ",
                            request.message_ids_b32[i].as_str(),
                        ),
                    ),
                );
            },
        }
    }
    Ok(
        AckPlan::Batch(
            BatchEnvelope { message_ids, batch_signature: Vec::new(), atomic_execution: false },
        ),
    )
}

/// The bytes that go to the storage nodes; `encoded` is the batch on the wire, or the reason why
/// it could not be encoded.
pub fn batch_bytes(encoded: Result<Vec<u8>, String>) -> (r: Result<Vec<u8>, AppError>)
    ensures
        match encoded {
            Ok(bytes) => r == Ok::<Vec<u8>, AppError>(bytes),
            Err(why) => r matches Err(e) && e@ == AppErrorModel::Internal(
                "encode BatchEnvelope: "@ + why@,
            ),
        },
{
    match encoded {
        Ok(bytes) => Ok(bytes),
        Err(why) => Err(AppError::Internal(joined("encode BatchEnvelope: ", why.as_str()))),
    }
}

/// Reads the id of the device that acknowledges.
pub fn ack_device_id(identity: &Option<IdentityState>) -> (r: Result<Vec<u8>, AppError>)
    ensures
        bytes_or_error(r) == device_id_of(
            *identity,
            |why: Seq<char>| AppErrorModel::Internal("decode device_id hex: "@ + why),
        ),
{
    match known_device_id(identity) {
        Err(e) => Err(e),
        Ok(Ok(bytes)) => Ok(bytes),
        Ok(Err(why)) => Err(AppError::Internal(joined("decode device_id hex: ", why.as_str()))),
    }
}

/// An acknowledgement that is to be posted to a storage node.
#[derive(Debug, PartialEq, Eq)]
pub struct AckPost {
    pub url: String,
    pub content_type: String,
    pub authorization: String,
}

/// The address for acknowledgements at the storage node `endpoint`.
pub open spec fn ack_url(endpoint: Seq<char>) -> Seq<char> {
    trim_end(endpoint, '/') + "/api/v2/b0x/ack"@
}

/// Addresses the acknowledgement to every storage node, in order; `device` is this device's id
/// in Crockford Base32.
pub fn ack_posts(endpoints: &Vec<String>, device: &str) -> (r: Vec<AckPost>)
    ensures
        r@.len() == endpoints@.len(),
        forall|i: int|
            0 <= i < endpoints@.len() ==> {
                &&& (#[trigger] r@[i]).url@ == ack_url(endpoints@[i]@)
                &&& r@[i].content_type@ == "application/octet-stream"@
                &&& r@[i].authorization@ == "DSM "@ + device@ + ":"@
            },
{
    let mut posts: Vec<AckPost> = Vec::new();
    let mut i: usize = 0;
    while i < endpoints.len()
        invariant
            i <= endpoints@.len(),
            posts@.len() == i,
            forall|j: int|
                0 <= j < i ==> {
                    &&& (#[trigger] posts@[j]).url@ == ack_url(endpoints@[j]@)
                    &&& posts@[j].content_type@ == "application/octet-stream"@
                    &&& posts@[j].authorization@ == "DSM "@ + device@ + ":"@
                },
        decreases endpoints@.len() - i,
    {
        let base = trim_end_slashes(endpoints[i].as_str());
        posts.push(
            AckPost {
                url: joined(base.as_str(), "/api/v2/b0x/ack"),
                content_type: "application/octet-stream".to_owned(),
                authorization: joined3("DSM ", device, ":"),
            },
        );
        i = i + 1;
    }
    posts
}

/// How many of the nodes accepted the acknowledgement; each status is absent where the node
/// could not be reached.
pub open spec fn acked_nodes(statuses: Seq<Option<u16>>) -> nat
    decreases statuses.len(),
{
    if statuses.len() == 0 {
        0
    } else {
        acked_nodes(statuses.drop_last()) + if success(statuses.last()) {
            1nat
        } else {
            0nat
        }
    }
}

/// The answer to `POST /inbox/ack` for `messages` messages.
pub open spec fn ack_object(messages: usize, statuses: Seq<Option<u16>>) -> JsonModel {
    JsonModel::Object(
        seq![
            ("acked"@, JsonModel::Number(messages as u64)),
            ("acked_nodes"@, JsonModel::Number(acked_nodes(statuses) as u64)),
            ("total_nodes"@, JsonModel::Number(statuses.len() as u64)),
        ],
    )
}

/// Answers `POST /inbox/ack`, given what each storage node answered to its [`AckPost`]. Nodes
/// that refuse or cannot be reached only lower the count.
pub fn post_inbox_ack(messages: usize, statuses: &Vec<Option<u16>>) -> (r: Json)
    ensures
        r@ == ack_object(messages, statuses@),
{
    let mut acked: usize = 0;
    let mut i: usize = 0;
    while i < statuses.len()
        invariant
            i <= statuses@.len(),
            acked <= i,
            acked == acked_nodes(statuses@.take(i as int)),
        decreases statuses@.len() - i,
    {
        assert(statuses@.take(i + 1).drop_last() =~= statuses@.take(i as int));
        if is_success(statuses[i]) {
            acked = acked + 1;
        }
        i = i + 1;
    }
    assert(statuses@.take(i as int) =~= statuses@);
    let fields = Fields::new().with("acked", number(messages as u64)).with(
        "acked_nodes",
        number(acked as u64),
    ).with("total_nodes", number(statuses.len() as u64));
    assert(fields@ =~= ack_object(messages, statuses@)->Object_0);
    fields.object()
}

/// No more nodes accept an acknowledgement than were sent one, and all of them do exactly when
/// each of them succeeds.
pub proof fn acked_nodes_are_some_of_all(statuses: Seq<Option<u16>>)
    ensures
        acked_nodes(statuses) <= statuses.len(),
        acked_nodes(statuses) == statuses.len() <==> forall|i: int|
            0 <= i < statuses.len() ==> success(#[trigger] statuses[i]),
    decreases statuses.len(),
{
    if statuses.len() > 0 {
        let init = statuses.drop_last();
        acked_nodes_are_some_of_all(init);
        assert(forall|i: int| 0 <= i < init.len() ==> init[i] == #[trigger] statuses[i]);
        assert(statuses.last() == statuses[statuses.len() - 1]);
        if forall|i: int| 0 <= i < init.len() ==> success(#[trigger] init[i]) {
            assert forall|i: int| 0 <= i < statuses.len() - 1 implies success(
                #[trigger] statuses[i],
            ) by {
                assert(init[i] == statuses[i]);
            }
        }
        if forall|i: int| 0 <= i < statuses.len() ==> success(#[trigger] statuses[i]) {
            assert forall|i: int| 0 <= i < init.len() implies success(#[trigger] init[i]) by {
                assert(init[i] == statuses[i]);
            }
        }
    }
}

/// As many messages are pulled as the request names, and fifty where it names no number.
pub proof fn named_limit_is_pulled(limit: u32)
    ensures
        inbox_request(Some(limit)).message == (MessageModel::Inbox {
            limit,
            chain_tip: Seq::empty(),
        }),
        inbox_request(None) == inbox_request(Some(50)),
        inbox_request(Some(limit)).path == "inbox.pull"@,
        inbox_request(Some(limit)).kind == CallKind::Query,
{
}

/// Whether `body` shows the message `item`: its id, preview, tick, sender and route, and its payload
/// in hexadecimal.
pub open spec fn shows_item(body: JsonModel, item: InboxItem) -> bool {
    &&& body.shows("id"@, JsonModel::Text(item.id@))
    &&& body.shows("preview"@, JsonModel::Text(item.preview@))
    &&& body.shows("tick"@, JsonModel::Number(item.tick))
    &&& body.shows("sender_id"@, JsonModel::Text(item.sender_id@))
    &&& body.shows("payload_hex"@, JsonModel::Text(hex_text(item.payload@)))
    &&& body.shows("is_stale_route"@, JsonModel::Bool(item.is_stale_route))
    &&& body.size() == 6
}

/// A message is shown with its own id and everything else that it came with.
pub proof fn message_is_shown_as_it_came(item: InboxItem)
    ensures
        shows_item(item_object(item), item),
        item_object(item).shows("id"@, JsonModel::Text(item.id@)),
        item_object(item).shows("payload_hex"@, JsonModel::Text(hex_text(item.payload@))),
        item_object(item).shows("sender_id"@, JsonModel::Text(item.sender_id@)),
{
    reveal_strlit("id");
    reveal_strlit("preview");
    reveal_strlit("tick");
    reveal_strlit("sender_id");
    reveal_strlit("payload_hex");
    reveal_strlit("is_stale_route");
    let members = item_object(item)->Object_0;
    assert(members[0].0 == "id"@);
    assert(members[1].0 == "preview"@);
    assert(members[2].0 == "tick"@);
    assert(members[3].0 == "sender_id"@);
    assert(members[4].0 == "payload_hex"@);
    assert(members[5].0 == "is_stale_route"@);
}

/// No pending message is left out: the answer to `GET /inbox` shows each of the pulled messages, in
/// order, and counts them.
pub proof fn every_message_is_shown(items: Seq<InboxItem>, listed: Seq<JsonModel>)
    requires
        inbox_object(items).shows("items"@, JsonModel::List(listed)),
    ensures
        inbox_object(items).size() == 2,
        inbox_object(items).shows("count"@, JsonModel::Number(items.len() as u64)),
        listed.len() == items.len(),
        forall|i: int|
            0 <= i < items.len() ==> {
                &&& shows_item(#[trigger] listed[i], items[i])
                &&& listed[i].shows("id"@, JsonModel::Text(items[i].id@))
                &&& listed[i].shows("payload_hex"@, JsonModel::Text(hex_text(items[i].payload@)))
            },
{
    reveal_strlit("items");
    reveal_strlit("count");
    assert("items"@[0] != "count"@[0]);
    let members = inbox_object(items)->Object_0;
    assert(members[0].0 == "items"@);
    assert(members[1].0 == "count"@);
    assert(listed == members[0].1->List_0);
    assert forall|i: int| 0 <= i < items.len() implies {
        &&& shows_item(#[trigger] listed[i], items[i])
        &&& listed[i].shows("id"@, JsonModel::Text(items[i].id@))
        &&& listed[i].shows("payload_hex"@, JsonModel::Text(hex_text(items[i].payload@)))
    } by {
        message_is_shown_as_it_came(items[i]);
    }
}

/// The answer to `GET /inbox` lists messages.
pub proof fn inbox_is_a_list(items: Seq<InboxItem>)
    ensures
        exists|listed: Seq<JsonModel>| #[trigger]
            inbox_object(items).shows("items"@, JsonModel::List(listed)),
{
    reveal_strlit("items");
    reveal_strlit("count");
    assert("items"@[0] != "count"@[0]);
    let members = inbox_object(items)->Object_0;
    assert(members[0].0 == "items"@);
    assert(inbox_object(items).shows("items"@, JsonModel::List(members[0].1->List_0)));
}

/// `GET /inbox` is answered with the messages exactly where the SDK answered with messages.
pub proof fn pulled_messages_are_listed(decoded: Result<Envelope, String>)
    ensures
        match inbox_answer(decoded) {
            Ok(body) => decoded matches Ok(envelope) && envelope.payload matches Payload::Inbox(
                items,
            ) && body == inbox_object(items@),
            Err(e) => e is Internal && (decoded matches Ok(envelope) ==> !(envelope.payload is Inbox)),
        },
{
}

/// An acknowledgement goes to the node's own address, however many slashes that ends with.
pub proof fn acknowledgement_goes_to_the_node(endpoint: Seq<char>)
    ensures
        trim_end(endpoint, '/').is_prefix_of(ack_url(endpoint)),
        "/api/v2/b0x/ack"@.is_suffix_of(ack_url(endpoint)),
        ack_url(endpoint).len() == trim_end(endpoint, '/').len() + "/api/v2/b0x/ack"@.len(),
        ack_url(endpoint.push('/')) == ack_url(endpoint),
{
    let base = trim_end(endpoint, '/');
    let url = ack_url(endpoint);
    assert(url.subrange(0, base.len() as int) =~= base);
    assert(url.subrange(base.len() as int, url.len() as int) =~= "/api/v2/b0x/ack"@);
    assert(endpoint.push('/').drop_last() =~= endpoint);
    reveal_with_fuel(trim_end, 2);
}

/// Every node that accepts counts once, in whatever order they answer: the count over two groups of
/// nodes is the sum, and a single node counts one exactly where its status is in the two hundreds.
pub proof fn accepting_nodes_are_counted(
    left: Seq<Option<u16>>,
    right: Seq<Option<u16>>,
    status: Option<u16>,
)
    ensures
        acked_nodes(left + right) == acked_nodes(left) + acked_nodes(right),
        acked_nodes(seq![status]) == (if status matches Some(code) && code / 100 == 2 {
            1nat
        } else {
            0nat
        }),
    decreases right.len(),
{
    assert(seq![status].drop_last() =~= Seq::<Option<u16>>::empty());
    reveal_with_fuel(acked_nodes, 2);
    if right.len() == 0 {
        assert(left + right =~= left);
    } else {
        assert((left + right).drop_last() =~= left + right.drop_last());
        accepting_nodes_are_counted(left, right.drop_last(), status);
    }
}

/// The answer to `POST /inbox/ack` shows how many messages were acknowledged, how many nodes
/// accepted, and how many there are.
pub proof fn acknowledgement_is_answered_with_its_counts(
    messages: usize,
    statuses: Seq<Option<u16>>,
)
    ensures
        ack_object(messages, statuses).size() == 3,
        ack_object(messages, statuses).shows("acked"@, JsonModel::Number(messages as u64)),
        ack_object(messages, statuses).shows(
            "acked_nodes"@,
            JsonModel::Number(acked_nodes(statuses) as u64),
        ),
        ack_object(messages, statuses).shows(
            "total_nodes"@,
            JsonModel::Number(statuses.len() as u64),
        ),
{
    reveal_strlit("acked");
    reveal_strlit("acked_nodes");
    reveal_strlit("total_nodes");
    assert("acked_nodes"@[0] != "total_nodes"@[0]);
    let members = ack_object(messages, statuses)->Object_0;
    assert(members[0].0 == "acked"@);
    assert(members[1].0 == "acked_nodes"@);
    assert(members[2].0 == "total_nodes"@);
}

} // verus!

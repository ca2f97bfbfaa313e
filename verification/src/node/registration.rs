//! Registering this device with every storage node.
//!
//! Each node in turn is asked to register the device; one that knows it already is asked for a
//! new token instead. The token that comes back is stored. A node that fails is passed over.
use vstd::prelude::*;

use crate::hexcode::{decode, hex_bytes, is_hex};
use crate::node::http::{is_success, success, CONFLICT};
use crate::node::identity::IdentityState;
use crate::text::{both_ends_are_kept, joined, trim_end, trim_end_slashes};

verus! {

/// What a storage node is told about this device.
#[derive(Debug, PartialEq, Eq)]
pub struct RegisterDeviceRequest {
    pub device_id: Vec<u8>,
    pub pubkey: Vec<u8>,
    pub genesis_hash: Vec<u8>,
    pub kyber_public_key: Vec<u8>,
    pub kyber_binding_sig: Vec<u8>,
}

/// Reads the device id and the genesis hash; there is nothing to register where either is not
/// hexadecimal.
pub fn registration_ids(identity: &IdentityState) -> (r: Option<(Vec<u8>, Vec<u8>)>)
    ensures
        match r {
            Some((device_id, genesis_hash)) => {
                &&& is_hex(identity.device_id_hex@)
                &&& is_hex(identity.genesis_hash_hex@)
                &&& device_id@ == hex_bytes(identity.device_id_hex@)
                &&& genesis_hash@ == hex_bytes(identity.genesis_hash_hex@)
            },
            None => !is_hex(identity.device_id_hex@) || !is_hex(identity.genesis_hash_hex@),
        },
{
    match decode(identity.device_id_hex.as_str()) {
        Err(_) => None,
        Ok(device_id) => match decode(identity.genesis_hash_hex.as_str()) {
            Err(_) => None,
            Ok(genesis_hash) => Some((device_id, genesis_hash)),
        },
    }
}

/// Fills in the registration. A missing signing key is sent as empty; `binding`, the Kyber key
/// with the signature that binds it to the device, is mandatory: without it nothing is sent.
pub fn registration_request(
    device_id: Vec<u8>,
    genesis_hash: Vec<u8>,
    public_key: Option<Vec<u8>>,
    binding: Option<(Vec<u8>, Vec<u8>)>,
) -> (r: Option<RegisterDeviceRequest>)
    ensures
        match binding {
            None => r is None,
            Some((key, signature)) => {
                &&& r matches Some(request)
                &&& request.device_id == device_id
                &&& request.genesis_hash == genesis_hash
                &&& request.kyber_public_key == key
                &&& request.kyber_binding_sig == signature
                &&& request.pubkey@ == (match public_key {
                    Some(key) => key@,
                    None => Seq::empty(),
                })
            },
        },
{
    match binding {
        None => None,
        Some((kyber_public_key, kyber_binding_sig)) => Some(
            RegisterDeviceRequest {
                device_id,
                pubkey: match public_key {
                    Some(key) => key,
                    None => Vec::new(),
                },
                genesis_hash,
                kyber_public_key,
                kyber_binding_sig,
            },
        ),
    }
}

/// What a storage node is asked for.
#[derive(Debug, Clone, Copy, PartialEq, Eq, Structural)]
pub enum Attempt {
    /// To register the device.
    Register,
    /// To issue a new token for a device that it has registered before.
    Reissue,
}

/// What an answer leads to.
#[derive(Debug, Clone, Copy, PartialEq, Eq, Structural)]
pub enum Verdict {
    /// The answer holds a token.
    TakeToken,
    /// The device is known already: ask for a new token.
    AskAgain,
    /// There is no token to be had.
    GiveUp,
}

/// What the status of the answer to `attempt` leads to.
pub open spec fn verdict(attempt: Attempt, status: Option<u16>) -> Verdict {
    if success(status) {
        Verdict::TakeToken
    } else if attempt == Attempt::Register && status == Some(CONFLICT) {
        Verdict::AskAgain
    } else {
        Verdict::GiveUp
    }
}

/// Judges a storage node's answer; the status is absent where the node could not be reached.
pub fn try_register_or_reissue(attempt: Attempt, status: Option<u16>) -> (r: Verdict)
    ensures
        r == verdict(attempt, status),
{
    if is_success(status) {
        return Verdict::TakeToken;
    }
    match (attempt, status) {
        (Attempt::Register, Some(code)) => if code == CONFLICT {
            Verdict::AskAgain
        } else {
            Verdict::GiveUp
        },
        _ => Verdict::GiveUp,
    }
}

/// How far the registration with the current node has come.
#[derive(Debug)]
pub enum Stage {
    /// The node is to be asked.
    Ask(Attempt),
    /// The node answered, and its answer is to be read.
    ReadToken,
    /// This token is to be stored.
    Store(String),
}

/// The mathematical counterpart of [`Stage`].
pub enum StageModel {
    Ask(Attempt),
    ReadToken,
    Store(Seq<char>),
}

impl View for Stage {
    type V = StageModel;

    open spec fn view(&self) -> StageModel {
        match self {
            Stage::Ask(attempt) => StageModel::Ask(*attempt),
            Stage::ReadToken => StageModel::ReadToken,
            Stage::Store(token) => StageModel::Store(token@),
        }
    }
}

/// What is to be done next.
#[derive(Debug, PartialEq, Eq)]
pub enum Action {
    /// Post the registration to this address.
    Post { url: String, content_type: String },
    /// Decode the answer that was just received and put its token into Crockford Base32.
    ReadToken,
    /// Store the token for this node.
    StoreToken { endpoint: String, token: String },
    /// Nothing: every node has been seen to.
    Finished,
}

/// The mathematical counterpart of [`Action`].
pub enum ActionModel {
    Post { url: Seq<char>, content_type: Seq<char> },
    ReadToken,
    StoreToken { endpoint: Seq<char>, token: Seq<char> },
    Finished,
}

impl View for Action {
    type V = ActionModel;

    open spec fn view(&self) -> ActionModel {
        match self {
            Action::Post { url, content_type } => ActionModel::Post {
                url: url@,
                content_type: content_type@,
            },
            Action::ReadToken => ActionModel::ReadToken,
            Action::StoreToken { endpoint, token } => ActionModel::StoreToken {
                endpoint: endpoint@,
                token: token@,
            },
            Action::Finished => ActionModel::Finished,
        }
    }
}

/// What became of the last action.
#[derive(Debug)]
pub enum Event {
    /// The node answered with this status, or could not be reached.
    Answered(Option<u16>),
    /// The answer held this token, or could not be read.
    Token(Option<String>),
    /// Storing was tried.
    Stored,
}

/// The mathematical counterpart of [`Event`].
pub enum EventModel {
    Answered(Option<u16>),
    Token(Option<Seq<char>>),
    Stored,
}

impl View for Event {
    type V = EventModel;

    open spec fn view(&self) -> EventModel {
        match self {
            Event::Answered(status) => EventModel::Answered(*status),
            Event::Token(Some(token)) => EventModel::Token(Some(token@)),
            Event::Token(None) => EventModel::Token(None),
            Event::Stored => EventModel::Stored,
        }
    }
}

/// A registration in progress.
#[derive(Debug)]
pub struct Registration {
    endpoints: Vec<String>,
    index: usize,
    stage: Stage,
}

/// The mathematical counterpart of [`Registration`].
pub struct RegistrationModel {
    pub endpoints: Seq<Seq<char>>,
    /// The node whose turn it is.
    pub index: nat,
    pub stage: StageModel,
}

impl View for Registration {
    type V = RegistrationModel;

    closed spec fn view(&self) -> RegistrationModel {
        RegistrationModel {
            endpoints: self.endpoints@.map_values(|endpoint: String| endpoint@),
            index: self.index as nat,
            stage: self.stage@,
        }
    }
}

impl RegistrationModel {
    /// The node whose turn it is, if any, is one of the nodes.
    pub open spec fn well_formed(self) -> bool {
        self.index <= self.endpoints.len()
    }

    /// Whether every node has been seen to.
    pub open spec fn finished(self) -> bool {
        self.index >= self.endpoints.len()
    }

    /// The address that `attempt` is posted to at the current node.
    pub open spec fn url(self, attempt: Attempt) -> Seq<char> {
        trim_end(self.endpoints[self.index as int], '/') + match attempt {
            Attempt::Register => "/api/v2/device/register"@,
            Attempt::Reissue => "/api/v2/device/token"@,
        }
    }

    /// What is to be done next.
    pub open spec fn action(self) -> ActionModel {
        if self.finished() {
            ActionModel::Finished
        } else {
            match self.stage {
                StageModel::Ask(attempt) => ActionModel::Post {
                    url: self.url(attempt),
                    content_type: "application/protobuf"@,
                },
                StageModel::ReadToken => ActionModel::ReadToken,
                StageModel::Store(token) => ActionModel::StoreToken {
                    endpoint: trim_end(self.endpoints[self.index as int], '/'),
                    token,
                },
            }
        }
    }

    /// Whether `event` reports on the next action.
    pub open spec fn expects(self, event: EventModel) -> bool {
        !self.finished() && match self.stage {
            StageModel::Ask(_) => event is Answered,
            StageModel::ReadToken => event is Token,
            StageModel::Store(_) => event is Stored,
        }
    }

    /// The next stage with the current node.
    pub open spec fn at(self, stage: StageModel) -> RegistrationModel {
        RegistrationModel { endpoints: self.endpoints, index: self.index, stage }
    }

    /// On to the next node.
    pub open spec fn passed_on(self) -> RegistrationModel {
        RegistrationModel {
            endpoints: self.endpoints,
            index: self.index + 1,
            stage: StageModel::Ask(Attempt::Register),
        }
    }

    /// Where `event` leads.
    pub open spec fn after(self, event: EventModel) -> RegistrationModel {
        match (self.stage, event) {
            (StageModel::Ask(attempt), EventModel::Answered(status)) => match verdict(
                attempt,
                status,
            ) {
                Verdict::TakeToken => self.at(StageModel::ReadToken),
                Verdict::AskAgain => self.at(StageModel::Ask(Attempt::Reissue)),
                Verdict::GiveUp => self.passed_on(),
            },
            (StageModel::ReadToken, EventModel::Token(Some(token))) => self.at(
                StageModel::Store(token),
            ),
            _ => self.passed_on(),
        }
    }

    /// An upper bound on the number of events that are still to come.
    pub open spec fn events_left(self) -> int {
        if self.finished() {
            0
        } else {
            4 * (self.endpoints.len() - self.index - 1) + match self.stage {
                StageModel::Ask(Attempt::Register) => 4int,
                StageModel::Ask(Attempt::Reissue) => 3,
                StageModel::ReadToken => 2,
                StageModel::Store(_) => 1,
            }
        }
    }
}

impl Registration {
    /// Starts with the first of `endpoints`.
    pub fn new(endpoints: &Vec<String>) -> (r: Registration)
        ensures
            r@.endpoints == endpoints@.map_values(|endpoint: String| endpoint@),
            r@.index == 0,
            r@.stage == StageModel::Ask(Attempt::Register),
            r@.well_formed(),
    {
        let endpoints_copy: Vec<String> = endpoints.clone();
        assert(endpoints_copy@ =~= endpoints@);
        Registration { endpoints: endpoints_copy, index: 0, stage: Stage::Ask(Attempt::Register) }
    }

    /// Says what is to be done next.
    pub fn action(&self) -> (r: Action)
        ensures
            r@ == self@.action(),
    {
        if self.index >= self.endpoints.len() {
            return Action::Finished;
        }
        let base = trim_end_slashes(self.endpoints[self.index].as_str());
        match &self.stage {
            Stage::Ask(attempt) => {
                let route = match attempt {
                    Attempt::Register => "/api/v2/device/register",
                    Attempt::Reissue => "/api/v2/device/token",
                };
                Action::Post {
                    url: joined(base.as_str(), route),
                    content_type: "application/protobuf".to_owned(),
                }
            },
            Stage::ReadToken => Action::ReadToken,
            Stage::Store(token) => Action::StoreToken { endpoint: base, token: token.clone() },
        }
    }

    /// Takes in what became of the last action.
    pub fn on_event(&mut self, event: Event)
        requires
            old(self)@.well_formed(),
            old(self)@.expects(event@),
        ensures
            final(self)@ == old(self)@.after(event@),
            final(self)@.well_formed(),
    {
        let count: usize = self.endpoints.len();
        assert(self.index < count);
        let next = match (&self.stage, event) {
            (Stage::Ask(attempt), Event::Answered(status)) => match try_register_or_reissue(
                *attempt,
                status,
            ) {
                Verdict::TakeToken => Some(Stage::ReadToken),
                Verdict::AskAgain => Some(Stage::Ask(Attempt::Reissue)),
                Verdict::GiveUp => None,
            },
            (Stage::ReadToken, Event::Token(Some(token))) => Some(Stage::Store(token)),
            _ => None,
        };
        match next {
            Some(stage) => {
                self.stage = stage;
            },
            None => {
                self.index = self.index + 1;
                self.stage = Stage::Ask(Attempt::Register);
            },
        }
    }
}

/// Registration ends: every event brings it nearer, and it starts with at most four events per
/// node ahead of it.
pub proof fn registration_ends(run: RegistrationModel, event: EventModel)
    requires
        run.well_formed(),
        run.expects(event),
    ensures
        0 <= run.after(event).events_left() < run.events_left() <= 4 * run.endpoints.len(),
{
}

/// A node that fails does not keep the device from the others: whatever happens, the nodes stay
/// the same and the next event concerns the same node or the one after it, from the start.
pub proof fn failing_node_is_passed_over(run: RegistrationModel, event: EventModel)
    requires
        run.well_formed(),
        run.expects(event),
    ensures
        run.after(event).endpoints == run.endpoints,
        run.after(event).index == run.index || run.after(event) == run.passed_on(),
        event == EventModel::Answered(None) || event == EventModel::Token(None)
            ==> run.after(event) == run.passed_on(),
{
}

/// Where the registration stands after `events`.
pub open spec fn run(start: RegistrationModel, events: Seq<EventModel>) -> RegistrationModel
    decreases events.len(),
{
    if events.len() == 0 {
        start
    } else {
        run(start, events.drop_last()).after(events.last())
    }
}

/// Whether each of `events` reports on the action that preceded it.
pub open spec fn accepted(start: RegistrationModel, events: Seq<EventModel>) -> bool
    decreases events.len(),
{
    events.len() == 0 || (accepted(start, events.drop_last()) && run(
        start,
        events.drop_last(),
    ).expects(events.last()))
}

/// Every node is asked to register the device: once the registration is past node `i`, there was
/// a moment when asking node `i` was the next thing to be done.
pub proof fn every_node_is_asked(start: RegistrationModel, events: Seq<EventModel>, i: nat)
    requires
        start.index == 0,
        start.stage == StageModel::Ask(Attempt::Register),
        accepted(start, events),
        i <= run(start, events).index,
        i < start.endpoints.len(),
    ensures
        run(start, events).endpoints == start.endpoints,
        exists|k: int|
            0 <= k <= events.len() && (#[trigger] run(start, events.take(k))).index == i && run(
                start,
                events.take(k),
            ).stage == StageModel::Ask(Attempt::Register),
    decreases events.len(),
{
    let here = run(start, events);
    assert(events.take(events.len() as int) =~= events);
    if events.len() > 0 {
        let before = events.drop_last();
        let prior = run(start, before);
        if i <= prior.index {
            every_node_is_asked(start, before, i);
            let k = choose|k: int|
                0 <= k <= before.len() && (#[trigger] run(start, before.take(k))).index == i && run(
                    start,
                    before.take(k),
                ).stage == StageModel::Ask(Attempt::Register);
            assert(before.take(k) =~= events.take(k));
        } else {
            every_node_is_asked(start, before, 0);
            assert(here == prior.passed_on());
            let k = events.len() as int;
            assert(run(start, events.take(k)).index == i);
        }
    } else {
        assert(run(start, events.take(0)).index == i);
    }
}

/// A node is asked for a new token only after it answered the registration with a conflict, and
/// asked at most once.
pub proof fn token_is_reissued_only_after_a_conflict(run: RegistrationModel, event: EventModel)
    requires
        run.well_formed(),
        run.expects(event),
        run.after(event).stage == StageModel::Ask(Attempt::Reissue),
    ensures
        run.stage == StageModel::Ask(Attempt::Register),
        event == EventModel::Answered(Some(CONFLICT)),
        run.after(event).index == run.index,
{
}

/// A status in the two hundreds brings a token; a conflict on registering, and nothing else, has the
/// node asked again; anything else, silence included, is given up on.
pub proof fn status_decides(attempt: Attempt, status: Option<u16>)
    ensures
        verdict(attempt, status) == Verdict::TakeToken <==> (status matches Some(code) && code / 100
            == 2),
        verdict(attempt, status) == Verdict::AskAgain <==> attempt == Attempt::Register && status
            == Some(409u16),
{
}

/// Each request goes to the node whose turn it is, however many slashes its address ends with:
/// registrations to one route, requests for a new token to another.
pub proof fn request_goes_to_the_current_node(run: RegistrationModel, attempt: Attempt)
    requires
        run.well_formed(),
        !run.finished(),
        run.stage == StageModel::Ask(attempt),
    ensures
        run.action() matches ActionModel::Post { url, content_type } && {
            let base = trim_end(run.endpoints[run.index as int], '/');
            &&& base.is_prefix_of(url)
            &&& attempt == Attempt::Register ==> url.len() == base.len()
                + "/api/v2/device/register"@.len() && "/api/v2/device/register"@.is_suffix_of(url)
            &&& attempt == Attempt::Reissue ==> url.len() == base.len()
                + "/api/v2/device/token"@.len() && "/api/v2/device/token"@.is_suffix_of(url)
            &&& content_type == "application/protobuf"@
        },
{
    let base = trim_end(run.endpoints[run.index as int], '/');
    both_ends_are_kept(base, "/api/v2/device/register"@);
    both_ends_are_kept(base, "/api/v2/device/token"@);
}

/// A token that was read is stored as it is, for the node that it came from; then the next node has
/// its turn.
pub proof fn token_is_stored_for_its_node(run: RegistrationModel, token: Seq<char>)
    requires
        run.well_formed(),
        run.expects(EventModel::Token(Some(token))),
    ensures
        ({
            let read = run.after(EventModel::Token(Some(token)));
            &&& read.action() == (ActionModel::StoreToken {
                endpoint: trim_end(run.endpoints[run.index as int], '/'),
                token,
            })
            &&& read.after(EventModel::Stored).index == run.index + 1
            &&& read.after(EventModel::Stored).endpoints == run.endpoints
        }),
{
}

/// A node that answers with a token is read from; one that answers the registration with a conflict
/// is asked for a new token; the run is over exactly when every node has had its turn.
pub proof fn answers_are_followed_up(run: RegistrationModel, code: u16)
    requires
        run.well_formed(),
        run.expects(EventModel::Answered(Some(code))),
    ensures
        code / 100 == 2 ==> run.after(EventModel::Answered(Some(code))).action()
            == ActionModel::ReadToken,
        code == 409 && run.stage == StageModel::Ask(Attempt::Register) ==> {
            let asked = run.after(EventModel::Answered(Some(code)));
            asked.stage == StageModel::Ask(Attempt::Reissue) && asked.index == run.index
        },
        run.action() is Finished <==> run.index == run.endpoints.len(),
{
}

} // verus!

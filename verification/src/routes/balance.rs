//! `GET /balance` and `GET /balances`.
use vstd::prelude::*;

use crate::error::{answer, AppError, AppErrorModel};
use crate::json::{list, models, number, text, Fields, Json, JsonModel};
use crate::reply::{
    undecodable, undecodable_error, unexpected, unexpected_error, BalanceEntry, CallKind, Envelope,
    Message, MessageModel, Payload, SdkCall, SdkCallModel,
};
use crate::search::{first, first_index, first_index_is_first, first_index_is_unique};
use crate::text::joined3;

verus! {

/// The query of `GET /balance`.
#[derive(Debug)]
pub struct BalanceParams {
    pub token_id: Option<String>,
}

/// The token that a request means: the one it names, or "ERA".
pub open spec fn token_or_era(token_id: Option<String>) -> Seq<char> {
    match token_id {
        Some(t) => t@,
        None => "ERA"@,
    }
}

/// Settles which token a request means.
pub fn token_id_or_era(token_id: Option<String>) -> (r: String)
    ensures
        r@ == token_or_era(token_id),
{
    match token_id {
        Some(t) => t,
        None => "ERA".to_owned(),
    }
}

/// The call that lists the balances.
pub fn balances_call() -> (r: SdkCall)
    ensures
        r@ == (SdkCallModel {
            kind: CallKind::Query,
            path: "balance.list"@,
            message: MessageModel::Empty,
        }),
{
    SdkCall { kind: CallKind::Query, path: "balance.list".to_owned(), message: Message::Empty }
}

/// Takes the balances out of the answer to [`balances_call`]; `decoded` is the envelope, or the
/// reason why it could not be decoded.
pub fn fetch_balances_list(decoded: Result<Envelope, String>) -> (r: Result<
    Vec<BalanceEntry>,
    AppError,
>)
    ensures
        match decoded {
            Err(why) => r matches Err(e) && e@ == undecodable(why@),
            Ok(envelope) => match envelope.payload {
                Payload::BalancesList(balances) => r == Ok::<Vec<BalanceEntry>, AppError>(balances),
                _ => r matches Err(e) && e@ == unexpected(envelope),
            },
        },
{
    match decoded {
        Err(why) => Err(undecodable_error(&why)),
        Ok(envelope) => match envelope.payload {
            Payload::BalancesList(balances) => Ok(balances),
            _ => Err(unexpected_error(&envelope.payload_text)),
        },
    }
}

/// The JSON object that describes a balance.
pub open spec fn balance_object(entry: BalanceEntry) -> JsonModel {
    JsonModel::Object(
        seq![
            ("token_id"@, JsonModel::Text(entry.token_id@)),
            ("available"@, JsonModel::Number(entry.available)),
            ("locked"@, JsonModel::Number(entry.locked)),
            ("symbol"@, JsonModel::Text(entry.symbol@)),
            ("decimals"@, JsonModel::Number(entry.decimals as u64)),
            ("token_name"@, JsonModel::Text(entry.token_name@)),
        ],
    )
}

fn balance_body(entry: &BalanceEntry) -> (r: Json)
    ensures
        r@ == balance_object(*entry),
{
    let fields = Fields::new().with("token_id", text(entry.token_id.as_str())).with(
        "available",
        number(entry.available),
    ).with("locked", number(entry.locked)).with("symbol", text(entry.symbol.as_str())).with(
        "decimals",
        number(entry.decimals as u64),
    ).with("token_name", text(entry.token_name.as_str()));
    assert(fields@ =~= balance_object(*entry)->Object_0);
    fields.object()
}

/// Whether a balance is one of the token `token_id`.
pub open spec fn of_token(token_id: Seq<char>) -> spec_fn(BalanceEntry) -> bool {
    |entry: BalanceEntry| entry.token_id@ == token_id
}

/// Finds the first balance of the token `token_id`.
pub(crate) fn find_balance<'a>(balances: &'a Vec<BalanceEntry>, token_id: &String) -> (r: Option<
    &'a BalanceEntry,
>)
    ensures
        match r {
            Some(entry) => first(balances@, of_token(token_id@)) == Some(*entry),
            None => first(balances@, of_token(token_id@)) is None,
        },
{
    let ghost wanted = of_token(token_id@);
    let mut i: usize = 0;
    while i < balances.len()
        invariant
            i <= balances@.len(),
            wanted == of_token(token_id@),
            forall|j: int| 0 <= j < i ==> !wanted(#[trigger] balances@[j]),
        decreases balances@.len() - i,
    {
        if balances[i].token_id == *token_id {
            proof {
                first_index_is_unique(balances@, wanted, i as int);
            }
            return Some(&balances[i]);
        }
        i = i + 1;
    }
    proof {
        first_index_is_first(balances@, wanted);
    }
    None
}

/// The answer to `GET /balance`: the first balance of the token, if there is one.
pub open spec fn balance_answer(token_id: Seq<char>, balances: Seq<BalanceEntry>) -> Result<
    JsonModel,
    AppErrorModel,
> {
    match first(balances, of_token(token_id)) {
        Some(entry) => Ok(balance_object(entry)),
        None => Err(AppErrorModel::NotFound("token "@ + token_id + " not found"@)),
    }
}

/// Answers `GET /balance`, given the balances.
pub fn get_balance(params: BalanceParams, balances: &Vec<BalanceEntry>) -> (r: Result<
    Json,
    AppError,
>)
    ensures
        answer(r) == balance_answer(token_or_era(params.token_id), balances@),
{
    let token_id = token_id_or_era(params.token_id);
    match find_balance(balances, &token_id) {
        Some(entry) => Ok(balance_body(entry)),
        None => Err(AppError::NotFound(joined3("token ", token_id.as_str(), " not found"))),
    }
}

/// The answer to `GET /balances`: every balance, in order.
pub open spec fn balances_object(balances: Seq<BalanceEntry>) -> JsonModel {
    JsonModel::Object(
        seq![
            (
                "balances"@,
                JsonModel::List(balances.map_values(|entry: BalanceEntry| balance_object(entry))),
            ),
        ],
    )
}

/// Answers `GET /balances`, given the balances.
pub fn get_balances(balances: &Vec<BalanceEntry>) -> (r: Json)
    ensures
        r@ == balances_object(balances@),
{
    let mut items: Vec<Json> = Vec::new();
    let mut i: usize = 0;
    while i < balances.len()
        invariant
            i <= balances@.len(),
            items@.len() == i,
            forall|j: int|
                0 <= j < i ==> (#[trigger] items@[j])@ == balance_object(balances@[j]),
        decreases balances@.len() - i,
    {
        items.push(balance_body(&balances[i]));
        i = i + 1;
    }
    assert(models(items@) =~= balances@.map_values(|entry: BalanceEntry| balance_object(entry)));
    Fields::new().with("balances", list(items)).object()
}

/// `GET /balance` shows a balance exactly as `GET /balances` lists it, and finds one for every
/// token in the list.
pub proof fn balance_is_in_the_list(balances: Seq<BalanceEntry>, i: int)
    requires
        0 <= i < balances.len(),
    ensures
        exists|j: int|
            0 <= j <= i && (#[trigger] balances[j]).token_id@ == balances[i].token_id@
                && balance_answer(balances[i].token_id@, balances) == Ok::<JsonModel, AppErrorModel>(
                balance_object(balances[j]),
            ),
{
    let wanted = of_token(balances[i].token_id@);
    first_index_is_first(balances, wanted);
    assert(wanted(balances[i]));
    let j = first_index(balances, wanted)->0;
    assert(wanted(balances[j]));
}

/// Whether `body` shows the balance `entry`: its token, its amounts and its decimals.
pub open spec fn shows_balance(body: JsonModel, entry: BalanceEntry) -> bool {
    &&& body.shows("token_id"@, JsonModel::Text(entry.token_id@))
    &&& body.shows("available"@, JsonModel::Number(entry.available))
    &&& body.shows("locked"@, JsonModel::Number(entry.locked))
    &&& body.shows("symbol"@, JsonModel::Text(entry.symbol@))
    &&& body.shows("decimals"@, JsonModel::Number(entry.decimals as u64))
    &&& body.shows("token_name"@, JsonModel::Text(entry.token_name@))
    &&& body.size() == 6
}

/// A balance is shown with its own amounts, its own number of decimals and its own names.
pub proof fn balance_is_shown_as_it_is(entry: BalanceEntry)
    ensures
        shows_balance(balance_object(entry), entry),
        balance_object(entry).shows("decimals"@, JsonModel::Number(entry.decimals as u64)),
        balance_object(entry).shows("available"@, JsonModel::Number(entry.available)),
        balance_object(entry).shows("locked"@, JsonModel::Number(entry.locked)),
        balance_object(entry).shows("token_id"@, JsonModel::Text(entry.token_id@)),
{
    reveal_strlit("token_id");
    reveal_strlit("available");
    reveal_strlit("locked");
    reveal_strlit("symbol");
    reveal_strlit("decimals");
    reveal_strlit("token_name");
    assert("token_id"@[0] != "decimals"@[0]);
    assert("locked"@[0] != "symbol"@[0]);
    let members = balance_object(entry)->Object_0;
    assert(members[0].0 == "token_id"@);
    assert(members[1].0 == "available"@);
    assert(members[2].0 == "locked"@);
    assert(members[3].0 == "symbol"@);
    assert(members[4].0 == "decimals"@);
    assert(members[5].0 == "token_name"@);
}

/// Balances that differ in anything are shown differently.
pub proof fn different_balances_are_told_apart(left: BalanceEntry, right: BalanceEntry)
    requires
        balance_object(left) == balance_object(right),
    ensures
        left.decimals == right.decimals,
        left.available == right.available,
        left.locked == right.locked,
        left.token_id@ == right.token_id@,
        left.symbol@ == right.symbol@,
        left.token_name@ == right.token_name@,
{
    balance_is_shown_as_it_is(left);
    balance_is_shown_as_it_is(right);
    assert(left.decimals as u64 == right.decimals as u64);
}

/// `GET /balances` shows every balance, in order, as it is.
pub proof fn every_balance_is_shown(balances: Seq<BalanceEntry>, listed: Seq<JsonModel>)
    requires
        balances_object(balances).shows("balances"@, JsonModel::List(listed)),
    ensures
        balances_object(balances).size() == 1,
        listed.len() == balances.len(),
        forall|i: int|
            0 <= i < balances.len() ==> {
                &&& shows_balance(#[trigger] listed[i], balances[i])
                &&& listed[i].shows("available"@, JsonModel::Number(balances[i].available))
                &&& listed[i].shows("decimals"@, JsonModel::Number(balances[i].decimals as u64))
            },
{
    let members = balances_object(balances)->Object_0;
    assert(members[0].0 == "balances"@);
    assert(listed == members[0].1->List_0);
    assert forall|i: int| 0 <= i < balances.len() implies {
        &&& shows_balance(#[trigger] listed[i], balances[i])
        &&& listed[i].shows("available"@, JsonModel::Number(balances[i].available))
        &&& listed[i].shows("decimals"@, JsonModel::Number(balances[i].decimals as u64))
    } by {
        balance_is_shown_as_it_is(balances[i]);
    }
}

/// `GET /balances` lists balances.
pub proof fn balances_are_a_list(balances: Seq<BalanceEntry>)
    ensures
        exists|listed: Seq<JsonModel>| #[trigger]
            balances_object(balances).shows("balances"@, JsonModel::List(listed)),
{
    let members = balances_object(balances)->Object_0;
    assert(members[0].0 == "balances"@);
    assert(balances_object(balances).shows("balances"@, JsonModel::List(members[0].1->List_0)));
}

/// A request means the token that it names, and ERA where it names none.
pub proof fn named_token_is_meant(token: String)
    ensures
        token_or_era(Some(token)) == token@,
        token_or_era(None) == seq!['E', 'R', 'A'],
{
    reveal_strlit("ERA");
    assert("ERA"@ =~= seq!['E', 'R', 'A']);
}

/// `GET /balance` shows the first balance of the token that is meant, as it is; where there is none
/// the answer is that the token is not found, and says which.
pub proof fn balance_of_the_token_is_shown(token_id: Seq<char>, balances: Seq<BalanceEntry>)
    ensures
        match balance_answer(token_id, balances) {
            Ok(body) => exists|i: int|
                {
                    &&& 0 <= i < balances.len()
                    &&& (#[trigger] balances[i]).token_id@ == token_id
                    &&& forall|j: int| 0 <= j < i ==> (#[trigger] balances[j]).token_id@ != token_id
                    &&& shows_balance(body, balances[i])
                    &&& body.shows("available"@, JsonModel::Number(balances[i].available))
                    &&& body.shows("decimals"@, JsonModel::Number(balances[i].decimals as u64))
                },
            Err(e) => {
                &&& forall|i: int|
                    0 <= i < balances.len() ==> (#[trigger] balances[i]).token_id@ != token_id
                &&& e.status() == 404
                &&& e.message() == "token "@ + token_id + " not found"@
            },
        },
{
    let wanted = of_token(token_id);
    first_index_is_first(balances, wanted);
    assert forall|j: int| 0 <= j < balances.len() implies wanted(#[trigger] balances[j]) == (
    balances[j].token_id@ == token_id) by {}
    if let Some(i) = first_index(balances, wanted) {
        balance_is_shown_as_it_is(balances[i]);
        assert(balances[i].token_id@ == token_id);
    }
}

} // verus!

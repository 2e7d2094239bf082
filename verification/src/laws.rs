//! What holds of the store whatever is asked of it, stated over the model
//! that the contracts of the operations speak of, and proved.

use vstd::prelude::*;
use crate::model::{
    lemma_accumulate_wf, lemma_create_wf, lemma_delete_wf, lemma_index_of_absent,
    lemma_index_of_first, lemma_index_of_same_ids, lemma_update_wf, Request, StoreView,
};
use crate::service::{ResponseView, STATUS_NOT_FOUND, STATUS_OK};
use crate::store::StoreError;
use crate::text::is_blank;
use crate::user::{Hours, UserView};

verus! {

/// The empty store is well formed.
pub proof fn lemma_empty_wf()
    ensures
        StoreView::empty().wf(),
{
}

/// No request leads out of the well-formed states.
pub proof fn lemma_step_wf(s: StoreView, request: Request)
    requires
        s.wf(),
    ensures
        s.step(request).wf(),
{
    match request {
        Request::Create { name } => lemma_create_wf(s, name),
        Request::Update { id, name } => lemma_update_wf(s, id, name),
        Request::Accumulate { id, hours } => lemma_accumulate_wf(s, id, hours),
        Request::Delete { id } => lemma_delete_wf(s, id),
        Request::DeleteAll => {},
    }
}

/// Every state that a sequence of requests reaches from a well-formed state
/// is well formed.
pub proof fn lemma_run_wf(s: StoreView, requests: Seq<Request>)
    requires
        s.wf(),
    ensures
        s.run(requests).wf(),
    decreases requests.len(),
{
    if requests.len() > 0 {
        lemma_run_wf(s, requests.drop_last());
        lemma_step_wf(s.run(requests.drop_last()), requests.last());
    }
}

/// In a well-formed state no two records carry the same identifier, every
/// identifier is below the counter, and no name is blank.
pub proof fn lemma_wf_records(s: StoreView, i: int, j: int)
    requires
        s.wf(),
        0 <= i < s.users.len(),
        0 <= j < s.users.len(),
        i != j,
    ensures
        s.users[i].id != s.users[j].id,
        s.users[i].id < s.next_id,
        !is_blank(s.users[i].name),
{
}

/// In a well-formed state every record is found under its own identifier,
/// at the place where it stands.
pub proof fn lemma_find_record(s: StoreView, i: int)
    requires
        s.wf(),
        0 <= i < s.users.len(),
    ensures
        s.contains(s.users[i].id),
        s.index_of(s.users[i].id) == Some(i),
        s.find(s.users[i].id) == Some(s.users[i]),
{
    lemma_index_of_first(s, s.users[i].id, i);
}

/// The state in which the request at position `k` of `requests` is carried
/// out, when the first of them is carried out in `s`.
pub open spec fn state_before(s: StoreView, requests: Seq<Request>, k: int) -> StoreView {
    s.run(requests.take(k))
}

/// Carrying out the request at position `k` leads from its state to the
/// state of the next one.
pub proof fn lemma_state_before_next(s: StoreView, requests: Seq<Request>, k: int)
    requires
        0 <= k < requests.len(),
    ensures
        state_before(s, requests, 0) == s,
        state_before(s, requests, k + 1) == state_before(s, requests, k).step(requests[k]),
{
    assert(requests.take(k + 1).drop_last() =~= requests.take(k));
}

/// As long as the store is not emptied, the counter never goes back, and
/// every request that creates a record moves it on.
pub proof fn lemma_counter_grows(s: StoreView, requests: Seq<Request>, i: int, j: int)
    requires
        0 <= i <= j <= requests.len(),
        forall|k: int| i <= k < j ==> !(#[trigger] requests[k] is DeleteAll),
    ensures
        state_before(s, requests, i).next_id <= state_before(s, requests, j).next_id,
        i < j && requests[i].creates() ==> state_before(s, requests, i).next_id < state_before(
            s,
            requests,
            j,
        ).next_id,
    decreases j - i,
{
    if i < j {
        lemma_counter_grows(s, requests, i, j - 1);
        lemma_state_before_next(s, requests, j - 1);
    }
}

/// Identifiers are issued in strictly increasing order, and so no two of
/// them are equal: of two requests that create a record, with no emptying of
/// the store between them, the later one gets the greater identifier.
/// Whatever else is asked in between, a deletion included, does not matter.
pub proof fn lemma_ids_strictly_increase(s: StoreView, requests: Seq<Request>, i: int, j: int)
    requires
        0 <= i < j < requests.len(),
        requests[i].creates(),
        requests[j].creates(),
        forall|k: int| i <= k < j ==> !(#[trigger] requests[k] is DeleteAll),
    ensures
        ({
            let first = state_before(s, requests, i).next_user(requests[i]->Create_name);
            let second = state_before(s, requests, j).next_user(requests[j]->Create_name);
            first.id < second.id && first.id != second.id
        }),
{
    lemma_counter_grows(s, requests, i, j);
}

/// The counter is above every identifier that was ever in the store since
/// it was last emptied: a record that is there when the request at position
/// `i` is carried out carries an identifier below the counter of every later
/// state, whether the record is still there or not. So no creation gives out
/// an identifier a second time.
pub proof fn lemma_ids_never_reused(
    s: StoreView,
    requests: Seq<Request>,
    i: int,
    j: int,
    n: int,
)
    requires
        s.wf(),
        0 <= i <= j <= requests.len(),
        forall|k: int| i <= k < j ==> !(#[trigger] requests[k] is DeleteAll),
        0 <= n < state_before(s, requests, i).users.len(),
    ensures
        state_before(s, requests, i).users[n].id < state_before(s, requests, j).next_id,
        !state_before(s, requests, j).contains(state_before(s, requests, j).next_id),
{
    lemma_run_wf(s, requests.take(i));
    lemma_run_wf(s, requests.take(j));
    lemma_counter_grows(s, requests, i, j);
}

/// Create, delete what was created, create again: the second record gets
/// the identifier after the first one's, and nothing in the store carries
/// the first one's any more.
pub proof fn lemma_create_delete_create(s: StoreView, first: Seq<char>, second: Seq<char>)
    requires
        s.wf(),
        !is_blank(first),
        !is_blank(second),
    ensures
        ({
            let id = s.next_user(first).id;
            let after = s.create(first).delete(id);
            &&& after.users == s.users
            &&& after.next_user(second).id == id + 1
            &&& !after.create(second).contains(id)
        }),
{
    lemma_index_of_first(s.create(first), s.next_id, s.users.len() as int);
}

/// Once the store was emptied, the next record gets the identifier 1.
pub proof fn lemma_first_id_after_reset(s: StoreView, name: Seq<char>)
    requires
        !is_blank(name),
    ensures
        s.step(Request::DeleteAll) == StoreView::empty(),
        StoreView::empty().next_user(name).id == 1,
        StoreView::empty().create(name).users == seq![
            UserView { id: 1, name, hours_worked: Hours::zero_hours() },
        ],
        StoreView::empty().create(name).next_id == 2,
{
    assert(StoreView::empty().create(name).users =~= seq![
        UserView { id: 1, name, hours_worked: Hours::zero_hours() },
    ]);
}

/// A record that was just created is found under its identifier, with the
/// name it was given and no hours worked, and that is what a request for it
/// is answered with.
pub proof fn lemma_create_then_get(s: StoreView, name: Seq<char>)
    requires
        s.wf(),
        !is_blank(name),
    ensures
        s.create(name).find(s.next_user(name).id) == Some(
            UserView { id: s.next_id, name, hours_worked: Hours::zero_hours() },
        ),
        ResponseView::found(s.create(name).find(s.next_user(name).id)) == ResponseView::ok_user(
            s.next_user(name),
        ),
{
    lemma_index_of_first(s.create(name), s.next_id, s.users.len() as int);
}

/// Two accumulations on one record leave it with the hours of the second,
/// under the same identifier and name, and leave every other record alone.
pub proof fn lemma_accumulate_twice(s: StoreView, id: nat, first: Hours, second: Hours)
    ensures
        s.accumulate(id, first).accumulate(id, second) == s.accumulate(id, second),
        s.find(id) matches Some(u) ==> s.accumulate(id, first).accumulate(id, second).find(id)
            == Some(UserView { hours_worked: second, ..u }),
        forall|other: nat|
            other != id ==> s.accumulate(id, first).accumulate(id, second).find(other) == s.find(
                other,
            ),
{
    let once = s.accumulate(id, first);
    let twice = once.accumulate(id, second);
    lemma_index_of_same_ids(once, s, id);
    assert forall|other: nat| twice.index_of(other) == s.index_of(other) by {
        lemma_index_of_same_ids(twice, s, other);
    }
}

/// An update with a blank name changes nothing, and where the record exists
/// it is answered as a success, with the record as it was.
pub proof fn lemma_update_blank_name(s: StoreView, id: nat, name: Seq<char>)
    requires
        is_blank(name),
    ensures
        s.update(id, name) == s,
        s.find(id) matches Some(u) ==> ResponseView::found(s.update(id, name).find(id))
            == ResponseView::ok_user(u) && ResponseView::ok_user(u).status == STATUS_OK,
{
}

/// A request that names a record which does not exist changes nothing,
/// whichever request it is, and is answered with the not-found error.
pub proof fn lemma_absent_id(s: StoreView, id: nat, name: Seq<char>, hours: Hours)
    requires
        !s.contains(id),
    ensures
        s.find(id) is None,
        s.update(id, name) == s,
        s.accumulate(id, hours) == s,
        s.delete(id) == s,
        ResponseView::found(s.find(id)) == ResponseView::failure(StoreError::NotFound),
        ResponseView::found(s.update(id, name).find(id)) == ResponseView::failure(
            StoreError::NotFound,
        ),
        ResponseView::failure(StoreError::NotFound).status == STATUS_NOT_FOUND,
{
    lemma_index_of_absent(s, id);
}

} // verus!

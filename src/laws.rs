//! Properties that hold across several operations of a session.
use vstd::prelude::*;
use vstd::set_lib::lemma_set_difference_len;

use crate::client::ClientView;
use crate::command::{Command, SessionState};
use crate::server::{ServerView, StreamingServerError};

verus! {

broadcast use vstd::set::group_set_axioms, vstd::seq_lib::seq_to_set_is_finite;

/// A caster after a receiver connected from each address of `joined`, in order.
pub open spec fn connect_all(m: ServerView, joined: Seq<Seq<char>>) -> ServerView
    decreases joined.len(),
{
    if joined.len() == 0 {
        m
    } else {
        connect_all(m, joined.drop_last()).after_connect(joined.last())
    }
}

/// A caster after the receiver at each address of `left` dropped, in order.
pub open spec fn disconnect_all(m: ServerView, left: Seq<Seq<char>>) -> ServerView
    decreases left.len(),
{
    if left.len() == 0 {
        m
    } else {
        disconnect_all(m, left.drop_last()).after_disconnect(left.last())
    }
}

proof fn lemma_connect_all(m: ServerView, joined: Seq<Seq<char>>)
    requires
        m.wf(),
        m.casting(),
    ensures
        connect_all(m, joined) == (ServerView { viewers: m.viewers + joined.to_set(), ..m }),
    decreases joined.len(),
{
    if joined.len() == 0 {
        assert(m.viewers + joined.to_set() =~= m.viewers);
    } else {
        let rest = joined.drop_last();
        lemma_connect_all(m, rest);
        assert(joined =~= rest.push(joined.last()));
        assert(joined.to_set() =~= rest.to_set().insert(joined.last()));
        assert((m.viewers + rest.to_set()).insert(joined.last()) =~= m.viewers + joined.to_set());
    }
}

proof fn lemma_disconnect_all(m: ServerView, left: Seq<Seq<char>>)
    ensures
        disconnect_all(m, left) == (ServerView { viewers: m.viewers - left.to_set(), ..m }),
    decreases left.len(),
{
    if left.len() == 0 {
        assert(m.viewers - left.to_set() =~= m.viewers);
    } else {
        let rest = left.drop_last();
        lemma_disconnect_all(m, rest);
        assert(left =~= rest.push(left.last()));
        assert(left.to_set() =~= rest.to_set().insert(left.last()));
        assert((m.viewers - rest.to_set()).remove(left.last()) =~= m.viewers - left.to_set());
    }
}

/// A running caster with nobody connected counts one viewer for each
/// receiver that connects from a distinct address; when any of those
/// receivers drop, each distinct one takes one viewer away, and the
/// broadcast goes on throughout, down to no viewer at all.
pub proof fn lemma_viewer_count(m: ServerView, joined: Seq<Seq<char>>, left: Seq<Seq<char>>)
    requires
        m.wf(),
        m.casting(),
        m.viewers == Set::<Seq<char>>::empty(),
        joined.no_duplicates(),
        left.no_duplicates(),
        forall|a: Seq<char>| left.contains(a) ==> joined.contains(a),
    ensures
        connect_all(m, joined).viewers.len() == joined.len(),
        connect_all(m, joined).state == SessionState::Casting,
        disconnect_all(connect_all(m, joined), left).viewers.len() == joined.len() - left.len(),
        disconnect_all(connect_all(m, joined), left).state == SessionState::Casting,
{
    lemma_connect_all(m, joined);
    let c = connect_all(m, joined);
    assert(c.viewers =~= joined.to_set());
    joined.unique_seq_to_set();
    lemma_disconnect_all(c, left);
    left.unique_seq_to_set();
    let a = joined.to_set();
    let b = left.to_set();
    lemma_set_difference_len(a, b);
    assert(a.intersect(b) =~= b);
}

/// Stopping a caster from any state leaves it idle; stopping it again
/// leaves it idle as well, with nothing left to tear down.
pub proof fn lemma_server_stop_idempotent(m: ServerView)
    requires
        m.wf(),
    ensures
        m.idle().state == SessionState::Idle,
        m.idle().wf(),
        m.idle().idle() == m.idle(),
        m.idle().stop_plan() == Seq::<Command>::empty(),
{
}

/// Stopping a receiver from any state leaves it idle; stopping it again
/// leaves it idle as well, with nothing left to tear down.
pub proof fn lemma_client_stop_idempotent(m: ClientView)
    requires
        m.wf(),
    ensures
        m.after_disconnect().state == SessionState::Idle,
        m.after_disconnect().wf(),
        m.after_disconnect().after_disconnect() == m.after_disconnect(),
        m.after_disconnect().disconnect_plan() == Seq::<Command>::empty(),
{
}

/// On a pipeline that answers both, a pause followed by a resume succeeds
/// and gives back the very session it started from: casting, not paused,
/// the same viewers.
pub proof fn lemma_pause_then_resume(m: ServerView)
    requires
        m.wf(),
        m.casting(),
        !m.paused,
    ensures
        m.toggle_result(Ok(())) == Ok::<(), StreamingServerError>(()),
        m.after_toggle(false, Ok(())).toggle_result(Ok(())) == Ok::<(), StreamingServerError>(()),
        m.after_toggle(false, Ok(())).after_toggle(true, Ok(())) == m,
{
}

/// A receiver that loses its caster while receiving becomes idle, with the
/// teardown to carry out; a second report of the loss changes nothing and
/// tears nothing down again.
pub proof fn lemma_disconnect_once(m: ClientView)
    requires
        m.wf(),
        m.receiving(),
    ensures
        m.after_disconnect().state == SessionState::Idle,
        m.disconnect_plan() == seq![Command::Stop { drain: true }, Command::CloseEndpoint],
        m.after_disconnect().after_disconnect() == m.after_disconnect(),
        m.after_disconnect().disconnect_plan() == Seq::<Command>::empty(),
{
}

} // verus!

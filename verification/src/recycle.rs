//! The health check: what the reply to a liveness probe says of a returned
//! connection.
//!
//! A cluster answers a probe with one reply per node, each a pair whose second
//! item is the liveness token. Any other reply discards the connection, and
//! the error names the first part of the reply that is not as it must be.

use vstd::prelude::*;
use vstd::string::*;

use crate::error::{RecycleError, RecycleErrorView};
use crate::reply::{
    debug_text, is_liveness_token, lemma_bulk_view, list_debug_text, reply_debug_text,
    reply_list_debug_text, views_of, Reply, ReplyView,
};

verus! {

/// The part of a probe reply that is not as it must be.
#[derive(Clone, Copy, Debug, PartialEq, Eq, Structural)]
pub enum Fault {
    /// The reply is no sequence of node replies.
    Reply,
    /// The node reply at this position is no sequence.
    Node(usize),
    /// The node reply at this position is a sequence, but not a pair that
    /// ends in the liveness token.
    NodeItems(usize),
}

/// What one node must answer: a pair whose second item is the liveness token.
pub open spec fn node_reply_ok(node: ReplyView) -> bool {
    node matches ReplyView::Bulk(items) && items.len() == 2 && is_liveness_token(items[1])
}

/// A probe reply that keeps the connection: a sequence in which every node
/// answered well.
pub open spec fn probe_accepted(reply: ReplyView) -> bool {
    reply matches ReplyView::Bulk(nodes) && forall|i: int|
        0 <= i < nodes.len() ==> node_reply_ok(#[trigger] nodes[i])
}

/// `i` is the position of the first node reply that is not as it must be.
pub open spec fn is_first_rejected(nodes: Seq<ReplyView>, i: int) -> bool {
    &&& 0 <= i < nodes.len()
    &&& !node_reply_ok(nodes[i])
    &&& forall|j: int| 0 <= j < i ==> node_reply_ok(#[trigger] nodes[j])
}

/// The position of the first node reply that is not as it must be, where
/// there is one.
pub open spec fn first_rejected(nodes: Seq<ReplyView>) -> int {
    choose|i: int| is_first_rejected(nodes, i)
}

/// What is wrong with the node reply at position `at`, if anything.
pub open spec fn node_fault(node: ReplyView, at: usize) -> Option<Fault> {
    match node {
        ReplyView::Bulk(items) => if items.len() == 2 && is_liveness_token(items[1]) {
            None
        } else {
            Some(Fault::NodeItems(at))
        },
        _ => Some(Fault::Node(at)),
    }
}

/// What is wrong with a probe reply, if anything. Of several faulty node
/// replies the first counts.
pub open spec fn probe_fault(reply: ReplyView) -> Option<Fault> {
    match reply {
        ReplyView::Bulk(nodes) => if probe_accepted(reply) {
            None
        } else {
            node_fault(nodes[first_rejected(nodes)], first_rejected(nodes) as usize)
        },
        _ => Some(Fault::Reply),
    }
}

/// How the message about a fault begins.
pub open spec fn fault_prefix(fault: Fault) -> Seq<char> {
    match fault {
        Fault::Reply => "Invalid PING response: "@,
        Fault::Node(_) => "Invalid PING response's Bulk element: "@,
        Fault::NodeItems(_) => "Invalid PING response's Bulk nested element: "@,
    }
}

/// The part of `reply` that a fault is about, as the message shows it: the
/// whole reply, the node reply, or the items of the node reply.
pub open spec fn fault_detail(reply: ReplyView, fault: Fault) -> Seq<char> {
    match fault {
        Fault::Reply => reply_debug_text(reply),
        Fault::Node(at) => reply_debug_text(reply->Bulk_0[at as int]),
        Fault::NodeItems(at) => reply_list_debug_text(reply->Bulk_0[at as int]->Bulk_0),
    }
}

/// The verdict on a probe reply: the connection is kept, or discarded with a
/// message about the fault.
pub open spec fn probe_verdict(reply: ReplyView) -> Result<(), RecycleErrorView> {
    match probe_fault(reply) {
        None => Ok(()),
        Some(fault) => Err(
            RecycleErrorView::Message(fault_prefix(fault) + fault_detail(reply, fault)),
        ),
    }
}

/// A verdict, with its error by its view.
pub open spec fn verdict_view(verdict: Result<(), RecycleError>) -> Result<(), RecycleErrorView> {
    match verdict {
        Ok(()) => Ok(()),
        Err(error) => Err(error@),
    }
}

/// The first rejected position is the only one that `is_first_rejected` holds of.
pub proof fn lemma_first_rejected_unique(nodes: Seq<ReplyView>, i: int)
    requires
        is_first_rejected(nodes, i),
    ensures
        first_rejected(nodes) == i,
        !probe_accepted(ReplyView::Bulk(nodes)),
{
    let chosen = first_rejected(nodes);
    assert(is_first_rejected(nodes, chosen));
    if chosen < i {
        assert(node_reply_ok(nodes[chosen]));
    }
    if i < chosen {
        assert(node_reply_ok(nodes[i]));
    }
    if probe_accepted(ReplyView::Bulk(nodes)) {
        assert(ReplyView::Bulk(nodes)->Bulk_0 == nodes);
        assert(node_reply_ok(nodes[i]));
    }
}

/// Among node replies that hold a faulty one at `at`, one is the first faulty.
proof fn lemma_some_first_rejected(nodes: Seq<ReplyView>, at: int) -> (i: int)
    requires
        0 <= at < nodes.len(),
        !node_reply_ok(nodes[at]),
    ensures
        is_first_rejected(nodes, i),
        i <= at,
    decreases at,
{
    if exists|j: int| 0 <= j < at && !node_reply_ok(nodes[j]) {
        let j = choose|j: int| 0 <= j < at && !node_reply_ok(nodes[j]);
        lemma_some_first_rejected(nodes, j)
    } else {
        at
    }
}

/// The fault of a sequence that is not accepted is about one of its node
/// replies, and of the kind that the node reply calls for.
proof fn lemma_probe_fault_in_range(nodes: Seq<ReplyView>)
    requires
        !probe_accepted(ReplyView::Bulk(nodes)),
        nodes.len() <= usize::MAX,
    ensures
        match probe_fault(ReplyView::Bulk(nodes)) {
            Some(Fault::Node(at)) => at < nodes.len() && !(nodes[at as int] is Bulk),
            Some(Fault::NodeItems(at)) => at < nodes.len() && nodes[at as int] is Bulk,
            _ => false,
        },
{
    assert(ReplyView::Bulk(nodes)->Bulk_0 == nodes);
    let at = choose|i: int| 0 <= i < nodes.len() && !node_reply_ok(#[trigger] nodes[i]);
    let first = lemma_some_first_rejected(nodes, at);
    lemma_first_rejected_unique(nodes, first);
}

/// A probe reply keeps the connection exactly when it is a sequence of node
/// replies, each a pair that ends in the liveness token. Every other reply
/// discards it, with a message.
pub proof fn law_kept_iff_well_formed(reply: ReplyView)
    ensures
        probe_fault(reply) is None <==> probe_accepted(reply),
        probe_verdict(reply) is Ok <==> probe_accepted(reply),
        probe_verdict(reply) matches Err(error) ==> error is Message,
{
    if let ReplyView::Bulk(nodes) = reply {
        if !probe_accepted(reply) {
            let at = choose|i: int| 0 <= i < nodes.len() && !node_reply_ok(#[trigger] nodes[i]);
            let first = lemma_some_first_rejected(nodes, at);
            lemma_first_rejected_unique(nodes, first);
        }
    }
}

/// A reply that is no sequence discards the connection, and the message shows
/// the whole reply.
pub proof fn law_wrong_top_level_refused(reply: ReplyView)
    requires
        !(reply is Bulk),
    ensures
        probe_fault(reply) == Some(Fault::Reply),
        probe_verdict(reply) == Err::<(), RecycleErrorView>(
            RecycleErrorView::Message("Invalid PING response: "@ + reply_debug_text(reply)),
        ),
{
}

/// A node reply that is no sequence, one with fewer or more than two items,
/// and one whose second item is not the liveness token each discard the
/// connection, wherever among the node replies they stand. The fault found is
/// about that node reply or an earlier one.
pub proof fn law_faulty_node_refused(nodes: Seq<ReplyView>, at: usize)
    requires
        at < nodes.len(),
        match nodes[at as int] {
            ReplyView::Bulk(items) => items.len() != 2 || items[1] != ReplyView::Status("PONG"@),
            _ => true,
        },
    ensures
        probe_verdict(ReplyView::Bulk(nodes)) is Err,
        match probe_fault(ReplyView::Bulk(nodes)) {
            Some(Fault::Node(found)) => found <= at,
            Some(Fault::NodeItems(found)) => found <= at,
            _ => false,
        },
{
    assert(!node_reply_ok(nodes[at as int]));
    let first = lemma_some_first_rejected(nodes, at as int);
    lemma_first_rejected_unique(nodes, first);
}

/// The fault found is the first: every node reply before it is a pair that
/// ends in the liveness token, and the one at its position is not. The fault
/// tells a node reply that is no sequence from one whose items are wrong.
pub proof fn law_first_fault_found(nodes: Seq<ReplyView>, at: usize)
    requires
        is_first_rejected(nodes, at as int),
    ensures
        probe_fault(ReplyView::Bulk(nodes)) == if nodes[at as int] is Bulk {
            Some(Fault::NodeItems(at))
        } else {
            Some(Fault::Node(at))
        },
{
    lemma_first_rejected_unique(nodes, at as int);
}

/// The message tells where the fault lies: messages about faults of
/// different kinds differ, whatever part of the reply they show.
pub proof fn law_fault_sites_told_apart(one: Fault, shown: Seq<char>, other: Fault, also_shown: Seq<char>)
    requires
        fault_prefix(one) + shown == fault_prefix(other) + also_shown,
    ensures
        one is Reply <==> other is Reply,
        one is Node <==> other is Node,
        one is NodeItems <==> other is NodeItems,
{
    reveal_strlit("Invalid PING response: ");
    reveal_strlit("Invalid PING response's Bulk element: ");
    reveal_strlit("Invalid PING response's Bulk nested element: ");
    let text = fault_prefix(one) + shown;
    let same = fault_prefix(other) + also_shown;
    // The three beginnings differ at their twenty-second or thirtieth character.
    assert(text[21] == same[21]);
    assert(text[29] == same[29]);
}

/// Judges the node reply at position `at`: `None` where it is a pair that
/// ends in the liveness token, else what is wrong with it.
pub fn check_node_reply(node: &Reply, at: usize) -> (fault: Option<Fault>)
    ensures
        fault == node_fault(node@, at),
        fault is None <==> node_reply_ok(node@),
{
    match node {
        Reply::Bulk(items) => {
            proof {
                lemma_bulk_view(*items);
            }
            if items.len() != 2 || !items[1].is_liveness_token() {
                Some(Fault::NodeItems(at))
            } else {
                None
            }
        },
        _ => Some(Fault::Node(at)),
    }
}

/// Finds what is wrong with the reply to a liveness probe: nothing exactly
/// when the reply is a sequence of node replies, each a pair that ends in the
/// liveness token; otherwise the first part that is wrong.
pub fn find_fault(reply: &Reply) -> (fault: Option<Fault>)
    ensures
        fault == probe_fault(reply@),
{
    match reply {
        Reply::Bulk(nodes) => {
            proof {
                lemma_bulk_view(*nodes);
            }
            let mut i: usize = 0;
            while i < nodes.len()
                invariant
                    i <= nodes.len(),
                    reply@ == ReplyView::Bulk(views_of(nodes@)),
                    forall|j: int| 0 <= j < i ==> node_reply_ok(#[trigger] views_of(nodes@)[j]),
                decreases nodes.len() - i,
            {
                let fault = check_node_reply(&nodes[i], i);
                if fault.is_some() {
                    proof {
                        lemma_first_rejected_unique(views_of(nodes@), i as int);
                    }
                    return fault;
                }
                i += 1;
            }
            None
        },
        _ => Some(Fault::Reply),
    }
}

/// The message about a fault: how it begins tells the kind of the fault, and
/// `shown` is the part of the reply that it is about.
pub fn fault_message(fault: Fault, shown: &str) -> (text: String)
    ensures
        text@ == fault_prefix(fault) + shown@,
{
    let mut text = match fault {
        Fault::Reply => "Invalid PING response: ".to_owned(),
        Fault::Node(_) => "Invalid PING response's Bulk element: ".to_owned(),
        Fault::NodeItems(_) => "Invalid PING response's Bulk nested element: ".to_owned(),
    };
    text.append(shown);
    text
}

/// Shows the part of `reply` that `fault` is about.
fn show_fault(reply: &Reply, fault: Fault) -> (shown: String)
    requires
        probe_fault(reply@) == Some(fault),
    ensures
        shown@ == fault_detail(reply@, fault),
{
    match reply {
        Reply::Bulk(nodes) => {
            proof {
                lemma_bulk_view(*nodes);
                lemma_probe_fault_in_range(views_of(nodes@));
            }
            let at: usize = match fault {
                Fault::Node(at) => at,
                Fault::NodeItems(at) => at,
                Fault::Reply => unreached(),
            };
            match &nodes[at] {
                Reply::Bulk(items) => {
                    proof {
                        lemma_bulk_view(*items);
                    }
                    list_debug_text(items)
                },
                node => debug_text(node),
            }
        },
        _ => debug_text(reply),
    }
}

/// Judges the reply to a liveness probe. The connection is kept exactly when
/// the reply is a sequence of node replies, each a pair that ends in the
/// liveness token; otherwise the error names the first part that is wrong.
pub fn check_probe_reply(reply: &Reply) -> (verdict: Result<(), RecycleError>)
    ensures
        verdict_view(verdict) == probe_verdict(reply@),
{
    match find_fault(reply) {
        None => Ok(()),
        Some(fault) => {
            let shown = show_fault(reply, fault);
            Err(RecycleError::Message(fault_message(fault, shown.as_str())))
        },
    }
}

} // verus!

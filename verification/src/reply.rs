//! Replies of the store, as the lifecycle logic reads them.

use vstd::prelude::*;

use redis::Value;

verus! {

/// The reply type of the store's client.
#[verifier::external_type_specification]
#[verifier::external_body]
pub struct ExValue(Value);

/// A reply of the store: a scalar, or a sequence of replies.
#[derive(Debug, PartialEq, Eq)]
pub enum Reply {
    /// The store answered with nothing.
    Nil,
    /// An integer.
    Int(i64),
    /// Arbitrary bytes.
    Data(Vec<u8>),
    /// A sequence of replies, which may nest.
    Bulk(Vec<Reply>),
    /// A status line.
    Status(String),
    /// The status line `OK`.
    Okay,
}

/// What a [`Reply`] holds, as mathematical values.
pub enum ReplyView {
    Nil,
    Int(i64),
    Data(Seq<u8>),
    Bulk(Seq<ReplyView>),
    Status(Seq<char>),
    Okay,
}

impl View for Reply {
    type V = ReplyView;

    open spec fn view(&self) -> ReplyView
        decreases self,
    {
        match self {
            Reply::Nil => ReplyView::Nil,
            Reply::Int(n) => ReplyView::Int(*n),
            Reply::Data(bytes) => ReplyView::Data(bytes@),
            Reply::Bulk(items) => ReplyView::Bulk(
                Seq::new(
                    items.len() as nat,
                    |i: int|
                        if 0 <= i < items.len() {
                            items[i].view()
                        } else {
                            ReplyView::Nil
                        },
                ),
            ),
            Reply::Status(text) => ReplyView::Status(text@),
            Reply::Okay => ReplyView::Okay,
        }
    }
}

/// The views of `replies`, in order.
pub open spec fn views_of(replies: Seq<Reply>) -> Seq<ReplyView> {
    replies.map_values(|reply: Reply| reply@)
}

/// The text that the store's client prints for a reply when asked to debug-format it.
pub uninterp spec fn reply_debug_text(reply: ReplyView) -> Seq<char>;

/// The text that debug-formatting prints for a list of the store client's replies.
pub uninterp spec fn reply_list_debug_text(replies: Seq<ReplyView>) -> Seq<char>;

/// The liveness token: the status line that a live node sends back.
pub open spec fn is_liveness_token(reply: ReplyView) -> bool {
    reply == ReplyView::Status("PONG"@)
}

/// A sequence reply views as the views of its items.
pub proof fn lemma_bulk_view(items: Vec<Reply>)
    ensures
        Reply::Bulk(items)@ == ReplyView::Bulk(views_of(items@)),
{
    reveal_with_fuel(<Reply as View>::view, 2);
    assert(Reply::Bulk(items)@->Bulk_0 =~= views_of(items@));
}

/// Builds the `redis::Value` that holds what `reply` holds, variant by
/// variant and items in order. The result is opaque here, so the contract
/// claims nothing of it.
#[verifier::external_body]
fn to_value(reply: &Reply) -> Value {
    match reply {
        Reply::Nil => Value::Nil,
        Reply::Int(n) => Value::Int(*n),
        Reply::Data(bytes) => Value::Data(bytes.clone()),
        Reply::Bulk(items) => Value::Bulk(items.iter().map(to_value).collect()),
        Reply::Status(text) => Value::Status(text.clone()),
        Reply::Okay => Value::Okay,
    }
}

/// The text that `redis::Value`'s `Debug` impl writes for a reply. It is a
/// function of the reply alone; the contract gives it its name and claims
/// nothing else of it.
#[verifier::external_body]
pub(crate) fn debug_text(reply: &Reply) -> (text: String)
    ensures
        text@ == reply_debug_text(reply@),
{
    format!("{:?}", to_value(reply))
}

/// The text that std's `Debug` impl for `Vec` writes for a list of
/// `redis::Value`s. It is a function of the replies alone; the contract gives
/// it its name and claims nothing else of it.
#[verifier::external_body]
pub(crate) fn list_debug_text(replies: &Vec<Reply>) -> (text: String)
    ensures
        text@ == reply_list_debug_text(views_of(replies@)),
{
    let values: Vec<Value> = replies.iter().map(to_value).collect();
    format!("{:?}", values)
}

impl Reply {
    /// Whether this reply is the liveness token.
    pub fn is_liveness_token(&self) -> (yes: bool)
        ensures
            yes == is_liveness_token(self@),
    {
        match self {
            Reply::Status(text) => {
                let token = "PONG".to_owned();
                *text == token
            },
            _ => false,
        }
    }
}

} // verus!

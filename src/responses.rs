use vstd::prelude::*;
use vstd::string::*;

verus! {

/// Body of a successful balance lookup.
#[derive(Clone, Debug)]
pub struct BalanceResponse {
    pub address: String,
    pub lamports: u64,
}

/// One entry of a transaction history.
#[derive(Clone, Debug)]
pub struct TxSignature {
    pub signature: String,
}

/// The HTTP statuses the gateway answers with.
#[derive(Clone, Copy, Debug, PartialEq, Eq, Structural)]
pub enum Status {
    Success,
    BadRequest,
    InternalServerError,
}

impl Status {
    pub open spec fn spec_code(self) -> u16 {
        match self {
            Status::Success => 200,
            Status::BadRequest => 400,
            Status::InternalServerError => 500,
        }
    }

    /// The numeric HTTP status code.
    #[verifier::when_used_as_spec(spec_code)]
    pub fn code(self) -> (r: u16)
        ensures
            r == self.spec_code(),
    {
        match self {
            Status::Success => 200,
            Status::BadRequest => 400,
            Status::InternalServerError => 500,
        }
    }
}

/// The JSON document sent back: a balance record, a history, or an error
/// message (a JSON string).
#[derive(Clone, Debug)]
pub enum Body {
    Balance(BalanceResponse),
    History(Vec<TxSignature>),
    Message(String),
}

/// A complete answer to one request.
#[derive(Clone, Debug)]
pub struct Reply {
    pub status: Status,
    pub body: Body,
}

/// What a body says, over plain values.
pub ghost enum BodyView {
    Balance { address: Seq<char>, lamports: u64 },
    History(Seq<Seq<char>>),
    Message(Seq<char>),
}

/// What a reply says: its status code and its body.
pub ghost struct ReplyView {
    pub code: u16,
    pub body: BodyView,
}

/// The signatures of a history, in order.
pub open spec fn signatures_of(sigs: Seq<TxSignature>) -> Seq<Seq<char>> {
    sigs.map_values(|t: TxSignature| t.signature@)
}

impl View for Body {
    type V = BodyView;

    open spec fn view(&self) -> BodyView {
        match self {
            Body::Balance(b) => BodyView::Balance { address: b.address@, lamports: b.lamports },
            Body::History(h) => BodyView::History(signatures_of(h@)),
            Body::Message(m) => BodyView::Message(m@),
        }
    }
}

impl View for Reply {
    type V = ReplyView;

    open spec fn view(&self) -> ReplyView {
        ReplyView { code: self.status.spec_code(), body: self.body@ }
    }
}

/// The fixed message of a rejected address.
pub open spec fn invalid_address_text() -> Seq<char> {
    seq!['I', 'n', 'v', 'a', 'l', 'i', 'd', ' ', 'a', 'd', 'd', 'r', 'e', 's', 's']
}

/// The answer to a request whose address does not decode.
pub open spec fn invalid_address_reply() -> ReplyView {
    ReplyView { code: 400, body: BodyView::Message(invalid_address_text()) }
}

/// The answer to a request whose upstream call failed with `text`.
pub open spec fn upstream_error_reply(text: Seq<char>) -> ReplyView {
    ReplyView { code: 500, body: BodyView::Message(text) }
}

/// 400 with the fixed "Invalid address" message.
pub fn invalid_address() -> (r: Reply)
    ensures
        r@ == invalid_address_reply(),
{
    let text = String::from_str("Invalid address");
    proof {
        reveal_strlit("Invalid address");
        assert(text@ =~= invalid_address_text());
    }
    Reply { status: Status::BadRequest, body: Body::Message(text) }
}

/// 500 carrying the upstream error's description.
pub fn upstream_error(text: String) -> (r: Reply)
    ensures
        r@ == upstream_error_reply(text@),
{
    Reply { status: Status::InternalServerError, body: Body::Message(text) }
}

} // verus!

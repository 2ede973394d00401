use vstd::prelude::*;

use crate::address::{decoded_key, parse_address, Address};
use crate::responses::{
    invalid_address, invalid_address_reply, upstream_error, upstream_error_reply,
    BalanceResponse, Body, BodyView, Reply, ReplyView, Status, TxSignature,
};

verus! {

/// What a handler does next after looking at the requested address.
#[derive(Clone, Debug)]
pub enum Step {
    /// Answer at once, without asking the ledger.
    Respond(Reply),
    /// Ask the ledger about this address, then build the answer.
    Fetch(Address),
}

/// The texts of an upstream history, in upstream order.
pub open spec fn texts_of(sigs: Seq<String>) -> Seq<Seq<char>> {
    sigs.map_values(|s: String| s@)
}

/// The answer to a balance lookup for the well-formed address `raw`, given
/// what the ledger returned.
pub open spec fn balance_fetched(raw: Seq<char>, upstream: Result<u64, String>) -> ReplyView {
    match upstream {
        Ok(lamports) => ReplyView { code: 200, body: BodyView::Balance { address: raw, lamports } },
        Err(e) => upstream_error_reply(e@),
    }
}

/// The answer to a history lookup for a well-formed address, given what the
/// ledger returned.
pub open spec fn history_fetched(upstream: Result<Vec<String>, String>) -> ReplyView {
    match upstream {
        Ok(sigs) => ReplyView { code: 200, body: BodyView::History(texts_of(sigs@)) },
        Err(e) => upstream_error_reply(e@),
    }
}

/// `GET /balance/{raw}` when the ledger would answer `upstream`.
pub open spec fn balance_endpoint(raw: Seq<char>, upstream: Result<u64, String>) -> ReplyView {
    if decoded_key(raw) is None {
        invalid_address_reply()
    } else {
        balance_fetched(raw, upstream)
    }
}

/// `GET /txs/{raw}` when the ledger would answer `upstream`.
pub open spec fn history_endpoint(raw: Seq<char>, upstream: Result<Vec<String>, String>) -> ReplyView {
    if decoded_key(raw) is None {
        invalid_address_reply()
    } else {
        history_fetched(upstream)
    }
}

/// First step of both endpoints: reject an address that does not decode,
/// otherwise ask the ledger about it.
pub fn begin_request(raw: String) -> (r: Step)
    ensures
        match decoded_key(raw@) {
            None => r matches Step::Respond(reply) && reply@ == invalid_address_reply(),
            Some(k) => r matches Step::Fetch(a) && a.raw == raw && a.key@ == k && a.wf(),
        },
{
    match parse_address(raw) {
        Ok(a) => Step::Fetch(a),
        Err(_) => Step::Respond(invalid_address()),
    }
}

/// Second step of the balance endpoint: shape the ledger's answer.
pub fn balance_reply(address: Address, upstream: Result<u64, String>) -> (r: Reply)
    ensures
        r@ == balance_fetched(address.raw@, upstream),
{
    match upstream {
        Ok(lamports) => Reply {
            status: Status::Success,
            body: Body::Balance(BalanceResponse { address: address.raw, lamports }),
        },
        Err(e) => upstream_error(e),
    }
}

/// The history records for `sigs`, in the same order.
pub fn to_tx_signatures(sigs: &Vec<String>) -> (r: Vec<TxSignature>)
    ensures
        r@.len() == sigs@.len(),
        forall|i: int| 0 <= i < sigs@.len() ==> #[trigger] r@[i].signature@ == sigs@[i]@,
{
    let mut out: Vec<TxSignature> = Vec::new();
    let mut i: usize = 0;
    while i < sigs.len()
        invariant
            i <= sigs@.len(),
            out@.len() == i,
            forall|j: int| 0 <= j < i ==> #[trigger] out@[j].signature@ == sigs@[j]@,
        decreases sigs@.len() - i,
    {
        out.push(TxSignature { signature: sigs[i].clone() });
        i = i + 1;
    }
    out
}

/// Second step of the history endpoint: shape the ledger's answer, keeping
/// its order.
pub fn tx_history_reply(upstream: Result<Vec<String>, String>) -> (r: Reply)
    ensures
        r@ == history_fetched(upstream),
{
    match upstream {
        Ok(sigs) => {
            let records = to_tx_signatures(&sigs);
            let r = Reply { status: Status::Success, body: Body::History(records) };
            proof {
                assert(crate::responses::signatures_of(records@) =~= texts_of(sigs@));
            }
            r
        },
        Err(e) => upstream_error(e),
    }
}

/// `GET /balance/{addr}`: validates `addr`, asks the ledger through `fetch`
/// (called once, and only for a well-formed address, with its key), and
/// shapes the answer.
pub fn get_balance<F>(addr: String, fetch: F) -> (r: Reply) where
    F: FnOnce([u8; 32]) -> Result<u64, String>,

    requires
        forall|k: [u8; 32]| fetch.requires((k,)),
    ensures
        decoded_key(addr@) is None ==> r@ == invalid_address_reply(),
        decoded_key(addr@) is Some ==> exists|k: [u8; 32], up: Result<u64, String>|
            #[trigger] fetch.ensures((k,), up) && Some(k@) == decoded_key(addr@) && r@
                == balance_endpoint(addr@, up),
{
    match begin_request(addr) {
        Step::Respond(reply) => reply,
        Step::Fetch(a) => {
            let key = a.key;
            let up = fetch(key);
            balance_reply(a, up)
        },
    }
}

/// `GET /txs/{addr}`: validates `addr`, asks the ledger through `fetch`
/// (called once, and only for a well-formed address, with its key) for the
/// signatures of its past transactions, and lists them in the order given.
pub fn get_tx_history<F>(addr: String, fetch: F) -> (r: Reply) where
    F: FnOnce([u8; 32]) -> Result<Vec<String>, String>,

    requires
        forall|k: [u8; 32]| fetch.requires((k,)),
    ensures
        decoded_key(addr@) is None ==> r@ == invalid_address_reply(),
        decoded_key(addr@) is Some ==> exists|k: [u8; 32], up: Result<Vec<String>, String>|
            #[trigger] fetch.ensures((k,), up) && Some(k@) == decoded_key(addr@) && r@
                == history_endpoint(addr@, up),
{
    match begin_request(addr) {
        Step::Respond(reply) => reply,
        Step::Fetch(a) => {
            let key = a.key;
            let up = fetch(key);
            tx_history_reply(up)
        },
    }
}

/// Every string that does not decode as an address gets 400 "Invalid
/// address" from both endpoints, whatever the ledger would have said.
pub proof fn invalid_address_is_rejected(
    raw: Seq<char>,
    balance_upstream: Result<u64, String>,
    history_upstream: Result<Vec<String>, String>,
)
    requires
        decoded_key(raw) is None,
    ensures
        balance_endpoint(raw, balance_upstream) == invalid_address_reply(),
        history_endpoint(raw, history_upstream) == invalid_address_reply(),
        invalid_address_reply().code == 400,
        invalid_address_reply().body == BodyView::Message(
            crate::responses::invalid_address_text(),
        ),
{
}

/// A balance lookup of a well-formed address answers 200 with the address
/// echoed exactly as given and the ledger's lamports unchanged.
pub proof fn balance_echoes_address(raw: Seq<char>, lamports: u64)
    requires
        decoded_key(raw) is Some,
    ensures
        balance_endpoint(raw, Ok(lamports)).code == 200,
        balance_endpoint(raw, Ok(lamports)).body == (BodyView::Balance { address: raw, lamports }),
{
}

/// A history lookup of a well-formed address answers 200 with the ledger's
/// signatures in the ledger's order: nothing reordered, dropped or merged.
pub proof fn history_keeps_upstream_order(raw: Seq<char>, sigs: Vec<String>)
    requires
        decoded_key(raw) is Some,
    ensures
        history_endpoint(raw, Ok(sigs)).code == 200,
        history_endpoint(raw, Ok(sigs)).body matches BodyView::History(h) && h.len() == sigs@.len()
            && forall|i: int| 0 <= i < h.len() ==> h[i] == sigs@[i]@,
{
}

/// When the ledger call fails, both endpoints answer 500 with the failure's
/// description as the whole body.
pub proof fn upstream_failure_is_server_error(raw: Seq<char>, error: String)
    requires
        decoded_key(raw) is Some,
    ensures
        balance_endpoint(raw, Err(error)) == upstream_error_reply(error@),
        history_endpoint(raw, Err(error)) == upstream_error_reply(error@),
        upstream_error_reply(error@).code == 500,
        upstream_error_reply(error@).body == BodyView::Message(error@),
{
}

} // verus!

//! Fetching the contract's current protocol state at the latest final block.
//!
//! One read-only query is sent to the chain's view layer and its single
//! response is interpreted: the call-result kind carries the block height and
//! the raw state payload, which decodes into the protocol state; any other
//! kind is a protocol violation by the remote side. Nothing is retried here —
//! a failed attempt is surfaced as a typed error and the caller decides
//! whether to retry, at what cadence, with what backoff.

use crate::state::DecodeFault;
use crate::state::ProtocolState;
use crate::state::decode_protocol_state;
use crate::state::spec_decoded_state;
use vstd::prelude::*;

verus! {

/// The account that hosts the contract whose state is queried.
#[derive(Clone, Debug, PartialEq, Eq)]
pub struct AccountId {
    pub text: String,
}

/// Which block a query runs against. This core only ever reads at the latest
/// block that has passed finality, never at a speculative tip block.
#[derive(Clone, Copy, Debug, PartialEq, Eq, Structural)]
pub enum BlockReference {
    Finality(Finality),
}

/// The finality level a block reference selects.
#[derive(Clone, Copy, Debug, PartialEq, Eq, Structural)]
pub enum Finality {
    Final,
}

/// The value object sent to the view layer: a read-only call of one method
/// of one account's contract, at one block reference. Constructed fresh per
/// call, never cached.
#[derive(Clone, Debug, PartialEq, Eq)]
pub struct ContractQuery {
    pub block_reference: BlockReference,
    pub account_id: AccountId,
    pub method_name: String,
    pub args: Vec<u8>,
}

/// Build the query for a contract's current protocol state: call the given
/// account's zero-argument `state` method at the latest final block.
pub fn make_state_query(contract_id: AccountId) -> (q: ContractQuery)
    ensures
        q.block_reference == BlockReference::Finality(Finality::Final),
        q.account_id == contract_id,
        q.method_name@ == "state"@,
        q.args@ == Seq::<u8>::empty(),
{
    ContractQuery {
        block_reference: BlockReference::Finality(Finality::Final),
        account_id: contract_id,
        method_name: "state".to_owned(),
        args: Vec::new(),
    }
}

/// The closed set of kinds a view-layer response can come tagged with. Only
/// a call result carries what this core consumes: the called method's return
/// bytes.
#[derive(Clone, Debug, PartialEq, Eq)]
pub enum ViewResponseKind {
    CallResult(Vec<u8>),
    ViewAccount,
    ViewCode,
    ViewState,
    AccessKey,
    AccessKeyList,
}

/// The bare tag of a response kind, for naming the kind a mismatched
/// response was observed with.
#[derive(Clone, Copy, Debug, PartialEq, Eq, Structural)]
pub enum ResponseKindTag {
    CallResult,
    ViewAccount,
    ViewCode,
    ViewState,
    AccessKey,
    AccessKeyList,
}

/// The tag a response kind carries.
pub open spec fn spec_kind_tag(kind: ViewResponseKind) -> ResponseKindTag {
    match kind {
        ViewResponseKind::CallResult(_) => ResponseKindTag::CallResult,
        ViewResponseKind::ViewAccount => ResponseKindTag::ViewAccount,
        ViewResponseKind::ViewCode => ResponseKindTag::ViewCode,
        ViewResponseKind::ViewState => ResponseKindTag::ViewState,
        ViewResponseKind::AccessKey => ResponseKindTag::AccessKey,
        ViewResponseKind::AccessKeyList => ResponseKindTag::AccessKeyList,
    }
}

/// Name the tag a response kind was observed with.
pub fn kind_tag(kind: &ViewResponseKind) -> (tag: ResponseKindTag)
    ensures
        tag == spec_kind_tag(*kind),
{
    match kind {
        ViewResponseKind::CallResult(_) => ResponseKindTag::CallResult,
        ViewResponseKind::ViewAccount => ResponseKindTag::ViewAccount,
        ViewResponseKind::ViewCode => ResponseKindTag::ViewCode,
        ViewResponseKind::ViewState => ResponseKindTag::ViewState,
        ViewResponseKind::AccessKey => ResponseKindTag::AccessKey,
        ViewResponseKind::AccessKeyList => ResponseKindTag::AccessKeyList,
    }
}

/// One response from the view layer: the height of the block it was served
/// at, and the tagged result itself. Both fields come from the same single
/// round trip.
#[derive(Clone, Debug, PartialEq, Eq)]
pub struct ViewResponse {
    pub block_height: u64,
    pub kind: ViewResponseKind,
}

/// Why a query attempt got no response to interpret: the request never made
/// the round trip (channel or plumbing failure), or the view layer itself
/// reports that the call failed — say, no contract or no such method at the
/// target account.
#[derive(Clone, Debug, PartialEq, Eq)]
pub enum RequestFault {
    Transport { cause: String },
    RemoteLogic { cause: String },
}

/// Everything a state query can fail with. Every failure is surfaced to the
/// caller; nothing is recovered locally and no fallback state is synthesized.
#[derive(Clone, Debug, PartialEq, Eq)]
pub enum QueryError {
    /// The request never reached the view layer, or no response came back.
    TransportError { cause: String },
    /// The view layer answered that the call itself failed.
    RemoteLogicError { cause: String },
    /// The response was of a kind other than a call result: a protocol
    /// violation by the remote side, not a transient condition — it must not
    /// be retried blindly without inspection.
    UnexpectedResponseKind { kind: ResponseKindTag },
    /// The call result's payload is not a valid encoded protocol state.
    DecodeError { raw_len: usize, cause: String },
}

/// An immutable pair handed to the caller: the decoded protocol state and
/// the height of the block it was observed at. The two fields always
/// originate from the same response, so they can never skew.
#[derive(Clone, Copy, Debug, PartialEq, Eq, Structural)]
pub struct QueryResult {
    pub block_height: u64,
    pub decoded_state: ProtocolState,
}

/// The error a failed request surfaces as.
pub open spec fn spec_error_from_fault(fault: RequestFault) -> QueryError {
    match fault {
        RequestFault::Transport { cause } => QueryError::TransportError { cause },
        RequestFault::RemoteLogic { cause } => QueryError::RemoteLogicError { cause },
    }
}

/// Surface a failed request as the query error it maps to, cause and all.
pub fn error_from_fault(fault: RequestFault) -> (e: QueryError)
    ensures
        e == spec_error_from_fault(fault),
{
    match fault {
        RequestFault::Transport { cause } => QueryError::TransportError { cause },
        RequestFault::RemoteLogic { cause } => QueryError::RemoteLogicError { cause },
    }
}

/// Whether a response is one the state query succeeds on: a call result
/// whose payload decodes as a protocol state.
pub open spec fn response_accepted(response: ViewResponse) -> bool {
    response.kind matches ViewResponseKind::CallResult(bytes) && spec_decoded_state(bytes@)
        is Some
}

/// Interpret the single response to a state query. Exactly a call-result
/// response with a decodable payload succeeds, and its height and decoded
/// state are taken from that one response; a call result that does not
/// decode is a decode error carrying the payload's length, never a default
/// state; a response of any other kind is reported with the observed tag and
/// its payload, if any, is never decoded.
pub fn interpret_response(response: ViewResponse) -> (r: Result<QueryResult, QueryError>)
    ensures
        r is Ok <==> response_accepted(response),
        response.kind matches ViewResponseKind::CallResult(bytes) ==> (match spec_decoded_state(
            bytes@,
        ) {
            Some(state) => r == Ok::<QueryResult, QueryError>(
                QueryResult { block_height: response.block_height, decoded_state: state },
            ),
            None => r matches Err(QueryError::DecodeError { raw_len, .. }) && raw_len
                == bytes@.len(),
        }),
        !(response.kind is CallResult) ==> r == Err::<QueryResult, QueryError>(
            QueryError::UnexpectedResponseKind { kind: spec_kind_tag(response.kind) },
        ),
{
    match response.kind {
        ViewResponseKind::CallResult(bytes) => match decode_protocol_state(bytes.as_slice()) {
            Ok(state) => Ok(QueryResult { block_height: response.block_height, decoded_state: state }),
            Err(fault) => Err(
                QueryError::DecodeError { raw_len: fault.raw_len, cause: fault.cause },
            ),
        },
        other => Err(QueryError::UnexpectedResponseKind { kind: kind_tag(&other) }),
    }
}

/// A request/response channel to the chain's read-only query subsystem,
/// borrowed for the duration of one call. One call is one round trip: the
/// single response, or the fault that stands in for it. Nothing is promised
/// of what it answers, so a caller is verified for every possible reply.
pub trait ViewHandle {
    fn request(&mut self, query: &ContractQuery) -> Result<ViewResponse, RequestFault>;
}

/// Query the contract's current protocol state once, at the latest final
/// block, and decode the single response. No retry: every failure — of the
/// round trip, of the response's kind, of the decode — is surfaced typed,
/// and the caller decides whether to retry. Whatever the handle answers, a
/// success is the faithful interpretation of one call-result response: the
/// decoded state paired with that same response's height.
pub fn get_mpc_contract_state<V: ViewHandle>(contract_id: AccountId, client: &mut V) -> (r: Result<
    QueryResult,
    QueryError,
>)
    ensures
        r matches Ok(result) ==> exists|response: ViewResponse|
            response_accepted(response) && #[trigger] interpretation_of(response, result),
{
    let query = make_state_query(contract_id);
    match client.request(&query) {
        Err(fault) => Err(error_from_fault(fault)),
        Ok(response) => {
            let ghost witness = response;
            let r = interpret_response(response);
            proof {
                if r is Ok {
                    assert(interpretation_of(witness, r->Ok_0));
                }
            }
            r
        },
    }
}

/// Whether a query result is what interpreting the given response yields:
/// the state its payload decodes to, at the same response's height.
pub open spec fn interpretation_of(response: ViewResponse, result: QueryResult) -> bool {
    &&& response.kind matches ViewResponseKind::CallResult(bytes)
    &&& spec_decoded_state(bytes@) == Some(result.decoded_state)
    &&& response.block_height == result.block_height
}

} // verus!

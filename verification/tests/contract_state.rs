use mpc_indexer::query::AccountId;
use mpc_indexer::query::BlockReference;
use mpc_indexer::query::ContractQuery;
use mpc_indexer::query::Finality;
use mpc_indexer::query::QueryError;
use mpc_indexer::query::QueryResult;
use mpc_indexer::query::RequestFault;
use mpc_indexer::query::ResponseKindTag;
use mpc_indexer::query::ViewHandle;
use mpc_indexer::query::ViewResponse;
use mpc_indexer::query::ViewResponseKind;
use mpc_indexer::query::error_from_fault;
use mpc_indexer::query::get_mpc_contract_state;
use mpc_indexer::query::interpret_response;
use mpc_indexer::query::make_state_query;
use mpc_indexer::state::ProtocolState;
use mpc_indexer::state::decode_protocol_state;

fn account(name: &str) -> AccountId {
    AccountId { text: name.to_owned() }
}

/// A scripted stand-in for the chain's view layer: answers one query with a
/// canned reply, and records what was asked.
struct ScriptedView {
    reply: Option<Result<ViewResponse, RequestFault>>,
    asked: Vec<ContractQuery>,
}

impl ScriptedView {
    fn answering(reply: Result<ViewResponse, RequestFault>) -> ScriptedView {
        ScriptedView { reply: Some(reply), asked: Vec::new() }
    }
}

impl ViewHandle for ScriptedView {
    fn request(&mut self, query: &ContractQuery) -> Result<ViewResponse, RequestFault> {
        self.asked.push(query.clone());
        self.reply.take().expect("the script answers exactly one request")
    }
}

fn call_result(height: u64, payload: &[u8]) -> ViewResponse {
    ViewResponse { block_height: height, kind: ViewResponseKind::CallResult(payload.to_vec()) }
}

#[test]
fn query_targets_the_state_method_at_the_final_block() {
    let q = make_state_query(account("mpc.test"));
    assert_eq!(q.block_reference, BlockReference::Finality(Finality::Final));
    assert_eq!(q.account_id, account("mpc.test"));
    assert_eq!(q.method_name, "state");
    assert!(q.args.is_empty());
}

#[test]
fn running_state_is_returned_with_its_height() {
    // The remote answers with a call result at height 100 whose payload
    // encodes the Running phase: the caller gets exactly that pair.
    let payload = br#"{"Running":{"epoch":5,"participants":[]}}"#;
    let mut view = ScriptedView::answering(Ok(call_result(100, payload)));
    let r = get_mpc_contract_state(account("mpc.test"), &mut view);
    assert_eq!(
        r,
        Ok(QueryResult { block_height: 100, decoded_state: ProtocolState::Running })
    );
    // Exactly one round trip was made, with the query built for the account.
    assert_eq!(view.asked.len(), 1);
    assert_eq!(view.asked[0], make_state_query(account("mpc.test")));
}

#[test]
fn bare_tag_state_is_decoded() {
    let mut view = ScriptedView::answering(Ok(call_result(42, br#""NotInitialized""#)));
    let r = get_mpc_contract_state(account("mpc.test"), &mut view);
    assert_eq!(
        r,
        Ok(QueryResult { block_height: 42, decoded_state: ProtocolState::NotInitialized })
    );
}

#[test]
fn every_lifecycle_phase_decodes() {
    let cases: Vec<(&[u8], ProtocolState)> = vec![
        (br#""NotInitialized""#, ProtocolState::NotInitialized),
        (br#"{"Initializing":{}}"#, ProtocolState::Initializing),
        (br#"{"Running":{"epoch":1}}"#, ProtocolState::Running),
        (br#"{"Resharing":{"old_epoch":1}}"#, ProtocolState::Resharing),
    ];
    for (payload, phase) in cases {
        assert_eq!(decode_protocol_state(payload).ok(), Some(phase));
    }
}

#[test]
fn malformed_payload_is_a_decode_error_not_a_default() {
    let payload = b"not structured text at all";
    let mut view = ScriptedView::answering(Ok(call_result(7, payload)));
    let r = get_mpc_contract_state(account("mpc.test"), &mut view);
    match r {
        Err(QueryError::DecodeError { raw_len, cause }) => {
            assert_eq!(raw_len, payload.len());
            assert!(!cause.is_empty());
        }
        other => panic!("expected a decode error, got {:?}", other),
    }
}

#[test]
fn empty_payload_is_a_decode_error() {
    match decode_protocol_state(b"") {
        Err(fault) => assert_eq!(fault.raw_len, 0),
        other => panic!("expected a decode fault, got {:?}", other),
    }
}

#[test]
fn unknown_tag_is_a_decode_error() {
    let payload = br#"{"Paused":{}}"#;
    match decode_protocol_state(payload) {
        Err(fault) => assert_eq!(fault.raw_len, payload.len()),
        other => panic!("expected a decode fault, got {:?}", other),
    }
}

#[test]
fn untagged_payload_is_a_decode_error() {
    // Valid structured text, but no tag anywhere in it.
    match decode_protocol_state(b"[1,2,3]") {
        Err(fault) => assert_eq!(fault.raw_len, 7),
        other => panic!("expected a decode fault, got {:?}", other),
    }
}

#[test]
fn mismatched_response_kind_names_the_observed_tag() {
    let response = ViewResponse { block_height: 9, kind: ViewResponseKind::ViewAccount };
    let mut view = ScriptedView::answering(Ok(response));
    let r = get_mpc_contract_state(account("mpc.test"), &mut view);
    assert_eq!(
        r,
        Err(QueryError::UnexpectedResponseKind { kind: ResponseKindTag::ViewAccount })
    );
}

#[test]
fn every_mismatched_kind_is_reported_not_decoded() {
    let kinds = vec![
        (ViewResponseKind::ViewAccount, ResponseKindTag::ViewAccount),
        (ViewResponseKind::ViewCode, ResponseKindTag::ViewCode),
        (ViewResponseKind::ViewState, ResponseKindTag::ViewState),
        (ViewResponseKind::AccessKey, ResponseKindTag::AccessKey),
        (ViewResponseKind::AccessKeyList, ResponseKindTag::AccessKeyList),
    ];
    for (kind, tag) in kinds {
        let r = interpret_response(ViewResponse { block_height: 3, kind });
        assert_eq!(r, Err(QueryError::UnexpectedResponseKind { kind: tag }));
    }
}

#[test]
fn transport_failure_surfaces_with_its_cause() {
    let fault = RequestFault::Transport { cause: "mailbox closed".to_owned() };
    let mut view = ScriptedView::answering(Err(fault));
    let r = get_mpc_contract_state(account("mpc.test"), &mut view);
    assert_eq!(r, Err(QueryError::TransportError { cause: "mailbox closed".to_owned() }));
}

#[test]
fn remote_logic_failure_surfaces_with_its_cause() {
    let fault = RequestFault::RemoteLogic { cause: "method state not found".to_owned() };
    assert_eq!(
        error_from_fault(fault),
        QueryError::RemoteLogicError { cause: "method state not found".to_owned() }
    );
}

use siphon_fhe::decryption::{
    client_key_material, decryption_mode, resolve_threshold, threshold_gate, triggered_from_direct,
    triggered_from_value, DecryptionMode, MPCDecryptRequest, MPCDecryptResponse, RouteError,
};
use siphon_fhe::evaluation::{
    decode_payload, evaluate_plain, parse_strategy_type, plan_holds_plain, plan_of, reads_bound, Bound,
    Comparison, EvalError, EvaluationPayload, EvaluationPlan, StrategyType,
};
use siphon_fhe::lifecycle::{key_reference, step, Action, Event, KeyMaterial, LifecycleError, Phase};
use siphon_fhe::mpc::{
    all_healthy, any_healthy, resolve_decryption, store_fault_error, DecryptStep, MPCClient,
    MpcError, NodeReply, TransportFault,
};
use siphon_fhe::node_api::{
    combine_partials, keygen_outcome, store_refused, MPCKeyGenRequest, MPCKeyGenResponse, PartialDecryption,
    StoreKeyShareRequest,
};

fn answered(v: Option<u64>) -> NodeReply {
    NodeReply::Answered { success: true, decrypted_value: v }
}

#[test]
fn limit_order_triggers_outside_the_band() {
    let st = parse_strategy_type("LIMIT_ORDER").unwrap();
    let got: Vec<bool> = [49u32, 50, 75, 100, 101].iter().map(|p| evaluate_plain(st, *p, 100, 50)).collect();
    assert_eq!(got, vec![true, true, false, true, true]);
}

#[test]
fn one_sided_strategies() {
    assert!(evaluate_plain(StrategyType::LimitBuyDip, 50, 100, 50));
    assert!(!evaluate_plain(StrategyType::LimitBuyDip, 51, 100, 50));
    assert!(evaluate_plain(StrategyType::LimitSellRally, 100, 100, 50));
    assert!(!evaluate_plain(StrategyType::LimitSellRally, 99, 100, 50));
    assert!(evaluate_plain(StrategyType::BracketOrderShort, 0, 100, 50));
}

#[test]
fn strategy_names_parse() {
    assert_eq!(parse_strategy_type("LIMIT_ORDER"), Ok(StrategyType::LimitOrder));
    assert_eq!(parse_strategy_type("BRACKET_ORDER_SHORT"), Ok(StrategyType::BracketOrderShort));
    assert_eq!(parse_strategy_type("LIMIT_BUY_DIP"), Ok(StrategyType::LimitBuyDip));
    assert_eq!(parse_strategy_type("LIMIT_SELL_RALLY"), Ok(StrategyType::LimitSellRally));
    assert_eq!(parse_strategy_type("limit_order"), Err(EvalError::UnknownStrategyType));
    assert_eq!(parse_strategy_type(""), Err(EvalError::UnknownStrategyType));
}

#[test]
fn plans_compare_bounds_with_the_price() {
    let band = EvaluationPlan {
        first: Comparison::BoundAtMostPrice(Bound::Upper),
        or_else: Some(Comparison::BoundAtLeastPrice(Bound::Lower)),
    };
    assert_eq!(plan_of(StrategyType::LimitOrder), band);
    assert_eq!(plan_of(StrategyType::BracketOrderShort), band);
    assert_eq!(
        plan_of(StrategyType::LimitBuyDip),
        EvaluationPlan { first: Comparison::BoundAtLeastPrice(Bound::Lower), or_else: None }
    );
    assert_eq!(
        plan_of(StrategyType::LimitSellRally),
        EvaluationPlan { first: Comparison::BoundAtMostPrice(Bound::Upper), or_else: None }
    );
    let got: Vec<bool> = [49u32, 50, 75, 100, 101].iter().map(|p| plan_holds_plain(band, *p, 100, 50)).collect();
    assert_eq!(got, vec![true, true, false, true, true]);
    assert!(reads_bound(band, Bound::Upper) && reads_bound(band, Bound::Lower));
    assert!(!reads_bound(plan_of(StrategyType::LimitBuyDip), Bound::Upper));
    assert!(!reads_bound(plan_of(StrategyType::LimitSellRally), Bound::Lower));
}

fn payload(strategy: &str, server_key: &str) -> EvaluationPayload {
    EvaluationPayload {
        strategy_type: strategy.to_string(),
        encrypted_upper_bound: "00".to_string(),
        encrypted_lower_bound: "00".to_string(),
        server_key: server_key.to_string(),
        current_price_cents: 7500,
        encrypted_client_key: None,
        mpc_public_key_set: None,
        mpc_share_indices: None,
        fhe_key_id: Some("id".to_string()),
    }
}

#[test]
fn unknown_strategy_is_rejected_before_decoding() {
    let r = decode_payload(&payload("STOP_LOSS", "not hex"));
    assert!(matches!(r, Err(EvalError::UnknownStrategyType)));
}

#[test]
fn malformed_hex_is_a_decoding_error() {
    assert!(matches!(decode_payload(&payload("LIMIT_ORDER", "xyz")), Err(EvalError::DecodingError)));
    assert!(matches!(decode_payload(&payload("LIMIT_ORDER", "0")), Err(EvalError::DecodingError)));
    let mut p = payload("LIMIT_ORDER", "00");
    p.encrypted_lower_bound = "zz".to_string();
    assert!(matches!(decode_payload(&p), Err(EvalError::DecodingError)));
}

#[test]
fn decoding_reads_only_the_bounds_of_the_plan() {
    let mut p = payload("LIMIT_SELL_RALLY", "0a0B");
    p.encrypted_upper_bound = "ff".to_string();
    p.encrypted_lower_bound = "not hex".to_string();
    let d = decode_payload(&p).unwrap_or_else(|_| panic!("decodes"));
    assert_eq!(d.strategy, StrategyType::LimitSellRally);
    assert_eq!(d.server_key, vec![0x0a, 0x0b]);
    assert_eq!(d.upper_bound, Some(vec![0xff]));
    assert_eq!(d.lower_bound, None);
    assert_eq!(d.price_cents, 7500);
    let d = decode_payload(&payload("LIMIT_ORDER", "01")).unwrap_or_else(|_| panic!("decodes"));
    assert_eq!(d.upper_bound, Some(vec![0]));
    assert_eq!(d.lower_bound, Some(vec![0]));
}

#[test]
fn health_thresholds_are_asymmetric() {
    assert!(all_healthy(&[true, true]));
    assert!(!all_healthy(&[true, false]));
    assert!(all_healthy(&[]));
    assert!(any_healthy(&[false, true]));
    assert!(!any_healthy(&[false, false]));
    assert!(!any_healthy(&[]));
}

#[test]
fn coordinator_targets() {
    let empty = MPCClient::new(vec![]);
    assert_eq!(empty.keygen_target(), Err(MpcError::NoNodesConfigured));
    assert_eq!(empty.first_decrypt_step(), DecryptStep::Exhausted);
    let c = MPCClient::new(vec!["http://a".to_string(), "http://b".to_string()]);
    assert_eq!(c.keygen_target(), Ok(0));
    assert_eq!(c.store_target(1), Ok(1));
    assert_eq!(c.store_target(2), Err(MpcError::InvalidNodeIndex));
    assert_eq!(c.first_decrypt_step(), DecryptStep::Contact(0));
}

#[test]
fn decryption_steps_stop_at_first_success() {
    let c = MPCClient::new(vec!["http://a".to_string(), "http://b".to_string()]);
    assert_eq!(c.next_decrypt_step(0, &answered(Some(1))), DecryptStep::Decrypted(1));
    assert_eq!(c.next_decrypt_step(0, &answered(None)), DecryptStep::Contact(1));
    assert_eq!(c.next_decrypt_step(0, &NodeReply::Unreachable), DecryptStep::Contact(1));
    let failed = NodeReply::Answered { success: false, decrypted_value: Some(1) };
    assert_eq!(c.next_decrypt_step(1, &failed), DecryptStep::Exhausted);
    assert_eq!(c.next_decrypt_step(1, &NodeReply::Rejected), DecryptStep::Exhausted);
}

#[test]
fn resolve_takes_first_usable_reply() {
    assert_eq!(resolve_decryption(&[NodeReply::Unreachable, answered(Some(0)), answered(Some(1))]), Ok(0));
    assert_eq!(resolve_decryption(&[answered(None), NodeReply::Rejected]), Err(MpcError::AllNodesExhausted));
    assert_eq!(resolve_decryption(&[]), Err(MpcError::AllNodesExhausted));
}

#[test]
fn store_faults_map_to_errors() {
    assert_eq!(store_fault_error(TransportFault::Timeout), MpcError::Timeout);
    assert_eq!(store_fault_error(TransportFault::ConnectionRefused), MpcError::ConnectionRefused);
    assert_eq!(store_fault_error(TransportFault::Other), MpcError::NetworkError);
}

#[test]
fn all_healthy_and_stored_selects_mpc_mode() {
    let mut p = Phase::CheckHealth;
    let mut actions = Vec::new();
    for e in [
        Event::Health(vec![true, true]),
        Event::KeygenReplied { has_public_key: true },
        Event::SharesPrepared,
        Event::ShareStored,
        Event::ShareStored,
    ] {
        let (np, a) = step(p, &e);
        p = np;
        actions.push(a);
    }
    assert_eq!(p, Phase::MpcMode);
    assert_eq!(
        actions,
        vec![
            Action::RequestKeygen,
            Action::GenerateAndSplit,
            Action::StoreShare { share_index: 0 },
            Action::StoreShare { share_index: 1 },
            Action::Finish,
        ]
    );
    let material = KeyMaterial::Split {
        key_id: "abcd".to_string(),
        public_key_set: Some("00ff".to_string()),
        share_indices: Some(vec![0, 1]),
    };
    let kr = key_reference(p, material).unwrap();
    assert_eq!(kr.fhe_key_id, Some("abcd".to_string()));
    assert_eq!(kr.encrypted_client_key, None);
    assert_eq!(kr.mpc_public_key_set, Some("00ff".to_string()));
    assert_eq!(kr.mpc_share_indices, Some(vec![0, 1]));
}

#[test]
fn one_unhealthy_node_selects_legacy_mode() {
    let (p, a) = step(Phase::CheckHealth, &Event::Health(vec![true, false]));
    assert_eq!(p, Phase::LegacyMode);
    assert_eq!(a, Action::Finish);
    let kr = key_reference(p, KeyMaterial::Embedded { client_key_hex: "beef".to_string() }).unwrap();
    assert_eq!(kr.encrypted_client_key, Some("beef".to_string()));
    assert_eq!(kr.fhe_key_id, None);
    assert_eq!(kr.mpc_public_key_set, None);
}

#[test]
fn keygen_without_public_key_selects_legacy_mode() {
    let (p, _) = step(Phase::RequestKeygen, &Event::KeygenReplied { has_public_key: false });
    assert_eq!(p, Phase::LegacyMode);
    let (p, _) = step(Phase::RequestKeygen, &Event::KeygenFailed);
    assert_eq!(p, Phase::LegacyMode);
}

#[test]
fn partial_storage_fails_secure() {
    let (p, _) = step(Phase::GenerateAndSplit, &Event::SharesPrepared);
    let (p, a) = step(p, &Event::ShareStored);
    assert_eq!(a, Action::StoreShare { share_index: 1 });
    let (p, a) = step(p, &Event::ShareFailed);
    assert_eq!(p, Phase::SecureFail);
    assert_eq!(a, Action::Finish);
    let material = KeyMaterial::Embedded { client_key_hex: "beef".to_string() };
    assert!(matches!(key_reference(p, material), Err(LifecycleError::SecurityInvariantViolation)));
}

#[test]
fn failed_first_share_still_fails_secure() {
    let (p, _) = step(Phase::StoreShares { next: 0, all_stored: true }, &Event::ShareFailed);
    let (p, _) = step(p, &Event::ShareStored);
    assert_eq!(p, Phase::SecureFail);
}

#[test]
fn preparation_failure_fails_secure() {
    let (p, a) = step(Phase::GenerateAndSplit, &Event::PreparationFailed);
    assert_eq!(p, Phase::SecureFail);
    assert_eq!(a, Action::Finish);
}

#[test]
fn unfinished_or_mismatched_runs_give_no_reference() {
    let m = KeyMaterial::Embedded { client_key_hex: "beef".to_string() };
    assert!(matches!(key_reference(Phase::RequestKeygen, m.clone()), Err(LifecycleError::Incomplete)));
    assert!(matches!(key_reference(Phase::MpcMode, m), Err(LifecycleError::Incomplete)));
    let (p, a) = step(Phase::MpcMode, &Event::ShareFailed);
    assert_eq!((p, a), (Phase::MpcMode, Action::Finish));
}

#[test]
fn decryption_routing() {
    assert_eq!(resolve_threshold(&[false, false], &[answered(Some(1))]), Err(RouteError::ServiceUnavailable));
    assert_eq!(resolve_threshold(&[false, true], &[NodeReply::Unreachable, answered(Some(1))]), Ok(true));
    assert_eq!(resolve_threshold(&[true, false], &[answered(Some(0))]), Ok(false));
    assert_eq!(resolve_threshold(&[true], &[NodeReply::Unreachable]), Err(RouteError::ServiceUnavailable));
    assert_eq!(decryption_mode(&None, &None), Err(RouteError::MissingDecryptionMaterial));
    assert_eq!(
        decryption_mode(&Some("id".to_string()), &Some("ck".to_string())),
        Ok(DecryptionMode::ThresholdMpc("id".to_string()))
    );
    assert_eq!(decryption_mode(&None, &Some("ck".to_string())), Ok(DecryptionMode::DirectLegacy("ck".to_string())));
    assert_eq!(threshold_gate(&[]), Err(RouteError::ServiceUnavailable));
    assert_eq!(triggered_from_value(Ok(1)), Ok(true));
    assert_eq!(triggered_from_value(Ok(2)), Ok(false));
    assert_eq!(triggered_from_value(Err(MpcError::AllNodesExhausted)), Err(RouteError::ServiceUnavailable));
    assert_eq!(client_key_material("0A"), Ok(vec![10]));
    assert_eq!(client_key_material("0"), Err(RouteError::DecodingError));
    assert_eq!(triggered_from_direct(Some(1)), Ok(true));
    assert_eq!(triggered_from_direct(Some(0)), Ok(false));
    assert_eq!(triggered_from_direct(None), Err(RouteError::DecodingError));
}

#[test]
fn messages_carry_their_fields() {
    let k = MPCKeyGenRequest::new("u1");
    assert_eq!(k.user_id, "u1");
    assert_eq!(k.request_id.len(), 36);
    let s = StoreKeyShareRequest::new("kid", "0a0b", 1, "u1");
    assert_eq!((s.key_id.as_str(), s.key_share.as_str(), s.share_index), ("kid", "0a0b", 1));
    assert_ne!(s.request_id, MPCKeyGenRequest::new("u1").request_id);
    let d = MPCDecryptRequest::new("kid", "00", "fhe_engine");
    assert_eq!(d.encrypted_result, "00");
    let resp = MPCDecryptResponse { success: true, decrypted_value: Some(1), node_id: 2, message: None };
    assert_eq!(resp.to_reply(), answered(Some(1)));
}

#[test]
fn keygen_outcomes() {
    let body = MPCKeyGenResponse {
        success: true,
        message: "ok".to_string(),
        public_key_set: Some("00".to_string()),
        mpc_share_indices: None,
    };
    assert_eq!(
        keygen_outcome(false, Some(body.clone()), "busy".to_string()).err(),
        Some(MpcError::ProtocolError("busy".to_string()))
    );
    assert!(matches!(keygen_outcome(true, None, String::new()), Err(MpcError::ProtocolError(_))));
    assert_eq!(keygen_outcome(true, Some(body), String::new()).unwrap().public_key_set, Some("00".to_string()));
    assert_eq!(store_refused("disk full".to_string()), MpcError::ProtocolError("disk full".to_string()));
}

#[test]
fn partial_decryptions_need_both_nodes() {
    let one = vec![PartialDecryption { node_id: 1, partial_result: "00".to_string() }];
    assert!(matches!(combine_partials(one.clone()), Err(MpcError::AllNodesExhausted)));
    let mut two = one;
    two.push(PartialDecryption { node_id: 2, partial_result: "01".to_string() });
    let r = combine_partials(two).unwrap();
    assert!(r.success);
    assert_eq!(r.decrypted_value, None);
    assert_eq!(r.partial_decryptions.unwrap().len(), 2);
}

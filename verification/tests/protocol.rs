use ra_client_enclave::context::Action;
use ra_client_enclave::context::ClientRaContext;
use ra_client_enclave::context::Event;
use ra_client_enclave::context::Outcome;
use ra_client_enclave::msg::decode_msg0;
use ra_client_enclave::msg::decode_msg1;
use ra_client_enclave::msg::decode_msg3;
use ra_client_enclave::msg::encode_dh_frame;
use ra_client_enclave::msg::encode_msg2;
use ra_client_enclave::msg::encode_msg4;
use ra_client_enclave::msg::Msg2;
use ra_client_enclave::msg::Msg4;
use ra_client_enclave::msg::MAC_SIZE;
use ra_client_enclave::msg::QUOTE_SIZE;
use ra_client_enclave::quoting::encode_params_frame;
use ra_client_enclave::quoting::encode_quote_frame;
use ra_client_enclave::quoting::QuoteReply;
use ra_client_enclave::quoting::QuotingParams;
use ra_client_enclave::quoting::REPORT_SIZE;
use ra_client_enclave::quoting::TARGET_INFO_SIZE;
use ra_client_enclave::ClientRaError;

fn mock_params_frame() -> Vec<u8> {
    let p = QuotingParams { target_info: vec![7; TARGET_INFO_SIZE], gid: vec![1, 2, 3, 4] };
    encode_params_frame(&p)
}

fn mock_msg2_bytes() -> Vec<u8> {
    let m = Msg2 {
        g_b: vec![8; 64],
        spid: vec![2; 16],
        sig_rl: None,
        sign_gb_ga: vec![3; 64],
    };
    encode_msg2(&m)
}

fn mock_quote_frame() -> Vec<u8> {
    let q = QuoteReply { quote: vec![6; QUOTE_SIZE], qe_report: vec![4; REPORT_SIZE] };
    encode_quote_frame(&q)
}

/// Drives a fresh session up to (and including) the fourth message, with a
/// mock enclave, service provider and quoting service, and returns the
/// context ready for the verdict message.
fn run_until_msg4(ctx: &mut ClientRaContext) {
    let g_a = vec![9u8; 64];

    let out = ctx.do_attestation(Event::Begin);
    assert!(matches!(out.outcome, Outcome::Pending));
    assert_eq!(out.actions.len(), 2);
    match &out.actions[0] {
        Action::SendSp(b) => {
            let m0 = decode_msg0(b).expect("first message decodes");
            assert_eq!(m0.exgid, 0);
        }
        other => panic!("expected a send to the service provider, got {:?}", other),
    }
    assert!(matches!(out.actions[1], Action::ReadEnclaveMessage));

    let out = ctx.do_attestation(Event::EnclaveData(encode_dh_frame(&g_a)));
    assert!(matches!(out.outcome, Outcome::Pending));
    assert_eq!(out.actions.len(), 2);
    match &out.actions[0] {
        Action::SendSp(b) => {
            let m1 = decode_msg1(b).expect("second message decodes");
            assert_eq!(m1.gid, vec![1, 2, 3, 4]);
            assert_eq!(m1.g_a, g_a);
        }
        other => panic!("expected a send to the service provider, got {:?}", other),
    }
    assert!(matches!(out.actions[1], Action::ReadSpMessage));

    let msg2_bytes = mock_msg2_bytes();
    let out = ctx.do_attestation(Event::SpData(msg2_bytes.clone()));
    assert!(matches!(out.outcome, Outcome::Pending));
    assert_eq!(out.actions.len(), 2);
    match &out.actions[0] {
        Action::SendEnclave(b) => assert_eq!(*b, msg2_bytes),
        other => panic!("expected a verbatim forward to the enclave, got {:?}", other),
    }
    assert!(matches!(out.actions[1], Action::FetchQuotingParams));

    let out = ctx.do_attestation(Event::QuotingFrame(mock_params_frame()));
    assert!(matches!(out.outcome, Outcome::Pending));
    assert_eq!(out.actions.len(), 2);
    match &out.actions[0] {
        Action::SendEnclave(b) => assert_eq!(*b, vec![7u8; TARGET_INFO_SIZE]),
        other => panic!("expected the target info for the enclave, got {:?}", other),
    }
    assert!(matches!(out.actions[1], Action::ReadEnclaveExact(n) if n == REPORT_SIZE));

    let report = vec![5u8; REPORT_SIZE];
    let out = ctx.do_attestation(Event::EnclaveData(report.clone()));
    assert!(matches!(out.outcome, Outcome::Pending));
    assert_eq!(out.actions.len(), 1);
    match &out.actions[0] {
        Action::FetchQuote(b) => {
            let mut expected = report;
            expected.push(b'\n');
            expected.extend_from_slice(&[2u8; 16]);
            // the mock service provider sent no revocation list: nothing follows
            assert_eq!(*b, expected);
        }
        other => panic!("expected a quote request, got {:?}", other),
    }

    let out = ctx.do_attestation(Event::QuotingFrame(mock_quote_frame()));
    assert!(matches!(out.outcome, Outcome::Pending));
    assert_eq!(out.actions.len(), 2);
    match &out.actions[0] {
        Action::SendEnclave(b) => {
            let mut expected = vec![6u8; QUOTE_SIZE];
            expected.extend_from_slice(&[4u8; REPORT_SIZE]);
            assert_eq!(*b, expected);
        }
        other => panic!("expected the quote materials for the enclave, got {:?}", other),
    }
    assert!(matches!(out.actions[1], Action::ReadEnclaveExact(n) if n == MAC_SIZE));

    let mac = vec![0xaa_u8; MAC_SIZE];
    let out = ctx.do_attestation(Event::EnclaveData(mac.clone()));
    assert!(matches!(out.outcome, Outcome::Pending));
    assert_eq!(out.actions.len(), 2);
    match &out.actions[0] {
        Action::SendSp(b) => {
            let m3 = decode_msg3(b).expect("fourth message decodes");
            assert_eq!(m3.g_a, vec![9u8; 64]);
            assert_eq!(m3.mac, mac);
            assert_eq!(m3.ps_sec_prop, None);
            assert_eq!(m3.quote, vec![6u8; QUOTE_SIZE]);
        }
        other => panic!("expected a send to the service provider, got {:?}", other),
    }
    assert!(matches!(out.actions[1], Action::ReadSpMessage));
}

#[test]
fn end_to_end_success() {
    let frame = mock_params_frame();
    let mut ctx = ClientRaContext::init(Some(&frame)).expect("init succeeds");
    run_until_msg4(&mut ctx);

    let msg4 = encode_msg4(&Msg4 { is_enclave_trusted: true, is_pse_manifest_trusted: None });
    let out = ctx.do_attestation(Event::SpData(msg4.clone()));
    assert!(matches!(out.outcome, Outcome::Complete));
    // the verdict is forwarded to the enclave exactly once, and nothing else
    assert_eq!(out.actions.len(), 1);
    match &out.actions[0] {
        Action::SendEnclave(b) => assert_eq!(*b, msg4),
        other => panic!("expected the verdict forwarded to the enclave, got {:?}", other),
    }
}

#[test]
fn untrusted_enclave_is_rejected() {
    let frame = mock_params_frame();
    let mut ctx = ClientRaContext::init(Some(&frame)).expect("init succeeds");
    run_until_msg4(&mut ctx);

    let msg4 = encode_msg4(&Msg4 { is_enclave_trusted: false, is_pse_manifest_trusted: None });
    let out = ctx.do_attestation(Event::SpData(msg4.clone()));
    assert_eq!(out.outcome, Outcome::Failed(ClientRaError::EnclaveNotTrusted));
    // the verdict still reaches the enclave, and nothing follows it
    assert_eq!(out.actions.len(), 1);
    match &out.actions[0] {
        Action::SendEnclave(b) => assert_eq!(*b, msg4),
        other => panic!("expected the verdict forwarded to the enclave, got {:?}", other),
    }
    // the abandoned session sends no further message on any input
    let out = ctx.do_attestation(Event::SpData(msg4));
    assert_eq!(out.actions.len(), 0);
    assert_eq!(out.outcome, Outcome::Failed(ClientRaError::TransportFailure));
}

#[test]
fn untrusted_manifest_is_rejected() {
    let frame = mock_params_frame();
    let mut ctx = ClientRaContext::init(Some(&frame)).expect("init succeeds");
    run_until_msg4(&mut ctx);

    let msg4 = encode_msg4(
        &Msg4 { is_enclave_trusted: true, is_pse_manifest_trusted: Some(false) },
    );
    let out = ctx.do_attestation(Event::SpData(msg4));
    assert_eq!(out.outcome, Outcome::Failed(ClientRaError::PseNotTrusted));
    assert_eq!(out.actions.len(), 1);
}

#[test]
fn trusted_manifest_completes() {
    let frame = mock_params_frame();
    let mut ctx = ClientRaContext::init(Some(&frame)).expect("init succeeds");
    run_until_msg4(&mut ctx);

    let msg4 = encode_msg4(&Msg4 { is_enclave_trusted: true, is_pse_manifest_trusted: Some(true) });
    let out = ctx.do_attestation(Event::SpData(msg4));
    assert!(matches!(out.outcome, Outcome::Complete));
}

#[test]
fn unreachable_quoting_service_fails_init() {
    let r = ClientRaContext::init(None);
    assert_eq!(r.err(), Some(ClientRaError::QuotingServiceUnavailable));
}

#[test]
fn malformed_params_frame_fails_init() {
    let frame = vec![0u8; 3];
    let r = ClientRaContext::init(Some(&frame));
    assert_eq!(r.err(), Some(ClientRaError::EncodingFailure));
}

#[test]
fn unreachable_quoting_service_fails_session() {
    let frame = mock_params_frame();
    let mut ctx = ClientRaContext::init(Some(&frame)).expect("init succeeds");
    ctx.do_attestation(Event::Begin);
    ctx.do_attestation(Event::EnclaveData(encode_dh_frame(&vec![9u8; 64])));
    ctx.do_attestation(Event::SpData(mock_msg2_bytes()));
    let out = ctx.do_attestation(Event::QuotingUnavailable);
    assert_eq!(out.outcome, Outcome::Failed(ClientRaError::QuotingServiceUnavailable));
    assert_eq!(out.actions.len(), 0);
}

#[test]
fn malformed_msg2_fails_session() {
    let frame = mock_params_frame();
    let mut ctx = ClientRaContext::init(Some(&frame)).expect("init succeeds");
    ctx.do_attestation(Event::Begin);
    ctx.do_attestation(Event::EnclaveData(encode_dh_frame(&vec![9u8; 64])));
    let out = ctx.do_attestation(Event::SpData(vec![0xff; 5]));
    assert_eq!(out.outcome, Outcome::Failed(ClientRaError::EncodingFailure));
    assert_eq!(out.actions.len(), 0);
}

#[test]
fn short_report_fails_session() {
    let frame = mock_params_frame();
    let mut ctx = ClientRaContext::init(Some(&frame)).expect("init succeeds");
    ctx.do_attestation(Event::Begin);
    ctx.do_attestation(Event::EnclaveData(encode_dh_frame(&vec![9u8; 64])));
    ctx.do_attestation(Event::SpData(mock_msg2_bytes()));
    ctx.do_attestation(Event::QuotingFrame(mock_params_frame()));
    let out = ctx.do_attestation(Event::EnclaveData(vec![5u8; REPORT_SIZE - 1]));
    assert_eq!(out.outcome, Outcome::Failed(ClientRaError::EncodingFailure));
}

#[test]
fn backend_selector_is_fixed_for_every_session() {
    // whatever parameters a session starts from, the first message always
    // carries the single supported selector
    for fill in [0u8, 9, 255] {
        let p = QuotingParams {
            target_info: vec![fill; TARGET_INFO_SIZE],
            gid: vec![fill, fill, fill, fill],
        };
        let frame = encode_params_frame(&p);
        let mut ctx = ClientRaContext::init(Some(&frame)).expect("init succeeds");
        let m0 = ctx.get_extended_epid_group_id();
        assert_eq!(m0.exgid, 0);
        let out = ctx.do_attestation(Event::Begin);
        match &out.actions[0] {
            Action::SendSp(b) => assert_eq!(decode_msg0(b).unwrap().exgid, 0),
            other => panic!("expected a send to the service provider, got {:?}", other),
        }
    }
}

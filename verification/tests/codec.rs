use ra_client_enclave::msg::decode_dh_frame;
use ra_client_enclave::msg::decode_msg0;
use ra_client_enclave::msg::decode_msg1;
use ra_client_enclave::msg::decode_msg2;
use ra_client_enclave::msg::decode_msg3;
use ra_client_enclave::msg::decode_msg4;
use ra_client_enclave::msg::encode_dh_frame;
use ra_client_enclave::msg::encode_msg0;
use ra_client_enclave::msg::encode_msg1;
use ra_client_enclave::msg::encode_msg2;
use ra_client_enclave::msg::encode_msg3;
use ra_client_enclave::msg::encode_msg4;
use ra_client_enclave::msg::Msg0;
use ra_client_enclave::msg::Msg1;
use ra_client_enclave::msg::Msg2;
use ra_client_enclave::msg::Msg3;
use ra_client_enclave::msg::Msg4;
use ra_client_enclave::msg::MAC_SIZE;
use ra_client_enclave::msg::QUOTE_SIZE;
use ra_client_enclave::quoting::decode_params_frame;
use ra_client_enclave::quoting::decode_quote_frame;
use ra_client_enclave::quoting::encode_params_frame;
use ra_client_enclave::quoting::encode_quote_frame;
use ra_client_enclave::quoting::encode_quote_request;
use ra_client_enclave::quoting::hex_decode;
use ra_client_enclave::quoting::hex_encode;
use ra_client_enclave::quoting::QuoteReply;
use ra_client_enclave::quoting::QuotingParams;
use ra_client_enclave::quoting::PARAMS_FRAME_SIZE;
use ra_client_enclave::quoting::QUOTE_FRAME_SIZE;
use ra_client_enclave::quoting::REPORT_SIZE;
use ra_client_enclave::quoting::TARGET_INFO_SIZE;

#[test]
fn msg0_round_trip() {
    for exgid in [0u32, 1, 0xdead_beef, u32::MAX] {
        let m = Msg0 { exgid };
        let bytes = encode_msg0(&m);
        assert_eq!(decode_msg0(&bytes), Some(m));
    }
}

#[test]
fn msg0_exact_bytes() {
    let bytes = encode_msg0(&Msg0 { exgid: 0 });
    assert_eq!(bytes, vec![0u8, 0, 0, 0]);
    let bytes = encode_msg0(&Msg0 { exgid: 0x0403_0201 });
    assert_eq!(bytes, vec![1u8, 2, 3, 4]);
}

#[test]
fn msg1_round_trip() {
    for g_a in [vec![], vec![9u8; 64]] {
        let m = Msg1 { gid: vec![1, 2, 3, 4], g_a };
        let bytes = encode_msg1(&m);
        let back = decode_msg1(&bytes).expect("round trip");
        assert_eq!(back.gid, m.gid);
        assert_eq!(back.g_a, m.g_a);
    }
}

#[test]
fn msg2_round_trip() {
    for sig_rl in [None, Some(vec![]), Some(vec![0xfe; 99])] {
        let m = Msg2 {
            g_b: vec![8; 64],
            spid: vec![2; 16],
            sig_rl,
            sign_gb_ga: vec![3; 64],
        };
        let bytes = encode_msg2(&m);
        let back = decode_msg2(&bytes).expect("round trip");
        assert_eq!(back.g_b, m.g_b);
        assert_eq!(back.spid, m.spid);
        assert_eq!(back.sig_rl, m.sig_rl);
        assert_eq!(back.sign_gb_ga, m.sign_gb_ga);
    }
}

#[test]
fn msg3_round_trip() {
    for ps_sec_prop in [None, Some(vec![7u8; 256])] {
        let m = Msg3 {
            g_a: vec![9; 64],
            mac: vec![0xaa; MAC_SIZE],
            ps_sec_prop,
            quote: vec![6; QUOTE_SIZE],
        };
        let bytes = encode_msg3(&m);
        let back = decode_msg3(&bytes).expect("round trip");
        assert_eq!(back.g_a, m.g_a);
        assert_eq!(back.mac, m.mac);
        assert_eq!(back.ps_sec_prop, m.ps_sec_prop);
        assert_eq!(back.quote, m.quote);
    }
}

#[test]
fn msg4_round_trip() {
    for is_enclave_trusted in [false, true] {
        for is_pse_manifest_trusted in [None, Some(false), Some(true)] {
            let m = Msg4 { is_enclave_trusted, is_pse_manifest_trusted };
            let bytes = encode_msg4(&m);
            assert_eq!(decode_msg4(&bytes), Some(m));
        }
    }
}

#[test]
fn msg4_exact_bytes() {
    let m = Msg4 { is_enclave_trusted: true, is_pse_manifest_trusted: Some(false) };
    assert_eq!(encode_msg4(&m), vec![1u8, 1, 0]);
    let m = Msg4 { is_enclave_trusted: false, is_pse_manifest_trusted: None };
    assert_eq!(encode_msg4(&m), vec![0u8, 0]);
}

#[test]
fn msg4_rejects_garbage() {
    assert_eq!(decode_msg4(&[]), None);
    assert_eq!(decode_msg4(&[1]), None);
    assert_eq!(decode_msg4(&[2, 0]), None);
    assert_eq!(decode_msg4(&[1, 2]), None);
    assert_eq!(decode_msg4(&[1, 1, 3]), None);
    assert_eq!(decode_msg4(&[1, 0, 0]), None);
}

#[test]
fn dh_frame_round_trip() {
    for value in [vec![], vec![9u8; 64]] {
        let frame = encode_dh_frame(&value);
        assert_eq!(decode_dh_frame(&frame), Some(value));
    }
}

#[test]
fn dh_frame_rejects_trailing_bytes() {
    let mut frame = encode_dh_frame(&[9u8; 64]);
    frame.push(0);
    assert_eq!(decode_dh_frame(&frame), None);
}

#[test]
fn hex_exact_spelling() {
    assert_eq!(hex_encode(&[0x00, 0xab, 0xff]), b"00abff".to_vec());
    assert_eq!(hex_decode(b"00abff"), Some(vec![0x00, 0xab, 0xff]));
}

#[test]
fn hex_rejects_bad_text() {
    assert_eq!(hex_decode(b"0"), None);
    assert_eq!(hex_decode(b"0g"), None);
    assert_eq!(hex_decode(b"AB"), None);
    assert_eq!(hex_decode(b""), Some(vec![]));
}

#[test]
fn params_frame_round_trip() {
    let p = QuotingParams { target_info: vec![7; TARGET_INFO_SIZE], gid: vec![1, 2, 3, 4] };
    let frame = encode_params_frame(&p);
    assert_eq!(frame.len(), PARAMS_FRAME_SIZE);
    let back = decode_params_frame(&frame).expect("round trip");
    assert_eq!(back.target_info, p.target_info);
    assert_eq!(back.gid, p.gid);
}

#[test]
fn params_frame_rejects_short_frame() {
    let p = QuotingParams { target_info: vec![7; TARGET_INFO_SIZE], gid: vec![1, 2, 3, 4] };
    let mut frame = encode_params_frame(&p);
    frame.pop();
    assert!(decode_params_frame(&frame).is_none());
}

#[test]
fn quote_frame_round_trip() {
    let q = QuoteReply { quote: vec![6; QUOTE_SIZE], qe_report: vec![4; REPORT_SIZE] };
    let frame = encode_quote_frame(&q);
    assert_eq!(frame.len(), QUOTE_FRAME_SIZE);
    let back = decode_quote_frame(&frame).expect("round trip");
    assert_eq!(back.quote, q.quote);
    assert_eq!(back.qe_report, q.qe_report);
}

#[test]
fn quote_request_layout() {
    let report = vec![5u8; REPORT_SIZE];
    let spid = vec![2u8; 16];
    let sig_rl = vec![0xfe_u8; 3];
    let req = encode_quote_request(&report, &spid, &sig_rl);
    let mut expected = report.clone();
    expected.push(b'\n');
    expected.extend_from_slice(&spid);
    expected.extend_from_slice(&sig_rl);
    assert_eq!(req, expected);
}

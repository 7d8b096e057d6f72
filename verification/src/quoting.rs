//! The quoting service's framed exchanges.
//!
//! Both endpoints of the local quoting service answer with one fixed-length
//! frame of UTF-8 text: the hexadecimal spelling of the payload bytes. The
//! parameters frame carries the quoting enclave's target info and the
//! platform group id; the quote frame carries the signed quote and the
//! quoting enclave's own report. The quote request written to the service is
//! raw bytes: the report, one newline, the service-provider id, then the
//! revocation list.

use vstd::prelude::*;
use crate::wire::push_bytes;
use crate::msg::GID_SIZE;
use crate::msg::SPID_SIZE;
use crate::msg::QUOTE_SIZE;

verus! {

/// Size in bytes of a quoting-enclave target info.
pub const TARGET_INFO_SIZE: usize = 512;

/// Size in bytes of an enclave report.
pub const REPORT_SIZE: usize = 432;

/// Size in bytes of the parameters endpoint's response frame.
pub const PARAMS_FRAME_SIZE: usize = 2 * (TARGET_INFO_SIZE + GID_SIZE);

/// Size in bytes of the quote endpoint's response frame.
pub const QUOTE_FRAME_SIZE: usize = 2 * (QUOTE_SIZE + REPORT_SIZE);

/// The newline byte delimiting the report in a quote request.
pub const REQUEST_DELIMITER: u8 = 10;

// ---- hexadecimal text codec ----

/// The lower-case hexadecimal digit of a value below 16.
pub open spec fn spec_hex_digit(n: u8) -> u8
    recommends
        n < 16,
{
    if n < 10 {
        (n + 48) as u8
    } else {
        (n + 87) as u8
    }
}

/// The value a hexadecimal digit stands for, if any.
pub open spec fn spec_hex_val(c: u8) -> Option<u8> {
    if 48 <= c && c <= 57 {
        Some((c - 48) as u8)
    } else if 97 <= c && c <= 102 {
        Some((c - 87) as u8)
    } else {
        None
    }
}

/// The hexadecimal spelling of a byte string, two digits per byte.
pub open spec fn spec_hex_encode(b: Seq<u8>) -> Seq<u8>
    decreases b.len(),
{
    if b.len() == 0 {
        Seq::empty()
    } else {
        seq![
            spec_hex_digit((b[0] / 16) as u8),
            spec_hex_digit((b[0] % 16) as u8),
        ] + spec_hex_encode(b.drop_first())
    }
}

/// The unique byte string a hexadecimal text spells, if any.
pub open spec fn spec_hex_decode(s: Seq<u8>) -> Option<Seq<u8>>
    decreases s.len(),
{
    if s.len() == 0 {
        Some(Seq::empty())
    } else if s.len() == 1 {
        None
    } else {
        match (spec_hex_val(s[0]), spec_hex_val(s[1])) {
            (Some(h), Some(l)) => match spec_hex_decode(s.skip(2)) {
                Some(r) => Some(seq![(h * 16 + l) as u8] + r),
                None => None,
            },
            _ => None,
        }
    }
}

/// The spelling of a byte string is twice as long as the string.
pub proof fn lemma_hex_encode_len(b: Seq<u8>)
    ensures
        spec_hex_encode(b).len() == 2 * b.len(),
    decreases b.len(),
{
    if b.len() > 0 {
        lemma_hex_encode_len(b.drop_first());
    }
}

/// Spelling one more byte appends its two digits.
pub proof fn lemma_hex_encode_push(s: Seq<u8>, x: u8)
    ensures
        spec_hex_encode(s.push(x)) == spec_hex_encode(s) + seq![
            spec_hex_digit((x / 16) as u8),
            spec_hex_digit((x % 16) as u8),
        ],
    decreases s.len(),
{
    if s.len() == 0 {
        assert(s.push(x).drop_first() =~= Seq::<u8>::empty());
        assert(s.push(x)[0] == x);
        assert(spec_hex_encode(Seq::<u8>::empty()) == Seq::<u8>::empty());
        assert(spec_hex_encode(s.push(x)) =~= spec_hex_encode(s) + seq![
            spec_hex_digit((x / 16) as u8),
            spec_hex_digit((x % 16) as u8),
        ]);
    } else {
        assert(s.push(x).drop_first() =~= s.drop_first().push(x));
        lemma_hex_encode_push(s.drop_first(), x);
        assert(s.push(x)[0] == s[0]);
        assert(spec_hex_encode(s.push(x)) =~= spec_hex_encode(s) + seq![
            spec_hex_digit((x / 16) as u8),
            spec_hex_digit((x % 16) as u8),
        ]);
    }
}

/// Reading back the spelling of a byte string gives the string.
pub proof fn lemma_hex_round_trip(b: Seq<u8>)
    ensures
        spec_hex_decode(spec_hex_encode(b)) == Some(b),
    decreases b.len(),
{
    if b.len() == 0 {
    } else {
        let e = spec_hex_encode(b);
        let hi = (b[0] / 16) as u8;
        let lo = (b[0] % 16) as u8;
        lemma_hex_encode_len(b.drop_first());
        assert(e[0] == spec_hex_digit(hi));
        assert(e[1] == spec_hex_digit(lo));
        assert(spec_hex_val(spec_hex_digit(hi)) == Some(hi));
        assert(spec_hex_val(spec_hex_digit(lo)) == Some(lo));
        assert(e.skip(2) =~= spec_hex_encode(b.drop_first()));
        lemma_hex_round_trip(b.drop_first());
        assert(hi * 16 + lo == b[0]);
        assert(seq![b[0]] + b.drop_first() =~= b);
    }
}

/// Any text the hexadecimal reader accepts is the spelling of what it read.
pub proof fn lemma_hex_encoding_unique(s: Seq<u8>, d: Seq<u8>)
    requires
        spec_hex_decode(s) == Some(d),
    ensures
        spec_hex_encode(d) == s,
    decreases s.len(),
{
    if s.len() == 0 {
        assert(spec_hex_encode(d) =~= s);
    } else {
        let h = spec_hex_val(s[0]).unwrap();
        let l = spec_hex_val(s[1]).unwrap();
        let rest = spec_hex_decode(s.skip(2)).unwrap();
        lemma_hex_encoding_unique(s.skip(2), rest);
        assert(d == seq![(h * 16 + l) as u8] + rest);
        assert(d[0] == (h * 16 + l) as u8);
        assert((d[0] / 16) as u8 == h);
        assert((d[0] % 16) as u8 == l);
        assert(spec_hex_digit(h) == s[0]);
        assert(spec_hex_digit(l) == s[1]);
        assert(d.drop_first() =~= rest);
        assert(spec_hex_encode(d) =~= s);
    }
}

/// A text of odd length spells no byte string.
pub proof fn lemma_hex_decode_odd(s: Seq<u8>)
    requires
        s.len() % 2 == 1,
    ensures
        spec_hex_decode(s) is None,
    decreases s.len(),
{
    if s.len() > 1 {
        lemma_hex_decode_odd(s.skip(2));
    }
}

/// Spells a byte string in lower-case hexadecimal.
pub fn hex_encode(b: &[u8]) -> (r: Vec<u8>)
    ensures
        r@ == spec_hex_encode(b@),
{
    let mut out: Vec<u8> = Vec::new();
    let mut k: usize = 0;
    assert(b@.subrange(0, 0) =~= Seq::<u8>::empty());
    while k < b.len()
        invariant
            k <= b@.len(),
            out@ == spec_hex_encode(b@.subrange(0, k as int)),
        decreases b@.len() - k,
    {
        let x = *vstd::slice::slice_index_get(b, k);
        out.push(hex_digit(x / 16));
        out.push(hex_digit(x % 16));
        proof {
            assert(b@.subrange(0, k + 1) =~= b@.subrange(0, k as int).push(b@[k as int]));
            lemma_hex_encode_push(b@.subrange(0, k as int), b@[k as int]);
        }
        k = k + 1;
    }
    assert(b@.subrange(0, b@.len() as int) =~= b@);
    out
}

/// The executable form of [`spec_hex_digit`].
pub fn hex_digit(n: u8) -> (r: u8)
    requires
        n < 16,
    ensures
        r == spec_hex_digit(n),
{
    if n < 10 {
        n + 48
    } else {
        n + 87
    }
}

/// The executable form of [`spec_hex_val`].
pub fn hex_val(c: u8) -> (r: Option<u8>)
    ensures
        r == spec_hex_val(c),
{
    if 48 <= c && c <= 57 {
        Some(c - 48)
    } else if 97 <= c && c <= 102 {
        Some(c - 87)
    } else {
        None
    }
}

/// Reads a byte string back from its hexadecimal spelling.
pub fn hex_decode(s: &[u8]) -> (r: Option<Vec<u8>>)
    ensures
        match r {
            Some(v) => spec_hex_decode(s@) == Some(v@),
            None => spec_hex_decode(s@) is None,
        },
{
    if s.len() % 2 == 1 {
        proof {
            lemma_hex_decode_odd(s@);
        }
        return None;
    }
    let n = s.len() / 2;
    let mut out: Vec<u8> = Vec::new();
    let mut i: usize = 0;
    proof {
        assert(s@.skip(0) =~= s@);
        match spec_hex_decode(s@) {
            Some(rest) => {
                assert(Seq::<u8>::empty() + rest =~= rest);
            },
            None => {},
        }
    }
    while i < n
        invariant
            i <= n,
            2 * n == s@.len(),
            s@.len() <= usize::MAX,
            match spec_hex_decode(s@.skip(2 * i as int)) {
                Some(rest) => spec_hex_decode(s@) == Some(out@ + rest),
                None => spec_hex_decode(s@) is None,
            },
        decreases n - i,
    {
        let c0 = *vstd::slice::slice_index_get(s, 2 * i);
        let c1 = *vstd::slice::slice_index_get(s, 2 * i + 1);
        let ghost tail = s@.skip(2 * i as int);
        proof {
            assert(tail.len() == s@.len() - 2 * i);
            assert(tail[0] == s@[2 * i as int]);
            assert(tail[1] == s@[2 * i as int + 1]);
            assert(tail.skip(2) =~= s@.skip(2 * (i + 1) as int));
        }
        let h = match hex_val(c0) {
            Some(h) => h,
            None => {
                return None;
            },
        };
        let l = match hex_val(c1) {
            Some(l) => l,
            None => {
                return None;
            },
        };
        let ghost out_before = out@;
        out.push(h * 16 + l);
        i = i + 1;
        proof {
            let byte = (h * 16 + l) as u8;
            match spec_hex_decode(s@.skip(2 * i as int)) {
                Some(rr) => {
                    assert(spec_hex_decode(tail) == Some(seq![byte] + rr));
                    assert(out_before + (seq![byte] + rr) =~= out@ + rr);
                },
                None => {
                    assert(spec_hex_decode(tail) is None);
                },
            }
        }
    }
    proof {
        assert(s@.skip(2 * n as int) =~= Seq::<u8>::empty());
        assert(out@ + Seq::<u8>::empty() =~= out@);
    }
    Some(out)
}

// ---- the two response frames and the quote request ----

/// A snapshot of the quoting service's parameters: the quoting enclave's
/// target info and the platform group id.
#[derive(Clone, Debug)]
pub struct QuotingParams {
    pub target_info: Vec<u8>,
    pub gid: Vec<u8>,
}

/// The quote endpoint's answer: the signed quote and the quoting enclave's
/// own report, both forwarded to the enclave for validation.
#[derive(Clone, Debug)]
pub struct QuoteReply {
    pub quote: Vec<u8>,
    pub qe_report: Vec<u8>,
}

/// Mathematical model of a [`QuotingParams`].
pub ghost struct QuotingParamsView {
    pub target_info: Seq<u8>,
    pub gid: Seq<u8>,
}

/// Mathematical model of a [`QuoteReply`].
pub ghost struct QuoteReplyView {
    pub quote: Seq<u8>,
    pub qe_report: Seq<u8>,
}

impl View for QuotingParams {
    type V = QuotingParamsView;

    open spec fn view(&self) -> QuotingParamsView {
        QuotingParamsView { target_info: self.target_info@, gid: self.gid@ }
    }
}

impl View for QuoteReply {
    type V = QuoteReplyView;

    open spec fn view(&self) -> QuoteReplyView {
        QuoteReplyView { quote: self.quote@, qe_report: self.qe_report@ }
    }
}

impl QuotingParamsView {
    /// Field sizes well-formed quoting parameters observe.
    pub open spec fn wf(self) -> bool {
        &&& self.target_info.len() == TARGET_INFO_SIZE
        &&& self.gid.len() == GID_SIZE
    }
}

impl QuoteReplyView {
    /// Field sizes a well-formed quote reply observes.
    pub open spec fn wf(self) -> bool {
        &&& self.quote.len() == QUOTE_SIZE
        &&& self.qe_report.len() == REPORT_SIZE
    }
}

/// The text frame the parameters endpoint answers with.
pub open spec fn spec_encode_params_frame(v: QuotingParamsView) -> Seq<u8> {
    spec_hex_encode(v.target_info + v.gid)
}

/// The unique quoting parameters a frame spells, if any.
pub open spec fn spec_decode_params_frame(b: Seq<u8>) -> Option<QuotingParamsView> {
    if b.len() == PARAMS_FRAME_SIZE {
        match spec_hex_decode(b) {
            Some(d) => if d.len() == TARGET_INFO_SIZE + GID_SIZE {
                Some(
                    QuotingParamsView {
                        target_info: d.subrange(0, TARGET_INFO_SIZE as int),
                        gid: d.subrange(
                            TARGET_INFO_SIZE as int,
                            TARGET_INFO_SIZE as int + GID_SIZE as int,
                        ),
                    },
                )
            } else {
                None
            },
            None => None,
        }
    } else {
        None
    }
}

/// The text frame the quote endpoint answers with.
pub open spec fn spec_encode_quote_frame(v: QuoteReplyView) -> Seq<u8> {
    spec_hex_encode(v.quote + v.qe_report)
}

/// The unique quote reply a frame spells, if any.
pub open spec fn spec_decode_quote_frame(b: Seq<u8>) -> Option<QuoteReplyView> {
    if b.len() == QUOTE_FRAME_SIZE {
        match spec_hex_decode(b) {
            Some(d) => if d.len() == QUOTE_SIZE + REPORT_SIZE {
                Some(
                    QuoteReplyView {
                        quote: d.subrange(0, QUOTE_SIZE as int),
                        qe_report: d.subrange(
                            QUOTE_SIZE as int,
                            QUOTE_SIZE as int + REPORT_SIZE as int,
                        ),
                    },
                )
            } else {
                None
            },
            None => None,
        }
    } else {
        None
    }
}

/// Encodes a parameters frame as the service would send it.
pub fn encode_params_frame(p: &QuotingParams) -> (r: Vec<u8>)
    requires
        p@.wf(),
    ensures
        r@ == spec_encode_params_frame(p@),
{
    let mut payload: Vec<u8> = Vec::new();
    push_bytes(&mut payload, p.target_info.as_slice());
    push_bytes(&mut payload, p.gid.as_slice());
    proof {
        assert(payload@ =~= p@.target_info + p@.gid);
    }
    hex_encode(payload.as_slice())
}

/// Decodes a parameters frame, accepting exactly what
/// [`encode_params_frame`] produces.
pub fn decode_params_frame(b: &[u8]) -> (r: Option<QuotingParams>)
    ensures
        match r {
            Some(p) => spec_decode_params_frame(b@) == Some(p@) && p@.wf(),
            None => spec_decode_params_frame(b@) is None,
        },
{
    if b.len() != PARAMS_FRAME_SIZE {
        return None;
    }
    let d = match hex_decode(b) {
        Some(d) => d,
        None => {
            return None;
        },
    };
    if d.len() != TARGET_INFO_SIZE + GID_SIZE {
        return None;
    }
    let target_info = vstd::slice::slice_to_vec(
        vstd::slice::slice_subrange(d.as_slice(), 0, TARGET_INFO_SIZE),
    );
    let gid = vstd::slice::slice_to_vec(
        vstd::slice::slice_subrange(d.as_slice(), TARGET_INFO_SIZE, TARGET_INFO_SIZE + GID_SIZE),
    );
    Some(QuotingParams { target_info, gid })
}

/// Decodes a quote frame, accepting exactly what the service's
/// quote endpoint answers with.
pub fn decode_quote_frame(b: &[u8]) -> (r: Option<QuoteReply>)
    ensures
        match r {
            Some(p) => spec_decode_quote_frame(b@) == Some(p@) && p@.wf(),
            None => spec_decode_quote_frame(b@) is None,
        },
{
    if b.len() != QUOTE_FRAME_SIZE {
        return None;
    }
    let d = match hex_decode(b) {
        Some(d) => d,
        None => {
            return None;
        },
    };
    if d.len() != QUOTE_SIZE + REPORT_SIZE {
        return None;
    }
    let quote = vstd::slice::slice_to_vec(vstd::slice::slice_subrange(d.as_slice(), 0, QUOTE_SIZE));
    let qe_report = vstd::slice::slice_to_vec(
        vstd::slice::slice_subrange(d.as_slice(), QUOTE_SIZE, QUOTE_SIZE + REPORT_SIZE),
    );
    Some(QuoteReply { quote, qe_report })
}

/// Encodes a quote frame as the service would send it.
pub fn encode_quote_frame(p: &QuoteReply) -> (r: Vec<u8>)
    requires
        p@.wf(),
    ensures
        r@ == spec_encode_quote_frame(p@),
{
    let mut payload: Vec<u8> = Vec::new();
    push_bytes(&mut payload, p.quote.as_slice());
    push_bytes(&mut payload, p.qe_report.as_slice());
    proof {
        assert(payload@ =~= p@.quote + p@.qe_report);
    }
    hex_encode(payload.as_slice())
}

/// The bytes a quote request writes to the service: the report, one
/// newline, the service-provider id, then the revocation list.
pub open spec fn spec_quote_request(report: Seq<u8>, spid: Seq<u8>, sig_rl: Seq<u8>) -> Seq<u8> {
    report + seq![REQUEST_DELIMITER] + spid + sig_rl
}

/// Builds the quote request written to the quote endpoint.
pub fn encode_quote_request(report: &[u8], spid: &[u8], sig_rl: &[u8]) -> (r: Vec<u8>)
    requires
        report@.len() == REPORT_SIZE,
        spid@.len() == SPID_SIZE,
    ensures
        r@ == spec_quote_request(report@, spid@, sig_rl@),
{
    let mut out: Vec<u8> = Vec::new();
    push_bytes(&mut out, report);
    out.push(REQUEST_DELIMITER);
    push_bytes(&mut out, spid);
    push_bytes(&mut out, sig_rl);
    proof {
        assert(out@ =~= spec_quote_request(report@, spid@, sig_rl@));
    }
    out
}

// ---- round trips ----

/// Encoding then decoding well-formed quoting parameters reconstructs them.
pub proof fn lemma_params_frame_round_trip(v: QuotingParamsView)
    requires
        v.wf(),
    ensures
        spec_decode_params_frame(spec_encode_params_frame(v)) == Some(v),
{
    let payload = v.target_info + v.gid;
    lemma_hex_encode_len(payload);
    lemma_hex_round_trip(payload);
    assert(payload.subrange(0, TARGET_INFO_SIZE as int) =~= v.target_info);
    assert(payload.subrange(TARGET_INFO_SIZE as int, TARGET_INFO_SIZE as int + GID_SIZE as int)
        =~= v.gid);
}

/// Encoding then decoding a well-formed quote reply reconstructs it.
pub proof fn lemma_quote_frame_round_trip(v: QuoteReplyView)
    requires
        v.wf(),
    ensures
        spec_decode_quote_frame(spec_encode_quote_frame(v)) == Some(v),
{
    let payload = v.quote + v.qe_report;
    lemma_hex_encode_len(payload);
    lemma_hex_round_trip(payload);
    assert(payload.subrange(0, QUOTE_SIZE as int) =~= v.quote);
    assert(payload.subrange(QUOTE_SIZE as int, QUOTE_SIZE as int + REPORT_SIZE as int)
        =~= v.qe_report);
}

/// Any frame the parameters decoder accepts is the encoding of well-formed
/// parameters.
pub proof fn lemma_params_frame_encoding_unique(b: Seq<u8>, v: QuotingParamsView)
    requires
        spec_decode_params_frame(b) == Some(v),
    ensures
        v.wf(),
        spec_encode_params_frame(v) == b,
{
    let d = spec_hex_decode(b).unwrap();
    lemma_hex_encoding_unique(b, d);
    assert(v.target_info + v.gid =~= d);
}

/// Any frame the quote decoder accepts is the encoding of a well-formed
/// quote reply.
pub proof fn lemma_quote_frame_encoding_unique(b: Seq<u8>, v: QuoteReplyView)
    requires
        spec_decode_quote_frame(b) == Some(v),
    ensures
        v.wf(),
        spec_encode_quote_frame(v) == b,
{
    let d = spec_hex_decode(b).unwrap();
    lemma_hex_encoding_unique(b, d);
    assert(v.quote + v.qe_report =~= d);
}

} // verus!

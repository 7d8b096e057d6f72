//! The five attestation protocol messages and their wire codec.
//!
//! The encoding is a stable, length-deterministic binary layout: fixed-size
//! fields are written raw, variable-size fields carry a 32-bit little-endian
//! length prefix, and optional fields carry a one-byte presence tag. Each
//! decoder accepts exactly the encodings its encoder produces, and the
//! round-trip lemmas below prove it.

use vstd::prelude::*;
use vstd::bytes::lemma_auto_spec_u32_to_from_le_bytes;
use crate::wire::spec_lp;
use crate::wire::spec_opt_lp;
use crate::wire::spec_bool_byte;
use crate::wire::spec_take;
use crate::wire::spec_take_lp;
use crate::wire::spec_take_opt_lp;
use crate::wire::view_opt;
use crate::wire::push_bytes;
use crate::wire::push_lp;
use crate::wire::push_opt_lp;
use crate::wire::take_bytes;
use crate::wire::take_lp;
use crate::wire::take_opt_lp;
use crate::wire::lemma_take_at;
use crate::wire::lemma_take_lp_at;
use crate::wire::lemma_take_opt_lp_at;
use crate::wire::lemma_take_lp_inv;
use crate::wire::lemma_take_opt_lp_inv;

verus! {

/// Size in bytes of a platform group identifier.
pub const GID_SIZE: usize = 4;

/// Size in bytes of a service-provider identifier.
pub const SPID_SIZE: usize = 16;

/// Size in bytes of a MAC tag.
pub const MAC_SIZE: usize = 16;

/// Size in bytes of a signed quote.
pub const QUOTE_SIZE: usize = 1116;

/// The extended group identifier of the single supported attestation backend.
pub const SUPPORTED_EXGID: u32 = 0;

/// First protocol message: the attestation-backend selector.
#[derive(Clone, Copy, PartialEq, Eq, Structural, Debug)]
pub struct Msg0 {
    pub exgid: u32,
}

/// Second protocol message: platform group id and the enclave's ephemeral
/// Diffie-Hellman public value.
#[derive(Clone, Debug)]
pub struct Msg1 {
    pub gid: Vec<u8>,
    pub g_a: Vec<u8>,
}

/// Third protocol message, from the service provider: its Diffie-Hellman
/// public value, the service-provider id, an optional signature-revocation
/// list, and its signature over the key-exchange values.
#[derive(Clone, Debug)]
pub struct Msg2 {
    pub g_b: Vec<u8>,
    pub spid: Vec<u8>,
    pub sig_rl: Option<Vec<u8>>,
    pub sign_gb_ga: Vec<u8>,
}

/// Fourth protocol message, to the service provider: the enclave's
/// Diffie-Hellman public value echoed, a MAC tag, an optional
/// platform-service security property blob, and the signed quote.
#[derive(Clone, Debug)]
pub struct Msg3 {
    pub g_a: Vec<u8>,
    pub mac: Vec<u8>,
    pub ps_sec_prop: Option<Vec<u8>>,
    pub quote: Vec<u8>,
}

/// Fifth protocol message: the service provider's trust verdicts.
#[derive(Clone, Copy, PartialEq, Eq, Structural, Debug)]
pub struct Msg4 {
    pub is_enclave_trusted: bool,
    pub is_pse_manifest_trusted: Option<bool>,
}

/// Mathematical model of a [`Msg1`].
pub ghost struct Msg1View {
    pub gid: Seq<u8>,
    pub g_a: Seq<u8>,
}

/// Mathematical model of a [`Msg2`].
pub ghost struct Msg2View {
    pub g_b: Seq<u8>,
    pub spid: Seq<u8>,
    pub sig_rl: Option<Seq<u8>>,
    pub sign_gb_ga: Seq<u8>,
}

/// Mathematical model of a [`Msg3`].
pub ghost struct Msg3View {
    pub g_a: Seq<u8>,
    pub mac: Seq<u8>,
    pub ps_sec_prop: Option<Seq<u8>>,
    pub quote: Seq<u8>,
}

impl View for Msg1 {
    type V = Msg1View;

    open spec fn view(&self) -> Msg1View {
        Msg1View { gid: self.gid@, g_a: self.g_a@ }
    }
}

impl View for Msg2 {
    type V = Msg2View;

    open spec fn view(&self) -> Msg2View {
        Msg2View {
            g_b: self.g_b@,
            spid: self.spid@,
            sig_rl: view_opt(self.sig_rl),
            sign_gb_ga: self.sign_gb_ga@,
        }
    }
}

impl View for Msg3 {
    type V = Msg3View;

    open spec fn view(&self) -> Msg3View {
        Msg3View {
            g_a: self.g_a@,
            mac: self.mac@,
            ps_sec_prop: view_opt(self.ps_sec_prop),
            quote: self.quote@,
        }
    }
}

impl Msg1View {
    /// Field sizes a well-formed [`Msg1`] observes.
    pub open spec fn wf(self) -> bool {
        &&& self.gid.len() == GID_SIZE
        &&& self.g_a.len() <= u32::MAX
    }
}

impl Msg2View {
    /// Field sizes a well-formed [`Msg2`] observes.
    pub open spec fn wf(self) -> bool {
        &&& self.g_b.len() <= u32::MAX
        &&& self.spid.len() == SPID_SIZE
        &&& (self.sig_rl matches Some(rl) ==> rl.len() <= u32::MAX)
        &&& self.sign_gb_ga.len() <= u32::MAX
    }
}

impl Msg3View {
    /// Field sizes a well-formed [`Msg3`] observes.
    pub open spec fn wf(self) -> bool {
        &&& self.g_a.len() <= u32::MAX
        &&& self.mac.len() == MAC_SIZE
        &&& (self.ps_sec_prop matches Some(p) ==> p.len() <= u32::MAX)
        &&& self.quote.len() == QUOTE_SIZE
    }
}

// ---- message encodings, as specifications ----

/// The wire bytes of a [`Msg0`].
pub open spec fn spec_encode_msg0(m: Msg0) -> Seq<u8> {
    vstd::bytes::spec_u32_to_le_bytes(m.exgid)
}

/// The wire bytes of a [`Msg1`].
pub open spec fn spec_encode_msg1(v: Msg1View) -> Seq<u8> {
    v.gid + spec_lp(v.g_a)
}

/// The wire bytes of a [`Msg2`].
pub open spec fn spec_encode_msg2(v: Msg2View) -> Seq<u8> {
    spec_lp(v.g_b) + v.spid + spec_opt_lp(v.sig_rl) + spec_lp(v.sign_gb_ga)
}

/// The wire bytes of a [`Msg3`].
pub open spec fn spec_encode_msg3(v: Msg3View) -> Seq<u8> {
    spec_lp(v.g_a) + v.mac + spec_opt_lp(v.ps_sec_prop) + v.quote
}

/// The wire bytes of a [`Msg4`].
pub open spec fn spec_encode_msg4(m: Msg4) -> Seq<u8> {
    seq![spec_bool_byte(m.is_enclave_trusted)] + match m.is_pse_manifest_trusted {
        Option::None => seq![0u8],
        Option::Some(t) => seq![1u8, spec_bool_byte(t)],
    }
}

// ---- message decodings, as specifications ----

/// The unique [`Msg0`] a byte string encodes, if any.
pub open spec fn spec_decode_msg0(b: Seq<u8>) -> Option<Msg0> {
    if b.len() == 4 {
        Some(Msg0 { exgid: vstd::bytes::spec_u32_from_le_bytes(b) })
    } else {
        None
    }
}

/// The unique [`Msg1`] model a byte string encodes, if any.
pub open spec fn spec_decode_msg1(b: Seq<u8>) -> Option<Msg1View> {
    match spec_take(b, 0, GID_SIZE as int) {
        Some((gid, i)) => match spec_take_lp(b, i) {
            Some((g_a, j)) => if j == b.len() {
                Some(Msg1View { gid, g_a })
            } else {
                None
            },
            None => None,
        },
        None => None,
    }
}

/// The unique [`Msg2`] model a byte string encodes, if any.
pub open spec fn spec_decode_msg2(b: Seq<u8>) -> Option<Msg2View> {
    match spec_take_lp(b, 0) {
        Some((g_b, i1)) => match spec_take(b, i1, SPID_SIZE as int) {
            Some((spid, i2)) => match spec_take_opt_lp(b, i2) {
                Some((sig_rl, i3)) => match spec_take_lp(b, i3) {
                    Some((sign_gb_ga, i4)) => if i4 == b.len() {
                        Some(Msg2View { g_b, spid, sig_rl, sign_gb_ga })
                    } else {
                        None
                    },
                    None => None,
                },
                None => None,
            },
            None => None,
        },
        None => None,
    }
}

/// The unique [`Msg3`] model a byte string encodes, if any.
pub open spec fn spec_decode_msg3(b: Seq<u8>) -> Option<Msg3View> {
    match spec_take_lp(b, 0) {
        Some((g_a, i1)) => match spec_take(b, i1, MAC_SIZE as int) {
            Some((mac, i2)) => match spec_take_opt_lp(b, i2) {
                Some((ps_sec_prop, i3)) => match spec_take(b, i3, QUOTE_SIZE as int) {
                    Some((quote, i4)) => if i4 == b.len() {
                        Some(Msg3View { g_a, mac, ps_sec_prop, quote })
                    } else {
                        None
                    },
                    None => None,
                },
                None => None,
            },
            None => None,
        },
        None => None,
    }
}

/// The boolean a byte stands for, if any.
pub open spec fn spec_decode_bool(c: u8) -> Option<bool> {
    if c == 0u8 {
        Some(false)
    } else if c == 1u8 {
        Some(true)
    } else {
        None
    }
}

/// The unique [`Msg4`] a byte string encodes, if any.
pub open spec fn spec_decode_msg4(b: Seq<u8>) -> Option<Msg4> {
    if b.len() < 2 {
        None
    } else {
        match spec_decode_bool(b[0]) {
            Some(t) => if b[1] == 0u8 && b.len() == 2 {
                Some(Msg4 { is_enclave_trusted: t, is_pse_manifest_trusted: None })
            } else if b[1] == 1u8 && b.len() == 3 {
                match spec_decode_bool(b[2]) {
                    Some(mt) => Some(
                        Msg4 { is_enclave_trusted: t, is_pse_manifest_trusted: Some(mt) },
                    ),
                    None => None,
                }
            } else {
                None
            },
            None => None,
        }
    }
}

// ---- executable encoders ----

/// Encodes a [`Msg0`] for the service-provider stream.
pub fn encode_msg0(m: &Msg0) -> (r: Vec<u8>)
    ensures
        r@ == spec_encode_msg0(*m),
{
    vstd::bytes::u32_to_le_bytes(m.exgid)
}

/// Encodes a [`Msg1`] for the service-provider stream.
pub fn encode_msg1(m: &Msg1) -> (r: Vec<u8>)
    requires
        m@.wf(),
    ensures
        r@ == spec_encode_msg1(m@),
{
    let mut out: Vec<u8> = Vec::new();
    push_bytes(&mut out, m.gid.as_slice());
    push_lp(&mut out, m.g_a.as_slice());
    proof {
        assert(out@ =~= spec_encode_msg1(m@));
    }
    out
}

/// Encodes a [`Msg2`] for forwarding to the enclave.
pub fn encode_msg2(m: &Msg2) -> (r: Vec<u8>)
    requires
        m@.wf(),
    ensures
        r@ == spec_encode_msg2(m@),
{
    let mut out: Vec<u8> = Vec::new();
    push_lp(&mut out, m.g_b.as_slice());
    push_bytes(&mut out, m.spid.as_slice());
    push_opt_lp(&mut out, &m.sig_rl);
    push_lp(&mut out, m.sign_gb_ga.as_slice());
    proof {
        assert(out@ =~= spec_encode_msg2(m@));
    }
    out
}

/// Encodes a [`Msg3`] for the service-provider stream.
pub fn encode_msg3(m: &Msg3) -> (r: Vec<u8>)
    requires
        m@.wf(),
    ensures
        r@ == spec_encode_msg3(m@),
{
    let mut out: Vec<u8> = Vec::new();
    push_lp(&mut out, m.g_a.as_slice());
    push_bytes(&mut out, m.mac.as_slice());
    push_opt_lp(&mut out, &m.ps_sec_prop);
    push_bytes(&mut out, m.quote.as_slice());
    proof {
        assert(out@ =~= spec_encode_msg3(m@));
    }
    out
}

/// Encodes a [`Msg4`] for forwarding to the enclave.
pub fn encode_msg4(m: &Msg4) -> (r: Vec<u8>)
    ensures
        r@ == spec_encode_msg4(*m),
{
    let mut out: Vec<u8> = Vec::new();
    out.push(if m.is_enclave_trusted {
        1u8
    } else {
        0u8
    });
    match m.is_pse_manifest_trusted {
        Option::None => {
            out.push(0u8);
        },
        Option::Some(t) => {
            out.push(1u8);
            out.push(if t {
                1u8
            } else {
                0u8
            });
        },
    }
    proof {
        assert(out@ =~= spec_encode_msg4(*m));
    }
    out
}

// ---- executable decoders ----

/// Decodes a [`Msg0`], accepting exactly the bytes [`encode_msg0`] produces.
pub fn decode_msg0(b: &[u8]) -> (r: Option<Msg0>)
    ensures
        r == spec_decode_msg0(b@),
{
    if b.len() == 4 {
        Some(Msg0 { exgid: vstd::bytes::u32_from_le_bytes(b) })
    } else {
        None
    }
}

/// Decodes a [`Msg1`], accepting exactly the bytes [`encode_msg1`] produces.
pub fn decode_msg1(b: &[u8]) -> (r: Option<Msg1>)
    ensures
        match r {
            Some(m) => spec_decode_msg1(b@) == Some(m@) && m@.wf(),
            None => spec_decode_msg1(b@) is None,
        },
{
    let (gid, i) = match take_bytes(b, 0, GID_SIZE) {
        Some(p) => p,
        None => {
            return None;
        },
    };
    let (g_a, j) = match take_lp(b, i) {
        Some(p) => p,
        None => {
            return None;
        },
    };
    if j == b.len() {
        Some(Msg1 { gid, g_a })
    } else {
        None
    }
}

/// Decodes a [`Msg2`], accepting exactly the bytes [`encode_msg2`] produces.
pub fn decode_msg2(b: &[u8]) -> (r: Option<Msg2>)
    ensures
        match r {
            Some(m) => spec_decode_msg2(b@) == Some(m@) && m@.wf(),
            None => spec_decode_msg2(b@) is None,
        },
{
    let (g_b, i1) = match take_lp(b, 0) {
        Some(p) => p,
        None => {
            return None;
        },
    };
    let (spid, i2) = match take_bytes(b, i1, SPID_SIZE) {
        Some(p) => p,
        None => {
            return None;
        },
    };
    let (sig_rl, i3) = match take_opt_lp(b, i2) {
        Some(p) => p,
        None => {
            return None;
        },
    };
    let (sign_gb_ga, i4) = match take_lp(b, i3) {
        Some(p) => p,
        None => {
            return None;
        },
    };
    if i4 == b.len() {
        Some(Msg2 { g_b, spid, sig_rl, sign_gb_ga })
    } else {
        None
    }
}

/// Decodes a [`Msg3`], accepting exactly the bytes [`encode_msg3`] produces.
pub fn decode_msg3(b: &[u8]) -> (r: Option<Msg3>)
    ensures
        match r {
            Some(m) => spec_decode_msg3(b@) == Some(m@) && m@.wf(),
            None => spec_decode_msg3(b@) is None,
        },
{
    let (g_a, i1) = match take_lp(b, 0) {
        Some(p) => p,
        None => {
            return None;
        },
    };
    let (mac, i2) = match take_bytes(b, i1, MAC_SIZE) {
        Some(p) => p,
        None => {
            return None;
        },
    };
    let (ps_sec_prop, i3) = match take_opt_lp(b, i2) {
        Some(p) => p,
        None => {
            return None;
        },
    };
    let (quote, i4) = match take_bytes(b, i3, QUOTE_SIZE) {
        Some(p) => p,
        None => {
            return None;
        },
    };
    if i4 == b.len() {
        Some(Msg3 { g_a, mac, ps_sec_prop, quote })
    } else {
        None
    }
}

/// Decodes a [`Msg4`], accepting exactly the bytes [`encode_msg4`] produces.
pub fn decode_msg4(b: &[u8]) -> (r: Option<Msg4>)
    ensures
        r == spec_decode_msg4(b@),
{
    if b.len() < 2 {
        return None;
    }
    let c0 = *vstd::slice::slice_index_get(b, 0);
    let t = if c0 == 0u8 {
        false
    } else if c0 == 1u8 {
        true
    } else {
        return None;
    };
    let c1 = *vstd::slice::slice_index_get(b, 1);
    if c1 == 0u8 && b.len() == 2 {
        Some(Msg4 { is_enclave_trusted: t, is_pse_manifest_trusted: None })
    } else if c1 == 1u8 && b.len() == 3 {
        let c2 = *vstd::slice::slice_index_get(b, 2);
        let mt = if c2 == 0u8 {
            false
        } else if c2 == 1u8 {
            true
        } else {
            return None;
        };
        Some(Msg4 { is_enclave_trusted: t, is_pse_manifest_trusted: Some(mt) })
    } else {
        None
    }
}

// ---- the enclave's key frame ----

/// The frame carrying the enclave's Diffie-Hellman public value: the value
/// under a length prefix.
pub open spec fn spec_encode_dh_frame(v: Seq<u8>) -> Seq<u8> {
    spec_lp(v)
}

/// The unique key a frame carries, if any.
pub open spec fn spec_decode_dh_frame(b: Seq<u8>) -> Option<Seq<u8>> {
    match spec_take_lp(b, 0) {
        Some((v, j)) => if j == b.len() {
            Some(v)
        } else {
            None
        },
        None => None,
    }
}

/// Encodes a key frame as the enclave would send it.
pub fn encode_dh_frame(v: &[u8]) -> (r: Vec<u8>)
    requires
        v@.len() <= u32::MAX,
    ensures
        r@ == spec_encode_dh_frame(v@),
{
    let mut out: Vec<u8> = Vec::new();
    push_lp(&mut out, v);
    proof {
        assert(out@ =~= spec_encode_dh_frame(v@));
    }
    out
}

/// Decodes a key frame, accepting exactly what [`encode_dh_frame`] produces.
pub fn decode_dh_frame(b: &[u8]) -> (r: Option<Vec<u8>>)
    ensures
        match r {
            Some(v) => spec_decode_dh_frame(b@) == Some(v@) && v@.len() <= u32::MAX,
            None => spec_decode_dh_frame(b@) is None,
        },
{
    let (v, j) = match take_lp(b, 0) {
        Some(p) => p,
        None => {
            return None;
        },
    };
    if j == b.len() {
        Some(v)
    } else {
        None
    }
}

// ---- round trips: decoding an encoded message gives it back ----

/// Encoding then decoding a key frame reconstructs the key.
pub proof fn lemma_dh_frame_round_trip(v: Seq<u8>)
    requires
        v.len() <= u32::MAX,
    ensures
        spec_decode_dh_frame(spec_encode_dh_frame(v)) == Some(v),
{
    lemma_auto_spec_u32_to_from_le_bytes();
    let w = spec_encode_dh_frame(v);
    assert(w.subrange(0, 4 + v.len() as int) =~= spec_lp(v));
    lemma_take_lp_at(w, 0, v);
}

/// Encoding then decoding a [`Msg0`] reconstructs it.
pub proof fn lemma_msg0_round_trip(m: Msg0)
    ensures
        spec_decode_msg0(spec_encode_msg0(m)) == Some(m),
{
    lemma_auto_spec_u32_to_from_le_bytes();
}

/// Encoding then decoding a well-formed [`Msg1`] reconstructs it.
pub proof fn lemma_msg1_round_trip(v: Msg1View)
    requires
        v.wf(),
    ensures
        spec_decode_msg1(spec_encode_msg1(v)) == Some(v),
{
    lemma_auto_spec_u32_to_from_le_bytes();
    let w = spec_encode_msg1(v);
    assert(w.subrange(0, GID_SIZE as int) =~= v.gid);
    lemma_take_at(w, 0, v.gid);
    assert(w.subrange(4, 4 + 4 + v.g_a.len() as int) =~= spec_lp(v.g_a));
    lemma_take_lp_at(w, 4, v.g_a);
}

/// Encoding then decoding a well-formed [`Msg2`] reconstructs it.
pub proof fn lemma_msg2_round_trip(v: Msg2View)
    requires
        v.wf(),
    ensures
        spec_decode_msg2(spec_encode_msg2(v)) == Some(v),
{
    lemma_auto_spec_u32_to_from_le_bytes();
    let w = spec_encode_msg2(v);
    let i1 = 4 + v.g_b.len() as int;
    let i2 = i1 + SPID_SIZE as int;
    let i3 = i2 + spec_opt_lp(v.sig_rl).len() as int;
    let i4 = i3 + 4 + v.sign_gb_ga.len() as int;
    assert(w.len() == i4);
    assert(w.subrange(0, i1) =~= spec_lp(v.g_b));
    lemma_take_lp_at(w, 0, v.g_b);
    assert(w.subrange(i1, i2) =~= v.spid);
    lemma_take_at(w, i1, v.spid);
    assert(w.subrange(i2, i3) =~= spec_opt_lp(v.sig_rl));
    lemma_take_opt_lp_at(w, i2, v.sig_rl);
    assert(w.subrange(i3, i4) =~= spec_lp(v.sign_gb_ga));
    lemma_take_lp_at(w, i3, v.sign_gb_ga);
}

/// Encoding then decoding a well-formed [`Msg3`] reconstructs it.
pub proof fn lemma_msg3_round_trip(v: Msg3View)
    requires
        v.wf(),
    ensures
        spec_decode_msg3(spec_encode_msg3(v)) == Some(v),
{
    lemma_auto_spec_u32_to_from_le_bytes();
    let w = spec_encode_msg3(v);
    let i1 = 4 + v.g_a.len() as int;
    let i2 = i1 + MAC_SIZE as int;
    let i3 = i2 + spec_opt_lp(v.ps_sec_prop).len() as int;
    let i4 = i3 + QUOTE_SIZE as int;
    assert(w.len() == i4);
    assert(w.subrange(0, i1) =~= spec_lp(v.g_a));
    lemma_take_lp_at(w, 0, v.g_a);
    assert(w.subrange(i1, i2) =~= v.mac);
    lemma_take_at(w, i1, v.mac);
    assert(w.subrange(i2, i3) =~= spec_opt_lp(v.ps_sec_prop));
    lemma_take_opt_lp_at(w, i2, v.ps_sec_prop);
    assert(w.subrange(i3, i4) =~= v.quote);
    lemma_take_at(w, i3, v.quote);
}

/// Encoding then decoding a [`Msg4`] reconstructs it.
pub proof fn lemma_msg4_round_trip(m: Msg4)
    ensures
        spec_decode_msg4(spec_encode_msg4(m)) == Some(m),
{
    let w = spec_encode_msg4(m);
    match m.is_pse_manifest_trusted {
        Option::None => {
            assert(w.len() == 2);
        },
        Option::Some(t) => {
            assert(w.len() == 3);
        },
    }
}

// ---- the encoding is deterministic: a decoder accepts nothing but its
// ---- encoder's output ----

/// Any byte string a [`Msg0`] decoder accepts is that message's encoding.
pub proof fn lemma_msg0_encoding_unique(b: Seq<u8>, m: Msg0)
    requires
        spec_decode_msg0(b) == Some(m),
    ensures
        spec_encode_msg0(m) == b,
{
    lemma_auto_spec_u32_to_from_le_bytes();
}

/// Any byte string a [`Msg1`] decoder accepts is a well-formed message's
/// encoding.
pub proof fn lemma_msg1_encoding_unique(b: Seq<u8>, v: Msg1View)
    requires
        spec_decode_msg1(b) == Some(v),
    ensures
        v.wf(),
        spec_encode_msg1(v) == b,
{
    let i1 = GID_SIZE as int;
    assert(v.gid == b.subrange(0, i1));
    lemma_take_lp_inv(b, i1, v.g_a, b.len() as int);
    assert(spec_encode_msg1(v) =~= b);
}

/// Any byte string a [`Msg2`] decoder accepts is a well-formed message's
/// encoding.
pub proof fn lemma_msg2_encoding_unique(b: Seq<u8>, v: Msg2View)
    requires
        spec_decode_msg2(b) == Some(v),
    ensures
        v.wf(),
        spec_encode_msg2(v) == b,
{
    let (g_b, i1) = spec_take_lp(b, 0).unwrap();
    let (spid, i2) = spec_take(b, i1, SPID_SIZE as int).unwrap();
    let (sig_rl, i3) = spec_take_opt_lp(b, i2).unwrap();
    let (sign, i4) = spec_take_lp(b, i3).unwrap();
    lemma_take_lp_inv(b, 0, g_b, i1);
    lemma_take_opt_lp_inv(b, i2, sig_rl, i3);
    lemma_take_lp_inv(b, i3, sign, i4);
    assert(spec_encode_msg2(v) =~= b);
}

/// Any byte string a [`Msg3`] decoder accepts is a well-formed message's
/// encoding.
pub proof fn lemma_msg3_encoding_unique(b: Seq<u8>, v: Msg3View)
    requires
        spec_decode_msg3(b) == Some(v),
    ensures
        v.wf(),
        spec_encode_msg3(v) == b,
{
    let (g_a, i1) = spec_take_lp(b, 0).unwrap();
    let (mac, i2) = spec_take(b, i1, MAC_SIZE as int).unwrap();
    let (ps, i3) = spec_take_opt_lp(b, i2).unwrap();
    lemma_take_lp_inv(b, 0, g_a, i1);
    lemma_take_opt_lp_inv(b, i2, ps, i3);
    assert(spec_encode_msg3(v) =~= b);
}

/// Any byte string a [`Msg4`] decoder accepts is that message's encoding.
pub proof fn lemma_msg4_encoding_unique(b: Seq<u8>, m: Msg4)
    requires
        spec_decode_msg4(b) == Some(m),
    ensures
        spec_encode_msg4(m) == b,
{
    assert(spec_encode_msg4(m) =~= b);
}

/// Any byte string a key-frame decoder accepts is that key's frame.
pub proof fn lemma_dh_frame_encoding_unique(b: Seq<u8>, v: Seq<u8>)
    requires
        spec_decode_dh_frame(b) == Some(v),
    ensures
        v.len() <= u32::MAX,
        spec_encode_dh_frame(v) == b,
{
    lemma_take_lp_inv(b, 0, v, b.len() as int);
    assert(spec_encode_dh_frame(v) =~= b);
}

} // verus!

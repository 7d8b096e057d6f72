//! The attestation session state machine.
//!
//! The host is a forwarding intermediary between the enclave, the service
//! provider and the local quoting service. [`ClientRaContext`] holds the
//! per-session state; [`ClientRaContext::do_attestation`] consumes one input
//! event and answers with the I/O actions the driver must perform next, in
//! strict protocol order. All judgment that needs cryptography lives in the
//! enclave or the service provider; this machine only sequences bytes and
//! applies the final trust verdict from the fifth message.

use vstd::prelude::*;
use crate::ClientRaError;
use crate::msg::Msg0;
use crate::msg::Msg1;
use crate::msg::Msg1View;
use crate::msg::Msg2;
use crate::msg::Msg3;
use crate::msg::Msg3View;
use crate::msg::Msg4;
use crate::msg::SPID_SIZE;
use crate::msg::MAC_SIZE;
use crate::msg::QUOTE_SIZE;
use crate::msg::SUPPORTED_EXGID;
use crate::msg::spec_encode_msg0;
use crate::msg::spec_encode_msg1;
use crate::msg::spec_encode_msg3;
use crate::msg::spec_decode_msg2;
use crate::msg::spec_decode_msg4;
use crate::msg::spec_decode_dh_frame;
use crate::msg::encode_msg0;
use crate::msg::encode_msg1;
use crate::msg::encode_msg3;
use crate::msg::decode_msg2;
use crate::msg::decode_msg4;
use crate::msg::decode_dh_frame;
use crate::quoting::QuotingParams;
use crate::quoting::QuoteReply;
use crate::quoting::REPORT_SIZE;
use crate::quoting::spec_decode_params_frame;
use crate::quoting::spec_decode_quote_frame;
use crate::quoting::spec_quote_request;
use crate::quoting::decode_params_frame;
use crate::quoting::decode_quote_frame;
use crate::quoting::encode_quote_request;
use crate::wire::copy_bytes;
use crate::wire::push_bytes;

verus! {

/// Where in the five-message exchange a session stands.
#[derive(Clone, Copy, PartialEq, Eq, Structural, Debug)]
pub enum Phase {
    /// Nothing sent yet.
    Start,
    /// The first message is out; the enclave's key is awaited.
    WaitEnclaveKey,
    /// The second message is out; the service provider's reply is awaited.
    WaitMsg2,
    /// A fresh parameters frame from the quoting service is awaited.
    WaitQuotingParams,
    /// The enclave's report is awaited.
    WaitReport,
    /// The quoting service's quote frame is awaited.
    WaitQuote,
    /// The enclave's MAC tag is awaited.
    WaitMac,
    /// The fourth message is out; the verdict message is awaited.
    WaitMsg4,
    /// The exchange ended with a positive verdict.
    Complete,
    /// The exchange was abandoned.
    Failed,
}

/// One input the driver hands to the machine.
#[derive(Clone, Debug)]
pub enum Event {
    /// Start the session.
    Begin,
    /// Bytes read from the enclave stream.
    EnclaveData(Vec<u8>),
    /// One framed message read from the service-provider stream.
    SpData(Vec<u8>),
    /// One fixed-size frame read from a quoting-service connection.
    QuotingFrame(Vec<u8>),
    /// A quoting-service endpoint refused the connection.
    QuotingUnavailable,
}

/// One I/O step the driver must perform next.
#[derive(Clone, Debug)]
pub enum Action {
    /// Write these bytes to the service-provider stream and flush.
    SendSp(Vec<u8>),
    /// Write these bytes to the enclave stream and flush.
    SendEnclave(Vec<u8>),
    /// Read one framed message from the enclave stream.
    ReadEnclaveMessage,
    /// Read exactly this many raw bytes from the enclave stream.
    ReadEnclaveExact(usize),
    /// Read one framed message from the service-provider stream.
    ReadSpMessage,
    /// Connect to the parameters endpoint and read one frame.
    FetchQuotingParams,
    /// Connect to the quote endpoint, write these bytes, read one frame.
    FetchQuote(Vec<u8>),
}

/// How the session stands after a step.
#[derive(Clone, Copy, PartialEq, Eq, Structural, Debug)]
pub enum Outcome {
    /// More steps are needed.
    Pending,
    /// The exchange completed with a positive verdict.
    Complete,
    /// The session is abandoned with this error.
    Failed(ClientRaError),
}

/// The actions a step asks for, and how the session stands after it.
#[derive(Clone, Debug)]
pub struct StepOutput {
    pub actions: Vec<Action>,
    pub outcome: Outcome,
}

/// Per-session state of the attestation client.
#[derive(Clone, Debug)]
pub struct ClientRaContext {
    /// The quoting service's parameters, as last fetched.
    pub quote_info: QuotingParams,
    /// The enclave's ephemeral Diffie-Hellman public value, held from the
    /// second message until it is consumed by the fourth.
    pub g_a: Option<Vec<u8>>,
    /// Where in the exchange the session stands.
    pub phase: Phase,
    /// The service-provider id taken from the third message.
    pub spid: Vec<u8>,
    /// The revocation list taken from the third message, empty if none.
    pub sig_rl: Vec<u8>,
    /// The signed quote, held until it is consumed by the fourth message.
    pub quote: Vec<u8>,
}

impl ClientRaContext {
    /// What every phase guarantees of the session state.
    pub open spec fn wf(self) -> bool {
        &&& self.quote_info@.wf()
        &&& ((self.phase == Phase::WaitMsg2 || self.phase == Phase::WaitQuotingParams
            || self.phase == Phase::WaitReport || self.phase == Phase::WaitQuote || self.phase
            == Phase::WaitMac) ==> (self.g_a matches Some(g) && g@.len() <= u32::MAX))
        &&& ((self.phase == Phase::WaitQuotingParams || self.phase == Phase::WaitReport
            || self.phase == Phase::WaitQuote || self.phase == Phase::WaitMac) ==> self.spid@.len()
            == SPID_SIZE)
        &&& (self.phase == Phase::WaitMac ==> self.quote@.len() == QUOTE_SIZE)
    }

    /// Which events the machine is ready for.
    pub open spec fn expects(self, ev: Event) -> bool {
        match self.phase {
            Phase::Start => ev is Begin,
            Phase::WaitEnclaveKey => ev is EnclaveData,
            Phase::WaitMsg2 => ev is SpData,
            Phase::WaitQuotingParams => ev is QuotingFrame || ev is QuotingUnavailable,
            Phase::WaitReport => ev is EnclaveData,
            Phase::WaitQuote => ev is QuotingFrame || ev is QuotingUnavailable,
            Phase::WaitMac => ev is EnclaveData,
            Phase::WaitMsg4 => ev is SpData,
            Phase::Complete => false,
            Phase::Failed => false,
        }
    }
}

/// The two states agree on everything but the phase.
pub open spec fn same_but_phase(pre: ClientRaContext, post: ClientRaContext, ph: Phase) -> bool {
    &&& post.phase == ph
    &&& post.quote_info == pre.quote_info
    &&& post.g_a == pre.g_a
    &&& post.spid == pre.spid
    &&& post.sig_rl == pre.sig_rl
    &&& post.quote == pre.quote
}

/// A step that abandons the session: no action, the error as outcome.
pub open spec fn spec_fail(
    pre: ClientRaContext,
    post: ClientRaContext,
    acts: Seq<Action>,
    out: Outcome,
    e: ClientRaError,
) -> bool {
    &&& acts.len() == 0
    &&& out == Outcome::Failed(e)
    &&& same_but_phase(pre, post, Phase::Failed)
}

/// The verdict the fifth message renders: trusted only if the enclave is
/// trusted and no present manifest flag says otherwise.
pub open spec fn spec_verdict(m: Msg4) -> Outcome {
    if !m.is_enclave_trusted {
        Outcome::Failed(ClientRaError::EnclaveNotTrusted)
    } else if m.is_pse_manifest_trusted matches Some(t) && !t {
        Outcome::Failed(ClientRaError::PseNotTrusted)
    } else {
        Outcome::Complete
    }
}

/// What one step of [`ClientRaContext::do_attestation`] does, for every
/// state and event: which actions come out, in which order, and how the
/// state moves. An event the machine is not ready for abandons the session
/// without any action.
pub open spec fn spec_step(
    pre: ClientRaContext,
    ev: Event,
    post: ClientRaContext,
    acts: Seq<Action>,
    out: Outcome,
) -> bool {
    if !pre.expects(ev) {
        spec_fail(pre, post, acts, out, ClientRaError::TransportFailure)
    } else {
        match pre.phase {
            Phase::Start => spec_step_start(pre, post, acts, out),
            Phase::WaitEnclaveKey => (ev matches Event::EnclaveData(f) && spec_step_key(
                pre,
                f@,
                post,
                acts,
                out,
            )),
            Phase::WaitMsg2 => (ev matches Event::SpData(f) && spec_step_msg2(
                pre,
                f@,
                post,
                acts,
                out,
            )),
            Phase::WaitQuotingParams => spec_step_params(pre, ev, post, acts, out),
            Phase::WaitReport => (ev matches Event::EnclaveData(f) && spec_step_report(
                pre,
                f@,
                post,
                acts,
                out,
            )),
            Phase::WaitQuote => spec_step_quote(pre, ev, post, acts, out),
            Phase::WaitMac => (ev matches Event::EnclaveData(f) && spec_step_mac(
                pre,
                f@,
                post,
                acts,
                out,
            )),
            Phase::WaitMsg4 => (ev matches Event::SpData(f) && spec_step_msg4(
                pre,
                f@,
                post,
                acts,
                out,
            )),
            Phase::Complete => false,
            Phase::Failed => false,
        }
    }
}

/// Starting a session emits the backend selector — always the single
/// supported value — and turns to the enclave for its key.
pub open spec fn spec_step_start(
    pre: ClientRaContext,
    post: ClientRaContext,
    acts: Seq<Action>,
    out: Outcome,
) -> bool {
    &&& acts.len() == 2
    &&& (acts[0] matches Action::SendSp(b) && b@ == spec_encode_msg0(
        Msg0 { exgid: SUPPORTED_EXGID },
    ))
    &&& acts[1] is ReadEnclaveMessage
    &&& out is Pending
    &&& same_but_phase(pre, post, Phase::WaitEnclaveKey)
}

/// The enclave's key is decoded, retained, and sent on inside the second
/// message together with the session's group id.
pub open spec fn spec_step_key(
    pre: ClientRaContext,
    f: Seq<u8>,
    post: ClientRaContext,
    acts: Seq<Action>,
    out: Outcome,
) -> bool {
    match spec_decode_dh_frame(f) {
        Some(ga) => {
            &&& acts.len() == 2
            &&& (acts[0] matches Action::SendSp(b) && b@ == spec_encode_msg1(
                Msg1View { gid: pre.quote_info@.gid, g_a: ga },
            ))
            &&& acts[1] is ReadSpMessage
            &&& out is Pending
            &&& post.phase == Phase::WaitMsg2
            &&& (post.g_a matches Some(g) && g@ == ga)
            &&& post.quote_info == pre.quote_info
            &&& post.spid == pre.spid
            &&& post.sig_rl == pre.sig_rl
            &&& post.quote == pre.quote
        },
        None => spec_fail(pre, post, acts, out, ClientRaError::EncodingFailure),
    }
}

/// The service provider's message is forwarded to the enclave verbatim, its
/// id and revocation list (empty if absent) are retained, and a fresh
/// parameters frame is requested from the quoting service.
pub open spec fn spec_step_msg2(
    pre: ClientRaContext,
    f: Seq<u8>,
    post: ClientRaContext,
    acts: Seq<Action>,
    out: Outcome,
) -> bool {
    match spec_decode_msg2(f) {
        Some(m2) => {
            &&& acts.len() == 2
            &&& (acts[0] matches Action::SendEnclave(b) && b@ == f)
            &&& acts[1] is FetchQuotingParams
            &&& out is Pending
            &&& post.phase == Phase::WaitQuotingParams
            &&& post.spid@ == m2.spid
            &&& post.sig_rl@ == (match m2.sig_rl {
                Some(rl) => rl,
                None => Seq::<u8>::empty(),
            })
            &&& post.quote_info == pre.quote_info
            &&& post.g_a == pre.g_a
            &&& post.quote == pre.quote
        },
        None => spec_fail(pre, post, acts, out, ClientRaError::EncodingFailure),
    }
}

/// The fresh parameters are retained and their target info goes to the
/// enclave, which must answer with its fixed-size report.
pub open spec fn spec_step_params(
    pre: ClientRaContext,
    ev: Event,
    post: ClientRaContext,
    acts: Seq<Action>,
    out: Outcome,
) -> bool {
    match ev {
        Event::QuotingUnavailable => spec_fail(
            pre,
            post,
            acts,
            out,
            ClientRaError::QuotingServiceUnavailable,
        ),
        Event::QuotingFrame(f) => match spec_decode_params_frame(f@) {
            Some(qp) => {
                &&& acts.len() == 2
                &&& (acts[0] matches Action::SendEnclave(b) && b@ == qp.target_info)
                &&& (acts[1] matches Action::ReadEnclaveExact(n) && n == REPORT_SIZE)
                &&& out is Pending
                &&& post.phase == Phase::WaitReport
                &&& post.quote_info@ == qp
                &&& post.g_a == pre.g_a
                &&& post.spid == pre.spid
                &&& post.sig_rl == pre.sig_rl
                &&& post.quote == pre.quote
            },
            None => spec_fail(pre, post, acts, out, ClientRaError::EncodingFailure),
        },
        _ => false,
    }
}

/// The enclave's report is exchanged with the quoting service for a quote,
/// along with the retained service-provider id and revocation list.
pub open spec fn spec_step_report(
    pre: ClientRaContext,
    f: Seq<u8>,
    post: ClientRaContext,
    acts: Seq<Action>,
    out: Outcome,
) -> bool {
    if f.len() == REPORT_SIZE {
        &&& acts.len() == 1
        &&& (acts[0] matches Action::FetchQuote(b) && b@ == spec_quote_request(
            f,
            pre.spid@,
            pre.sig_rl@,
        ))
        &&& out is Pending
        &&& same_but_phase(pre, post, Phase::WaitQuote)
    } else {
        spec_fail(pre, post, acts, out, ClientRaError::EncodingFailure)
    }
}

/// The quote and the quoting enclave's report go to the enclave back to
/// back for validation; the quote is retained; the enclave must answer
/// with its fixed-size MAC tag.
pub open spec fn spec_step_quote(
    pre: ClientRaContext,
    ev: Event,
    post: ClientRaContext,
    acts: Seq<Action>,
    out: Outcome,
) -> bool {
    match ev {
        Event::QuotingUnavailable => spec_fail(
            pre,
            post,
            acts,
            out,
            ClientRaError::QuotingServiceUnavailable,
        ),
        Event::QuotingFrame(f) => match spec_decode_quote_frame(f@) {
            Some(qr) => {
                &&& acts.len() == 2
                &&& (acts[0] matches Action::SendEnclave(b) && b@ == qr.quote + qr.qe_report)
                &&& (acts[1] matches Action::ReadEnclaveExact(n) && n == MAC_SIZE)
                &&& out is Pending
                &&& post.phase == Phase::WaitMac
                &&& post.quote@ == qr.quote
                &&& post.quote_info == pre.quote_info
                &&& post.g_a == pre.g_a
                &&& post.spid == pre.spid
                &&& post.sig_rl == pre.sig_rl
            },
            None => spec_fail(pre, post, acts, out, ClientRaError::EncodingFailure),
        },
        _ => false,
    }
}

/// The fourth message is assembled from the retained key — consumed here,
/// exactly once — the MAC tag, no platform-service manifest, and the quote.
pub open spec fn spec_step_mac(
    pre: ClientRaContext,
    f: Seq<u8>,
    post: ClientRaContext,
    acts: Seq<Action>,
    out: Outcome,
) -> bool {
    if f.len() == MAC_SIZE {
        &&& acts.len() == 2
        &&& (pre.g_a matches Some(g) && (acts[0] matches Action::SendSp(b) && b@
            == spec_encode_msg3(
            Msg3View { g_a: g@, mac: f, ps_sec_prop: None, quote: pre.quote@ },
        )))
        &&& acts[1] is ReadSpMessage
        &&& out is Pending
        &&& post.phase == Phase::WaitMsg4
        &&& post.g_a is None
        &&& post.quote_info == pre.quote_info
        &&& post.spid == pre.spid
        &&& post.sig_rl == pre.sig_rl
        &&& post.quote == pre.quote
    } else {
        spec_fail(pre, post, acts, out, ClientRaError::EncodingFailure)
    }
}

/// The verdict message is forwarded to the enclave verbatim and
/// unconditionally — the one and only action — and then judged.
pub open spec fn spec_step_msg4(
    pre: ClientRaContext,
    f: Seq<u8>,
    post: ClientRaContext,
    acts: Seq<Action>,
    out: Outcome,
) -> bool {
    match spec_decode_msg4(f) {
        Some(m4) => {
            &&& acts.len() == 1
            &&& (acts[0] matches Action::SendEnclave(b) && b@ == f)
            &&& out == spec_verdict(m4)
            &&& same_but_phase(
                pre,
                post,
                if spec_verdict(m4) is Complete {
                    Phase::Complete
                } else {
                    Phase::Failed
                },
            )
        },
        None => spec_fail(pre, post, acts, out, ClientRaError::EncodingFailure),
    }
}

/// For every verdict message: an untrusted enclave fails the session as
/// such; a trusted enclave with an untrusted manifest fails it as such; a
/// trusted enclave with no manifest flag, or a favorable one, completes it.
pub proof fn lemma_verdict(m: Msg4)
    ensures
        !m.is_enclave_trusted ==> spec_verdict(m) == Outcome::Failed(
            ClientRaError::EnclaveNotTrusted,
        ),
        m.is_enclave_trusted && m.is_pse_manifest_trusted == Some(false) ==> spec_verdict(m)
            == Outcome::Failed(ClientRaError::PseNotTrusted),
        m.is_enclave_trusted && m.is_pse_manifest_trusted != Some(false) ==> spec_verdict(m)
            == Outcome::Complete,
{
}

/// Once a session has completed or failed, no event makes it act again: a
/// step from a terminal phase asks for no I/O and sends nothing further.
pub proof fn lemma_terminal_phases_are_quiet(
    pre: ClientRaContext,
    ev: Event,
    post: ClientRaContext,
    acts: Seq<Action>,
    out: Outcome,
)
    requires
        pre.phase == Phase::Complete || pre.phase == Phase::Failed,
        spec_step(pre, ev, post, acts, out),
    ensures
        acts.len() == 0,
        post.phase == Phase::Failed,
{
}

impl ClientRaContext {
    /// Opens a session from the parameters frame fetched at start, or from
    /// the want of one: with no connection the session fails as unavailable
    /// before anything is sent; with an undecodable frame it fails as an
    /// encoding fault.
    pub fn init(params_frame: Option<&Vec<u8>>) -> (r: Result<ClientRaContext, ClientRaError>)
        ensures
            match r {
                Ok(c) => {
                    &&& params_frame matches Some(f) && spec_decode_params_frame(f@) == Some(
                        c.quote_info@,
                    )
                    &&& c.g_a is None
                    &&& c.phase == Phase::Start
                    &&& c.spid@.len() == 0
                    &&& c.sig_rl@.len() == 0
                    &&& c.quote@.len() == 0
                    &&& c.wf()
                },
                Err(e) => match params_frame {
                    None => e == ClientRaError::QuotingServiceUnavailable,
                    Some(f) => e == ClientRaError::EncodingFailure && spec_decode_params_frame(
                        f@,
                    ) is None,
                },
            },
    {
        let frame = match params_frame {
            Some(f) => f,
            None => {
                return Err(ClientRaError::QuotingServiceUnavailable);
            },
        };
        let quote_info = match decode_params_frame(frame.as_slice()) {
            Some(qp) => qp,
            None => {
                return Err(ClientRaError::EncodingFailure);
            },
        };
        Ok(
            ClientRaContext {
                quote_info,
                g_a: None,
                phase: Phase::Start,
                spid: Vec::new(),
                sig_rl: Vec::new(),
                quote: Vec::new(),
            },
        )
    }

    /// The attestation-backend selector of the first message: always the
    /// single supported value, whatever the session state.
    pub fn get_extended_epid_group_id(&self) -> (r: Msg0)
        ensures
            r.exgid == SUPPORTED_EXGID,
    {
        Msg0 { exgid: SUPPORTED_EXGID }
    }

    /// Decodes the enclave's key frame, retains the key, and builds the
    /// second message from it and the session's group id.
    pub fn get_msg_1(&mut self, g_a_frame: &[u8]) -> (r: Result<Msg1, ClientRaError>)
        ensures
            match r {
                Ok(m) => {
                    &&& spec_decode_dh_frame(g_a_frame@) == Some(m.g_a@)
                    &&& m@ == (Msg1View { gid: old(self).quote_info@.gid, g_a: m.g_a@ })
                    &&& m.g_a@.len() <= u32::MAX
                    &&& (final(self).g_a matches Some(g) && g@ == m.g_a@)
                    &&& final(self).quote_info == old(self).quote_info
                    &&& final(self).phase == old(self).phase
                    &&& final(self).spid == old(self).spid
                    &&& final(self).sig_rl == old(self).sig_rl
                    &&& final(self).quote == old(self).quote
                },
                Err(e) => {
                    &&& e == ClientRaError::EncodingFailure
                    &&& spec_decode_dh_frame(g_a_frame@) is None
                    &&& *final(self) == *old(self)
                },
            },
    {
        let g_a = match decode_dh_frame(g_a_frame) {
            Some(v) => v,
            None => {
                return Err(ClientRaError::EncodingFailure);
            },
        };
        let retained = copy_bytes(&g_a);
        let gid = copy_bytes(&self.quote_info.gid);
        self.g_a = Some(retained);
        Ok(Msg1 { gid, g_a })
    }

    /// Retains the service-provider id and the revocation list — empty if
    /// the service provider sent none — from the decoded third message.
    pub fn process_msg_2(&mut self, msg2: Msg2)
        ensures
            final(self).spid@ == msg2@.spid,
            final(self).sig_rl@ == (match msg2@.sig_rl {
                Some(rl) => rl,
                None => Seq::<u8>::empty(),
            }),
            final(self).quote_info == old(self).quote_info,
            final(self).g_a == old(self).g_a,
            final(self).phase == old(self).phase,
            final(self).quote == old(self).quote,
    {
        self.spid = msg2.spid;
        self.sig_rl = match msg2.sig_rl {
            Some(rl) => rl,
            None => Vec::new(),
        };
    }

    /// Decodes the quoting service's quote frame into the quote and the
    /// quoting enclave's report.
    pub fn get_quote(frame: &[u8]) -> (r: Result<QuoteReply, ClientRaError>)
        ensures
            match r {
                Ok(q) => spec_decode_quote_frame(frame@) == Some(q@) && q@.wf(),
                Err(e) => e == ClientRaError::EncodingFailure && spec_decode_quote_frame(
                    frame@,
                ) is None,
            },
    {
        match decode_quote_frame(frame) {
            Some(q) => Ok(q),
            None => Err(ClientRaError::EncodingFailure),
        }
    }

    /// Consumes one event and answers with the actions to perform next, in
    /// strict protocol order; see [`spec_step`] for the step it takes from
    /// every state. A session that has completed or failed accepts nothing
    /// further and asks for no more I/O.
    pub fn do_attestation(&mut self, ev: Event) -> (r: StepOutput)
        requires
            old(self).wf(),
        ensures
            final(self).wf(),
            spec_step(*old(self), ev, *final(self), r.actions@, r.outcome),
    {
        match (self.phase, ev) {
            (Phase::Start, Event::Begin) => {
                let m0 = self.get_extended_epid_group_id();
                let b = encode_msg0(&m0);
                let mut actions: Vec<Action> = Vec::new();
                actions.push(Action::SendSp(b));
                actions.push(Action::ReadEnclaveMessage);
                self.phase = Phase::WaitEnclaveKey;
                StepOutput { actions, outcome: Outcome::Pending }
            },
            (Phase::WaitEnclaveKey, Event::EnclaveData(f)) => {
                match self.get_msg_1(f.as_slice()) {
                    Ok(m1) => {
                        let b = encode_msg1(&m1);
                        let mut actions: Vec<Action> = Vec::new();
                        actions.push(Action::SendSp(b));
                        actions.push(Action::ReadSpMessage);
                        self.phase = Phase::WaitMsg2;
                        StepOutput { actions, outcome: Outcome::Pending }
                    },
                    Err(e) => self.fail(e),
                }
            },
            (Phase::WaitMsg2, Event::SpData(f)) => {
                match decode_msg2(f.as_slice()) {
                    Some(m2) => {
                        self.process_msg_2(m2);
                        let mut actions: Vec<Action> = Vec::new();
                        actions.push(Action::SendEnclave(f));
                        actions.push(Action::FetchQuotingParams);
                        self.phase = Phase::WaitQuotingParams;
                        StepOutput { actions, outcome: Outcome::Pending }
                    },
                    None => self.fail(ClientRaError::EncodingFailure),
                }
            },
            (Phase::WaitQuotingParams, Event::QuotingFrame(f)) => {
                match decode_params_frame(f.as_slice()) {
                    Some(qp) => {
                        let target_info = copy_bytes(&qp.target_info);
                        self.quote_info = qp;
                        let mut actions: Vec<Action> = Vec::new();
                        actions.push(Action::SendEnclave(target_info));
                        actions.push(Action::ReadEnclaveExact(REPORT_SIZE));
                        self.phase = Phase::WaitReport;
                        StepOutput { actions, outcome: Outcome::Pending }
                    },
                    None => self.fail(ClientRaError::EncodingFailure),
                }
            },
            (Phase::WaitQuotingParams, Event::QuotingUnavailable) => self.fail(
                ClientRaError::QuotingServiceUnavailable,
            ),
            (Phase::WaitReport, Event::EnclaveData(f)) => {
                if f.len() == REPORT_SIZE {
                    let req = encode_quote_request(
                        f.as_slice(),
                        self.spid.as_slice(),
                        self.sig_rl.as_slice(),
                    );
                    let mut actions: Vec<Action> = Vec::new();
                    actions.push(Action::FetchQuote(req));
                    self.phase = Phase::WaitQuote;
                    StepOutput { actions, outcome: Outcome::Pending }
                } else {
                    self.fail(ClientRaError::EncodingFailure)
                }
            },
            (Phase::WaitQuote, Event::QuotingFrame(f)) => {
                match Self::get_quote(f.as_slice()) {
                    Ok(qr) => {
                        let mut fwd: Vec<u8> = Vec::new();
                        push_bytes(&mut fwd, qr.quote.as_slice());
                        push_bytes(&mut fwd, qr.qe_report.as_slice());
                        self.quote = qr.quote;
                        let mut actions: Vec<Action> = Vec::new();
                        actions.push(Action::SendEnclave(fwd));
                        actions.push(Action::ReadEnclaveExact(MAC_SIZE));
                        self.phase = Phase::WaitMac;
                        StepOutput { actions, outcome: Outcome::Pending }
                    },
                    Err(e) => self.fail(e),
                }
            },
            (Phase::WaitQuote, Event::QuotingUnavailable) => self.fail(
                ClientRaError::QuotingServiceUnavailable,
            ),
            (Phase::WaitMac, Event::EnclaveData(f)) => {
                if f.len() == MAC_SIZE {
                    let ga = self.g_a.take();
                    match ga {
                        Some(g) => {
                            let quote = copy_bytes(&self.quote);
                            let m3 = Msg3 { g_a: g, mac: f, ps_sec_prop: None, quote };
                            let b = encode_msg3(&m3);
                            let mut actions: Vec<Action> = Vec::new();
                            actions.push(Action::SendSp(b));
                            actions.push(Action::ReadSpMessage);
                            self.phase = Phase::WaitMsg4;
                            StepOutput { actions, outcome: Outcome::Pending }
                        },
                        None => {
                            proof {
                                assert(false);
                            }
                            self.fail(ClientRaError::TransportFailure)
                        },
                    }
                } else {
                    self.fail(ClientRaError::EncodingFailure)
                }
            },
            (Phase::WaitMsg4, Event::SpData(f)) => {
                match decode_msg4(f.as_slice()) {
                    Some(m4) => {
                        let mut actions: Vec<Action> = Vec::new();
                        actions.push(Action::SendEnclave(f));
                        let outcome = if !m4.is_enclave_trusted {
                            self.phase = Phase::Failed;
                            Outcome::Failed(ClientRaError::EnclaveNotTrusted)
                        } else {
                            match m4.is_pse_manifest_trusted {
                                Some(t) => if !t {
                                    self.phase = Phase::Failed;
                                    Outcome::Failed(ClientRaError::PseNotTrusted)
                                } else {
                                    self.phase = Phase::Complete;
                                    Outcome::Complete
                                },
                                None => {
                                    self.phase = Phase::Complete;
                                    Outcome::Complete
                                },
                            }
                        };
                        StepOutput { actions, outcome }
                    },
                    None => self.fail(ClientRaError::EncodingFailure),
                }
            },
            (_, _) => self.fail(ClientRaError::TransportFailure),
        }
    }

    /// Abandons the session: no action, the error as outcome.
    fn fail(&mut self, e: ClientRaError) -> (r: StepOutput)
        ensures
            spec_fail(*old(self), *final(self), r.actions@, r.outcome, e),
    {
        self.phase = Phase::Failed;
        StepOutput { actions: Vec::new(), outcome: Outcome::Failed(e) }
    }
}

} // verus!

use vstd::prelude::*;
use crate::bytes::{append_bytes, copy_range};
use crate::error::HsmError;
use crate::hsm::apdu::{spec_status_to_error, ApduCodec, ApduCodecImpl};

verus! {

/// A connection to a smart-card reader, the transport under the HSM layer.
/// Nothing is assumed of what it returns: every outcome is handled.
pub trait CardChannel {
    /// Connects to the reader named `reader` in shared mode; an error carries the reason.
    fn connect(&mut self, reader: &str) -> Result<(), String>;

    /// Sends one command APDU and returns the raw reply.
    fn transmit(&mut self, apdu: &[u8]) -> Result<Vec<u8>, String>;
}

/// The most GET RESPONSE exchanges one command may chain before the token is
/// treated as misbehaving.
pub const MAX_GET_RESPONSE_ROUNDS: usize = 256;

/// A reply whose status is `61 XX`: more data is pending.
pub open spec fn spec_more_data(reply: Seq<u8>) -> bool {
    reply.len() >= 2 && reply[reply.len() - 2] == 0x61
}

/// The reply accumulated so far, with its `61 XX` status replaced by the next reply.
pub open spec fn spec_merge(acc: Seq<u8>, next: Seq<u8>) -> Seq<u8> {
    acc.subrange(0, acc.len() - 2) + next
}

/// What a chain of replies adds up to: the first reply, each later one merged in.
pub open spec fn spec_chain(replies: Seq<Seq<u8>>) -> Seq<u8>
    decreases replies.len(),
{
    if replies.len() == 0 {
        Seq::empty()
    } else if replies.len() == 1 {
        replies[0]
    } else {
        spec_merge(spec_chain(replies.drop_last()), replies.last())
    }
}

/// A chain as the exchange produces it: every reply but the last leaves the
/// accumulated reply with a `61 XX` status.
pub open spec fn spec_chain_continues(replies: Seq<Seq<u8>>) -> bool {
    forall|k: int|
        1 <= k < replies.len() ==> #[trigger] spec_more_data(spec_chain(replies.subrange(0, k)))
}

/// The reply a token sends for a part of the data: the part, then its status.
pub open spec fn spec_reply(part: Seq<u8>, sw1: u8, sw2: u8) -> Seq<u8> {
    part + seq![sw1, sw2]
}

/// The concatenation of data parts.
pub open spec fn spec_concat(parts: Seq<Seq<u8>>) -> Seq<u8>
    decreases parts.len(),
{
    if parts.len() == 0 {
        Seq::empty()
    } else {
        spec_concat(parts.drop_last()) + parts.last()
    }
}

/// Replies `parts[k] ++ 61 counts[k]` for each earlier part and `parts.last() ++ sw1 sw2`.
pub open spec fn spec_token_replies(parts: Seq<Seq<u8>>, counts: Seq<u8>, sw1: u8, sw2: u8) -> Seq<
    Seq<u8>,
> {
    Seq::new(
        parts.len(),
        |k: int|
            if k < parts.len() - 1 {
                spec_reply(parts[k], 0x61, counts[k])
            } else {
                spec_reply(parts[k], sw1, sw2)
            },
    )
}

proof fn lemma_chain_concat(parts: Seq<Seq<u8>>, counts: Seq<u8>, sw1: u8, sw2: u8)
    requires
        parts.len() >= 1,
        counts.len() == parts.len() - 1,
    ensures
        spec_chain(spec_token_replies(parts, counts, sw1, sw2)) == spec_concat(parts) + seq![
            sw1,
            sw2,
        ],
        spec_chain_continues(spec_token_replies(parts, counts, sw1, sw2)),
    decreases parts.len(),
{
    let replies = spec_token_replies(parts, counts, sw1, sw2);
    if parts.len() == 1 {
        assert(spec_concat(parts) == spec_concat(parts.drop_last()) + parts.last());
        assert(spec_concat(parts.drop_last()) == Seq::<u8>::empty());
        assert(spec_chain(replies) =~= spec_concat(parts) + seq![sw1, sw2]);
    } else {
        let n = parts.len() - 1;
        let front = parts.drop_last();
        let front_counts = counts.drop_last();
        let c = counts[n - 1];
        lemma_chain_concat(front, front_counts, 0x61, c);
        let front_replies = spec_token_replies(front, front_counts, 0x61, c);
        assert(replies.drop_last() =~= front_replies);
        let acc = spec_chain(front_replies);
        assert(acc == spec_concat(front) + seq![0x61u8, c]);
        assert(acc.subrange(0, acc.len() - 2) =~= spec_concat(front));
        assert(spec_chain(replies) == spec_merge(acc, replies.last()));
        assert(spec_chain(replies) =~= spec_concat(parts) + seq![sw1, sw2]);
        assert forall|k: int| 1 <= k < replies.len() implies #[trigger] spec_more_data(
            spec_chain(replies.subrange(0, k)),
        ) by {
            if k < n {
                assert(replies.subrange(0, k) =~= front_replies.subrange(0, k));
            } else {
                assert(replies.subrange(0, k) =~= front_replies);
            }
        }
    }
}

/// GET RESPONSE chaining: when a token answers with data parts, each but the
/// last under status `61 XX`, the chained reply is all the parts in order
/// followed by the last status, and chaining stops after exactly one GET
/// RESPONSE per `61 XX` reply.
pub proof fn lemma_get_response_chaining(parts: Seq<Seq<u8>>, counts: Seq<u8>, sw1: u8, sw2: u8)
    requires
        parts.len() >= 1,
        counts.len() == parts.len() - 1,
        sw1 != 0x61,
    ensures
        spec_chain(spec_token_replies(parts, counts, sw1, sw2)) == spec_concat(parts) + seq![
            sw1,
            sw2,
        ],
        spec_chain_continues(spec_token_replies(parts, counts, sw1, sw2)),
        !spec_more_data(spec_chain(spec_token_replies(parts, counts, sw1, sw2))),
{
    lemma_chain_concat(parts, counts, sw1, sw2);
    let whole = spec_concat(parts) + seq![sw1, sw2];
    assert(whole[whole.len() - 2] == sw1);
}

/// The `le` of the GET RESPONSE to send after `reply`, when its status is `61 XX`.
pub fn pending_response_length(reply: &[u8]) -> (r: Option<u8>)
    ensures
        spec_more_data(reply@) ==> r == Some(reply@[reply@.len() - 1]),
        !spec_more_data(reply@) ==> r is None,
{
    let n: usize = reply.len();
    if n >= 2 && reply[n - 2] == 0x61 {
        Some(reply[n - 1])
    } else {
        None
    }
}

/// The reply accumulated so far with its `61 XX` status replaced by `next`.
pub fn merge_reply(acc: &[u8], next: &[u8]) -> (r: Vec<u8>)
    requires
        acc@.len() >= 2,
    ensures
        r@ == spec_merge(acc@, next@),
{
    let mut r = copy_range(acc, 0, acc.len() - 2);
    append_bytes(&mut r, next);
    r
}

/// The GET RESPONSE command `00 C0 00 00 le`.
pub fn get_response_apdu(le: u8) -> (r: Vec<u8>)
    ensures
        r@ == seq![0x00u8, 0xC0, 0x00, 0x00, le],
{
    let mut r: Vec<u8> = Vec::new();
    r.push(0x00);
    r.push(0xC0);
    r.push(0x00);
    r.push(0x00);
    r.push(le);
    proof {
        assert(r@ =~= seq![0x00u8, 0xC0, 0x00, 0x00, le]);
    }
    r
}

/// GET RESPONSE chaining as a step machine: the replies received so far
/// (a ghost log) and the reply they add up to.
pub struct ResponseChain {
    acc: Vec<u8>,
    replies: Ghost<Seq<Seq<u8>>>,
}

impl ResponseChain {
    /// The replies absorbed so far, first one first.
    pub closed spec fn replies(&self) -> Seq<Seq<u8>> {
        self.replies@
    }

    /// The accumulated reply.
    pub closed spec fn reply(&self) -> Seq<u8> {
        self.acc@
    }

    /// The accumulated reply is the chain of the replies, and each reply but
    /// the last left it with a `61 XX` status.
    pub closed spec fn wf(&self) -> bool {
        &&& self.replies@.len() >= 1
        &&& spec_chain_continues(self.replies@)
        &&& self.acc@ == spec_chain(self.replies@)
    }

    pub proof fn lemma_wf(&self)
        requires
            self.wf(),
        ensures
            self.replies().len() >= 1,
            spec_chain_continues(self.replies()),
            self.reply() == spec_chain(self.replies()),
    {
    }

    /// The chain after the reply to the command itself.
    pub fn start(first: Vec<u8>) -> (r: Self)
        ensures
            r.wf(),
            r.replies() == seq![first@],
            r.reply() == first@,
    {
        let ghost log = seq![first@];
        let r = ResponseChain { acc: first, replies: Ghost(log) };
        assert(spec_chain(r.replies@) == first@);
        r
    }

    /// The GET RESPONSE to send next: `00 C0 00 00 XX` while the accumulated
    /// reply ends in `61 XX`, else none.
    pub fn request(&self) -> (r: Option<Vec<u8>>)
        ensures
            spec_more_data(self.reply()) ==> r is Some && r->Some_0@ == seq![
                0x00u8,
                0xC0,
                0x00,
                0x00,
                self.reply()[self.reply().len() - 1],
            ],
            !spec_more_data(self.reply()) ==> r is None,
    {
        match pending_response_length(self.acc.as_slice()) {
            Some(le) => Some(get_response_apdu(le)),
            None => None,
        }
    }

    /// Takes in the reply to a GET RESPONSE: the `61 XX` status of the
    /// accumulated reply is replaced by it.
    pub fn absorb(&mut self, next: Vec<u8>)
        requires
            old(self).wf(),
            spec_more_data(old(self).reply()),
        ensures
            final(self).wf(),
            final(self).replies() == old(self).replies().push(next@),
            final(self).reply() == spec_merge(old(self).reply(), next@),
    {
        let merged = merge_reply(self.acc.as_slice(), next.as_slice());
        let ghost old_replies = self.replies@;
        let ghost new_replies = old_replies.push(next@);
        proof {
            assert(new_replies.drop_last() =~= old_replies);
            assert forall|k: int| 1 <= k < new_replies.len() implies #[trigger] spec_more_data(
                spec_chain(new_replies.subrange(0, k)),
            ) by {
                if k < old_replies.len() {
                    assert(new_replies.subrange(0, k) =~= old_replies.subrange(0, k));
                } else {
                    assert(new_replies.subrange(0, k) =~= old_replies);
                }
            }
        }
        self.acc = merged;
        self.replies = Ghost(new_replies);
    }

    /// The accumulated reply.
    pub fn finish(self) -> (r: Vec<u8>)
        requires
            self.wf(),
        ensures
            r@ == spec_chain(self.replies()),
    {
        self.acc
    }
}

/// Sends `apdu` and follows `61 XX` replies with GET RESPONSE until the
/// status says otherwise, through a `ResponseChain`. A failed transmit, or
/// more than `MAX_GET_RESPONSE_ROUNDS` continuations, ends it with a
/// communication error.
pub fn transmit_raw<C: CardChannel>(card: &mut C, apdu: &[u8]) -> (r: Result<Vec<u8>, HsmError>)
    ensures
        r is Ok ==> !spec_more_data(r->Ok_0@),
        r is Err ==> r->Err_0 is CommunicationError,
{
    let first = match card.transmit(apdu) {
        Ok(reply) => reply,
        Err(e) => {
            return Err(HsmError::CommunicationError(e));
        },
    };
    let mut chain = ResponseChain::start(first);
    let mut rounds: usize = 0;
    loop
        invariant
            rounds <= MAX_GET_RESPONSE_ROUNDS,
            chain.wf(),
        decreases MAX_GET_RESPONSE_ROUNDS - rounds,
    {
        let request = match chain.request() {
            Some(request) => request,
            None => {
                proof {
                    chain.lemma_wf();
                }
                return Ok(chain.finish());
            },
        };
        if rounds == MAX_GET_RESPONSE_ROUNDS {
            return Err(
                HsmError::CommunicationError(
                    String::from_str("token kept answering 61 XX to GET RESPONSE"),
                ),
            );
        }
        let next = match card.transmit(request.as_slice()) {
            Ok(reply) => reply,
            Err(e) => {
                return Err(HsmError::CommunicationError(e));
            },
        };
        chain.absorb(next);
        rounds = rounds + 1;
    }
}

/// An error that comes from the card exchange: a communication failure, or
/// what some status word maps to.
pub open spec fn spec_device_error(e: HsmError) -> bool {
    e is CommunicationError || exists|sw1: u8, sw2: u8| #[trigger] spec_status_to_error(sw1, sw2) == Some(e)
}

/// No error of the card exchange is one of the input-validation errors.
pub proof fn lemma_device_errors_are_not_input_errors(e: HsmError)
    requires
        spec_device_error(e),
    ensures
        !(e is PinFormatInvalid),
        !(e is SoPinFormatInvalid),
        !(e is NotSupported),
        !(e is CertificateNotFound),
{
    if !(e is CommunicationError) {
        let (a, b) = choose|sw1: u8, sw2: u8| #[trigger] spec_status_to_error(sw1, sw2) == Some(e);
        assert(spec_status_to_error(a, b) == Some(e));
    }
}

/// What a complete reply means: its data when the status is success or
/// "more data", the mapped error otherwise, and a communication error when
/// it is too short to hold a status.
pub fn response_outcome(raw: &[u8]) -> (r: Result<Vec<u8>, HsmError>)
    ensures
        raw@.len() < 2 ==> r is Err && r->Err_0 is CommunicationError,
        raw@.len() >= 2 ==> match spec_status_to_error(
            raw@[raw@.len() - 2],
            raw@[raw@.len() - 1],
        ) {
            Some(e) => r == Err::<Vec<u8>, HsmError>(e),
            None => r is Ok && r->Ok_0@ == raw@.subrange(0, raw@.len() - 2),
        },
        r is Err ==> spec_device_error(r->Err_0),
{
    let codec = ApduCodecImpl::new();
    let response = match codec.decode_apdu_response(raw) {
        Ok(resp) => resp,
        Err(_) => {
            return Err(HsmError::CommunicationError(String::from_str("incomplete APDU response")));
        },
    };
    match codec.status_to_error(response.sw1, response.sw2) {
        Some(err) => {
            assert(spec_status_to_error(response.sw1, response.sw2) == Some(err));
            Err(err)
        },
        None => Ok(response.data),
    }
}

} // verus!

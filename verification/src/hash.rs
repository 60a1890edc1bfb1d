//! The canonical proof-of-work commitment scheme over a chat message with a
//! sender field: nonce search, independent verification, and the laws that
//! tie the two together.

use vstd::prelude::*;
use vstd::string::*;
use crate::clock;
use crate::codec;
use crate::codec::{dec_chars, leading_zeros, pow_digest};

verus! {

/// A chat message: a millisecond timestamp rendered in decimal, the message
/// body, and the sender's display name.
#[derive(Debug, Clone)]
pub struct Chat {
    pub timestamp: String,
    pub message: String,
    pub sender: String,
}

/// A chat message bundled with a nonce and the hex-encoded SHA-256 digest of
/// the canonical encoding of the message and that nonce, claiming
/// `difficulty` leading `'0'` characters in the digest.
#[derive(Debug, Clone)]
pub struct HashedChat {
    pub chat: Chat,
    pub hash: String,
    pub nonce: u64,
    pub difficulty: u8,
}

/// The digest that the commitment scheme associates with a message and a
/// candidate nonce.
pub open spec fn chat_digest(c: Chat, nonce: u64) -> Seq<char> {
    pow_digest(c.timestamp@, c.message@, c.sender@, nonce)
}

/// A commitment is valid iff its stored digest is the digest of its own
/// message and nonce, and that digest meets the claimed difficulty.
pub open spec fn commitment_valid(h: HashedChat) -> bool {
    &&& h.hash@ == chat_digest(h.chat, h.nonce)
    &&& leading_zeros(chat_digest(h.chat, h.nonce), h.difficulty as nat)
}

impl Chat {
    /// Builds a message stamped with the current wall-clock time in decimal
    /// milliseconds.
    pub fn new(message: String, sender: String) -> (r: Chat)
        ensures
            r.message == message,
            r.sender == sender,
            exists|n: u64| r.timestamp@ == dec_chars(n as nat),
    {
        let millis = clock::now_millis();
        let timestamp = codec::u64_to_dec_string(millis);
        proof {
            assert(timestamp@ == dec_chars(millis as nat));
        }
        Chat { timestamp, message, sender }
    }
}

impl HashedChat {
    fn calculate_hash(timestamp: &str, message: &str, sender: &str, nonce: u64) -> (r: String)
        ensures
            r@ == pow_digest(timestamp@, message@, sender@, nonce),
            r@.len() == 64,
    {
        codec::digest_hex(timestamp, message, sender, nonce)
    }

    /// Recomputes the digest from the carried message and nonce and re-checks
    /// both validity conditions, trusting nothing about the stored digest.
    pub fn verify(&self) -> (r: bool)
        ensures
            r == commitment_valid(*self),
    {
        let hash = Self::calculate_hash(
            self.chat.timestamp.as_str(),
            self.chat.message.as_str(),
            self.chat.sender.as_str(),
            self.nonce,
        );
        let matches_stored = hash == self.hash;
        matches_stored && codec::zeros_prefix(hash.as_str(), self.difficulty)
    }

    /// The stored digest, as handed out to callers.
    pub fn get_hash(&self) -> (r: &str)
        ensures
            r@ == self.hash@,
    {
        self.hash.as_str()
    }
}

/// Whether the first `count` characters of `hash` are all `'0'`.
pub fn has_leading_zeros(hash: &str, count: u8) -> (r: bool)
    ensures
        r == leading_zeros(hash@, count as nat),
{
    codec::zeros_prefix(hash, count)
}

/// Searches nonces in ascending order from 0 and returns the digest and the
/// lowest nonce whose digest meets the difficulty, or `None` in the
/// (practically unreachable) case that every 64-bit nonce fails.
pub fn solve_challenge(chat: &Chat, difficulty: u8) -> (r: Option<(String, u64)>)
    ensures
        match r {
            Some(sol) => {
                &&& sol.0@ == chat_digest(*chat, sol.1)
                &&& leading_zeros(sol.0@, difficulty as nat)
                &&& forall|m: u64|
                    m < sol.1 ==> !leading_zeros(chat_digest(*chat, m), difficulty as nat)
            },
            None => forall|m: u64| !leading_zeros(chat_digest(*chat, m), difficulty as nat),
        },
        difficulty == 0 ==> r is Some,
{
    let mut nonce: u64 = 0;
    loop
        invariant
            forall|m: u64| m < nonce ==> !leading_zeros(chat_digest(*chat, m), difficulty as nat),
        decreases u64::MAX - nonce,
    {
        let hash = HashedChat::calculate_hash(
            chat.timestamp.as_str(),
            chat.message.as_str(),
            chat.sender.as_str(),
            nonce,
        );
        if codec::zeros_prefix(hash.as_str(), difficulty) {
            return Some((hash, nonce));
        }
        assert(!leading_zeros(chat_digest(*chat, nonce), difficulty as nat));
        assert(difficulty != 0);
        if nonce == u64::MAX {
            assert(forall|m: u64| !leading_zeros(chat_digest(*chat, m), difficulty as nat));
            return None;
        }
        nonce = nonce + 1;
    }
}

/// Stamps a message with the current time, searches for the lowest
/// satisfying nonce, and returns the commitment. A difficulty above the 64
/// hex characters of the digest can never be met by a full-length zero
/// prefix, so it is rejected up front; `None` otherwise means the whole
/// 64-bit nonce space failed, which is practically unreachable.
pub fn send_chat(message: &str, sender: &str, difficulty: u8) -> (r: Option<HashedChat>)
    ensures
        difficulty > 64 ==> r is None,
        difficulty == 0 ==> r is Some,
        match r {
            Some(h) => {
                &&& commitment_valid(h)
                &&& h.difficulty == difficulty
                &&& h.chat.message@ == message@
                &&& h.chat.sender@ == sender@
                &&& forall|m: u64|
                    m < h.nonce ==> !leading_zeros(chat_digest(h.chat, m), difficulty as nat)
            },
            None => difficulty > 64 || (exists|c: Chat|
                c.message@ == message@ && c.sender@ == sender@ && forall|m: u64|
                    !leading_zeros(chat_digest(c, m), difficulty as nat)),
        },
{
    if difficulty > 64 {
        return None;
    }
    let chat = Chat::new(String::from_str(message), String::from_str(sender));
    match solve_challenge(&chat, difficulty) {
        Some(sol) => {
            let (hash, nonce) = sol;
            Some(HashedChat { chat, hash, nonce, difficulty })
        },
        None => {
            proof {
                assert(chat.message@ == message@ && chat.sender@ == sender@ && forall|m: u64|
                    !leading_zeros(chat_digest(chat, m), difficulty as nat));
            }
            None
        },
    }
}

/// Law: the commitment scheme is deterministic. The digest is a function of
/// the field contents and the nonce alone, so two messages with equal
/// timestamp, body and sender always hash to the same digest for the same
/// nonce.
pub proof fn lemma_digest_deterministic(c1: Chat, c2: Chat, nonce: u64)
    requires
        c1.timestamp@ == c2.timestamp@,
        c1.message@ == c2.message@,
        c1.sender@ == c2.sender@,
    ensures
        chat_digest(c1, nonce) == chat_digest(c2, nonce),
{
}

/// Law: for a fixed message, distinct nonces feed distinct byte encodings to
/// the hash, so the search never conflates two candidate nonces.
pub proof fn lemma_encoding_nonce_injective(c: Chat, n1: u64, n2: u64)
    requires
        codec::pow_input(c.timestamp@, c.message@, c.sender@, n1) == codec::pow_input(
            c.timestamp@,
            c.message@,
            c.sender@,
            n2,
        ),
    ensures
        n1 == n2,
{
    codec::lemma_pow_input_nonce_injective(c.timestamp@, c.message@, c.sender@, n1, n2);
}

/// Law: a commitment produced by the search is exactly what `verify` accepts.
/// Any commitment whose stored digest is the digest of its own message and
/// nonce, and meets its claimed difficulty, is valid, so `verify` returns
/// true on every commitment `solve_challenge` or `send_chat` hands back.
pub proof fn lemma_solved_commitment_verifies(h: HashedChat)
    requires
        h.hash@ == chat_digest(h.chat, h.nonce),
        leading_zeros(chat_digest(h.chat, h.nonce), h.difficulty as nat),
    ensures
        commitment_valid(h),
{
}

/// Law: verification is idempotent. `verify` returns exactly
/// `commitment_valid(*self)`, a predicate of the commitment's fields alone,
/// so any two calls on the same commitment return the same boolean.
pub proof fn lemma_verify_idempotent(h: HashedChat, r1: bool, r2: bool)
    requires
        r1 == commitment_valid(h),
        r2 == commitment_valid(h),
    ensures
        r1 == r2,
{
}

/// Law: a forged difficulty is detected. If the stored digest is genuine for
/// the carried message and nonce but claims more leading zeros than the
/// digest has, the commitment is invalid and `verify` returns false.
pub proof fn lemma_forged_difficulty_invalid(h: HashedChat)
    requires
        h.hash@ == chat_digest(h.chat, h.nonce),
        !leading_zeros(h.hash@, h.difficulty as nat),
    ensures
        !commitment_valid(h),
{
}

/// Law: mutating the nonce or any message field of a valid commitment while
/// keeping its stored digest makes it invalid, as long as the mutated fields
/// do not hash to the very same digest (a SHA-256 collision).
pub proof fn lemma_mutation_invalidates(h: HashedChat, m: HashedChat)
    requires
        commitment_valid(h),
        m.hash == h.hash,
        chat_digest(m.chat, m.nonce) != chat_digest(h.chat, h.nonce),
    ensures
        !commitment_valid(m),
{
}

} // verus!

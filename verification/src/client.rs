//! An earlier, sender-less variant of the commitment scheme: the hash input
//! is timestamp, message and decimal nonce only, and the difficulty is fixed
//! at a default rather than carried in the commitment.

use vstd::prelude::*;
use vstd::string::*;
use crate::clock;
use crate::codec;
use crate::codec::{leading_zeros, pow_digest};

verus! {

/// The default difficulty this variant solves at.
pub const DEFAULT_DIFFICULTY: u8 = 5;

/// A chat message without a sender field.
pub struct Chat {
    pub timestamp: String,
    pub message: String,
}

/// A commitment over the sender-less message. The difficulty is not carried;
/// validity is judged against `DEFAULT_DIFFICULTY`.
pub struct HashedChat {
    pub chat: Chat,
    pub hash: String,
    pub nonce: u64,
}

/// The digest of a sender-less message and a candidate nonce: the canonical
/// digest with an empty sender field.
pub open spec fn chat_digest(c: Chat, nonce: u64) -> Seq<char> {
    pow_digest(c.timestamp@, c.message@, Seq::<char>::empty(), nonce)
}

/// A commitment of this variant is valid iff its stored digest is the digest
/// of its own message and nonce and meets the default difficulty.
pub open spec fn commitment_valid(h: HashedChat) -> bool {
    &&& h.hash@ == chat_digest(h.chat, h.nonce)
    &&& leading_zeros(chat_digest(h.chat, h.nonce), DEFAULT_DIFFICULTY as nat)
}

fn calculate_hash(timestamp: &str, message: &str, nonce: u64) -> (r: String)
    ensures
        r@ == pow_digest(timestamp@, message@, Seq::<char>::empty(), nonce),
        r@.len() == 64,
{
    let empty = "";
    proof {
        reveal_strlit("");
        assert(empty@ =~= Seq::<char>::empty());
    }
    codec::digest_hex(timestamp, message, empty, nonce)
}

/// Whether the first `difficulty` characters of `hash` are all `'0'`.
pub fn check_challenge(hash: &str, difficulty: u8) -> (r: bool)
    ensures
        r == leading_zeros(hash@, difficulty as nat),
{
    codec::zeros_prefix(hash, difficulty)
}

/// Searches nonces in ascending order from 0 and returns the digest and the
/// lowest nonce whose digest meets the difficulty, or `None` in the
/// (practically unreachable) case that every 64-bit nonce fails.
pub fn solve_challenge(chat: &Chat, difficulty: u8) -> (r: Option<(String, u64)>)
    ensures
        match r {
            Some(sol) => {
                &&& sol.0@ == chat_digest(*chat, sol.1)
                &&& leading_zeros(sol.0@, difficulty as nat)
                &&& forall|m: u64|
                    m < sol.1 ==> !leading_zeros(chat_digest(*chat, m), difficulty as nat)
            },
            None => forall|m: u64| !leading_zeros(chat_digest(*chat, m), difficulty as nat),
        },
        difficulty == 0 ==> r is Some,
{
    let mut nonce: u64 = 0;
    loop
        invariant
            forall|m: u64| m < nonce ==> !leading_zeros(chat_digest(*chat, m), difficulty as nat),
        decreases u64::MAX - nonce,
    {
        let hash = calculate_hash(chat.timestamp.as_str(), chat.message.as_str(), nonce);
        if codec::zeros_prefix(hash.as_str(), difficulty) {
            return Some((hash, nonce));
        }
        assert(!leading_zeros(chat_digest(*chat, nonce), difficulty as nat));
        assert(difficulty != 0);
        if nonce == u64::MAX {
            assert(forall|m: u64| !leading_zeros(chat_digest(*chat, m), difficulty as nat));
            return None;
        }
        nonce = nonce + 1;
    }
}

/// Stamps a message with the current time and searches for the lowest nonce
/// meeting the default difficulty. `None` means the whole 64-bit nonce space
/// failed, which is practically unreachable.
pub fn send_chat(message: &str) -> (r: Option<HashedChat>)
    ensures
        match r {
            Some(h) => {
                &&& commitment_valid(h)
                &&& h.chat.message@ == message@
                &&& forall|m: u64|
                    m < h.nonce ==> !leading_zeros(
                        chat_digest(h.chat, m),
                        DEFAULT_DIFFICULTY as nat,
                    )
            },
            None => exists|c: Chat|
                c.message@ == message@ && forall|m: u64|
                    !leading_zeros(chat_digest(c, m), DEFAULT_DIFFICULTY as nat),
        },
{
    let millis = clock::now_millis();
    let chat = Chat {
        timestamp: codec::u64_to_dec_string(millis),
        message: String::from_str(message),
    };
    match solve_challenge(&chat, DEFAULT_DIFFICULTY) {
        Some(sol) => {
            let (hash, nonce) = sol;
            Some(HashedChat { chat, hash, nonce })
        },
        None => {
            proof {
                assert(chat.message@ == message@ && forall|m: u64|
                    !leading_zeros(chat_digest(chat, m), DEFAULT_DIFFICULTY as nat));
            }
            None
        },
    }
}

} // verus!

use pow_chat::client::{self, Chat};

fn fixed_chat() -> Chat {
    Chat {
        timestamp: String::from("1000"),
        message: String::from("hi"),
    }
}

#[test]
fn client_check_challenge_cases() {
    assert!(client::check_challenge("0000a", 4));
    assert!(!client::check_challenge("000a0", 4));
    assert!(client::check_challenge("whatever", 0));
    assert!(client::check_challenge("00", 9));
}

#[test]
fn client_default_difficulty() {
    assert_eq!(client::DEFAULT_DIFFICULTY, 5);
}

#[test]
fn client_digest_has_no_sender_field() {
    // The sender-less scheme hashes timestamp, message and nonce only.
    let chat = fixed_chat();
    let (digest, nonce) = client::solve_challenge(&chat, 0).unwrap();
    assert_eq!(nonce, 0);
    assert_eq!(
        digest,
        "cf00b93da025a21fe7fec068827c4847481337af0f618ee747ffbc88740796b8"
    );
}

#[test]
fn client_solve_difficulty_one() {
    let chat = fixed_chat();
    let (digest, nonce) = client::solve_challenge(&chat, 1).unwrap();
    assert_eq!(nonce, 15);
    assert_eq!(
        digest,
        "0d2cabdd7d0dc7557174bffa6b0fe9a646bcfb9189be054b9d5eeb4427db3dbc"
    );
    assert!(digest.starts_with('0'));
}

use block_verification_stage::utils::cancellation_token::CancellationToken;

#[test]
fn token_ref_sees_cancel() {
    let token = CancellationToken::new();
    let token_ref = token.token_ref();
    assert!(!token_ref.is_cancelled());
    token.cancel();
    assert!(token_ref.is_cancelled());
}

#[test]
fn token_ref_sees_drop() {
    let token = CancellationToken::new();
    let first = token.token_ref();
    let second = token.token_ref();
    drop(token);
    assert!(first.is_cancelled());
    assert!(second.is_cancelled());
}

#[test]
fn separate_tokens_do_not_share_a_flag() {
    let token = CancellationToken::new();
    let other = CancellationToken::new();
    let other_ref = other.token_ref();
    token.cancel();
    assert!(!other_ref.is_cancelled());
}

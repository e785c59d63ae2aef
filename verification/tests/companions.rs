use raffle::errors::{TwitterError, VaultError};
use raffle::reactions::{add_reaction, remove_reaction, ReactionType, Tweet};
use raffle::vault::{Vault, _deposit, _toggle_lock, _withdraw};

fn fresh_vault() -> Vault {
    Vault { vault_authority: 5, locked: false, balance: 1000 }
}

#[test]
fn deposit_moves_funds_into_the_vault() {
    let mut vault = fresh_vault();
    let change = _deposit(&mut vault, 300, 200).unwrap();
    assert_eq!(change, 100);
    assert_eq!(vault.balance, 1200);
}

#[test]
fn deposit_fails_when_locked() {
    let mut vault = fresh_vault();
    vault.locked = true;
    let r = _deposit(&mut vault, 300, 200);
    assert_eq!(r, Err(VaultError::VaultLocked));
    assert_eq!(vault.balance, 1000);
}

#[test]
fn deposit_fails_on_short_user_balance() {
    let mut vault = fresh_vault();
    let r = _deposit(&mut vault, 199, 200);
    assert_eq!(r, Err(VaultError::InsufficientBalance));
    assert_eq!(vault.balance, 1000);
}

#[test]
fn withdraw_moves_funds_out_of_the_vault() {
    let mut vault = fresh_vault();
    let out = _withdraw(&mut vault, 5, 400).unwrap();
    assert_eq!(out, 400);
    assert_eq!(vault.balance, 600);
}

#[test]
fn withdraw_fails_when_locked() {
    let mut vault = fresh_vault();
    vault.locked = true;
    let r = _withdraw(&mut vault, 5, 400);
    assert_eq!(r, Err(VaultError::VaultLocked));
    assert_eq!(vault.balance, 1000);
}

#[test]
fn withdraw_fails_on_short_vault_balance() {
    let mut vault = fresh_vault();
    let r = _withdraw(&mut vault, 5, 1001);
    assert_eq!(r, Err(VaultError::InsufficientBalance));
    assert_eq!(vault.balance, 1000);
}

#[test]
fn toggle_lock_flips_back_and_forth() {
    let mut vault = fresh_vault();
    assert_eq!(_toggle_lock(&mut vault, 5), Ok(true));
    assert!(vault.locked);
    assert_eq!(_toggle_lock(&mut vault, 5), Ok(false));
    assert!(!vault.locked);
    assert_eq!(vault.balance, 1000);
}

fn fresh_tweet() -> Tweet {
    Tweet { tweet_author: 9, likes: 0, dislikes: 0 }
}

#[test]
fn add_reaction_bumps_the_matching_counter() {
    let mut tweet = fresh_tweet();
    let rec = add_reaction(&mut tweet, 77, 3, ReactionType::Like).unwrap();
    assert_eq!(rec.reaction_author, 3);
    assert_eq!(rec.parent_tweet, 77);
    assert_eq!(rec.reaction, ReactionType::Like);
    assert_eq!(tweet.likes, 1);
    assert_eq!(tweet.dislikes, 0);

    add_reaction(&mut tweet, 77, 4, ReactionType::Dislike).unwrap();
    assert_eq!(tweet.likes, 1);
    assert_eq!(tweet.dislikes, 1);
}

#[test]
fn add_reaction_stops_at_the_counter_maximum() {
    let mut tweet = fresh_tweet();
    tweet.likes = u64::MAX;
    let r = add_reaction(&mut tweet, 77, 3, ReactionType::Like);
    assert_eq!(r, Err(TwitterError::MaxLikesReached));
    assert_eq!(tweet.likes, u64::MAX);

    tweet.dislikes = u64::MAX;
    let r = add_reaction(&mut tweet, 77, 3, ReactionType::Dislike);
    assert_eq!(r, Err(TwitterError::MaxDislikesReached));
    assert_eq!(tweet.dislikes, u64::MAX);
}

#[test]
fn remove_reaction_takes_the_bump_back() {
    let mut tweet = fresh_tweet();
    let like = add_reaction(&mut tweet, 77, 3, ReactionType::Like).unwrap();
    let dislike = add_reaction(&mut tweet, 77, 4, ReactionType::Dislike).unwrap();
    remove_reaction(&mut tweet, &like).unwrap();
    assert_eq!(tweet.likes, 0);
    assert_eq!(tweet.dislikes, 1);
    remove_reaction(&mut tweet, &dislike).unwrap();
    assert_eq!(tweet.dislikes, 0);
}

#[test]
fn remove_reaction_stops_at_zero() {
    let mut tweet = fresh_tweet();
    let like = raffle::reactions::Reaction {
        reaction_author: 3,
        parent_tweet: 77,
        reaction: ReactionType::Like,
    };
    let r = remove_reaction(&mut tweet, &like);
    assert_eq!(r, Err(TwitterError::MinLikesReached));
    let dislike = raffle::reactions::Reaction {
        reaction_author: 3,
        parent_tweet: 77,
        reaction: ReactionType::Dislike,
    };
    let r = remove_reaction(&mut tweet, &dislike);
    assert_eq!(r, Err(TwitterError::MinDislikesReached));
    assert_eq!(tweet.likes, 0);
    assert_eq!(tweet.dislikes, 0);
}

//! A companion social feature: like and dislike counters on a post.
//!
//! Each reader may leave one reaction record per post; adding it bumps the
//! matching counter and removing it takes the bump back. The counters are
//! guarded so they can neither overflow nor drop below zero.

use vstd::prelude::*;

use crate::errors::TwitterError;

verus! {

/// Whether a reaction counts as a like or as a dislike.
#[derive(Clone, Copy, Debug, PartialEq, Eq)]
pub enum ReactionType {
    Like,
    Dislike,
}

/// A post carrying reaction counters.
#[derive(Debug, PartialEq, Eq)]
pub struct Tweet {
    /// Identity of the post's author.
    pub tweet_author: u64,
    /// How many readers have left a like.
    pub likes: u64,
    /// How many readers have left a dislike.
    pub dislikes: u64,
}

/// One reader's reaction to one post.
#[derive(Clone, Copy, Debug, PartialEq, Eq)]
pub struct Reaction {
    /// Identity of the reader who reacted.
    pub reaction_author: u64,
    /// Key of the post reacted to.
    pub parent_tweet: u64,
    /// Which counter the reaction bumped.
    pub reaction: ReactionType,
}

/// Records `author`'s reaction to the post stored under `tweet_key`:
/// increments the matching counter and hands back the reaction record. A
/// counter already at its maximum stays unchanged and is reported instead.
pub fn add_reaction(tweet: &mut Tweet, tweet_key: u64, author: u64, reaction: ReactionType) -> (r:
    Result<Reaction, TwitterError>)
    ensures
        r is Err ==> *final(tweet) == *old(tweet),
        reaction is Like && old(tweet).likes == u64::MAX <==> r == Err::<Reaction, TwitterError>(
            TwitterError::MaxLikesReached,
        ),
        reaction is Dislike && old(tweet).dislikes == u64::MAX <==> r == Err::<
            Reaction,
            TwitterError,
        >(TwitterError::MaxDislikesReached),
        r matches Ok(rec) ==> {
            &&& rec.reaction_author == author
            &&& rec.parent_tweet == tweet_key
            &&& rec.reaction == reaction
            &&& final(tweet).tweet_author == old(tweet).tweet_author
            &&& (reaction is Like ==> final(tweet).likes == old(tweet).likes + 1
                && final(tweet).dislikes == old(tweet).dislikes)
            &&& (reaction is Dislike ==> final(tweet).dislikes == old(tweet).dislikes + 1
                && final(tweet).likes == old(tweet).likes)
        },
        r is Ok <==> !(reaction is Like && old(tweet).likes == u64::MAX) && !(reaction is Dislike
            && old(tweet).dislikes == u64::MAX),
{
    match reaction {
        ReactionType::Like => {
            if tweet.likes == u64::MAX {
                return Err(TwitterError::MaxLikesReached);
            }
            tweet.likes = tweet.likes + 1;
        },
        ReactionType::Dislike => {
            if tweet.dislikes == u64::MAX {
                return Err(TwitterError::MaxDislikesReached);
            }
            tweet.dislikes = tweet.dislikes + 1;
        },
    }
    Ok(Reaction { reaction_author: author, parent_tweet: tweet_key, reaction })
}

/// Takes a reaction back: decrements the counter the record had bumped. A
/// counter already at zero stays unchanged and is reported instead.
pub fn remove_reaction(tweet: &mut Tweet, tweet_reaction: &Reaction) -> (r: Result<
    (),
    TwitterError,
>)
    ensures
        r is Err ==> *final(tweet) == *old(tweet),
        tweet_reaction.reaction is Like && old(tweet).likes == 0 <==> r == Err::<(), TwitterError>(
            TwitterError::MinLikesReached,
        ),
        tweet_reaction.reaction is Dislike && old(tweet).dislikes == 0 <==> r == Err::<
            (),
            TwitterError,
        >(TwitterError::MinDislikesReached),
        r is Ok ==> {
            &&& final(tweet).tweet_author == old(tweet).tweet_author
            &&& (tweet_reaction.reaction is Like ==> final(tweet).likes == old(tweet).likes - 1
                && final(tweet).dislikes == old(tweet).dislikes)
            &&& (tweet_reaction.reaction is Dislike ==> final(tweet).dislikes
                == old(tweet).dislikes - 1 && final(tweet).likes == old(tweet).likes)
        },
        r is Ok <==> !(tweet_reaction.reaction is Like && old(tweet).likes == 0) && !(
        tweet_reaction.reaction is Dislike && old(tweet).dislikes == 0),
{
    match tweet_reaction.reaction {
        ReactionType::Like => {
            if tweet.likes == 0 {
                return Err(TwitterError::MinLikesReached);
            }
            tweet.likes = tweet.likes - 1;
        },
        ReactionType::Dislike => {
            if tweet.dislikes == 0 {
                return Err(TwitterError::MinDislikesReached);
            }
            tweet.dislikes = tweet.dislikes - 1;
        },
    }
    Ok(())
}

} // verus!

use vstd::prelude::*;
use vstd::utf8::encode_utf8;
use crate::pubkey::Pubkey;

verus! {

/// The most bytes a comment may hold.
pub const COMMENT_LENGTH: usize = 500;

/// A comment under a tweet.
#[derive(Debug)]
pub struct Comment {
    pub comment_author: Pubkey,
    pub parent_tweet: Pubkey,
    pub content: String,
    pub bump: u8,
}

/// The reaction counters of a tweet.
#[derive(Clone, Copy, Debug)]
pub struct Tweet {
    pub likes: u64,
    pub dislikes: u64,
}

#[derive(Clone, Copy, Debug, PartialEq, Eq, Structural)]
pub enum ReactionType {
    Like,
    Dislike,
}

/// One user's reaction to a tweet.
#[derive(Clone, Copy, Debug)]
pub struct Reaction {
    pub reaction_author: Pubkey,
    pub parent_tweet: Pubkey,
    pub reaction: ReactionType,
    pub bump: u8,
}

/// Why a social operation was refused.
#[derive(Clone, Copy, Debug, PartialEq, Eq, Structural)]
pub enum TwitterError {
    CommentTooLong,
    UnauthorizedReactionRemoval,
}

/// The length of a text in UTF-8 bytes, as `str::len` reports it.
pub open spec fn byte_len(s: Seq<char>) -> usize {
    encode_utf8(s).len() as usize
}

/// Writes a comment by `comment_author` under the tweet at `tweet`, unless
/// its content is longer than `COMMENT_LENGTH` bytes.
pub fn add_comment(comment_author: &Pubkey, tweet: &Pubkey, comment_content: String, bump: u8) -> (r:
    Result<Comment, TwitterError>)
    ensures
        byte_len(comment_content@) > COMMENT_LENGTH <==> r == Err::<Comment, TwitterError>(
            TwitterError::CommentTooLong,
        ),
        match r {
            Ok(c) => {
                &&& c.content@ == comment_content@
                &&& c.comment_author == *comment_author
                &&& c.parent_tweet == *tweet
                &&& c.bump == bump
            },
            Err(e) => e == TwitterError::CommentTooLong,
        },
{
    if comment_content.as_str().len() > COMMENT_LENGTH {
        return Err(TwitterError::CommentTooLong);
    }
    Ok(Comment { comment_author: *comment_author, parent_tweet: *tweet, content: comment_content, bump })
}

/// Takes back a reaction: only its author may, and the matching counter of
/// the tweet goes down by one. The reaction record is consumed.
pub fn remove_reaction(tweet: &mut Tweet, tweet_reaction: Reaction, reaction_author: &Pubkey) -> (r:
    Result<(), TwitterError>)
    requires
        tweet_reaction.reaction == ReactionType::Like ==> old(tweet).likes > 0,
        tweet_reaction.reaction == ReactionType::Dislike ==> old(tweet).dislikes > 0,
    ensures
        match r {
            Ok(()) => {
                &&& tweet_reaction.reaction_author@ == reaction_author@
                &&& final(tweet).likes == old(tweet).likes - if tweet_reaction.reaction
                    == ReactionType::Like {
                    1int
                } else {
                    0int
                }
                &&& final(tweet).dislikes == old(tweet).dislikes - if tweet_reaction.reaction
                    == ReactionType::Dislike {
                    1int
                } else {
                    0int
                }
            },
            Err(e) => {
                &&& tweet_reaction.reaction_author@ != reaction_author@
                &&& e == TwitterError::UnauthorizedReactionRemoval
                &&& *final(tweet) == *old(tweet)
            },
        },
{
    if !tweet_reaction.reaction_author.same_key(reaction_author) {
        return Err(TwitterError::UnauthorizedReactionRemoval);
    }
    match tweet_reaction.reaction {
        ReactionType::Like => tweet.likes = tweet.likes - 1,
        ReactionType::Dislike => tweet.dislikes = tweet.dislikes - 1,
    }
    Ok(())
}

} // verus!

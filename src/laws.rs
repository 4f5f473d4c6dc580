use crate::accounts::{CreatePost, CreateProfile, FollowUser, JoinCommunity, LikePost, TipPost, VotePoll};
use crate::address::{
    binds, follow_seeds, like_seeds, membership_seeds, profile_seeds, vote_seeds,
};
use crate::constants::FIXED_TIP_AMOUNT;
use crate::errors::SocialError;
use crate::ledger::{likes_of, LedgerView};
use crate::poll::vote_poll_error;
use crate::post::{create_post_error, like_post_error, new_post, tip_post_error};
use crate::profile::{create_profile_error, follow_pair_error, follow_user_error};
use crate::community::join_community_error;
use vstd::prelude::*;

verus! {

/// In every well-formed ledger, the posts of a community carry exactly the
/// ids 0, 1, ..., post_counter - 1: each id below the counter belongs to one
/// post of that community, and no post of it has another id. Every operation
/// keeps the ledger well-formed, so this holds after any sequence of them.
pub proof fn lemma_post_ids_gapless(v: LedgerView, c: Seq<u8>)
    requires
        v.inv(),
        v.communities.contains_key(c),
    ensures
        forall|i: u64| i < v.communities[c].post_counter ==> #[trigger] v.post_with_id(c, i),
        forall|p: Seq<u8>|
            #[trigger] v.posts.contains_key(p) && v.posts[p].community@ == c ==> v.posts[p].post_id
                < v.communities[c].post_counter,
        forall|p: Seq<u8>, q: Seq<u8>|
            #![trigger v.posts[p], v.posts[q]]
            v.posts.contains_key(p) && v.posts.contains_key(q) && v.posts[p].community@ == c
                && v.posts[q].community@ == c && v.posts[p].post_id == v.posts[q].post_id ==> p == q,
{
    assert forall|i: u64| i < v.communities[c].post_counter implies #[trigger] v.post_with_id(c, i) by {
        // names the terms that trigger the invariant
        assert(v.communities[c] == v.communities[c]);
    }
}

/// In every well-formed ledger, each post's like count is the number of like
/// records addressed to it.
pub proof fn lemma_likes_count_matches(v: LedgerView, p: Seq<u8>)
    requires
        v.inv(),
        v.posts.contains_key(p),
    ensures
        v.posts[p].likes_count as nat == likes_of(v.likes, p).len(),
{
}

/// A second profile for the same owner is refused with `AlreadyExists`.
pub proof fn lemma_second_profile_fails(
    v: LedgerView,
    ctx: CreateProfile,
    display_name: Seq<char>,
    avatar_uri: Seq<char>,
)
    requires
        binds(v.program_id, profile_seeds(ctx.owner@), ctx.profile@),
        v.profiles.contains_key(ctx.profile@),
    ensures
        create_profile_error(v, ctx, display_name, avatar_uri) == Some(SocialError::AlreadyExists),
{
}

/// Following the same profile twice is refused with `AlreadyExists`, once the
/// signer's and the followed profile check out.
pub proof fn lemma_second_follow_fails(v: LedgerView, ctx: FollowUser)
    requires
        follow_pair_error(v, ctx.follower_profile@, ctx.followed_profile@, ctx.owner@) is None,
        ctx.follower_profile@ != ctx.followed_profile@,
        binds(v.program_id, follow_seeds(ctx.follower_profile@, ctx.followed_profile@), ctx.follow@),
        v.follows.contains_key(ctx.follow@),
    ensures
        follow_user_error(v, ctx) == Some(SocialError::AlreadyExists),
{
}

/// Joining a community twice is refused with `AlreadyExists`, once the
/// community and the user's profile check out.
pub proof fn lemma_second_membership_fails(v: LedgerView, ctx: JoinCommunity)
    requires
        v.communities.contains_key(ctx.community@),
        binds(v.program_id, profile_seeds(ctx.user@), ctx.user_profile@),
        v.profiles.contains_key(ctx.user_profile@),
        binds(v.program_id, membership_seeds(ctx.community@, ctx.user@), ctx.membership@),
        v.memberships.contains_key(ctx.membership@),
    ensures
        join_community_error(v, ctx) == Some(SocialError::AlreadyExists),
{
}

/// Liking a post twice is refused with `AlreadyExists`, once the post and the
/// liker's membership check out.
pub proof fn lemma_second_like_fails(v: LedgerView, ctx: LikePost)
    requires
        v.posts.contains_key(ctx.post@),
        binds(
            v.program_id,
            membership_seeds(v.posts[ctx.post@].community@, ctx.liker@),
            ctx.membership@,
        ),
        v.memberships.contains_key(ctx.membership@),
        binds(v.program_id, like_seeds(ctx.post@, ctx.liker@), ctx.like@),
        v.likes.contains_key(ctx.like@),
    ensures
        like_post_error(v, ctx) == Some(SocialError::AlreadyExists),
{
}

/// Voting twice on a poll is refused with `AlreadyExists`, once the poll and
/// the voter's membership check out, whatever the time and the choice.
pub proof fn lemma_second_vote_fails(v: LedgerView, ctx: VotePoll, option_index: u8, now: i64)
    requires
        v.polls.contains_key(ctx.poll@),
        binds(
            v.program_id,
            membership_seeds(v.polls[ctx.poll@].community@, ctx.voter@),
            ctx.membership@,
        ),
        v.memberships.contains_key(ctx.membership@),
        binds(v.program_id, vote_seeds(ctx.poll@, ctx.voter@), ctx.vote@),
        v.votes.contains_key(ctx.vote@),
    ensures
        vote_poll_error(v, ctx, option_index, now) == Some(SocialError::AlreadyExists),
{
}

/// A first vote at or after the poll's end time is refused with `PollEnded`,
/// whatever the choice.
pub proof fn lemma_vote_after_end_fails(v: LedgerView, ctx: VotePoll, option_index: u8, now: i64)
    requires
        v.polls.contains_key(ctx.poll@),
        binds(
            v.program_id,
            membership_seeds(v.polls[ctx.poll@].community@, ctx.voter@),
            ctx.membership@,
        ),
        v.memberships.contains_key(ctx.membership@),
        binds(v.program_id, vote_seeds(ctx.poll@, ctx.voter@), ctx.vote@),
        !v.in_use(ctx.vote@),
        now >= v.polls[ctx.poll@].end_time,
    ensures
        vote_poll_error(v, ctx, option_index, now) == Some(SocialError::PollEnded),
{
}

/// The anonymity rule of post creation, once the community, the membership,
/// the post address and the content address check out: an anonymous post
/// with a pseudonym within its ceiling is stored without author and with that
/// pseudonym; a signed post without pseudonym is stored with the signer as
/// author and no pseudonym; an anonymous post without pseudonym and a signed
/// one with a pseudonym are refused.
pub proof fn lemma_anonymity_round_trip(
    v: LedgerView,
    ctx: CreatePost,
    content_uri: String,
    content_hash: [u8; 32],
    pseudonym: String,
    now: i64,
)
    requires
        create_post_error(v, ctx, content_uri@, false, None) is None,
    ensures
        create_post_error(v, ctx, content_uri@, true, None) == Some(
            SocialError::PseudonymRequired,
        ),
        create_post_error(v, ctx, content_uri@, false, Some(pseudonym)) == Some(
            SocialError::PseudonymNotAllowed,
        ),
        create_post_error(v, ctx, content_uri@, true, Some(pseudonym)) is None <==> crate::ledger::byte_len(
            pseudonym@,
        ) <= crate::constants::MAX_PSEUDONYM_LEN,
        new_post(v, ctx, content_uri, content_hash, false, None, now).author == Some(ctx.author),
        new_post(v, ctx, content_uri, content_hash, false, None, now).pseudonym is None,
        new_post(v, ctx, content_uri, content_hash, true, Some(pseudonym), now).author is None,
        new_post(v, ctx, content_uri, content_hash, true, Some(pseudonym), now).pseudonym == Some(
            pseudonym,
        ),
{
}

/// A tip of any amount but the fixed one is refused with `InvalidTipAmount`,
/// whatever the post and its author.
pub proof fn lemma_wrong_tip_amount_fails(v: LedgerView, ctx: TipPost, amount: u64)
    requires
        amount != FIXED_TIP_AMOUNT,
    ensures
        tip_post_error(v, ctx, amount) == Some(SocialError::InvalidTipAmount),
{
}

} // verus!

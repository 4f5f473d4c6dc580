use crate::address::Address;
use vstd::prelude::*;

verus! {

/// A user's profile, stored at the address derived from its owner.
#[derive(Debug)]
pub struct ProfileAccount {
    pub owner: Address,
    pub display_name: String,
    pub avatar_uri: String,
    pub follower_count: u64,
    pub following_count: u64,
    pub created_at: i64,
}

/// A community, stored at the address derived from its id.
#[derive(Debug)]
pub struct CommunityAccount {
    pub name: String,
    pub description_uri: String,
    pub creator: Address,
    pub community_id: u64,
    pub member_count: u64,
    /// The id that the next post of this community receives.
    pub post_counter: u64,
    /// The id that the next poll of this community receives.
    pub poll_counter: u64,
    pub created_at: i64,
}

/// Proof that `user` belongs to `community`.
#[derive(Debug)]
pub struct MembershipAccount {
    pub community: Address,
    pub user: Address,
    pub joined_at: i64,
}

/// A post. `author` is absent exactly when the post is anonymous, and then
/// `pseudonym` is present.
#[derive(Debug)]
pub struct PostAccount {
    pub community: Address,
    pub post_id: u64,
    pub content_uri: String,
    pub content_hash: [u8; 32],
    pub author: Option<Address>,
    pub pseudonym: Option<String>,
    pub likes_count: u64,
    /// The id that the next comment on this post receives.
    pub comments_count: u64,
    pub total_tip_lamports: u64,
    pub created_at: i64,
}

#[derive(Debug)]
pub struct LikeAccount {
    pub post: Address,
    pub liker: Address,
    pub liked_at: i64,
}

#[derive(Debug)]
pub struct CommentAccount {
    pub post: Address,
    pub commenter: Address,
    pub comment_id: u64,
    pub content_uri: String,
    pub content_hash: [u8; 32],
    pub created_at: i64,
}

/// `follower` and `followed` are profile addresses.
#[derive(Debug)]
pub struct FollowAccount {
    pub follower: Address,
    pub followed: Address,
    pub followed_at: i64,
}

/// One choice of a poll with its tally; keeping them together keeps the
/// tallies as many as the choices.
#[derive(Clone, Copy, Debug)]
pub struct PollOption {
    pub profile: Address,
    pub votes: u32,
}

#[derive(Debug)]
pub struct PollAccount {
    pub community: Address,
    pub poll_id: u64,
    pub question_uri: String,
    pub options: Vec<PollOption>,
    pub created_by: Address,
    /// Voting is open strictly before this instant.
    pub end_time: i64,
    pub created_at: i64,
}

impl PollAccount {
    /// The choices, in order.
    pub fn option_profiles(&self) -> (r: Vec<Address>)
        ensures
            r@.len() == self.options@.len(),
            forall|i: int| 0 <= i < r@.len() ==> r@[i] == self.options@[i].profile,
    {
        let mut out: Vec<Address> = Vec::new();
        let mut i: usize = 0;
        while i < self.options.len()
            invariant
                0 <= i <= self.options@.len(),
                out@.len() == i,
                forall|j: int| 0 <= j < i ==> out@[j] == self.options@[j].profile,
            decreases self.options@.len() - i,
        {
            out.push(self.options[i].profile);
            i = i + 1;
        }
        out
    }

    /// The tallies, parallel to the choices.
    pub fn votes_per_option(&self) -> (r: Vec<u32>)
        ensures
            r@.len() == self.options@.len(),
            forall|i: int| 0 <= i < r@.len() ==> r@[i] == self.options@[i].votes,
    {
        let mut out: Vec<u32> = Vec::new();
        let mut i: usize = 0;
        while i < self.options.len()
            invariant
                0 <= i <= self.options@.len(),
                out@.len() == i,
                forall|j: int| 0 <= j < i ==> out@[j] == self.options@[j].votes,
            decreases self.options@.len() - i,
        {
            out.push(self.options[i].votes);
            i = i + 1;
        }
        out
    }
}

#[derive(Debug)]
pub struct VoteAccount {
    pub poll: Address,
    pub voter: Address,
    pub option_index: u8,
    pub voted_at: i64,
}

} // verus!

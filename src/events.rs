use crate::address::Address;
use vstd::prelude::*;

verus! {

#[derive(Debug)]
pub struct ProfileCreated {
    pub profile: Address,
    pub owner: Address,
    pub display_name: String,
    pub timestamp: i64,
}

#[derive(Debug)]
pub struct ProfileUpdated {
    pub profile: Address,
    pub owner: Address,
    pub timestamp: i64,
}

#[derive(Debug)]
pub struct UserFollowed {
    pub follower: Address,
    pub followed: Address,
    pub timestamp: i64,
}

#[derive(Debug)]
pub struct UserUnfollowed {
    pub follower: Address,
    pub unfollowed: Address,
    pub timestamp: i64,
}

#[derive(Debug)]
pub struct CommunityCreated {
    pub community: Address,
    pub creator: Address,
    pub name: String,
    pub timestamp: i64,
}

#[derive(Debug)]
pub struct CommunityJoined {
    pub community: Address,
    pub user: Address,
    pub timestamp: i64,
}

#[derive(Debug)]
pub struct CommunityLeft {
    pub community: Address,
    pub user: Address,
    pub timestamp: i64,
}

#[derive(Debug)]
pub struct PostCreated {
    pub post: Address,
    pub community: Address,
    pub post_id: u64,
    pub author: Option<Address>,
    pub is_anonymous: bool,
    pub timestamp: i64,
}

#[derive(Debug)]
pub struct PostLiked {
    pub post: Address,
    pub liker: Address,
    pub timestamp: i64,
}

#[derive(Debug)]
pub struct PostUnliked {
    pub post: Address,
    pub unliker: Address,
    pub timestamp: i64,
}

#[derive(Debug)]
pub struct CommentCreated {
    pub comment: Address,
    pub post: Address,
    pub comment_id: u64,
    pub commenter: Address,
    pub timestamp: i64,
}

/// Also the transfer that the host carries out: `amount` lamports from
/// `tipper` to `recipient`.
#[derive(Debug)]
pub struct PostTipped {
    pub post: Address,
    pub tipper: Address,
    pub recipient: Address,
    pub amount: u64,
    pub timestamp: i64,
}

#[derive(Debug)]
pub struct PollCreated {
    pub poll: Address,
    pub community: Address,
    pub poll_id: u64,
    pub creator: Address,
    pub end_time: i64,
    pub timestamp: i64,
}

#[derive(Debug)]
pub struct PollVoted {
    pub poll: Address,
    pub voter: Address,
    pub option_index: u8,
    pub timestamp: i64,
}

} // verus!

use crate::address::Address;
use vstd::prelude::*;

verus! {

// The addresses that an operation reads or writes, as its caller supplies them.
// The last field is the signer, whose signature the host has checked.

#[derive(Clone, Copy, Debug)]
pub struct CreateProfile {
    pub profile: Address,
    pub owner: Address,
}

#[derive(Clone, Copy, Debug)]
pub struct UpdateProfile {
    pub profile: Address,
    pub owner: Address,
}

#[derive(Clone, Copy, Debug)]
pub struct FollowUser {
    pub follower_profile: Address,
    pub followed_profile: Address,
    pub follow: Address,
    pub owner: Address,
}

#[derive(Clone, Copy, Debug)]
pub struct UnfollowUser {
    pub follower_profile: Address,
    pub followed_profile: Address,
    pub follow: Address,
    pub owner: Address,
}

#[derive(Clone, Copy, Debug)]
pub struct CreateCommunity {
    pub community: Address,
    pub creator_profile: Address,
    pub membership: Address,
    pub creator: Address,
}

#[derive(Clone, Copy, Debug)]
pub struct JoinCommunity {
    pub community: Address,
    pub user_profile: Address,
    pub membership: Address,
    pub user: Address,
}

#[derive(Clone, Copy, Debug)]
pub struct LeaveCommunity {
    pub community: Address,
    pub membership: Address,
    pub user: Address,
}

#[derive(Clone, Copy, Debug)]
pub struct CreatePost {
    pub community: Address,
    pub membership: Address,
    pub post: Address,
    pub author: Address,
}

#[derive(Clone, Copy, Debug)]
pub struct LikePost {
    pub post: Address,
    pub membership: Address,
    pub like: Address,
    pub liker: Address,
}

#[derive(Clone, Copy, Debug)]
pub struct UnlikePost {
    pub post: Address,
    pub like: Address,
    pub liker: Address,
}

#[derive(Clone, Copy, Debug)]
pub struct CommentOnPost {
    pub post: Address,
    pub membership: Address,
    pub comment: Address,
    pub commenter: Address,
}

#[derive(Clone, Copy, Debug)]
pub struct TipPost {
    pub post: Address,
    pub recipient: Address,
    pub tipper: Address,
}

#[derive(Clone, Copy, Debug)]
pub struct CreatePoll {
    pub community: Address,
    pub membership: Address,
    pub poll: Address,
    pub creator: Address,
}

#[derive(Clone, Copy, Debug)]
pub struct VotePoll {
    pub poll: Address,
    pub membership: Address,
    pub vote: Address,
    pub voter: Address,
}

} // verus!

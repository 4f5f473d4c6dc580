use slick::accounts::{
    CommentOnPost, CreateCommunity, CreatePoll, CreatePost, CreateProfile, FollowUser,
    JoinCommunity, LeaveCommunity, LikePost, TipPost, UnfollowUser, UnlikePost, UpdateProfile,
    VotePoll,
};
use slick::address::{
    comment_address, community_address, follow_address, like_address, membership_address,
    poll_address, post_address, profile_address, tag, u64_le_bytes, vote_address, Address,
    RecordKind,
};
use slick::community::{create_community, join_community, leave_community};
use slick::constants::{record_size, FIXED_TIP_AMOUNT};
use slick::errors::SocialError;
use slick::ledger::{str_byte_len, Ledger};
use slick::poll::{create_poll, vote_poll};
use slick::post::{comment_on_post, create_post, like_post, tip_post, unlike_post};
use slick::profile::{create_profile, follow_user, unfollow_user, update_profile};
use slick::state::{CommunityAccount, PollAccount, PostAccount, ProfileAccount};

fn program() -> Address {
    Address::new([7u8; 32])
}

fn user(n: u8) -> Address {
    Address::new([n; 32])
}

fn new_ledger() -> Ledger {
    Ledger::new(program())
}

fn profile_of(owner: &Address) -> Address {
    profile_address(&program(), owner).unwrap()
}

fn membership_of(community: &Address, u: &Address) -> Address {
    membership_address(&program(), community, u).unwrap()
}

fn add_profile(l: &mut Ledger, owner: Address) -> Address {
    let profile = profile_of(&owner);
    create_profile(l, &CreateProfile { profile, owner }, "name".to_string(), "ipfs://a".to_string(), 10)
        .unwrap();
    profile
}

fn add_community(l: &mut Ledger, creator: Address, id: u64) -> Address {
    add_profile(l, creator);
    let community = community_address(&program(), id).unwrap();
    let ctx = CreateCommunity {
        community,
        creator_profile: profile_of(&creator),
        membership: membership_of(&community, &creator),
        creator,
    };
    create_community(l, &ctx, "rust".to_string(), "ipfs://d".to_string(), id, 20).unwrap();
    community
}

fn add_member(l: &mut Ledger, community: Address, u: Address) {
    add_profile(l, u);
    let ctx = JoinCommunity {
        community,
        user_profile: profile_of(&u),
        membership: membership_of(&community, &u),
        user: u,
    };
    join_community(l, &ctx, 30).unwrap();
}

fn community_rec<'a>(l: &'a Ledger, a: &Address) -> &'a CommunityAccount {
    l.communities.get(l.communities.find(a).unwrap())
}

fn post_rec<'a>(l: &'a Ledger, a: &Address) -> &'a PostAccount {
    l.posts.get(l.posts.find(a).unwrap())
}

fn profile_rec<'a>(l: &'a Ledger, a: &Address) -> &'a ProfileAccount {
    l.profiles.get(l.profiles.find(a).unwrap())
}

fn poll_rec<'a>(l: &'a Ledger, a: &Address) -> &'a PollAccount {
    l.polls.get(l.polls.find(a).unwrap())
}

fn post_ctx(l: &Ledger, community: Address, author: Address) -> CreatePost {
    let counter = community_rec(l, &community).post_counter;
    CreatePost {
        community,
        membership: membership_of(&community, &author),
        post: post_address(&program(), &community, counter).unwrap(),
        author,
    }
}

fn add_post(l: &mut Ledger, community: Address, author: Address) -> Address {
    let ctx = post_ctx(l, community, author);
    create_post(l, &ctx, "ipfs://p".to_string(), [1u8; 32], false, None, 40).unwrap();
    ctx.post
}

fn like_ctx(l: &Ledger, post: Address, liker: Address) -> LikePost {
    let community = post_rec(l, &post).community;
    LikePost {
        post,
        membership: membership_of(&community, &liker),
        like: like_address(&program(), &post, &liker).unwrap(),
        liker,
    }
}

fn unlike_ctx(post: Address, liker: Address) -> UnlikePost {
    UnlikePost { post, like: like_address(&program(), &post, &liker).unwrap(), liker }
}

fn poll_ctx(l: &Ledger, community: Address, creator: Address) -> CreatePoll {
    let counter = community_rec(l, &community).poll_counter;
    CreatePoll {
        community,
        membership: membership_of(&community, &creator),
        poll: poll_address(&program(), &community, counter).unwrap(),
        creator,
    }
}

fn vote_ctx(l: &Ledger, poll: Address, voter: Address) -> VotePoll {
    let community = poll_rec(l, &poll).community;
    VotePoll {
        poll,
        membership: membership_of(&community, &voter),
        vote: vote_address(&program(), &poll, &voter).unwrap(),
        voter,
    }
}

fn follow_ctx(follower: Address, followed: Address) -> FollowUser {
    let fp = profile_of(&follower);
    let tp = profile_of(&followed);
    FollowUser {
        follower_profile: fp,
        followed_profile: tp,
        follow: follow_address(&program(), &fp, &tp).unwrap(),
        owner: follower,
    }
}

// ---------- addresses ----------

#[test]
fn le_bytes_of_counter() {
    assert_eq!(u64_le_bytes(0x0102), vec![2u8, 1, 0, 0, 0, 0, 0, 0]);
    assert_eq!(u64_le_bytes(u64::MAX), vec![255u8; 8]);
}

#[test]
fn tags_are_entity_names() {
    assert_eq!(tag(RecordKind::Profile), b"profile".to_vec());
    assert_eq!(tag(RecordKind::Membership), b"membership".to_vec());
    assert_eq!(tag(RecordKind::Vote), b"vote".to_vec());
}

#[test]
fn derived_address_is_deterministic_and_new() {
    let owner = user(1);
    let a = profile_of(&owner);
    let b = profile_of(&owner);
    assert!(a.same(&b));
    assert!(!a.same(&owner));
    assert!(!a.same(&profile_of(&user(2))));
    let c = community_address(&program(), 1).unwrap();
    let d = community_address(&program(), 2).unwrap();
    assert!(!c.same(&d));
    let m = membership_of(&c, &owner);
    let f = follow_address(&program(), &c, &owner).unwrap();
    assert!(!m.same(&f));
}

#[test]
fn byte_length_counts_utf8() {
    assert_eq!(str_byte_len(&"h\u{e9}llo".to_string()), 6);
    assert_eq!(str_byte_len(&String::new()), 0);
}

// ---------- profiles and follows ----------

#[test]
fn profile_created_with_zero_counts() {
    let mut l = new_ledger();
    let owner = user(1);
    let profile = profile_of(&owner);
    let ev = create_profile(&mut l, &CreateProfile { profile, owner }, "alice".to_string(), "ipfs://x".to_string(), 5)
        .unwrap();
    assert_eq!(ev.display_name, "alice");
    assert_eq!(ev.timestamp, 5);
    let p = profile_rec(&l, &profile);
    assert_eq!(p.follower_count, 0);
    assert_eq!(p.following_count, 0);
    assert_eq!(p.display_name, "alice");
    assert!(p.owner.same(&owner));
}

#[test]
fn second_profile_fails_already_exists() {
    let mut l = new_ledger();
    let owner = user(1);
    let profile = add_profile(&mut l, owner);
    let r = create_profile(&mut l, &CreateProfile { profile, owner }, "b".to_string(), "c".to_string(), 11);
    assert!(matches!(r, Err(SocialError::AlreadyExists)));
    let long = "x".repeat(60);
    let r = create_profile(&mut l, &CreateProfile { profile, owner }, long, "c".to_string(), 11);
    assert!(matches!(r, Err(SocialError::AlreadyExists)));
}

#[test]
fn profile_length_ceilings() {
    let mut l = new_ledger();
    let owner = user(1);
    let profile = profile_of(&owner);
    let ctx = CreateProfile { profile, owner };
    let r = create_profile(&mut l, &ctx, "x".repeat(51), "u".to_string(), 1);
    assert!(matches!(r, Err(SocialError::DisplayNameTooLong)));
    let r = create_profile(&mut l, &ctx, "x".to_string(), "u".repeat(201), 1);
    assert!(matches!(r, Err(SocialError::AvatarUriTooLong)));
    let r = create_profile(&mut l, &ctx, "x".repeat(50), "u".repeat(200), 1);
    assert!(r.is_ok());
}

#[test]
fn profile_address_must_bind() {
    let mut l = new_ledger();
    let r = create_profile(
        &mut l,
        &CreateProfile { profile: profile_of(&user(2)), owner: user(1) },
        "a".to_string(),
        "b".to_string(),
        1,
    );
    assert!(matches!(r, Err(SocialError::SeedsMismatch)));
}

#[test]
fn update_profile_replaces_only_given_fields() {
    let mut l = new_ledger();
    let owner = user(1);
    let profile = add_profile(&mut l, owner);
    update_profile(&mut l, &UpdateProfile { profile, owner }, Some("bob".to_string()), None, 12).unwrap();
    let p = profile_rec(&l, &profile);
    assert_eq!(p.display_name, "bob");
    assert_eq!(p.avatar_uri, "ipfs://a");
    let r = update_profile(&mut l, &UpdateProfile { profile, owner }, Some("ok".to_string()), Some("u".repeat(201)), 13);
    assert!(matches!(r, Err(SocialError::AvatarUriTooLong)));
    assert_eq!(profile_rec(&l, &profile).display_name, "bob");
    let r = update_profile(&mut l, &UpdateProfile { profile, owner }, Some("n".repeat(51)), None, 13);
    assert!(matches!(r, Err(SocialError::DisplayNameTooLong)));
    let r = update_profile(&mut l, &UpdateProfile { profile: profile_of(&user(2)), owner: user(2) }, None, None, 13);
    assert!(matches!(r, Err(SocialError::AccountNotFound)));
}

#[test]
fn follow_and_unfollow_move_follower_count() {
    let mut l = new_ledger();
    let a = user(1);
    let b = user(2);
    add_profile(&mut l, a);
    let bp = add_profile(&mut l, b);
    let ctx = follow_ctx(a, b);
    follow_user(&mut l, &ctx, 50).unwrap();
    assert_eq!(profile_rec(&l, &bp).follower_count, 1);
    assert!(matches!(follow_user(&mut l, &ctx, 51), Err(SocialError::AlreadyExists)));
    let un = UnfollowUser {
        follower_profile: ctx.follower_profile,
        followed_profile: ctx.followed_profile,
        follow: ctx.follow,
        owner: a,
    };
    let ev = unfollow_user(&mut l, &un, 52).unwrap();
    assert!(ev.unfollowed.same(&bp));
    assert_eq!(profile_rec(&l, &bp).follower_count, 0);
    assert!(matches!(unfollow_user(&mut l, &un, 53), Err(SocialError::NotFollowing)));
    follow_user(&mut l, &ctx, 54).unwrap();
    assert_eq!(profile_rec(&l, &bp).follower_count, 1);
}

#[test]
fn cannot_follow_self() {
    let mut l = new_ledger();
    let a = user(1);
    add_profile(&mut l, a);
    assert!(matches!(follow_user(&mut l, &follow_ctx(a, a), 5), Err(SocialError::CannotFollowSelf)));
}

#[test]
fn follow_needs_own_profile_signer() {
    let mut l = new_ledger();
    let a = user(1);
    let b = user(2);
    add_profile(&mut l, a);
    add_profile(&mut l, b);
    let mut ctx = follow_ctx(a, b);
    ctx.owner = b;
    assert!(matches!(follow_user(&mut l, &ctx, 5), Err(SocialError::SeedsMismatch)));
}

// ---------- communities ----------

#[test]
fn community_creation_makes_creator_member() {
    let mut l = new_ledger();
    let c = add_community(&mut l, user(1), 9);
    let rec = community_rec(&l, &c);
    assert_eq!(rec.member_count, 1);
    assert_eq!(rec.post_counter, 0);
    assert_eq!(rec.poll_counter, 0);
    assert_eq!(rec.community_id, 9);
    assert!(l.memberships.contains(&membership_of(&c, &user(1))));
}

#[test]
fn community_needs_creator_profile() {
    let mut l = new_ledger();
    let creator = user(1);
    let community = community_address(&program(), 3).unwrap();
    let ctx = CreateCommunity {
        community,
        creator_profile: profile_of(&creator),
        membership: membership_of(&community, &creator),
        creator,
    };
    let r = create_community(&mut l, &ctx, "n".to_string(), "d".to_string(), 3, 1);
    assert!(matches!(r, Err(SocialError::AccountNotFound)));
    add_profile(&mut l, creator);
    let r = create_community(&mut l, &ctx, "n".repeat(101), "d".to_string(), 3, 1);
    assert!(matches!(r, Err(SocialError::CommunityNameTooLong)));
    let r = create_community(&mut l, &ctx, "n".to_string(), "d".repeat(201), 3, 1);
    assert!(matches!(r, Err(SocialError::DescriptionUriTooLong)));
    create_community(&mut l, &ctx, "n".to_string(), "d".to_string(), 3, 1).unwrap();
    let r = create_community(&mut l, &ctx, "n".to_string(), "d".to_string(), 3, 1);
    assert!(matches!(r, Err(SocialError::AlreadyExists)));
}

#[test]
fn join_twice_fails_and_leave_counts_down() {
    let mut l = new_ledger();
    let c = add_community(&mut l, user(1), 1);
    add_member(&mut l, c, user(2));
    assert_eq!(community_rec(&l, &c).member_count, 2);
    let ctx = JoinCommunity {
        community: c,
        user_profile: profile_of(&user(2)),
        membership: membership_of(&c, &user(2)),
        user: user(2),
    };
    assert!(matches!(join_community(&mut l, &ctx, 31), Err(SocialError::AlreadyExists)));
    let leave = LeaveCommunity { community: c, membership: membership_of(&c, &user(2)), user: user(2) };
    leave_community(&mut l, &leave, 32).unwrap();
    assert_eq!(community_rec(&l, &c).member_count, 1);
    assert!(!l.memberships.contains(&leave.membership));
    assert!(matches!(leave_community(&mut l, &leave, 33), Err(SocialError::AccountNotFound)));
    join_community(&mut l, &ctx, 34).unwrap();
    assert_eq!(community_rec(&l, &c).member_count, 2);
}

#[test]
fn join_needs_profile() {
    let mut l = new_ledger();
    let c = add_community(&mut l, user(1), 1);
    let ctx = JoinCommunity {
        community: c,
        user_profile: profile_of(&user(5)),
        membership: membership_of(&c, &user(5)),
        user: user(5),
    };
    assert!(matches!(join_community(&mut l, &ctx, 1), Err(SocialError::AccountNotFound)));
}

// ---------- posts ----------

#[test]
fn post_ids_are_sequential() {
    let mut l = new_ledger();
    let c = add_community(&mut l, user(1), 1);
    assert_eq!(community_rec(&l, &c).post_counter, 0);
    let ctx = post_ctx(&l, c, user(1));
    let ev = create_post(&mut l, &ctx, "ipfs://1".to_string(), [0u8; 32], false, None, 40).unwrap();
    assert_eq!(ev.post_id, 0);
    assert_eq!(post_rec(&l, &ctx.post).post_id, 0);
    assert_eq!(community_rec(&l, &c).post_counter, 1);
    let ctx2 = post_ctx(&l, c, user(1));
    let ev = create_post(&mut l, &ctx2, "ipfs://2".to_string(), [0u8; 32], false, None, 41).unwrap();
    assert_eq!(ev.post_id, 1);
    assert_eq!(post_rec(&l, &ctx2.post).post_id, 1);
    assert_eq!(community_rec(&l, &c).post_counter, 2);
    let p3 = add_post(&mut l, c, user(1));
    assert_eq!(post_rec(&l, &p3).post_id, 2);
    let r = create_post(&mut l, &ctx, "ipfs://1".to_string(), [0u8; 32], false, None, 40);
    assert!(matches!(r, Err(SocialError::SeedsMismatch)));
}

#[test]
fn post_ids_are_per_community() {
    let mut l = new_ledger();
    let c1 = add_community(&mut l, user(1), 1);
    let c2 = add_community(&mut l, user(2), 2);
    add_post(&mut l, c1, user(1));
    add_post(&mut l, c1, user(1));
    let p = add_post(&mut l, c2, user(2));
    assert_eq!(post_rec(&l, &p).post_id, 0);
    assert_eq!(community_rec(&l, &c1).post_counter, 2);
    assert_eq!(community_rec(&l, &c2).post_counter, 1);
}

#[test]
fn anonymous_post_round_trip() {
    let mut l = new_ledger();
    let c = add_community(&mut l, user(1), 1);
    let ctx = post_ctx(&l, c, user(1));
    let ev = create_post(&mut l, &ctx, "ipfs://g".to_string(), [3u8; 32], true, Some("ghost".to_string()), 40)
        .unwrap();
    assert!(ev.author.is_none());
    assert!(ev.is_anonymous);
    let p = post_rec(&l, &ctx.post);
    assert!(p.author.is_none());
    assert_eq!(p.pseudonym, Some("ghost".to_string()));
    assert_eq!(p.content_hash, [3u8; 32]);

    let ctx = post_ctx(&l, c, user(1));
    create_post(&mut l, &ctx, "ipfs://s".to_string(), [3u8; 32], false, None, 41).unwrap();
    let p = post_rec(&l, &ctx.post);
    assert!(p.author.unwrap().same(&user(1)));
    assert!(p.pseudonym.is_none());
}

#[test]
fn anonymity_mismatches_fail() {
    let mut l = new_ledger();
    let c = add_community(&mut l, user(1), 1);
    let ctx = post_ctx(&l, c, user(1));
    let r = create_post(&mut l, &ctx, "u".to_string(), [0u8; 32], true, None, 1);
    assert!(matches!(r, Err(SocialError::PseudonymRequired)));
    let r = create_post(&mut l, &ctx, "u".to_string(), [0u8; 32], false, Some("ghost".to_string()), 1);
    assert!(matches!(r, Err(SocialError::PseudonymNotAllowed)));
    let r = create_post(&mut l, &ctx, "u".to_string(), [0u8; 32], true, Some("g".repeat(31)), 1);
    assert!(matches!(r, Err(SocialError::PseudonymTooLong)));
    let r = create_post(&mut l, &ctx, "u".repeat(201), [0u8; 32], false, None, 1);
    assert!(matches!(r, Err(SocialError::ContentUriTooLong)));
    assert_eq!(community_rec(&l, &c).post_counter, 0);
    assert!(!l.posts.contains(&ctx.post));
}

#[test]
fn post_needs_membership() {
    let mut l = new_ledger();
    let c = add_community(&mut l, user(1), 1);
    add_profile(&mut l, user(2));
    let ctx = post_ctx(&l, c, user(2));
    let r = create_post(&mut l, &ctx, "u".to_string(), [0u8; 32], false, None, 1);
    assert!(matches!(r, Err(SocialError::AccountNotFound)));
}

#[test]
fn likes_count_follows_like_records() {
    let mut l = new_ledger();
    let c = add_community(&mut l, user(1), 1);
    add_member(&mut l, c, user(2));
    add_member(&mut l, c, user(3));
    let p = add_post(&mut l, c, user(1));
    let lc = like_ctx(&l, p, user(2));
    like_post(&mut l, &lc, 60).unwrap();
    let lc = like_ctx(&l, p, user(3));
    like_post(&mut l, &lc, 61).unwrap();
    assert_eq!(post_rec(&l, &p).likes_count, 2);
    unlike_post(&mut l, &unlike_ctx(p, user(2)), 62).unwrap();
    assert_eq!(post_rec(&l, &p).likes_count, 1);
    let lc = like_ctx(&l, p, user(2));
    like_post(&mut l, &lc, 63).unwrap();
    unlike_post(&mut l, &unlike_ctx(p, user(3)), 64).unwrap();
    unlike_post(&mut l, &unlike_ctx(p, user(2)), 65).unwrap();
    assert_eq!(post_rec(&l, &p).likes_count, 0);
    assert!(matches!(unlike_post(&mut l, &unlike_ctx(p, user(2)), 66), Err(SocialError::AccountNotFound)));
}

#[test]
fn double_like_fails() {
    let mut l = new_ledger();
    let c = add_community(&mut l, user(1), 1);
    add_member(&mut l, c, user(2));
    let p = add_post(&mut l, c, user(1));
    let ctx = like_ctx(&l, p, user(2));
    like_post(&mut l, &ctx, 60).unwrap();
    assert!(matches!(like_post(&mut l, &ctx, 61), Err(SocialError::AlreadyExists)));
    assert_eq!(post_rec(&l, &p).likes_count, 1);
}

#[test]
fn cannot_like_own_signed_post_but_may_like_anonymous() {
    let mut l = new_ledger();
    let c = add_community(&mut l, user(1), 1);
    let p = add_post(&mut l, c, user(1));
    let lc = like_ctx(&l, p, user(1));
    let r = like_post(&mut l, &lc, 60);
    assert!(matches!(r, Err(SocialError::CannotLikeOwnPost)));
    let ctx = post_ctx(&l, c, user(1));
    create_post(&mut l, &ctx, "u".to_string(), [0u8; 32], true, Some("g".to_string()), 1).unwrap();
    let lc = like_ctx(&l, ctx.post, user(1));
    like_post(&mut l, &lc, 61).unwrap();
    assert_eq!(post_rec(&l, &ctx.post).likes_count, 1);
}

#[test]
fn unlike_with_other_signer_fails() {
    let mut l = new_ledger();
    let c = add_community(&mut l, user(1), 1);
    add_member(&mut l, c, user(2));
    let p = add_post(&mut l, c, user(1));
    let lc = like_ctx(&l, p, user(2));
    like_post(&mut l, &lc, 60).unwrap();
    let ctx = UnlikePost { post: p, like: like_address(&program(), &p, &user(2)).unwrap(), liker: user(3) };
    assert!(matches!(unlike_post(&mut l, &ctx, 61), Err(SocialError::SeedsMismatch)));
}

#[test]
fn comment_ids_are_sequential() {
    let mut l = new_ledger();
    let c = add_community(&mut l, user(1), 1);
    add_member(&mut l, c, user(2));
    let p = add_post(&mut l, c, user(1));
    for i in 0..3u64 {
        let ctx = CommentOnPost {
            post: p,
            membership: membership_of(&c, &user(2)),
            comment: comment_address(&program(), &p, i).unwrap(),
            commenter: user(2),
        };
        let ev = comment_on_post(&mut l, &ctx, "ipfs://c".to_string(), [9u8; 32], 70).unwrap();
        assert_eq!(ev.comment_id, i);
    }
    assert_eq!(post_rec(&l, &p).comments_count, 3);
    let ctx = CommentOnPost {
        post: p,
        membership: membership_of(&c, &user(2)),
        comment: comment_address(&program(), &p, 3).unwrap(),
        commenter: user(2),
    };
    let r = comment_on_post(&mut l, &ctx, "u".repeat(201), [9u8; 32], 71);
    assert!(matches!(r, Err(SocialError::ContentUriTooLong)));
}

#[test]
fn tip_accumulates() {
    let mut l = new_ledger();
    let c = add_community(&mut l, user(1), 1);
    let p = add_post(&mut l, c, user(1));
    let ctx = TipPost { post: p, recipient: user(1), tipper: user(2) };
    let ev = tip_post(&mut l, &ctx, FIXED_TIP_AMOUNT, 80).unwrap();
    assert_eq!(ev.amount, 2_000_000);
    assert!(ev.recipient.same(&user(1)));
    assert!(ev.tipper.same(&user(2)));
    tip_post(&mut l, &ctx, FIXED_TIP_AMOUNT, 81).unwrap();
    assert_eq!(post_rec(&l, &p).total_tip_lamports, 4_000_000);
}

#[test]
fn wrong_tip_amount_fails_whatever_the_post() {
    let mut l = new_ledger();
    let c = add_community(&mut l, user(1), 1);
    let p = add_post(&mut l, c, user(1));
    let good = TipPost { post: p, recipient: user(1), tipper: user(2) };
    assert!(matches!(tip_post(&mut l, &good, 1_000_000, 80), Err(SocialError::InvalidTipAmount)));
    let missing = TipPost { post: user(99), recipient: user(3), tipper: user(3) };
    assert!(matches!(tip_post(&mut l, &missing, 0, 80), Err(SocialError::InvalidTipAmount)));
    assert_eq!(post_rec(&l, &p).total_tip_lamports, 0);
}

#[test]
fn tip_rules() {
    let mut l = new_ledger();
    let c = add_community(&mut l, user(1), 1);
    let p = add_post(&mut l, c, user(1));
    let wrong = TipPost { post: p, recipient: user(2), tipper: user(3) };
    assert!(matches!(tip_post(&mut l, &wrong, FIXED_TIP_AMOUNT, 1), Err(SocialError::InvalidTipAmount)));
    let own = TipPost { post: p, recipient: user(1), tipper: user(1) };
    assert!(matches!(tip_post(&mut l, &own, FIXED_TIP_AMOUNT, 1), Err(SocialError::CannotTipOwnPost)));
    let ctx = post_ctx(&l, c, user(1));
    create_post(&mut l, &ctx, "u".to_string(), [0u8; 32], true, Some("g".to_string()), 1).unwrap();
    let anon = TipPost { post: ctx.post, recipient: user(1), tipper: user(2) };
    assert!(matches!(tip_post(&mut l, &anon, FIXED_TIP_AMOUNT, 1), Err(SocialError::InvalidTipAmount)));
}

// ---------- polls ----------

fn three_option_poll(l: &mut Ledger) -> (Address, Address) {
    let c = add_community(l, user(1), 1);
    add_member(l, c, user(2));
    add_member(l, c, user(3));
    let ctx = poll_ctx(l, c, user(1));
    create_poll(l, &ctx, "ipfs://q".to_string(), vec![user(1), user(2), user(3)], 1000, 100).unwrap();
    (c, ctx.poll)
}

#[test]
fn vote_counts_and_duplicate_and_bad_index() {
    let mut l = new_ledger();
    let (_c, poll) = three_option_poll(&mut l);
    assert_eq!(poll_rec(&l, &poll).votes_per_option(), vec![0u32, 0, 0]);
    let ctx = vote_ctx(&l, poll, user(2));
    vote_poll(&mut l, &ctx, 1, 500).unwrap();
    assert_eq!(poll_rec(&l, &poll).votes_per_option(), vec![0u32, 1, 0]);
    assert!(matches!(vote_poll(&mut l, &ctx, 1, 501), Err(SocialError::AlreadyExists)));
    let other = vote_ctx(&l, poll, user(3));
    assert!(matches!(vote_poll(&mut l, &other, 3, 502), Err(SocialError::InvalidPollOption)));
    assert_eq!(poll_rec(&l, &poll).votes_per_option(), vec![0u32, 1, 0]);
}

#[test]
fn vote_closes_at_end_time() {
    let mut l = new_ledger();
    let (_c, poll) = three_option_poll(&mut l);
    let ctx = vote_ctx(&l, poll, user(2));
    assert!(matches!(vote_poll(&mut l, &ctx, 0, 1000), Err(SocialError::PollEnded)));
    assert!(matches!(vote_poll(&mut l, &ctx, 0, 2000), Err(SocialError::PollEnded)));
    vote_poll(&mut l, &ctx, 0, 999).unwrap();
    assert_eq!(poll_rec(&l, &poll).votes_per_option(), vec![1u32, 0, 0]);
}

#[test]
fn poll_creation_rules() {
    let mut l = new_ledger();
    let c = add_community(&mut l, user(1), 1);
    let ctx = poll_ctx(&l, c, user(1));
    let r = create_poll(&mut l, &ctx, "q".to_string(), vec![user(1)], 1000, 100);
    assert!(matches!(r, Err(SocialError::TooFewPollOptions)));
    let r = create_poll(&mut l, &ctx, "q".to_string(), vec![user(1); 11], 1000, 100);
    assert!(matches!(r, Err(SocialError::TooManyPollOptions)));
    let r = create_poll(&mut l, &ctx, "q".repeat(201), vec![user(1); 2], 1000, 100);
    assert!(matches!(r, Err(SocialError::QuestionUriTooLong)));
    let r = create_poll(&mut l, &ctx, "q".to_string(), vec![user(1); 2], 100, 100);
    assert!(matches!(r, Err(SocialError::PollEnded)));
    let ev = create_poll(&mut l, &ctx, "q".to_string(), vec![user(1), user(2)], 101, 100).unwrap();
    assert_eq!(ev.poll_id, 0);
    let rec = poll_rec(&l, &ctx.poll);
    assert_eq!(rec.votes_per_option(), vec![0u32, 0]);
    assert!(rec.option_profiles()[1].same(&user(2)));
    assert_eq!(community_rec(&l, &c).poll_counter, 1);
    let ctx2 = poll_ctx(&l, c, user(1));
    let ev = create_poll(&mut l, &ctx2, "q".to_string(), vec![user(1); 10], 101, 100).unwrap();
    assert_eq!(ev.poll_id, 1);
}

#[test]
fn vote_needs_membership() {
    let mut l = new_ledger();
    let (_c, poll) = three_option_poll(&mut l);
    add_profile(&mut l, user(8));
    let ctx = vote_ctx(&l, poll, user(8));
    assert!(matches!(vote_poll(&mut l, &ctx, 0, 500), Err(SocialError::AccountNotFound)));
}

#[test]
fn leave_by_other_user_is_refused() {
    let mut l = new_ledger();
    let c = add_community(&mut l, user(1), 1);
    add_member(&mut l, c, user(2));
    let ctx = LeaveCommunity { community: c, membership: membership_of(&c, &user(2)), user: user(1) };
    assert!(matches!(leave_community(&mut l, &ctx, 5), Err(SocialError::SeedsMismatch)));
    assert_eq!(community_rec(&l, &c).member_count, 2);
}

#[test]
fn record_sizes_come_from_ceilings() {
    assert_eq!(record_size(RecordKind::Profile), 322);
    assert_eq!(record_size(RecordKind::Membership), 80);
    assert_eq!(record_size(RecordKind::Vote), 81);
    assert_eq!(record_size(RecordKind::Poll), 8 + 32 + 8 + 4 + 200 + 4 + 320 + 4 + 40 + 32 + 8 + 8);
}

use crate::accounts::{CreateProfile, FollowUser, UnfollowUser, UpdateProfile};
use crate::address::{binds, bind, follow_address, follow_seeds, profile_address, profile_seeds};
use crate::constants::{MAX_AVATAR_URI_LEN, MAX_DISPLAY_NAME_LEN};
use crate::errors::SocialError;
use crate::events::{ProfileCreated, ProfileUpdated, UserFollowed, UserUnfollowed};
use crate::ledger::{
    byte_len, lemma_post_ids_frame, str_byte_len, Ledger, LedgerView,
};
use crate::state::{FollowAccount, ProfileAccount};
use vstd::prelude::*;

verus! {

/// The first check that a profile creation fails, or `None` when it succeeds.
pub open spec fn create_profile_error(
    v: LedgerView,
    ctx: CreateProfile,
    display_name: Seq<char>,
    avatar_uri: Seq<char>,
) -> Option<SocialError> {
    if !binds(v.program_id, profile_seeds(ctx.owner@), ctx.profile@) {
        Some(SocialError::SeedsMismatch)
    } else if v.in_use(ctx.profile@) {
        Some(SocialError::AlreadyExists)
    } else if byte_len(display_name) > MAX_DISPLAY_NAME_LEN {
        Some(SocialError::DisplayNameTooLong)
    } else if byte_len(avatar_uri) > MAX_AVATAR_URI_LEN {
        Some(SocialError::AvatarUriTooLong)
    } else {
        None
    }
}

/// Creates the signer's profile, with both counts at zero.
pub fn create_profile(
    ledger: &mut Ledger,
    ctx: &CreateProfile,
    display_name: String,
    avatar_uri: String,
    now: i64,
) -> (r: Result<ProfileCreated, SocialError>)
    requires
        old(ledger).wf(),
    ensures
        final(ledger).wf(),
        match create_profile_error(old(ledger)@, *ctx, display_name@, avatar_uri@) {
            Some(e) => r == Err::<ProfileCreated, SocialError>(e) && final(ledger)@ == old(ledger)@,
            None => {
                &&& final(ledger)@ == (LedgerView {
                    profiles: old(ledger)@.profiles.insert(
                        ctx.profile@,
                        ProfileAccount {
                            owner: ctx.owner,
                            display_name,
                            avatar_uri,
                            follower_count: 0,
                            following_count: 0,
                            created_at: now,
                        },
                    ),
                    ..old(ledger)@
                })
                &&& r == Ok::<ProfileCreated, SocialError>(
                    ProfileCreated {
                        profile: ctx.profile,
                        owner: ctx.owner,
                        display_name,
                        timestamp: now,
                    },
                )
            },
        },
{
    let ghost v0 = ledger@;
    if !bind(profile_address(&ledger.program_id, &ctx.owner), &ctx.profile) {
        return Err(SocialError::SeedsMismatch);
    }
    if ledger.occupied(&ctx.profile) {
        return Err(SocialError::AlreadyExists);
    }
    if str_byte_len(&display_name) > MAX_DISPLAY_NAME_LEN {
        return Err(SocialError::DisplayNameTooLong);
    }
    if str_byte_len(&avatar_uri) > MAX_AVATAR_URI_LEN {
        return Err(SocialError::AvatarUriTooLong);
    }
    let created = ProfileCreated {
        profile: ctx.profile,
        owner: ctx.owner,
        display_name: display_name.clone(),
        timestamp: now,
    };
    ledger.profiles.insert(
        ctx.profile,
        ProfileAccount {
            owner: ctx.owner,
            display_name,
            avatar_uri,
            follower_count: 0,
            following_count: 0,
            created_at: now,
        },
    );
    proof {
        lemma_post_ids_frame(v0, ledger@);
    }
    Ok(created)
}

/// The first check that a profile update fails, or `None` when it succeeds.
pub open spec fn update_profile_error(
    v: LedgerView,
    ctx: UpdateProfile,
    display_name: Option<String>,
    avatar_uri: Option<String>,
) -> Option<SocialError> {
    if !binds(v.program_id, profile_seeds(ctx.owner@), ctx.profile@) {
        Some(SocialError::SeedsMismatch)
    } else if !v.profiles.contains_key(ctx.profile@) {
        Some(SocialError::AccountNotFound)
    } else if v.profiles[ctx.profile@].owner@ != ctx.owner@ {
        Some(SocialError::Unauthorized)
    } else if display_name is Some && byte_len(display_name->0@) > MAX_DISPLAY_NAME_LEN {
        Some(SocialError::DisplayNameTooLong)
    } else if avatar_uri is Some && byte_len(avatar_uri->0@) > MAX_AVATAR_URI_LEN {
        Some(SocialError::AvatarUriTooLong)
    } else {
        None
    }
}

/// The owner's profile with each supplied field replaced.
pub open spec fn updated_profile(
    p: ProfileAccount,
    display_name: Option<String>,
    avatar_uri: Option<String>,
) -> ProfileAccount {
    ProfileAccount {
        display_name: match display_name {
            Some(n) => n,
            None => p.display_name,
        },
        avatar_uri: match avatar_uri {
            Some(u) => u,
            None => p.avatar_uri,
        },
        ..p
    }
}

/// Replaces the supplied fields of the signer's profile; absent ones stay.
pub fn update_profile(
    ledger: &mut Ledger,
    ctx: &UpdateProfile,
    display_name: Option<String>,
    avatar_uri: Option<String>,
    now: i64,
) -> (r: Result<ProfileUpdated, SocialError>)
    requires
        old(ledger).wf(),
    ensures
        final(ledger).wf(),
        match update_profile_error(old(ledger)@, *ctx, display_name, avatar_uri) {
            Some(e) => r == Err::<ProfileUpdated, SocialError>(e) && final(ledger)@ == old(ledger)@,
            None => {
                &&& final(ledger)@ == (LedgerView {
                    profiles: old(ledger)@.profiles.insert(
                        ctx.profile@,
                        updated_profile(
                            old(ledger)@.profiles[ctx.profile@],
                            display_name,
                            avatar_uri,
                        ),
                    ),
                    ..old(ledger)@
                })
                &&& r == Ok::<ProfileUpdated, SocialError>(
                    ProfileUpdated {
                        profile: ctx.profile,
                        owner: old(ledger)@.profiles[ctx.profile@].owner,
                        timestamp: now,
                    },
                )
            },
        },
{
    let ghost v0 = ledger@;
    if !bind(profile_address(&ledger.program_id, &ctx.owner), &ctx.profile) {
        return Err(SocialError::SeedsMismatch);
    }
    let pi = match ledger.profiles.find(&ctx.profile) {
        Some(i) => i,
        None => return Err(SocialError::AccountNotFound),
    };
    if !ledger.profiles.get(pi).owner.same(&ctx.owner) {
        return Err(SocialError::Unauthorized);
    }
    if let Some(n) = &display_name {
        if str_byte_len(n) > MAX_DISPLAY_NAME_LEN {
            return Err(SocialError::DisplayNameTooLong);
        }
    }
    if let Some(u) = &avatar_uri {
        if str_byte_len(u) > MAX_AVATAR_URI_LEN {
            return Err(SocialError::AvatarUriTooLong);
        }
    }
    let (pkey, mut profile) = ledger.profiles.remove(pi);
    if let Some(n) = display_name {
        profile.display_name = n;
    }
    if let Some(u) = avatar_uri {
        profile.avatar_uri = u;
    }
    let owner = profile.owner;
    ledger.profiles.insert(pkey, profile);
    proof {
        lemma_post_ids_frame(v0, ledger@);
        assert(ledger@.profiles =~= v0.profiles.insert(
            ctx.profile@,
            updated_profile(v0.profiles[ctx.profile@], display_name, avatar_uri),
        ));
    }
    Ok(ProfileUpdated { profile: ctx.profile, owner, timestamp: now })
}

/// The checks that following and unfollowing share: the signer's own profile,
/// and the profile followed.
pub open spec fn follow_pair_error(
    v: LedgerView,
    follower_profile: Seq<u8>,
    followed_profile: Seq<u8>,
    owner: Seq<u8>,
) -> Option<SocialError> {
    if !binds(v.program_id, profile_seeds(owner), follower_profile) {
        Some(SocialError::SeedsMismatch)
    } else if !v.profiles.contains_key(follower_profile) {
        Some(SocialError::AccountNotFound)
    } else if v.profiles[follower_profile].owner@ != owner {
        Some(SocialError::Unauthorized)
    } else if !v.profiles.contains_key(followed_profile) {
        Some(SocialError::AccountNotFound)
    } else {
        None
    }
}

/// The first check that a follow fails, or `None` when it succeeds.
pub open spec fn follow_user_error(v: LedgerView, ctx: FollowUser) -> Option<SocialError> {
    if follow_pair_error(v, ctx.follower_profile@, ctx.followed_profile@, ctx.owner@) is Some {
        follow_pair_error(v, ctx.follower_profile@, ctx.followed_profile@, ctx.owner@)
    } else if ctx.follower_profile@ == ctx.followed_profile@ {
        Some(SocialError::CannotFollowSelf)
    } else if !binds(
        v.program_id,
        follow_seeds(ctx.follower_profile@, ctx.followed_profile@),
        ctx.follow@,
    ) {
        Some(SocialError::SeedsMismatch)
    } else if v.in_use(ctx.follow@) {
        Some(SocialError::AlreadyExists)
    } else if v.profiles[ctx.followed_profile@].follower_count == u64::MAX {
        Some(SocialError::ArithmeticOverflow)
    } else {
        None
    }
}

fn check_follow_pair(
    ledger: &Ledger,
    follower_profile: &crate::address::Address,
    followed_profile: &crate::address::Address,
    owner: &crate::address::Address,
) -> (r: Result<usize, SocialError>)
    requires
        ledger.wf(),
    ensures
        match follow_pair_error(ledger@, follower_profile@, followed_profile@, owner@) {
            Some(e) => r == Err::<usize, SocialError>(e),
            None => r matches Ok(i) && i < ledger.profiles.len() && ledger.profiles.key_at(i as int)
                == followed_profile@,
        },
{
    if !bind(profile_address(&ledger.program_id, owner), follower_profile) {
        return Err(SocialError::SeedsMismatch);
    }
    let fi = match ledger.profiles.find(follower_profile) {
        Some(i) => i,
        None => return Err(SocialError::AccountNotFound),
    };
    if !ledger.profiles.get(fi).owner.same(owner) {
        return Err(SocialError::Unauthorized);
    }
    match ledger.profiles.find(followed_profile) {
        Some(i) => Ok(i),
        None => Err(SocialError::AccountNotFound),
    }
}

/// Records that the signer's profile follows another profile, and adds one
/// to that profile's follower count.
pub fn follow_user(ledger: &mut Ledger, ctx: &FollowUser, now: i64) -> (r: Result<
    UserFollowed,
    SocialError,
>)
    requires
        old(ledger).wf(),
    ensures
        final(ledger).wf(),
        match follow_user_error(old(ledger)@, *ctx) {
            Some(e) => r == Err::<UserFollowed, SocialError>(e) && final(ledger)@ == old(ledger)@,
            None => {
                let p = old(ledger)@.profiles[ctx.followed_profile@];
                &&& final(ledger)@ == (LedgerView {
                    profiles: old(ledger)@.profiles.insert(
                        ctx.followed_profile@,
                        (ProfileAccount { follower_count: (p.follower_count + 1) as u64, ..p }),
                    ),
                    follows: old(ledger)@.follows.insert(
                        ctx.follow@,
                        FollowAccount {
                            follower: ctx.follower_profile,
                            followed: ctx.followed_profile,
                            followed_at: now,
                        },
                    ),
                    ..old(ledger)@
                })
                &&& r == Ok::<UserFollowed, SocialError>(
                    UserFollowed {
                        follower: ctx.follower_profile,
                        followed: ctx.followed_profile,
                        timestamp: now,
                    },
                )
            },
        },
{
    let ghost v0 = ledger@;
    let ti = match check_follow_pair(ledger, &ctx.follower_profile, &ctx.followed_profile, &ctx.owner) {
        Ok(i) => i,
        Err(e) => return Err(e),
    };
    if ctx.follower_profile.same(&ctx.followed_profile) {
        return Err(SocialError::CannotFollowSelf);
    }
    if !bind(
        follow_address(&ledger.program_id, &ctx.follower_profile, &ctx.followed_profile),
        &ctx.follow,
    ) {
        return Err(SocialError::SeedsMismatch);
    }
    if ledger.occupied(&ctx.follow) {
        return Err(SocialError::AlreadyExists);
    }
    let count = ledger.profiles.get(ti).follower_count;
    if count == u64::MAX {
        return Err(SocialError::ArithmeticOverflow);
    }
    let (pkey, mut profile) = ledger.profiles.remove(ti);
    profile.follower_count = count + 1;
    ledger.profiles.insert(pkey, profile);
    ledger.follows.insert(
        ctx.follow,
        FollowAccount {
            follower: ctx.follower_profile,
            followed: ctx.followed_profile,
            followed_at: now,
        },
    );
    proof {
        lemma_post_ids_frame(v0, ledger@);
        let p0 = v0.profiles[ctx.followed_profile@];
        assert(ledger@.profiles =~= v0.profiles.insert(
            ctx.followed_profile@,
            (ProfileAccount { follower_count: (p0.follower_count + 1) as u64, ..p0 }),
        ));
    }
    Ok(
        UserFollowed {
            follower: ctx.follower_profile,
            followed: ctx.followed_profile,
            timestamp: now,
        },
    )
}

/// The first check that an unfollow fails, or `None` when it succeeds.
pub open spec fn unfollow_user_error(v: LedgerView, ctx: UnfollowUser) -> Option<SocialError> {
    if follow_pair_error(v, ctx.follower_profile@, ctx.followed_profile@, ctx.owner@) is Some {
        follow_pair_error(v, ctx.follower_profile@, ctx.followed_profile@, ctx.owner@)
    } else if !binds(
        v.program_id,
        follow_seeds(ctx.follower_profile@, ctx.followed_profile@),
        ctx.follow@,
    ) {
        Some(SocialError::SeedsMismatch)
    } else if !v.follows.contains_key(ctx.follow@) {
        Some(SocialError::NotFollowing)
    } else if v.profiles[ctx.followed_profile@].follower_count == 0 {
        Some(SocialError::ArithmeticUnderflow)
    } else {
        None
    }
}

/// Removes the follow record of the signer's profile and takes one from the
/// followed profile's follower count.
pub fn unfollow_user(ledger: &mut Ledger, ctx: &UnfollowUser, now: i64) -> (r: Result<
    UserUnfollowed,
    SocialError,
>)
    requires
        old(ledger).wf(),
    ensures
        final(ledger).wf(),
        match unfollow_user_error(old(ledger)@, *ctx) {
            Some(e) => r == Err::<UserUnfollowed, SocialError>(e) && final(ledger)@ == old(
                ledger,
            )@,
            None => {
                let p = old(ledger)@.profiles[ctx.followed_profile@];
                let f = old(ledger)@.follows[ctx.follow@];
                &&& final(ledger)@ == (LedgerView {
                    profiles: old(ledger)@.profiles.insert(
                        ctx.followed_profile@,
                        (ProfileAccount { follower_count: (p.follower_count - 1) as u64, ..p }),
                    ),
                    follows: old(ledger)@.follows.remove(ctx.follow@),
                    ..old(ledger)@
                })
                &&& r == Ok::<UserUnfollowed, SocialError>(
                    UserUnfollowed { follower: f.follower, unfollowed: f.followed, timestamp: now },
                )
            },
        },
{
    let ghost v0 = ledger@;
    let ti = match check_follow_pair(ledger, &ctx.follower_profile, &ctx.followed_profile, &ctx.owner) {
        Ok(i) => i,
        Err(e) => return Err(e),
    };
    if !bind(
        follow_address(&ledger.program_id, &ctx.follower_profile, &ctx.followed_profile),
        &ctx.follow,
    ) {
        return Err(SocialError::SeedsMismatch);
    }
    let fi = match ledger.follows.find(&ctx.follow) {
        Some(i) => i,
        None => return Err(SocialError::NotFollowing),
    };
    let count = ledger.profiles.get(ti).follower_count;
    if count == 0 {
        return Err(SocialError::ArithmeticUnderflow);
    }
    let (pkey, mut profile) = ledger.profiles.remove(ti);
    profile.follower_count = count - 1;
    ledger.profiles.insert(pkey, profile);
    let (_, follow) = ledger.follows.remove(fi);
    proof {
        lemma_post_ids_frame(v0, ledger@);
        let p0 = v0.profiles[ctx.followed_profile@];
        assert(ledger@.profiles =~= v0.profiles.insert(
            ctx.followed_profile@,
            (ProfileAccount { follower_count: (p0.follower_count - 1) as u64, ..p0 }),
        ));
    }
    Ok(UserUnfollowed { follower: follow.follower, unfollowed: follow.followed, timestamp: now })
}

} // verus!

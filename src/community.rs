use crate::accounts::{CreateCommunity, JoinCommunity, LeaveCommunity};
use crate::address::{
    binds, bind, community_address, community_seeds, membership_address, membership_seeds,
    profile_address, profile_seeds,
};
use crate::constants::{MAX_COMMUNITY_NAME_LEN, MAX_DESCRIPTION_URI_LEN};
use crate::errors::SocialError;
use crate::events::{CommunityCreated, CommunityJoined, CommunityLeft};
use crate::ledger::{
    byte_len, lemma_post_ids_frame, str_byte_len, Ledger, LedgerView,
};
use crate::state::{CommunityAccount, MembershipAccount};
use vstd::prelude::*;

verus! {

/// The first check that a community creation fails, or `None` when it succeeds.
pub open spec fn create_community_error(
    v: LedgerView,
    ctx: CreateCommunity,
    name: Seq<char>,
    description_uri: Seq<char>,
    community_id: u64,
) -> Option<SocialError> {
    if !binds(v.program_id, community_seeds(community_id), ctx.community@) {
        Some(SocialError::SeedsMismatch)
    } else if v.in_use(ctx.community@) {
        Some(SocialError::AlreadyExists)
    } else if !binds(v.program_id, profile_seeds(ctx.creator@), ctx.creator_profile@) {
        Some(SocialError::SeedsMismatch)
    } else if !v.profiles.contains_key(ctx.creator_profile@) {
        Some(SocialError::AccountNotFound)
    } else if !binds(v.program_id, membership_seeds(ctx.community@, ctx.creator@), ctx.membership@) {
        Some(SocialError::SeedsMismatch)
    } else if v.in_use(ctx.membership@) || ctx.membership@ == ctx.community@ {
        Some(SocialError::AlreadyExists)
    } else if byte_len(name) > MAX_COMMUNITY_NAME_LEN {
        Some(SocialError::CommunityNameTooLong)
    } else if byte_len(description_uri) > MAX_DESCRIPTION_URI_LEN {
        Some(SocialError::DescriptionUriTooLong)
    } else {
        None
    }
}

/// Creates a community whose creator, who must hold a profile, is its first member.
pub fn create_community(
    ledger: &mut Ledger,
    ctx: &CreateCommunity,
    name: String,
    description_uri: String,
    community_id: u64,
    now: i64,
) -> (r: Result<(CommunityCreated, CommunityJoined), SocialError>)
    requires
        old(ledger).wf(),
    ensures
        final(ledger).wf(),
        match create_community_error(old(ledger)@, *ctx, name@, description_uri@, community_id) {
            Some(e) => r == Err::<(CommunityCreated, CommunityJoined), SocialError>(e)
                && final(ledger)@ == old(ledger)@,
            None => {
                &&& final(ledger)@ == (LedgerView {
                    communities: old(ledger)@.communities.insert(
                        ctx.community@,
                        CommunityAccount {
                            name,
                            description_uri,
                            creator: ctx.creator,
                            community_id,
                            member_count: 1,
                            post_counter: 0,
                            poll_counter: 0,
                            created_at: now,
                        },
                    ),
                    memberships: old(ledger)@.memberships.insert(
                        ctx.membership@,
                        MembershipAccount {
                            community: ctx.community,
                            user: ctx.creator,
                            joined_at: now,
                        },
                    ),
                    ..old(ledger)@
                })
                &&& r == Ok::<(CommunityCreated, CommunityJoined), SocialError>(
                    (
                        CommunityCreated {
                            community: ctx.community,
                            creator: ctx.creator,
                            name,
                            timestamp: now,
                        },
                        CommunityJoined {
                            community: ctx.community,
                            user: ctx.creator,
                            timestamp: now,
                        },
                    ),
                )
            },
        },
{
    let ghost v0 = ledger@;
    if !bind(community_address(&ledger.program_id, community_id), &ctx.community) {
        return Err(SocialError::SeedsMismatch);
    }
    if ledger.occupied(&ctx.community) {
        return Err(SocialError::AlreadyExists);
    }
    if !bind(profile_address(&ledger.program_id, &ctx.creator), &ctx.creator_profile) {
        return Err(SocialError::SeedsMismatch);
    }
    if !ledger.profiles.contains(&ctx.creator_profile) {
        return Err(SocialError::AccountNotFound);
    }
    if !bind(membership_address(&ledger.program_id, &ctx.community, &ctx.creator), &ctx.membership) {
        return Err(SocialError::SeedsMismatch);
    }
    if ledger.occupied(&ctx.membership) || ctx.membership.same(&ctx.community) {
        return Err(SocialError::AlreadyExists);
    }
    if str_byte_len(&name) > MAX_COMMUNITY_NAME_LEN {
        return Err(SocialError::CommunityNameTooLong);
    }
    if str_byte_len(&description_uri) > MAX_DESCRIPTION_URI_LEN {
        return Err(SocialError::DescriptionUriTooLong);
    }
    let created = CommunityCreated {
        community: ctx.community,
        creator: ctx.creator,
        name: name.clone(),
        timestamp: now,
    };
    ledger.communities.insert(
        ctx.community,
        CommunityAccount {
            name,
            description_uri,
            creator: ctx.creator,
            community_id,
            member_count: 1,
            post_counter: 0,
            poll_counter: 0,
            created_at: now,
        },
    );
    ledger.memberships.insert(
        ctx.membership,
        MembershipAccount { community: ctx.community, user: ctx.creator, joined_at: now },
    );
    proof {
        let v1 = ledger@;
        assert forall|c: Seq<u8>, i: u64|
            #![trigger v1.communities[c], v1.post_with_id(c, i)]
            v1.communities.contains_key(c) && i < v1.communities[c].post_counter implies v1.post_with_id(
            c,
            i,
        ) by {
            assert(c != ctx.community@);
            // names the terms that trigger the invariant
            assert(v0.communities[c] == v0.communities[c]);
            assert(v0.post_with_id(c, i));
        }
        assert(v1.inv());
    }
    Ok((created, CommunityJoined { community: ctx.community, user: ctx.creator, timestamp: now }))
}

/// The first check that joining a community fails, or `None` when it succeeds.
pub open spec fn join_community_error(v: LedgerView, ctx: JoinCommunity) -> Option<SocialError> {
    if !v.communities.contains_key(ctx.community@) {
        Some(SocialError::AccountNotFound)
    } else if !binds(v.program_id, profile_seeds(ctx.user@), ctx.user_profile@) {
        Some(SocialError::SeedsMismatch)
    } else if !v.profiles.contains_key(ctx.user_profile@) {
        Some(SocialError::AccountNotFound)
    } else if !binds(v.program_id, membership_seeds(ctx.community@, ctx.user@), ctx.membership@) {
        Some(SocialError::SeedsMismatch)
    } else if v.in_use(ctx.membership@) {
        Some(SocialError::AlreadyExists)
    } else if v.communities[ctx.community@].member_count == u64::MAX {
        Some(SocialError::ArithmeticOverflow)
    } else {
        None
    }
}

/// Makes the signer, who must hold a profile, a member of a community.
pub fn join_community(ledger: &mut Ledger, ctx: &JoinCommunity, now: i64) -> (r: Result<
    CommunityJoined,
    SocialError,
>)
    requires
        old(ledger).wf(),
    ensures
        final(ledger).wf(),
        match join_community_error(old(ledger)@, *ctx) {
            Some(e) => r == Err::<CommunityJoined, SocialError>(e) && final(ledger)@ == old(ledger)@,
            None => {
                let c = old(ledger)@.communities[ctx.community@];
                &&& final(ledger)@ == (LedgerView {
                    communities: old(ledger)@.communities.insert(
                        ctx.community@,
                        (CommunityAccount { member_count: (c.member_count + 1) as u64, ..c }),
                    ),
                    memberships: old(ledger)@.memberships.insert(
                        ctx.membership@,
                        MembershipAccount { community: ctx.community, user: ctx.user, joined_at: now },
                    ),
                    ..old(ledger)@
                })
                &&& r == Ok::<CommunityJoined, SocialError>(
                    CommunityJoined { community: ctx.community, user: ctx.user, timestamp: now },
                )
            },
        },
{
    let ghost v0 = ledger@;
    let ci = match ledger.communities.find(&ctx.community) {
        Some(i) => i,
        None => return Err(SocialError::AccountNotFound),
    };
    if !bind(profile_address(&ledger.program_id, &ctx.user), &ctx.user_profile) {
        return Err(SocialError::SeedsMismatch);
    }
    if !ledger.profiles.contains(&ctx.user_profile) {
        return Err(SocialError::AccountNotFound);
    }
    if !bind(membership_address(&ledger.program_id, &ctx.community, &ctx.user), &ctx.membership) {
        return Err(SocialError::SeedsMismatch);
    }
    if ledger.occupied(&ctx.membership) {
        return Err(SocialError::AlreadyExists);
    }
    let count = ledger.communities.get(ci).member_count;
    if count == u64::MAX {
        return Err(SocialError::ArithmeticOverflow);
    }
    let (ckey, mut community) = ledger.communities.remove(ci);
    community.member_count = count + 1;
    ledger.communities.insert(ckey, community);
    ledger.memberships.insert(
        ctx.membership,
        MembershipAccount { community: ctx.community, user: ctx.user, joined_at: now },
    );
    proof {
        let v1 = ledger@;
        let c0 = v0.communities[ctx.community@];
        assert(v1.communities =~= v0.communities.insert(
            ctx.community@,
            (CommunityAccount { member_count: (c0.member_count + 1) as u64, ..c0 }),
        ));
        assert(v1.communities.dom() =~= v0.communities.dom());
        lemma_post_ids_frame(v0, v1);
        assert(v1.inv());
    }
    Ok(CommunityJoined { community: ctx.community, user: ctx.user, timestamp: now })
}

/// The first check that leaving a community fails, or `None` when it succeeds.
pub open spec fn leave_community_error(v: LedgerView, ctx: LeaveCommunity) -> Option<SocialError> {
    if !v.communities.contains_key(ctx.community@) {
        Some(SocialError::AccountNotFound)
    } else if !binds(v.program_id, membership_seeds(ctx.community@, ctx.user@), ctx.membership@) {
        Some(SocialError::SeedsMismatch)
    } else if !v.memberships.contains_key(ctx.membership@) {
        Some(SocialError::AccountNotFound)
    } else if v.memberships[ctx.membership@].community@ != ctx.community@
        || v.memberships[ctx.membership@].user@ != ctx.user@ {
        Some(SocialError::Unauthorized)
    } else if v.communities[ctx.community@].member_count == 0 {
        Some(SocialError::ArithmeticUnderflow)
    } else {
        None
    }
}

/// Removes the signer's own membership of a community.
pub fn leave_community(ledger: &mut Ledger, ctx: &LeaveCommunity, now: i64) -> (r: Result<
    CommunityLeft,
    SocialError,
>)
    requires
        old(ledger).wf(),
    ensures
        final(ledger).wf(),
        match leave_community_error(old(ledger)@, *ctx) {
            Some(e) => r == Err::<CommunityLeft, SocialError>(e) && final(ledger)@ == old(ledger)@,
            None => {
                let c = old(ledger)@.communities[ctx.community@];
                &&& final(ledger)@ == (LedgerView {
                    communities: old(ledger)@.communities.insert(
                        ctx.community@,
                        (CommunityAccount { member_count: (c.member_count - 1) as u64, ..c }),
                    ),
                    memberships: old(ledger)@.memberships.remove(ctx.membership@),
                    ..old(ledger)@
                })
                &&& r == Ok::<CommunityLeft, SocialError>(
                    CommunityLeft { community: ctx.community, user: ctx.user, timestamp: now },
                )
            },
        },
{
    let ghost v0 = ledger@;
    let ci = match ledger.communities.find(&ctx.community) {
        Some(i) => i,
        None => return Err(SocialError::AccountNotFound),
    };
    if !bind(membership_address(&ledger.program_id, &ctx.community, &ctx.user), &ctx.membership) {
        return Err(SocialError::SeedsMismatch);
    }
    let mi = match ledger.memberships.find(&ctx.membership) {
        Some(i) => i,
        None => return Err(SocialError::AccountNotFound),
    };
    let m = ledger.memberships.get(mi);
    if !m.community.same(&ctx.community) || !m.user.same(&ctx.user) {
        return Err(SocialError::Unauthorized);
    }
    let count = ledger.communities.get(ci).member_count;
    if count == 0 {
        return Err(SocialError::ArithmeticUnderflow);
    }
    let (ckey, mut community) = ledger.communities.remove(ci);
    community.member_count = count - 1;
    ledger.communities.insert(ckey, community);
    let _ = ledger.memberships.remove(mi);
    proof {
        let v1 = ledger@;
        let c0 = v0.communities[ctx.community@];
        assert(v1.communities =~= v0.communities.insert(
            ctx.community@,
            (CommunityAccount { member_count: (c0.member_count - 1) as u64, ..c0 }),
        ));
        assert(v1.communities.dom() =~= v0.communities.dom());
        lemma_post_ids_frame(v0, v1);
        assert(v1.inv());
    }
    Ok(CommunityLeft { community: ctx.community, user: ctx.user, timestamp: now })
}

} // verus!

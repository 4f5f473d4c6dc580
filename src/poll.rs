use crate::accounts::{CreatePoll, VotePoll};
use crate::address::{
    binds, bind, membership_address, membership_seeds, poll_address, poll_seeds, vote_address,
    vote_seeds, Address,
};
use crate::constants::{MAX_POLL_OPTIONS, MAX_QUESTION_URI_LEN, MIN_POLL_OPTIONS};
use crate::errors::SocialError;
use crate::events::{PollCreated, PollVoted};
use crate::ledger::{lemma_post_ids_frame, byte_len, str_byte_len, Ledger, LedgerView};
use crate::state::{CommunityAccount, PollAccount, PollOption, VoteAccount};
use vstd::prelude::*;

verus! {

/// The first check that a poll creation fails, or `None` when it succeeds.
pub open spec fn create_poll_error(
    v: LedgerView,
    ctx: CreatePoll,
    question_uri: Seq<char>,
    n_options: nat,
    end_time: i64,
    now: i64,
) -> Option<SocialError> {
    if !v.communities.contains_key(ctx.community@) {
        Some(SocialError::AccountNotFound)
    } else if !binds(v.program_id, membership_seeds(ctx.community@, ctx.creator@), ctx.membership@) {
        Some(SocialError::SeedsMismatch)
    } else if !v.memberships.contains_key(ctx.membership@) {
        Some(SocialError::AccountNotFound)
    } else if !binds(
        v.program_id,
        poll_seeds(ctx.community@, v.communities[ctx.community@].poll_counter),
        ctx.poll@,
    ) {
        Some(SocialError::SeedsMismatch)
    } else if v.in_use(ctx.poll@) {
        Some(SocialError::AlreadyExists)
    } else if byte_len(question_uri) > MAX_QUESTION_URI_LEN {
        Some(SocialError::QuestionUriTooLong)
    } else if n_options < MIN_POLL_OPTIONS {
        Some(SocialError::TooFewPollOptions)
    } else if n_options > MAX_POLL_OPTIONS {
        Some(SocialError::TooManyPollOptions)
    } else if end_time <= now {
        Some(SocialError::PollEnded)
    } else if v.communities[ctx.community@].poll_counter == u64::MAX {
        Some(SocialError::ArithmeticOverflow)
    } else {
        None
    }
}

/// `options` lists `profiles` in order, each with no votes yet.
pub open spec fn fresh_options(options: Seq<PollOption>, profiles: Seq<Address>) -> bool {
    &&& options.len() == profiles.len()
    &&& forall|i: int|
        0 <= i < options.len() ==> #[trigger] options[i] == (PollOption {
            profile: profiles[i],
            votes: 0,
        })
}

fn zero_tallies(profiles: &Vec<Address>) -> (r: Vec<PollOption>)
    ensures
        fresh_options(r@, profiles@),
{
    let mut out: Vec<PollOption> = Vec::new();
    let mut i: usize = 0;
    while i < profiles.len()
        invariant
            0 <= i <= profiles@.len(),
            fresh_options(out@, profiles@.subrange(0, i as int)),
        decreases profiles@.len() - i,
    {
        out.push(PollOption { profile: profiles[i], votes: 0 });
        i = i + 1;
    }
    assert(profiles@.subrange(0, profiles@.len() as int) =~= profiles@);
    out
}

/// Opens a poll in a community that the signer belongs to, with a zero tally
/// for each choice. Its id is the community's poll counter, which then grows by one.
pub fn create_poll(
    ledger: &mut Ledger,
    ctx: &CreatePoll,
    question_uri: String,
    option_profiles: Vec<Address>,
    end_time: i64,
    now: i64,
) -> (r: Result<PollCreated, SocialError>)
    requires
        old(ledger).wf(),
    ensures
        final(ledger).wf(),
        match create_poll_error(
            old(ledger)@,
            *ctx,
            question_uri@,
            option_profiles@.len(),
            end_time,
            now,
        ) {
            Some(e) => r == Err::<PollCreated, SocialError>(e) && final(ledger)@ == old(ledger)@,
            None => {
                let c = old(ledger)@.communities[ctx.community@];
                let p = final(ledger)@.polls[ctx.poll@];
                &&& final(ledger)@ == (LedgerView {
                    polls: old(ledger)@.polls.insert(ctx.poll@, p),
                    communities: old(ledger)@.communities.insert(
                        ctx.community@,
                        (CommunityAccount { poll_counter: (c.poll_counter + 1) as u64, ..c }),
                    ),
                    ..old(ledger)@
                })
                &&& p.community == ctx.community
                &&& p.poll_id == c.poll_counter
                &&& p.question_uri == question_uri
                &&& fresh_options(p.options@, option_profiles@)
                &&& p.created_by == ctx.creator
                &&& p.end_time == end_time
                &&& p.created_at == now
                &&& r == Ok::<PollCreated, SocialError>(
                    PollCreated {
                        poll: ctx.poll,
                        community: ctx.community,
                        poll_id: c.poll_counter,
                        creator: ctx.creator,
                        end_time,
                        timestamp: now,
                    },
                )
            },
        },
{
    let ghost v0 = ledger@;
    let ci = match ledger.communities.find(&ctx.community) {
        Some(i) => i,
        None => return Err(SocialError::AccountNotFound),
    };
    let counter = ledger.communities.get(ci).poll_counter;
    if !bind(membership_address(&ledger.program_id, &ctx.community, &ctx.creator), &ctx.membership) {
        return Err(SocialError::SeedsMismatch);
    }
    if !ledger.memberships.contains(&ctx.membership) {
        return Err(SocialError::AccountNotFound);
    }
    if !bind(poll_address(&ledger.program_id, &ctx.community, counter), &ctx.poll) {
        return Err(SocialError::SeedsMismatch);
    }
    if ledger.occupied(&ctx.poll) {
        return Err(SocialError::AlreadyExists);
    }
    if str_byte_len(&question_uri) > MAX_QUESTION_URI_LEN {
        return Err(SocialError::QuestionUriTooLong);
    }
    if option_profiles.len() < MIN_POLL_OPTIONS {
        return Err(SocialError::TooFewPollOptions);
    }
    if option_profiles.len() > MAX_POLL_OPTIONS {
        return Err(SocialError::TooManyPollOptions);
    }
    if end_time <= now {
        return Err(SocialError::PollEnded);
    }
    if counter == u64::MAX {
        return Err(SocialError::ArithmeticOverflow);
    }
    let options = zero_tallies(&option_profiles);
    let poll = PollAccount {
        community: ctx.community,
        poll_id: counter,
        question_uri,
        options,
        created_by: ctx.creator,
        end_time,
        created_at: now,
    };
    ledger.polls.insert(ctx.poll, poll);
    let (ckey, mut community) = ledger.communities.remove(ci);
    community.poll_counter = counter + 1;
    ledger.communities.insert(ckey, community);
    proof {
        let v1 = ledger@;
        let c_key = ctx.community@;
        let c0 = v0.communities[c_key];
        assert(v1.communities.dom() =~= v0.communities.dom());
        lemma_post_ids_frame(v0, v1);
        assert(v1.inv());
        assert(v1.communities =~= v0.communities.insert(
            c_key,
            (CommunityAccount { poll_counter: (c0.poll_counter + 1) as u64, ..c0 }),
        ));
    }
    Ok(
        PollCreated {
            poll: ctx.poll,
            community: ctx.community,
            poll_id: counter,
            creator: ctx.creator,
            end_time,
            timestamp: now,
        },
    )
}

/// The first check that a vote fails, or `None` when it succeeds.
pub open spec fn vote_poll_error(v: LedgerView, ctx: VotePoll, option_index: u8, now: i64) -> Option<
    SocialError,
> {
    if !v.polls.contains_key(ctx.poll@) {
        Some(SocialError::AccountNotFound)
    } else if !binds(
        v.program_id,
        membership_seeds(v.polls[ctx.poll@].community@, ctx.voter@),
        ctx.membership@,
    ) {
        Some(SocialError::SeedsMismatch)
    } else if !v.memberships.contains_key(ctx.membership@) {
        Some(SocialError::AccountNotFound)
    } else if !binds(v.program_id, vote_seeds(ctx.poll@, ctx.voter@), ctx.vote@) {
        Some(SocialError::SeedsMismatch)
    } else if v.in_use(ctx.vote@) {
        Some(SocialError::AlreadyExists)
    } else if now >= v.polls[ctx.poll@].end_time {
        Some(SocialError::PollEnded)
    } else if option_index as int >= v.polls[ctx.poll@].options@.len() {
        Some(SocialError::InvalidPollOption)
    } else if v.polls[ctx.poll@].options@[option_index as int].votes == u32::MAX {
        Some(SocialError::ArithmeticOverflow)
    } else {
        None
    }
}

/// Records the signer's vote on a poll of a community they belong to, while
/// the poll is open, and adds one to the chosen tally.
pub fn vote_poll(ledger: &mut Ledger, ctx: &VotePoll, option_index: u8, now: i64) -> (r: Result<
    PollVoted,
    SocialError,
>)
    requires
        old(ledger).wf(),
    ensures
        final(ledger).wf(),
        match vote_poll_error(old(ledger)@, *ctx, option_index, now) {
            Some(e) => r == Err::<PollVoted, SocialError>(e) && final(ledger)@ == old(ledger)@,
            None => {
                let p = old(ledger)@.polls[ctx.poll@];
                let q = final(ledger)@.polls[ctx.poll@];
                let o = p.options@[option_index as int];
                &&& final(ledger)@ == (LedgerView {
                    polls: old(ledger)@.polls.insert(ctx.poll@, q),
                    votes: old(ledger)@.votes.insert(
                        ctx.vote@,
                        VoteAccount {
                            poll: ctx.poll,
                            voter: ctx.voter,
                            option_index,
                            voted_at: now,
                        },
                    ),
                    ..old(ledger)@
                })
                &&& q.options@ == p.options@.update(
                    option_index as int,
                    (PollOption { votes: (o.votes + 1) as u32, ..o }),
                )
                &&& q.community == p.community
                &&& q.poll_id == p.poll_id
                &&& q.question_uri == p.question_uri
                &&& q.created_by == p.created_by
                &&& q.end_time == p.end_time
                &&& q.created_at == p.created_at
                &&& r == Ok::<PollVoted, SocialError>(
                    PollVoted { poll: ctx.poll, voter: ctx.voter, option_index, timestamp: now },
                )
            },
        },
{
    let ghost v0 = ledger@;
    let pi = match ledger.polls.find(&ctx.poll) {
        Some(i) => i,
        None => return Err(SocialError::AccountNotFound),
    };
    let community = ledger.polls.get(pi).community;
    if !bind(membership_address(&ledger.program_id, &community, &ctx.voter), &ctx.membership) {
        return Err(SocialError::SeedsMismatch);
    }
    if !ledger.memberships.contains(&ctx.membership) {
        return Err(SocialError::AccountNotFound);
    }
    if !bind(vote_address(&ledger.program_id, &ctx.poll, &ctx.voter), &ctx.vote) {
        return Err(SocialError::SeedsMismatch);
    }
    if ledger.occupied(&ctx.vote) {
        return Err(SocialError::AlreadyExists);
    }
    if now >= ledger.polls.get(pi).end_time {
        return Err(SocialError::PollEnded);
    }
    let idx = option_index as usize;
    if idx >= ledger.polls.get(pi).options.len() {
        return Err(SocialError::InvalidPollOption);
    }
    let tally = ledger.polls.get(pi).options[idx].votes;
    if tally == u32::MAX {
        return Err(SocialError::ArithmeticOverflow);
    }
    let (pkey, mut poll) = ledger.polls.remove(pi);
    poll.options[idx].votes = tally + 1;
    ledger.polls.insert(pkey, poll);
    ledger.votes.insert(
        ctx.vote,
        VoteAccount { poll: ctx.poll, voter: ctx.voter, option_index, voted_at: now },
    );
    proof {
        let v1 = ledger@;
        let p0 = v0.polls[ctx.poll@];
        let o = p0.options@[option_index as int];
        assert(v1.polls[ctx.poll@].options@ =~= p0.options@.update(
            option_index as int,
            (PollOption { votes: (o.votes + 1) as u32, ..o }),
        ));
        assert(v1.polls =~= v0.polls.insert(ctx.poll@, v1.polls[ctx.poll@]));
        lemma_post_ids_frame(v0, v1);
        assert(v1.anonymity_exclusive());
        assert(v1.polls_bounded());
    }
    Ok(PollVoted { poll: ctx.poll, voter: ctx.voter, option_index, timestamp: now })
}

} // verus!

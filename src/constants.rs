use crate::address::RecordKind;
use vstd::prelude::*;

verus! {

// Length ceilings, in bytes of UTF-8.
pub const MAX_DISPLAY_NAME_LEN: usize = 50;
pub const MAX_AVATAR_URI_LEN: usize = 200;
pub const MAX_COMMUNITY_NAME_LEN: usize = 100;
pub const MAX_DESCRIPTION_URI_LEN: usize = 200;
pub const MAX_CONTENT_URI_LEN: usize = 200;
pub const MAX_PSEUDONYM_LEN: usize = 30;
pub const MAX_QUESTION_URI_LEN: usize = 200;
pub const MIN_POLL_OPTIONS: usize = 2;
pub const MAX_POLL_OPTIONS: usize = 10;

/// The only amount a tip may carry, in lamports.
pub const FIXED_TIP_AMOUNT: u64 = 2000000;

// Storage reserved for each record: an 8-byte type discriminator, then the
// fields at their ceilings, each string and list with a 4-byte length prefix.
pub const PROFILE_SIZE: usize = 8 + 32 + 4 + MAX_DISPLAY_NAME_LEN + 4 + MAX_AVATAR_URI_LEN + 8 + 8 + 8;
pub const COMMUNITY_SIZE: usize = 8 + 4 + MAX_COMMUNITY_NAME_LEN + 4 + MAX_DESCRIPTION_URI_LEN + 32 + 8 + 8 + 8 + 8;
pub const MEMBERSHIP_SIZE: usize = 8 + 32 + 32 + 8;
pub const POST_SIZE: usize = 8 + 32 + 8 + 4 + MAX_CONTENT_URI_LEN + 32 + 1 + 32 + 1 + 4 + MAX_PSEUDONYM_LEN + 8 + 8 + 8 + 8;
pub const LIKE_SIZE: usize = 8 + 32 + 32 + 8;
pub const COMMENT_SIZE: usize = 8 + 32 + 32 + 8 + 4 + MAX_CONTENT_URI_LEN + 32 + 8;
pub const FOLLOW_SIZE: usize = 8 + 32 + 32 + 8;
pub const POLL_SIZE: usize = 8 + 32 + 8 + 4 + MAX_QUESTION_URI_LEN + 4 + 32 * MAX_POLL_OPTIONS + 4 + 4 * MAX_POLL_OPTIONS + 32 + 8 + 8;
pub const VOTE_SIZE: usize = 8 + 32 + 32 + 1 + 8;

/// The storage reserved for a record of type `kind`, taken from the field
/// ceilings so that a record never outgrows it.
pub fn record_size(kind: RecordKind) -> (r: usize)
    ensures
        r == match kind {
            RecordKind::Profile => PROFILE_SIZE,
            RecordKind::Community => COMMUNITY_SIZE,
            RecordKind::Membership => MEMBERSHIP_SIZE,
            RecordKind::Post => POST_SIZE,
            RecordKind::Like => LIKE_SIZE,
            RecordKind::Comment => COMMENT_SIZE,
            RecordKind::Follow => FOLLOW_SIZE,
            RecordKind::Poll => POLL_SIZE,
            RecordKind::Vote => VOTE_SIZE,
        },
{
    match kind {
        RecordKind::Profile => PROFILE_SIZE,
        RecordKind::Community => COMMUNITY_SIZE,
        RecordKind::Membership => MEMBERSHIP_SIZE,
        RecordKind::Post => POST_SIZE,
        RecordKind::Like => LIKE_SIZE,
        RecordKind::Comment => COMMENT_SIZE,
        RecordKind::Follow => FOLLOW_SIZE,
        RecordKind::Poll => POLL_SIZE,
        RecordKind::Vote => VOTE_SIZE,
    }
}

} // verus!

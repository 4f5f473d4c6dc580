use vstd::prelude::*;

verus! {

/// Why an operation was refused. A refused operation changes nothing.
#[derive(Clone, Copy, Debug, PartialEq, Eq, Structural)]
pub enum SocialError {
    DisplayNameTooLong,
    AvatarUriTooLong,
    ContentUriTooLong,
    QuestionUriTooLong,
    CommunityNameTooLong,
    DescriptionUriTooLong,
    PseudonymRequired,
    PseudonymTooLong,
    PseudonymNotAllowed,
    CannotFollowSelf,
    CannotLikeOwnPost,
    CannotTipOwnPost,
    NotFollowing,
    InvalidTipAmount,
    TooManyPollOptions,
    TooFewPollOptions,
    PollEnded,
    InvalidPollOption,
    ArithmeticOverflow,
    ArithmeticUnderflow,
    /// The derived address of a record to be created is already in use.
    AlreadyExists,
    /// A record that the operation reads is not stored at the given address.
    AccountNotFound,
    /// A supplied address is not the one derived from its seeds.
    SeedsMismatch,
    /// The signer is not the identity that the record names.
    Unauthorized,
}

} // verus!

use crate::accounts::{CommentOnPost, CreatePost, LikePost, TipPost, UnlikePost};
use crate::address::{
    binds, bind, comment_address, comment_seeds, like_address, like_seeds, membership_address,
    membership_seeds, post_address, post_seeds, Address,
};
use crate::constants::{FIXED_TIP_AMOUNT, MAX_CONTENT_URI_LEN, MAX_PSEUDONYM_LEN};
use crate::errors::SocialError;
use crate::events::{CommentCreated, PostCreated, PostLiked, PostTipped, PostUnliked};
use crate::ledger::{
    byte_len, lemma_likes_frame, lemma_post_ids_frame, likes_of, str_byte_len, Ledger, LedgerView,
};
use crate::state::{CommentAccount, CommunityAccount, LikeAccount, PostAccount};
use vstd::prelude::*;

verus! {

/// The first check that a post creation fails, or `None` when it succeeds.
pub open spec fn create_post_error(
    v: LedgerView,
    ctx: CreatePost,
    content_uri: Seq<char>,
    is_anonymous: bool,
    pseudonym: Option<String>,
) -> Option<SocialError> {
    if !v.communities.contains_key(ctx.community@) {
        Some(SocialError::AccountNotFound)
    } else if !binds(v.program_id, membership_seeds(ctx.community@, ctx.author@), ctx.membership@) {
        Some(SocialError::SeedsMismatch)
    } else if !v.memberships.contains_key(ctx.membership@) {
        Some(SocialError::AccountNotFound)
    } else if !binds(
        v.program_id,
        post_seeds(ctx.community@, v.communities[ctx.community@].post_counter),
        ctx.post@,
    ) {
        Some(SocialError::SeedsMismatch)
    } else if v.in_use(ctx.post@) {
        Some(SocialError::AlreadyExists)
    } else if byte_len(content_uri) > MAX_CONTENT_URI_LEN {
        Some(SocialError::ContentUriTooLong)
    } else if is_anonymous && pseudonym is None {
        Some(SocialError::PseudonymRequired)
    } else if is_anonymous && byte_len(pseudonym->0@) > MAX_PSEUDONYM_LEN {
        Some(SocialError::PseudonymTooLong)
    } else if !is_anonymous && pseudonym is Some {
        Some(SocialError::PseudonymNotAllowed)
    } else if v.communities[ctx.community@].post_counter == u64::MAX {
        Some(SocialError::ArithmeticOverflow)
    } else {
        None
    }
}

/// The post that a successful creation stores.
pub open spec fn new_post(
    v: LedgerView,
    ctx: CreatePost,
    content_uri: String,
    content_hash: [u8; 32],
    is_anonymous: bool,
    pseudonym: Option<String>,
    now: i64,
) -> PostAccount {
    PostAccount {
        community: ctx.community,
        post_id: v.communities[ctx.community@].post_counter,
        content_uri,
        content_hash,
        author: if is_anonymous {
            None
        } else {
            Some(ctx.author)
        },
        pseudonym,
        likes_count: 0,
        comments_count: 0,
        total_tip_lamports: 0,
        created_at: now,
    }
}

/// Creates a post in a community that the signer belongs to. Its id is the
/// community's post counter, which then grows by one.
pub fn create_post(
    ledger: &mut Ledger,
    ctx: &CreatePost,
    content_uri: String,
    content_hash: [u8; 32],
    is_anonymous: bool,
    pseudonym: Option<String>,
    now: i64,
) -> (r: Result<PostCreated, SocialError>)
    requires
        old(ledger).wf(),
    ensures
        final(ledger).wf(),
        match create_post_error(old(ledger)@, *ctx, content_uri@, is_anonymous, pseudonym) {
            Some(e) => r == Err::<PostCreated, SocialError>(e) && final(ledger)@ == old(ledger)@,
            None => {
                let c = old(ledger)@.communities[ctx.community@];
                &&& final(ledger)@ == (LedgerView {
                    posts: old(ledger)@.posts.insert(
                        ctx.post@,
                        new_post(
                            old(ledger)@,
                            *ctx,
                            content_uri,
                            content_hash,
                            is_anonymous,
                            pseudonym,
                            now,
                        ),
                    ),
                    communities: old(ledger)@.communities.insert(
                        ctx.community@,
                        (CommunityAccount { post_counter: (c.post_counter + 1) as u64, ..c }),
                    ),
                    ..old(ledger)@
                })
                &&& r == Ok::<PostCreated, SocialError>(
                    PostCreated {
                        post: ctx.post,
                        community: ctx.community,
                        post_id: c.post_counter,
                        author: if is_anonymous {
                            None
                        } else {
                            Some(ctx.author)
                        },
                        is_anonymous,
                        timestamp: now,
                    },
                )
            },
        },
{
    let ghost v0 = ledger@;
    let ci = match ledger.communities.find(&ctx.community) {
        Some(i) => i,
        None => return Err(SocialError::AccountNotFound),
    };
    let counter = ledger.communities.get(ci).post_counter;
    if !bind(membership_address(&ledger.program_id, &ctx.community, &ctx.author), &ctx.membership) {
        return Err(SocialError::SeedsMismatch);
    }
    if !ledger.memberships.contains(&ctx.membership) {
        return Err(SocialError::AccountNotFound);
    }
    if !bind(post_address(&ledger.program_id, &ctx.community, counter), &ctx.post) {
        return Err(SocialError::SeedsMismatch);
    }
    if ledger.occupied(&ctx.post) {
        return Err(SocialError::AlreadyExists);
    }
    if str_byte_len(&content_uri) > MAX_CONTENT_URI_LEN {
        return Err(SocialError::ContentUriTooLong);
    }
    if is_anonymous {
        match &pseudonym {
            None => return Err(SocialError::PseudonymRequired),
            Some(p) => {
                if str_byte_len(p) > MAX_PSEUDONYM_LEN {
                    return Err(SocialError::PseudonymTooLong);
                }
            },
        }
    } else if pseudonym.is_some() {
        return Err(SocialError::PseudonymNotAllowed);
    }
    if counter == u64::MAX {
        return Err(SocialError::ArithmeticOverflow);
    }
    let author = if is_anonymous {
        None
    } else {
        Some(ctx.author)
    };
    let post = PostAccount {
        community: ctx.community,
        post_id: counter,
        content_uri,
        content_hash,
        author,
        pseudonym,
        likes_count: 0,
        comments_count: 0,
        total_tip_lamports: 0,
        created_at: now,
    };
    let ghost p_new = ctx.post@;
    let ghost c_key = ctx.community@;
    proof {
        ledger.likes.lemma_finite();
        assert(likes_of(v0.likes, p_new) =~= Set::<Seq<u8>>::empty());
    }
    ledger.posts.insert(ctx.post, post);
    let (ckey, mut community) = ledger.communities.remove(ci);
    community.post_counter = counter + 1;
    ledger.communities.insert(ckey, community);
    proof {
        let v1 = ledger@;
        assert(v1.communities.dom() =~= v0.communities.dom());
        assert forall|c: Seq<u8>, i: u64|
            #![trigger v1.communities[c], v1.post_with_id(c, i)]
            v1.communities.contains_key(c) && i < v1.communities[c].post_counter implies v1.post_with_id(c, i) by {
            if c == c_key && i == counter {
                assert(v1.posts.contains_key(p_new) && v1.posts[p_new].community@ == c && v1.posts[p_new].post_id == i);
            } else {
                // names the terms that trigger the invariant
                assert(v0.communities[c] == v0.communities[c]);
                assert(v0.post_with_id(c, i));
                let w = choose|p: Seq<u8>| #![trigger v0.posts[p]] v0.posts.contains_key(p) && v0.posts[p].community@ == c && v0.posts[p].post_id == i;
                assert(v1.posts[w] == v0.posts[w]);
            }
        }
        assert(v1.inv());
        let c0 = v0.communities[c_key];
        assert(v1.communities =~= v0.communities.insert(
            c_key,
            (CommunityAccount { post_counter: (c0.post_counter + 1) as u64, ..c0 }),
        ));
    }
    Ok(
        PostCreated {
            post: ctx.post,
            community: ctx.community,
            post_id: counter,
            author,
            is_anonymous,
            timestamp: now,
        },
    )
}


/// The first check that a like fails, or `None` when it succeeds.
pub open spec fn like_post_error(v: LedgerView, ctx: LikePost) -> Option<SocialError> {
    if !v.posts.contains_key(ctx.post@) {
        Some(SocialError::AccountNotFound)
    } else if !binds(
        v.program_id,
        membership_seeds(v.posts[ctx.post@].community@, ctx.liker@),
        ctx.membership@,
    ) {
        Some(SocialError::SeedsMismatch)
    } else if !v.memberships.contains_key(ctx.membership@) {
        Some(SocialError::AccountNotFound)
    } else if !binds(v.program_id, like_seeds(ctx.post@, ctx.liker@), ctx.like@) {
        Some(SocialError::SeedsMismatch)
    } else if v.in_use(ctx.like@) {
        Some(SocialError::AlreadyExists)
    } else if opt_is(v.posts[ctx.post@].author, ctx.liker@) {
        Some(SocialError::CannotLikeOwnPost)
    } else if v.posts[ctx.post@].likes_count == u64::MAX {
        Some(SocialError::ArithmeticOverflow)
    } else {
        None
    }
}

/// `a` is present and is `id`.
pub open spec fn opt_is(a: Option<Address>, id: Seq<u8>) -> bool {
    a matches Some(x) && x@ == id
}

fn author_is(author: &Option<Address>, id: &Address) -> (r: bool)
    ensures
        r == opt_is(*author, id@),
{
    match author {
        Some(a) => a.same(id),
        None => false,
    }
}

/// Records that the signer, a member of the post's community, likes a post,
/// and adds one to its like count. Nobody likes their own signed post.
pub fn like_post(ledger: &mut Ledger, ctx: &LikePost, now: i64) -> (r: Result<PostLiked, SocialError>)
    requires
        old(ledger).wf(),
    ensures
        final(ledger).wf(),
        match like_post_error(old(ledger)@, *ctx) {
            Some(e) => r == Err::<PostLiked, SocialError>(e) && final(ledger)@ == old(ledger)@,
            None => {
                let p = old(ledger)@.posts[ctx.post@];
                &&& final(ledger)@ == (LedgerView {
                    posts: old(ledger)@.posts.insert(
                        ctx.post@,
                        (PostAccount { likes_count: (p.likes_count + 1) as u64, ..p }),
                    ),
                    likes: old(ledger)@.likes.insert(
                        ctx.like@,
                        LikeAccount { post: ctx.post, liker: ctx.liker, liked_at: now },
                    ),
                    ..old(ledger)@
                })
                &&& r == Ok::<PostLiked, SocialError>(
                    PostLiked { post: ctx.post, liker: ctx.liker, timestamp: now },
                )
            },
        },
{
    let ghost v0 = ledger@;
    proof {
        ledger.likes.lemma_finite();
    }
    let pi = match ledger.posts.find(&ctx.post) {
        Some(i) => i,
        None => return Err(SocialError::AccountNotFound),
    };
    let community = ledger.posts.get(pi).community;
    if !bind(membership_address(&ledger.program_id, &community, &ctx.liker), &ctx.membership) {
        return Err(SocialError::SeedsMismatch);
    }
    if !ledger.memberships.contains(&ctx.membership) {
        return Err(SocialError::AccountNotFound);
    }
    if !bind(like_address(&ledger.program_id, &ctx.post, &ctx.liker), &ctx.like) {
        return Err(SocialError::SeedsMismatch);
    }
    if ledger.occupied(&ctx.like) {
        return Err(SocialError::AlreadyExists);
    }
    if author_is(&ledger.posts.get(pi).author, &ctx.liker) {
        return Err(SocialError::CannotLikeOwnPost);
    }
    let count = ledger.posts.get(pi).likes_count;
    if count == u64::MAX {
        return Err(SocialError::ArithmeticOverflow);
    }
    let (pkey, mut post) = ledger.posts.remove(pi);
    post.likes_count = count + 1;
    ledger.posts.insert(pkey, post);
    ledger.likes.insert(ctx.like, LikeAccount { post: ctx.post, liker: ctx.liker, liked_at: now });
    proof {
        let v1 = ledger@;
        let p0 = v0.posts[ctx.post@];
        assert(v1.posts =~= v0.posts.insert(
            ctx.post@,
            (PostAccount { likes_count: (p0.likes_count + 1) as u64, ..p0 }),
        ));
        assert(v1.posts.dom() =~= v0.posts.dom());
        lemma_post_ids_frame(v0, v1);
        assert forall|p: Seq<u8>| #[trigger] v1.posts.contains_key(p) implies v1.posts[p].likes_count as nat
            == likes_of(v1.likes, p).len() by {
            if p == ctx.post@ {
                assert(likes_of(v1.likes, p) =~= likes_of(v0.likes, p).insert(ctx.like@));
            } else {
                assert(likes_of(v1.likes, p) =~= likes_of(v0.likes, p));
            }
        }
        assert(v1.inv());
    }
    Ok(PostLiked { post: ctx.post, liker: ctx.liker, timestamp: now })
}

/// The first check that an unlike fails, or `None` when it succeeds.
pub open spec fn unlike_post_error(v: LedgerView, ctx: UnlikePost) -> Option<SocialError> {
    if !v.posts.contains_key(ctx.post@) {
        Some(SocialError::AccountNotFound)
    } else if !binds(v.program_id, like_seeds(ctx.post@, ctx.liker@), ctx.like@) {
        Some(SocialError::SeedsMismatch)
    } else if !v.likes.contains_key(ctx.like@) {
        Some(SocialError::AccountNotFound)
    } else if v.likes[ctx.like@].post@ != ctx.post@ || v.likes[ctx.like@].liker@ != ctx.liker@ {
        Some(SocialError::Unauthorized)
    } else if v.posts[ctx.post@].likes_count == 0 {
        Some(SocialError::ArithmeticUnderflow)
    } else {
        None
    }
}

/// Removes the signer's like of a post and takes one from its like count.
pub fn unlike_post(ledger: &mut Ledger, ctx: &UnlikePost, now: i64) -> (r: Result<
    PostUnliked,
    SocialError,
>)
    requires
        old(ledger).wf(),
    ensures
        final(ledger).wf(),
        match unlike_post_error(old(ledger)@, *ctx) {
            Some(e) => r == Err::<PostUnliked, SocialError>(e) && final(ledger)@ == old(ledger)@,
            None => {
                let p = old(ledger)@.posts[ctx.post@];
                &&& final(ledger)@ == (LedgerView {
                    posts: old(ledger)@.posts.insert(
                        ctx.post@,
                        (PostAccount { likes_count: (p.likes_count - 1) as u64, ..p }),
                    ),
                    likes: old(ledger)@.likes.remove(ctx.like@),
                    ..old(ledger)@
                })
                &&& r == Ok::<PostUnliked, SocialError>(
                    PostUnliked { post: ctx.post, unliker: ctx.liker, timestamp: now },
                )
            },
        },
{
    let ghost v0 = ledger@;
    proof {
        ledger.likes.lemma_finite();
    }
    let pi = match ledger.posts.find(&ctx.post) {
        Some(i) => i,
        None => return Err(SocialError::AccountNotFound),
    };
    if !bind(like_address(&ledger.program_id, &ctx.post, &ctx.liker), &ctx.like) {
        return Err(SocialError::SeedsMismatch);
    }
    let li = match ledger.likes.find(&ctx.like) {
        Some(i) => i,
        None => return Err(SocialError::AccountNotFound),
    };
    let like = ledger.likes.get(li);
    if !like.post.same(&ctx.post) || !like.liker.same(&ctx.liker) {
        return Err(SocialError::Unauthorized);
    }
    let count = ledger.posts.get(pi).likes_count;
    if count == 0 {
        return Err(SocialError::ArithmeticUnderflow);
    }
    let (pkey, mut post) = ledger.posts.remove(pi);
    post.likes_count = count - 1;
    ledger.posts.insert(pkey, post);
    let _ = ledger.likes.remove(li);
    proof {
        let v1 = ledger@;
        let p0 = v0.posts[ctx.post@];
        assert(v1.posts =~= v0.posts.insert(
            ctx.post@,
            (PostAccount { likes_count: (p0.likes_count - 1) as u64, ..p0 }),
        ));
        assert(v1.posts.dom() =~= v0.posts.dom());
        lemma_post_ids_frame(v0, v1);
        assert forall|p: Seq<u8>| #[trigger] v1.posts.contains_key(p) implies v1.posts[p].likes_count as nat
            == likes_of(v1.likes, p).len() by {
            if p == ctx.post@ {
                assert(likes_of(v1.likes, p) =~= likes_of(v0.likes, p).remove(ctx.like@));
            } else {
                assert(likes_of(v1.likes, p) =~= likes_of(v0.likes, p));
            }
        }
        assert(v1.inv());
    }
    Ok(PostUnliked { post: ctx.post, unliker: ctx.liker, timestamp: now })
}

/// The first check that a comment fails, or `None` when it succeeds.
pub open spec fn comment_on_post_error(v: LedgerView, ctx: CommentOnPost, content_uri: Seq<char>) -> Option<
    SocialError,
> {
    if !v.posts.contains_key(ctx.post@) {
        Some(SocialError::AccountNotFound)
    } else if !binds(
        v.program_id,
        membership_seeds(v.posts[ctx.post@].community@, ctx.commenter@),
        ctx.membership@,
    ) {
        Some(SocialError::SeedsMismatch)
    } else if !v.memberships.contains_key(ctx.membership@) {
        Some(SocialError::AccountNotFound)
    } else if !binds(
        v.program_id,
        comment_seeds(ctx.post@, v.posts[ctx.post@].comments_count),
        ctx.comment@,
    ) {
        Some(SocialError::SeedsMismatch)
    } else if v.in_use(ctx.comment@) {
        Some(SocialError::AlreadyExists)
    } else if byte_len(content_uri) > MAX_CONTENT_URI_LEN {
        Some(SocialError::ContentUriTooLong)
    } else if v.posts[ctx.post@].comments_count == u64::MAX {
        Some(SocialError::ArithmeticOverflow)
    } else {
        None
    }
}

/// Adds a comment by a member of the post's community. Its id is the post's
/// comment count, which then grows by one.
pub fn comment_on_post(
    ledger: &mut Ledger,
    ctx: &CommentOnPost,
    content_uri: String,
    content_hash: [u8; 32],
    now: i64,
) -> (r: Result<CommentCreated, SocialError>)
    requires
        old(ledger).wf(),
    ensures
        final(ledger).wf(),
        match comment_on_post_error(old(ledger)@, *ctx, content_uri@) {
            Some(e) => r == Err::<CommentCreated, SocialError>(e) && final(ledger)@ == old(ledger)@,
            None => {
                let p = old(ledger)@.posts[ctx.post@];
                &&& final(ledger)@ == (LedgerView {
                    posts: old(ledger)@.posts.insert(
                        ctx.post@,
                        (PostAccount { comments_count: (p.comments_count + 1) as u64, ..p }),
                    ),
                    comments: old(ledger)@.comments.insert(
                        ctx.comment@,
                        CommentAccount {
                            post: ctx.post,
                            commenter: ctx.commenter,
                            comment_id: p.comments_count,
                            content_uri,
                            content_hash,
                            created_at: now,
                        },
                    ),
                    ..old(ledger)@
                })
                &&& r == Ok::<CommentCreated, SocialError>(
                    CommentCreated {
                        comment: ctx.comment,
                        post: ctx.post,
                        comment_id: p.comments_count,
                        commenter: ctx.commenter,
                        timestamp: now,
                    },
                )
            },
        },
{
    let ghost v0 = ledger@;
    let pi = match ledger.posts.find(&ctx.post) {
        Some(i) => i,
        None => return Err(SocialError::AccountNotFound),
    };
    let community = ledger.posts.get(pi).community;
    let count = ledger.posts.get(pi).comments_count;
    if !bind(membership_address(&ledger.program_id, &community, &ctx.commenter), &ctx.membership) {
        return Err(SocialError::SeedsMismatch);
    }
    if !ledger.memberships.contains(&ctx.membership) {
        return Err(SocialError::AccountNotFound);
    }
    if !bind(comment_address(&ledger.program_id, &ctx.post, count), &ctx.comment) {
        return Err(SocialError::SeedsMismatch);
    }
    if ledger.occupied(&ctx.comment) {
        return Err(SocialError::AlreadyExists);
    }
    if str_byte_len(&content_uri) > MAX_CONTENT_URI_LEN {
        return Err(SocialError::ContentUriTooLong);
    }
    if count == u64::MAX {
        return Err(SocialError::ArithmeticOverflow);
    }
    let (pkey, mut post) = ledger.posts.remove(pi);
    post.comments_count = count + 1;
    ledger.posts.insert(pkey, post);
    ledger.comments.insert(
        ctx.comment,
        CommentAccount {
            post: ctx.post,
            commenter: ctx.commenter,
            comment_id: count,
            content_uri,
            content_hash,
            created_at: now,
        },
    );
    proof {
        let v1 = ledger@;
        let p0 = v0.posts[ctx.post@];
        assert(v1.posts =~= v0.posts.insert(
            ctx.post@,
            (PostAccount { comments_count: (p0.comments_count + 1) as u64, ..p0 }),
        ));
        assert(v1.posts.dom() =~= v0.posts.dom());
        lemma_post_ids_frame(v0, v1);
        lemma_likes_frame(v0, v1);
        assert(v1.inv());
    }
    Ok(
        CommentCreated {
            comment: ctx.comment,
            post: ctx.post,
            comment_id: count,
            commenter: ctx.commenter,
            timestamp: now,
        },
    )
}

/// The first check that a tip fails, or `None` when it succeeds. The amount
/// is checked before anything else.
pub open spec fn tip_post_error(v: LedgerView, ctx: TipPost, amount: u64) -> Option<SocialError> {
    if amount != FIXED_TIP_AMOUNT {
        Some(SocialError::InvalidTipAmount)
    } else if !v.posts.contains_key(ctx.post@) {
        Some(SocialError::AccountNotFound)
    } else if !opt_is(v.posts[ctx.post@].author, ctx.recipient@) {
        Some(SocialError::InvalidTipAmount)
    } else if ctx.tipper@ == ctx.recipient@ {
        Some(SocialError::CannotTipOwnPost)
    } else if v.posts[ctx.post@].total_tip_lamports + amount > u64::MAX {
        Some(SocialError::ArithmeticOverflow)
    } else {
        None
    }
}

/// Accepts a tip of the fixed amount from the signer to the author of a
/// signed post, and adds it to the post's total. The returned event is the
/// transfer that the host carries out together with this change.
pub fn tip_post(ledger: &mut Ledger, ctx: &TipPost, amount: u64, now: i64) -> (r: Result<
    PostTipped,
    SocialError,
>)
    requires
        old(ledger).wf(),
    ensures
        final(ledger).wf(),
        match tip_post_error(old(ledger)@, *ctx, amount) {
            Some(e) => r == Err::<PostTipped, SocialError>(e) && final(ledger)@ == old(ledger)@,
            None => {
                let p = old(ledger)@.posts[ctx.post@];
                &&& final(ledger)@ == (LedgerView {
                    posts: old(ledger)@.posts.insert(
                        ctx.post@,
                        (PostAccount {
                            total_tip_lamports: (p.total_tip_lamports + amount) as u64,
                            ..p
                        }),
                    ),
                    ..old(ledger)@
                })
                &&& r == Ok::<PostTipped, SocialError>(
                    PostTipped {
                        post: ctx.post,
                        tipper: ctx.tipper,
                        recipient: ctx.recipient,
                        amount,
                        timestamp: now,
                    },
                )
            },
        },
{
    let ghost v0 = ledger@;
    if amount != FIXED_TIP_AMOUNT {
        return Err(SocialError::InvalidTipAmount);
    }
    let pi = match ledger.posts.find(&ctx.post) {
        Some(i) => i,
        None => return Err(SocialError::AccountNotFound),
    };
    if !author_is(&ledger.posts.get(pi).author, &ctx.recipient) {
        return Err(SocialError::InvalidTipAmount);
    }
    if ctx.tipper.same(&ctx.recipient) {
        return Err(SocialError::CannotTipOwnPost);
    }
    let total = ledger.posts.get(pi).total_tip_lamports;
    if total > u64::MAX - amount {
        return Err(SocialError::ArithmeticOverflow);
    }
    let (pkey, mut post) = ledger.posts.remove(pi);
    post.total_tip_lamports = total + amount;
    ledger.posts.insert(pkey, post);
    proof {
        let v1 = ledger@;
        let p0 = v0.posts[ctx.post@];
        assert(v1.posts =~= v0.posts.insert(
            ctx.post@,
            (PostAccount { total_tip_lamports: (p0.total_tip_lamports + amount) as u64, ..p0 }),
        ));
        assert(v1.posts.dom() =~= v0.posts.dom());
        lemma_post_ids_frame(v0, v1);
        lemma_likes_frame(v0, v1);
        assert(v1.inv());
    }
    Ok(
        PostTipped {
            post: ctx.post,
            tipper: ctx.tipper,
            recipient: ctx.recipient,
            amount,
            timestamp: now,
        },
    )
}

} // verus!

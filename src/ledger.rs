use crate::address::Address;
use crate::state::{
    CommentAccount, CommunityAccount, FollowAccount, LikeAccount, MembershipAccount, PollAccount,
    PostAccount, ProfileAccount, VoteAccount,
};
use crate::table::Table;
use vstd::prelude::*;
use vstd::utf8::encode_utf8;

verus! {

/// Every record of the program, by address, one table per entity type.
pub struct Ledger {
    pub program_id: Address,
    pub profiles: Table<ProfileAccount>,
    pub communities: Table<CommunityAccount>,
    pub memberships: Table<MembershipAccount>,
    pub posts: Table<PostAccount>,
    pub likes: Table<LikeAccount>,
    pub comments: Table<CommentAccount>,
    pub follows: Table<FollowAccount>,
    pub polls: Table<PollAccount>,
    pub votes: Table<VoteAccount>,
}

/// What a ledger holds, as maps from address to record.
pub struct LedgerView {
    pub program_id: Seq<u8>,
    pub profiles: Map<Seq<u8>, ProfileAccount>,
    pub communities: Map<Seq<u8>, CommunityAccount>,
    pub memberships: Map<Seq<u8>, MembershipAccount>,
    pub posts: Map<Seq<u8>, PostAccount>,
    pub likes: Map<Seq<u8>, LikeAccount>,
    pub comments: Map<Seq<u8>, CommentAccount>,
    pub follows: Map<Seq<u8>, FollowAccount>,
    pub polls: Map<Seq<u8>, PollAccount>,
    pub votes: Map<Seq<u8>, VoteAccount>,
}

impl View for Ledger {
    type V = LedgerView;

    open spec fn view(&self) -> LedgerView {
        LedgerView {
            program_id: self.program_id@,
            profiles: self.profiles@,
            communities: self.communities@,
            memberships: self.memberships@,
            posts: self.posts@,
            likes: self.likes@,
            comments: self.comments@,
            follows: self.follows@,
            polls: self.polls@,
            votes: self.votes@,
        }
    }
}

/// Length of a string in bytes of UTF-8, the unit of every length ceiling.
pub open spec fn byte_len(s: Seq<char>) -> nat {
    encode_utf8(s).len()
}

pub fn str_byte_len(s: &String) -> (r: usize)
    ensures
        r == byte_len(s@),
{
    s.as_str().as_bytes().len()
}

/// The like records addressed to `post`.
pub open spec fn likes_of(likes: Map<Seq<u8>, LikeAccount>, post: Seq<u8>) -> Set<Seq<u8>> {
    likes.dom().filter(|k: Seq<u8>| likes[k].post@ == post)
}

impl LedgerView {
    /// Some record, of any type, is stored at `a`.
    pub open spec fn in_use(self, a: Seq<u8>) -> bool {
        self.profiles.contains_key(a) || self.communities.contains_key(a)
            || self.memberships.contains_key(a) || self.posts.contains_key(a)
            || self.likes.contains_key(a) || self.comments.contains_key(a)
            || self.follows.contains_key(a) || self.polls.contains_key(a)
            || self.votes.contains_key(a)
    }

    /// Each like names a stored post, and each post counts exactly the likes
    /// addressed to it.
    pub open spec fn likes_counted(self) -> bool {
        &&& forall|k: Seq<u8>| #[trigger]
            self.likes.contains_key(k) ==> self.posts.contains_key(self.likes[k].post@)
        &&& forall|p: Seq<u8>| #[trigger]
            self.posts.contains_key(p) ==> self.posts[p].likes_count as nat == likes_of(
                self.likes,
                p,
            ).len()
    }

    /// The posts of each community carry the ids 0, 1, ..., post_counter - 1,
    /// each exactly once.
    pub open spec fn post_ids_sequential(self) -> bool {
        &&& forall|p: Seq<u8>| #[trigger]
            self.posts.contains_key(p) ==> self.communities.contains_key(self.posts[p].community@)
                && self.posts[p].post_id < self.communities[self.posts[p].community@].post_counter
        &&& forall|p: Seq<u8>, q: Seq<u8>|
            #![trigger self.posts[p], self.posts[q]]
            self.posts.contains_key(p) && self.posts.contains_key(q) && self.posts[p].community@
                == self.posts[q].community@ && self.posts[p].post_id == self.posts[q].post_id
                ==> p == q
        &&& forall|c: Seq<u8>, i: u64|
            #![trigger self.communities[c], self.post_with_id(c, i)]
            self.communities.contains_key(c) && i < self.communities[c].post_counter
                ==> self.post_with_id(c, i)
    }

    /// Some stored post of community `c` has id `i`.
    pub open spec fn post_with_id(self, c: Seq<u8>, i: u64) -> bool {
        exists|p: Seq<u8>|
            #![trigger self.posts[p]]
            self.posts.contains_key(p) && self.posts[p].community@ == c && self.posts[p].post_id == i
    }

    /// A post has an author or a pseudonym, never both.
    pub open spec fn anonymity_exclusive(self) -> bool {
        forall|p: Seq<u8>| #[trigger]
            self.posts.contains_key(p) ==> (self.posts[p].author is Some)
                != (self.posts[p].pseudonym is Some)
    }

    /// Each poll has between two and ten choices.
    pub open spec fn polls_bounded(self) -> bool {
        forall|p: Seq<u8>| #[trigger]
            self.polls.contains_key(p) ==> 2 <= self.polls[p].options@.len() <= 10
    }

    pub open spec fn inv(self) -> bool {
        &&& self.likes_counted()
        &&& self.post_ids_sequential()
        &&& self.anonymity_exclusive()
        &&& self.polls_bounded()
    }
}

/// The post-id law depends only on the community and id of each post and on
/// each community's post counter.
pub proof fn lemma_post_ids_frame(v0: LedgerView, v1: LedgerView)
    requires
        v0.post_ids_sequential(),
        v1.posts.dom() == v0.posts.dom(),
        forall|p: Seq<u8>|
            #[trigger] v1.posts.contains_key(p) ==> v1.posts[p].community == v0.posts[p].community
                && v1.posts[p].post_id == v0.posts[p].post_id,
        v1.communities.dom() == v0.communities.dom(),
        forall|c: Seq<u8>|
            #[trigger] v1.communities.contains_key(c) ==> v1.communities[c].post_counter
                == v0.communities[c].post_counter,
    ensures
        v1.post_ids_sequential(),
{
    assert forall|c: Seq<u8>, i: u64|
        #![trigger v1.communities[c], v1.post_with_id(c, i)]
        v1.communities.contains_key(c) && i < v1.communities[c].post_counter implies v1.post_with_id(
        c,
        i,
    ) by {
        assert(v0.communities.contains_key(c));
        // names the terms that trigger the invariant
        assert(v0.communities[c] == v0.communities[c]);
        assert(v0.post_with_id(c, i));
        let w = choose|p: Seq<u8>|
            #![trigger v0.posts[p]]
            v0.posts.contains_key(p) && v0.posts[p].community@ == c && v0.posts[p].post_id == i;
        assert(v1.posts.contains_key(w));
        assert(v1.posts[w].community@ == c && v1.posts[w].post_id == i);
    }
    assert forall|p: Seq<u8>, q: Seq<u8>|
        #![trigger v1.posts[p], v1.posts[q]]
        v1.posts.contains_key(p) && v1.posts.contains_key(q) && v1.posts[p].community@
            == v1.posts[q].community@ && v1.posts[p].post_id == v1.posts[q].post_id implies p == q by {
        // names the terms that trigger the invariant
        assert(v0.posts[p] == v0.posts[p] && v0.posts[q] == v0.posts[q]);
    }
}

/// The like-count law depends only on the likes and on each post's like count.
pub proof fn lemma_likes_frame(v0: LedgerView, v1: LedgerView)
    requires
        v0.likes_counted(),
        v1.likes == v0.likes,
        v1.posts.dom() == v0.posts.dom(),
        forall|p: Seq<u8>|
            #[trigger] v1.posts.contains_key(p) ==> v1.posts[p].likes_count
                == v0.posts[p].likes_count,
    ensures
        v1.likes_counted(),
{
    assert forall|p: Seq<u8>| #[trigger] v1.posts.contains_key(p) implies v1.posts[p].likes_count as nat
        == likes_of(v1.likes, p).len() by {
        assert(v0.posts.contains_key(p));
    }
}

impl Ledger {
    pub open spec fn tables_wf(&self) -> bool {
        &&& self.profiles.wf()
        &&& self.communities.wf()
        &&& self.memberships.wf()
        &&& self.posts.wf()
        &&& self.likes.wf()
        &&& self.comments.wf()
        &&& self.follows.wf()
        &&& self.polls.wf()
        &&& self.votes.wf()
    }

    pub open spec fn wf(&self) -> bool {
        self.tables_wf() && self@.inv()
    }

    /// An empty ledger of the program `program_id`.
    pub fn new(program_id: Address) -> (r: Ledger)
        ensures
            r.wf(),
            r@.program_id == program_id@,
            r@.profiles.is_empty(),
            r@.communities.is_empty(),
            r@.memberships.is_empty(),
            r@.posts.is_empty(),
            r@.likes.is_empty(),
            r@.comments.is_empty(),
            r@.follows.is_empty(),
            r@.polls.is_empty(),
            r@.votes.is_empty(),
    {
        let r = Ledger {
            program_id,
            profiles: Table::new(),
            communities: Table::new(),
            memberships: Table::new(),
            posts: Table::new(),
            likes: Table::new(),
            comments: Table::new(),
            follows: Table::new(),
            polls: Table::new(),
            votes: Table::new(),
        };
        assert(r@.inv());
        r
    }

    /// Whether a record of any type is stored at `a`.
    pub fn occupied(&self, a: &Address) -> (r: bool)
        requires
            self.tables_wf(),
        ensures
            r == self@.in_use(a@),
    {
        self.profiles.contains(a) || self.communities.contains(a) || self.memberships.contains(a)
            || self.posts.contains(a) || self.likes.contains(a) || self.comments.contains(a)
            || self.follows.contains(a) || self.polls.contains(a) || self.votes.contains(a)
    }
}

} // verus!

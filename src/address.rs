use anchor_lang::prelude::Pubkey;
use vstd::prelude::*;

verus! {

/// A 32-byte record address or identity.
#[derive(Clone, Copy, Debug)]
pub struct Address {
    pub bytes: [u8; 32],
}

impl View for Address {
    type V = Seq<u8>;

    open spec fn view(&self) -> Seq<u8> {
        self.bytes@
    }
}

pub open spec fn opt_view(a: Option<Address>) -> Option<Seq<u8>> {
    match a {
        Some(x) => Some(x@),
        None => None,
    }
}

impl Address {
    pub fn new(bytes: [u8; 32]) -> (r: Address)
        ensures
            r@ == bytes@,
    {
        Address { bytes }
    }

    /// Byte-wise equality of two addresses.
    pub fn same(&self, other: &Address) -> (r: bool)
        ensures
            r == (self@ == other@),
    {
        let mut i: usize = 0;
        while i < 32
            invariant
                0 <= i <= 32,
                self@.len() == 32,
                other@.len() == 32,
                forall|j: int| 0 <= j < i ==> self@[j] == other@[j],
            decreases 32 - i,
        {
            if self.bytes[i] != other.bytes[i] {
                return false;
            }
            i = i + 1;
        }
        assert(self@ =~= other@);
        true
    }

    pub fn to_vec(&self) -> (r: Vec<u8>)
        ensures
            r@ == self@,
    {
        let mut out: Vec<u8> = Vec::new();
        let mut i: usize = 0;
        while i < 32
            invariant
                0 <= i <= 32,
                self@.len() == 32,
                out@ == self@.subrange(0, i as int),
            decreases 32 - i,
        {
            out.push(self.bytes[i]);
            i = i + 1;
            assert(out@ =~= self@.subrange(0, i as int));
        }
        assert(self@.subrange(0, 32) =~= self@);
        out
    }
}

/// The address that the program `program` derives from `seeds`, or `None` when
/// no bump seed yields one.
pub uninterp spec fn program_address(program: Seq<u8>, seeds: Seq<Seq<u8>>) -> Option<Seq<u8>>;

pub open spec fn seeds_view(seeds: Seq<Vec<u8>>) -> Seq<Seq<u8>> {
    seeds.map_values(|s: Vec<u8>| s@)
}

/// Relies on `Pubkey::try_find_program_address` of solana-program (re-exported by
/// anchor_lang): the address found depends on the seeds and the program id alone.
#[verifier::external_body]
fn find_program_address(program: &Address, seeds: &Vec<Vec<u8>>) -> (r: Option<Address>)
    ensures
        opt_view(r) == program_address(program@, seeds_view(seeds@)),
{
    let slices: Vec<&[u8]> = seeds.iter().map(|s| s.as_slice()).collect();
    let program_id = Pubkey::new_from_array(program.bytes);
    Pubkey::try_find_program_address(&slices, &program_id).map(
        |(key, _bump)| Address { bytes: key.to_bytes() },
    )
}


/// The entity types; each has its own seed prefix, so that no two types share an address.
#[derive(Clone, Copy, Debug, PartialEq, Eq, Structural)]
pub enum RecordKind {
    Profile,
    Community,
    Membership,
    Post,
    Like,
    Comment,
    Follow,
    Poll,
    Vote,
}

/// The seed prefix of each entity type: its name in ASCII.
pub open spec fn tag_of(kind: RecordKind) -> Seq<u8> {
    match kind {
        RecordKind::Profile => seq![112u8, 114u8, 111u8, 102u8, 105u8, 108u8, 101u8],
        RecordKind::Community => seq![99u8, 111u8, 109u8, 109u8, 117u8, 110u8, 105u8, 116u8, 121u8],
        RecordKind::Membership => seq![109u8, 101u8, 109u8, 98u8, 101u8, 114u8, 115u8, 104u8, 105u8, 112u8],
        RecordKind::Post => seq![112u8, 111u8, 115u8, 116u8],
        RecordKind::Like => seq![108u8, 105u8, 107u8, 101u8],
        RecordKind::Comment => seq![99u8, 111u8, 109u8, 109u8, 101u8, 110u8, 116u8],
        RecordKind::Follow => seq![102u8, 111u8, 108u8, 108u8, 111u8, 119u8],
        RecordKind::Poll => seq![112u8, 111u8, 108u8, 108u8],
        RecordKind::Vote => seq![118u8, 111u8, 116u8, 101u8],
    }
}

pub fn tag(kind: RecordKind) -> (r: Vec<u8>)
    ensures
        r@ == tag_of(kind),
{
    let r = match kind {
        RecordKind::Profile => vec![112u8, 114u8, 111u8, 102u8, 105u8, 108u8, 101u8],
        RecordKind::Community => vec![99u8, 111u8, 109u8, 109u8, 117u8, 110u8, 105u8, 116u8, 121u8],
        RecordKind::Membership => vec![109u8, 101u8, 109u8, 98u8, 101u8, 114u8, 115u8, 104u8, 105u8, 112u8],
        RecordKind::Post => vec![112u8, 111u8, 115u8, 116u8],
        RecordKind::Like => vec![108u8, 105u8, 107u8, 101u8],
        RecordKind::Comment => vec![99u8, 111u8, 109u8, 109u8, 101u8, 110u8, 116u8],
        RecordKind::Follow => vec![102u8, 111u8, 108u8, 108u8, 111u8, 119u8],
        RecordKind::Poll => vec![112u8, 111u8, 108u8, 108u8],
        RecordKind::Vote => vec![118u8, 111u8, 116u8, 101u8],
    };
    proof {
        assert(r@ =~= tag_of(kind));
    }
    r
}


/// The `n` low bytes of `x`, least significant first.
pub open spec fn le_bytes(x: nat, n: nat) -> Seq<u8>
    decreases n,
{
    if n == 0 {
        seq![]
    } else {
        seq![(x % 256) as u8] + le_bytes(x / 256, (n - 1) as nat)
    }
}

/// The eight little-endian bytes of `x`, as a counter or an id is written in a seed.
pub fn u64_le_bytes(x: u64) -> (r: Vec<u8>)
    ensures
        r@ == le_bytes(x as nat, 8),
{
    let mut out: Vec<u8> = Vec::new();
    let mut v: u64 = x;
    let mut i: usize = 0;
    while i < 8
        invariant
            0 <= i <= 8,
            out@ + le_bytes(v as nat, (8 - i) as nat) == le_bytes(x as nat, 8),
        decreases 8 - i,
    {
        let ghost before = out@;
        let b: u8 = (v % 256) as u8;
        assert(le_bytes(v as nat, (8 - i) as nat) == seq![b] + le_bytes(
            (v / 256) as nat,
            (8 - i - 1) as nat,
        ));
        out.push(b);
        v = v / 256;
        i = i + 1;
        assert(before + (seq![b] + le_bytes(v as nat, (8 - i) as nat)) =~= out@ + le_bytes(
            v as nat,
            (8 - i) as nat,
        ));
    }
    assert(out@ + le_bytes(v as nat, 0) =~= out@);
    out
}

pub open spec fn profile_seeds(owner: Seq<u8>) -> Seq<Seq<u8>> {
    seq![tag_of(RecordKind::Profile), owner]
}

pub open spec fn community_seeds(community_id: u64) -> Seq<Seq<u8>> {
    seq![tag_of(RecordKind::Community), le_bytes(community_id as nat, 8)]
}

pub open spec fn membership_seeds(community: Seq<u8>, user: Seq<u8>) -> Seq<Seq<u8>> {
    seq![tag_of(RecordKind::Membership), community, user]
}

pub open spec fn post_seeds(community: Seq<u8>, post_id: u64) -> Seq<Seq<u8>> {
    seq![tag_of(RecordKind::Post), community, le_bytes(post_id as nat, 8)]
}

pub open spec fn like_seeds(post: Seq<u8>, liker: Seq<u8>) -> Seq<Seq<u8>> {
    seq![tag_of(RecordKind::Like), post, liker]
}

pub open spec fn comment_seeds(post: Seq<u8>, comment_id: u64) -> Seq<Seq<u8>> {
    seq![tag_of(RecordKind::Comment), post, le_bytes(comment_id as nat, 8)]
}

pub open spec fn follow_seeds(follower: Seq<u8>, followed: Seq<u8>) -> Seq<Seq<u8>> {
    seq![tag_of(RecordKind::Follow), follower, followed]
}

pub open spec fn poll_seeds(community: Seq<u8>, poll_id: u64) -> Seq<Seq<u8>> {
    seq![tag_of(RecordKind::Poll), community, le_bytes(poll_id as nat, 8)]
}

pub open spec fn vote_seeds(poll: Seq<u8>, voter: Seq<u8>) -> Seq<Seq<u8>> {
    seq![tag_of(RecordKind::Vote), poll, voter]
}

/// `address` is the one derived from `seeds`.
pub open spec fn binds(program: Seq<u8>, seeds: Seq<Seq<u8>>, address: Seq<u8>) -> bool {
    program_address(program, seeds) == Some(address)
}

fn derive2(program: &Address, kind: RecordKind, a: Vec<u8>) -> (r: Option<Address>)
    ensures
        opt_view(r) == program_address(program@, seq![tag_of(kind), a@]),
{
    let seeds: Vec<Vec<u8>> = vec![tag(kind), a];
    assert(seeds_view(seeds@) =~= seq![tag_of(kind), seeds@[1]@]);
    find_program_address(program, &seeds)
}

fn derive3(program: &Address, kind: RecordKind, a: Vec<u8>, b: Vec<u8>) -> (r: Option<Address>)
    ensures
        opt_view(r) == program_address(program@, seq![tag_of(kind), a@, b@]),
{
    let seeds: Vec<Vec<u8>> = vec![tag(kind), a, b];
    assert(seeds_view(seeds@) =~= seq![tag_of(kind), seeds@[1]@, seeds@[2]@]);
    find_program_address(program, &seeds)
}

/// Checks a supplied address against the one derived from its seeds.
pub fn bind(derived: Option<Address>, supplied: &Address) -> (r: bool)
    ensures
        r == (opt_view(derived) == Some(supplied@)),
{
    match derived {
        Some(a) => a.same(supplied),
        None => false,
    }
}

pub fn profile_address(program: &Address, owner: &Address) -> (r: Option<Address>)
    ensures
        opt_view(r) == program_address(program@, profile_seeds(owner@)),
{
    derive2(program, RecordKind::Profile, owner.to_vec())
}

pub fn community_address(program: &Address, community_id: u64) -> (r: Option<Address>)
    ensures
        opt_view(r) == program_address(program@, community_seeds(community_id)),
{
    derive2(program, RecordKind::Community, u64_le_bytes(community_id))
}

pub fn membership_address(program: &Address, community: &Address, user: &Address) -> (r: Option<
    Address,
>)
    ensures
        opt_view(r) == program_address(program@, membership_seeds(community@, user@)),
{
    derive3(program, RecordKind::Membership, community.to_vec(), user.to_vec())
}

pub fn post_address(program: &Address, community: &Address, post_id: u64) -> (r: Option<Address>)
    ensures
        opt_view(r) == program_address(program@, post_seeds(community@, post_id)),
{
    derive3(program, RecordKind::Post, community.to_vec(), u64_le_bytes(post_id))
}

pub fn like_address(program: &Address, post: &Address, liker: &Address) -> (r: Option<Address>)
    ensures
        opt_view(r) == program_address(program@, like_seeds(post@, liker@)),
{
    derive3(program, RecordKind::Like, post.to_vec(), liker.to_vec())
}

pub fn comment_address(program: &Address, post: &Address, comment_id: u64) -> (r: Option<
    Address,
>)
    ensures
        opt_view(r) == program_address(program@, comment_seeds(post@, comment_id)),
{
    derive3(program, RecordKind::Comment, post.to_vec(), u64_le_bytes(comment_id))
}

pub fn follow_address(program: &Address, follower: &Address, followed: &Address) -> (r: Option<
    Address,
>)
    ensures
        opt_view(r) == program_address(program@, follow_seeds(follower@, followed@)),
{
    derive3(program, RecordKind::Follow, follower.to_vec(), followed.to_vec())
}

pub fn poll_address(program: &Address, community: &Address, poll_id: u64) -> (r: Option<Address>)
    ensures
        opt_view(r) == program_address(program@, poll_seeds(community@, poll_id)),
{
    derive3(program, RecordKind::Poll, community.to_vec(), u64_le_bytes(poll_id))
}

pub fn vote_address(program: &Address, poll: &Address, voter: &Address) -> (r: Option<Address>)
    ensures
        opt_view(r) == program_address(program@, vote_seeds(poll@, voter@)),
{
    derive3(program, RecordKind::Vote, poll.to_vec(), voter.to_vec())
}

} // verus!

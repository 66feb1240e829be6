//! The claim registry: each byte fingerprint is bound to at most one owner,
//! with the block in which the binding was made. The first to claim a
//! fingerprint holds it until revoking or handing it on.
use vstd::prelude::*;
use crate::{AccountId, BlockNumber};

verus! {

/// Parameters of the registry.
#[derive(Clone, Copy, Debug, PartialEq, Eq)]
pub struct Config {
    /// The longest fingerprint that can be claimed.
    pub string_limit: u32,
}

/// What a successful operation reports.
#[derive(Clone, Debug, PartialEq, Eq)]
pub enum Event {
    /// A fingerprint was claimed: owner, fingerprint.
    ClaimCreated(AccountId, Vec<u8>),
    /// A claim was revoked: owner, fingerprint.
    ClaimRevoked(AccountId, Vec<u8>),
}

/// Why an operation was rejected.
#[derive(Clone, Copy, Debug, PartialEq, Eq)]
pub enum Error {
    /// The fingerprint is already claimed.
    ProofAlreadyClaimed,
    /// The fingerprint is not claimed.
    NoSuchProof,
    /// The actor does not hold the claim.
    NotProofOwner,
    /// The fingerprint is longer than the limit.
    BadMetadata,
}

/// What the registry records of a claim: its owner and the block in which
/// it was made or last handed on.
pub type ClaimMap = Map<Seq<u8>, (AccountId, BlockNumber)>;

/// The claims after `create_claim`, or the error it fails with.
pub open spec fn create_claim_outcome(
    claims: ClaimMap,
    limit: u32,
    sender: AccountId,
    proof: Seq<u8>,
    now: BlockNumber,
) -> Result<ClaimMap, Error> {
    if proof.len() > limit {
        Err(Error::BadMetadata)
    } else if claims.contains_key(proof) {
        Err(Error::ProofAlreadyClaimed)
    } else {
        Ok(claims.insert(proof, (sender, now)))
    }
}

/// The claims after `revoke_claim`, or the error it fails with.
pub open spec fn revoke_claim_outcome(claims: ClaimMap, sender: AccountId, proof: Seq<u8>) -> Result<
    ClaimMap,
    Error,
> {
    if !claims.contains_key(proof) {
        Err(Error::NoSuchProof)
    } else if claims[proof].0 != sender {
        Err(Error::NotProofOwner)
    } else {
        Ok(claims.remove(proof))
    }
}

/// The claims after `transfer_claim`, or the error it fails with.
pub open spec fn transfer_claim_outcome(
    claims: ClaimMap,
    sender: AccountId,
    proof: Seq<u8>,
    dest: AccountId,
    now: BlockNumber,
) -> Result<ClaimMap, Error> {
    if !claims.contains_key(proof) {
        Err(Error::NoSuchProof)
    } else if claims[proof].0 != sender {
        Err(Error::NotProofOwner)
    } else {
        Ok(claims.insert(proof, (dest, now)))
    }
}

/// While a fingerprint is claimed, nobody can claim it again; in
/// particular, right after a successful claim every further claim of it
/// fails.
pub proof fn lemma_claim_uniqueness(
    claims: ClaimMap,
    limit: u32,
    first: AccountId,
    second: AccountId,
    proof: Seq<u8>,
    now_1: BlockNumber,
    now_2: BlockNumber,
)
    ensures
        claims.contains_key(proof) && proof.len() <= limit ==> create_claim_outcome(
            claims,
            limit,
            second,
            proof,
            now_2,
        ) == Err::<ClaimMap, Error>(Error::ProofAlreadyClaimed),
        create_claim_outcome(claims, limit, first, proof, now_1) is Ok ==> create_claim_outcome(
            create_claim_outcome(claims, limit, first, proof, now_1)->Ok_0,
            limit,
            second,
            proof,
            now_2,
        ) == Err::<ClaimMap, Error>(Error::ProofAlreadyClaimed),
{
}

/// Only the holder of a claim can revoke it or hand it on; anyone else is
/// refused with `NotProofOwner`, and a refused operation changes nothing.
pub proof fn lemma_ownership_gate(
    claims: ClaimMap,
    sender: AccountId,
    proof: Seq<u8>,
    dest: AccountId,
    now: BlockNumber,
)
    ensures
        revoke_claim_outcome(claims, sender, proof) is Ok ==> claims.contains_key(proof)
            && claims[proof].0 == sender,
        transfer_claim_outcome(claims, sender, proof, dest, now) is Ok ==> claims.contains_key(
            proof,
        ) && claims[proof].0 == sender,
        claims.contains_key(proof) && claims[proof].0 != sender ==> revoke_claim_outcome(
            claims,
            sender,
            proof,
        ) == Err::<ClaimMap, Error>(Error::NotProofOwner) && transfer_claim_outcome(
            claims,
            sender,
            proof,
            dest,
            now,
        ) == Err::<ClaimMap, Error>(Error::NotProofOwner),
{
}

/// One claim as the registry stores it.
struct ProofEntry {
    proof: Vec<u8>,
    owner: AccountId,
    block: BlockNumber,
}

/// The registry: a list of claims with distinct fingerprints, and the map
/// that it stands for.
pub struct Pallet {
    proofs: Vec<ProofEntry>,
    claims: Ghost<ClaimMap>,
    config: Config,
}

impl View for Pallet {
    type V = ClaimMap;

    closed spec fn view(&self) -> ClaimMap {
        self.claims@
    }
}

/// Whether two byte strings are equal.
fn bytes_eq(a: &Vec<u8>, b: &Vec<u8>) -> (r: bool)
    ensures
        r == (a@ == b@),
{
    if a.len() != b.len() {
        return false;
    }
    let mut i: usize = 0;
    while i < a.len()
        invariant
            a@.len() == b@.len(),
            0 <= i <= a@.len(),
            forall|j: int| 0 <= j < i ==> a@[j] == b@[j],
        decreases a@.len() - i,
    {
        if a[i] != b[i] {
            return false;
        }
        i += 1;
    }
    assert(a@ =~= b@);
    true
}

impl Pallet {
    /// The list has distinct fingerprints and holds exactly the claims of
    /// the map.
    pub closed spec fn wf(&self) -> bool {
        &&& forall|i: int, j: int|
            0 <= i < j < self.proofs@.len() ==> #[trigger] self.proofs@[i].proof@
                != #[trigger] self.proofs@[j].proof@
        &&& forall|i: int|
            0 <= i < self.proofs@.len() ==> self.claims@.contains_key(
                #[trigger] self.proofs@[i].proof@,
            ) && self.claims@[self.proofs@[i].proof@] == (
                self.proofs@[i].owner,
                self.proofs@[i].block,
            )
        &&& forall|k: Seq<u8>|
            #[trigger] self.claims@.contains_key(k) ==> exists|i: int|
                0 <= i < self.proofs@.len() && #[trigger] self.proofs@[i].proof@ == k
    }

    pub closed spec fn spec_config(&self) -> Config {
        self.config
    }

    pub fn new(config: Config) -> (r: Self)
        ensures
            r.wf(),
            r@ == ClaimMap::empty(),
            r.spec_config() == config,
    {
        Pallet { proofs: Vec::new(), claims: Ghost(ClaimMap::empty()), config }
    }

    /// The position of `proof` in the list, if it is claimed.
    fn find(&self, proof: &Vec<u8>) -> (r: Option<usize>)
        requires
            self.wf(),
        ensures
            match r {
                Some(i) => {
                    &&& i < self.proofs@.len()
                    &&& self.proofs@[i as int].proof@ == proof@
                    &&& self@.contains_key(proof@)
                    &&& self@[proof@] == (self.proofs@[i as int].owner, self.proofs@[i as int].block)
                },
                None => !self@.contains_key(proof@),
            },
    {
        let mut i: usize = 0;
        while i < self.proofs.len()
            invariant
                self.wf(),
                0 <= i <= self.proofs@.len(),
                forall|j: int| 0 <= j < i ==> #[trigger] self.proofs@[j].proof@ != proof@,
            decreases self.proofs@.len() - i,
        {
            if bytes_eq(&self.proofs[i].proof, proof) {
                assert(self.claims@.contains_key(self.proofs@[i as int].proof@));
                return Some(i);
            }
            i += 1;
        }
        None
    }

    /// Claims `proof` for `sender` in block `now`.
    pub fn create_claim(&mut self, sender: AccountId, proof: Vec<u8>, now: BlockNumber) -> (r: Result<
        Event,
        Error,
    >)
        requires
            old(self).wf(),
        ensures
            final(self).wf(),
            final(self).spec_config() == old(self).spec_config(),
            match create_claim_outcome(
                old(self)@,
                old(self).spec_config().string_limit,
                sender,
                proof@,
                now,
            ) {
                Ok(claims) => r == Ok::<Event, Error>(Event::ClaimCreated(sender, proof))
                    && final(self)@ == claims,
                Err(e) => r == Err::<Event, Error>(e) && final(self)@ == old(self)@,
            },
    {
        if proof.len() > self.config.string_limit as usize {
            return Err(Error::BadMetadata);
        }
        if self.find(&proof).is_some() {
            return Err(Error::ProofAlreadyClaimed);
        }
        let ghost old_proofs = self.proofs@;
        let ghost key = proof@;
        self.claims = Ghost(self.claims@.insert(key, (sender, now)));
        self.proofs.push(ProofEntry { proof: proof.clone(), owner: sender, block: now });
        assert forall|k: Seq<u8>| #[trigger] self.claims@.contains_key(k) implies exists|i: int|
            0 <= i < self.proofs@.len() && #[trigger] self.proofs@[i].proof@ == k by {
            if k == key {
                assert(self.proofs@[old_proofs.len() as int].proof@ == k);
            } else {
                let i = choose|i: int| 0 <= i < old_proofs.len() && #[trigger] old_proofs[i].proof@ == k;
                assert(self.proofs@[i].proof@ == k);
            }
        }
        Ok(Event::ClaimCreated(sender, proof))
    }

    /// Revokes `sender`'s claim of `proof`.
    pub fn revoke_claim(&mut self, sender: AccountId, proof: Vec<u8>) -> (r: Result<Event, Error>)
        requires
            old(self).wf(),
        ensures
            final(self).wf(),
            final(self).spec_config() == old(self).spec_config(),
            match revoke_claim_outcome(old(self)@, sender, proof@) {
                Ok(claims) => r == Ok::<Event, Error>(Event::ClaimRevoked(sender, proof))
                    && final(self)@ == claims,
                Err(e) => r == Err::<Event, Error>(e) && final(self)@ == old(self)@,
            },
    {
        let i = match self.find(&proof) {
            Some(i) => i,
            None => {
                return Err(Error::NoSuchProof);
            },
        };
        if self.proofs[i].owner != sender {
            return Err(Error::NotProofOwner);
        }
        let ghost old_proofs = self.proofs@;
        let ghost key = proof@;
        self.proofs.remove(i);
        self.claims = Ghost(self.claims@.remove(key));
        assert forall|j: int| 0 <= j < self.proofs@.len() implies #[trigger] self.proofs@[j].proof@
            != key by {
            if j < i {
                assert(old_proofs[j].proof@ != old_proofs[i as int].proof@);
            } else {
                assert(old_proofs[j + 1].proof@ != old_proofs[i as int].proof@);
            }
        }
        assert forall|a: int, b: int|
            0 <= a < b < self.proofs@.len() implies #[trigger] self.proofs@[a].proof@
            != #[trigger] self.proofs@[b].proof@ by {
            let oa = if a < i { a } else { a + 1 };
            let ob = if b < i { b } else { b + 1 };
            assert(old_proofs[oa].proof@ != old_proofs[ob].proof@);
        }
        assert forall|k: Seq<u8>| #[trigger] self.claims@.contains_key(k) implies exists|j: int|
            0 <= j < self.proofs@.len() && #[trigger] self.proofs@[j].proof@ == k by {
            let oj = choose|oj: int| 0 <= oj < old_proofs.len() && #[trigger] old_proofs[oj].proof@ == k;
            assert(oj != i);
            if oj < i {
                assert(self.proofs@[oj].proof@ == k);
            } else {
                assert(self.proofs@[oj - 1].proof@ == k);
            }
        }
        Ok(Event::ClaimRevoked(sender, proof))
    }

    /// Hands `sender`'s claim of `proof` on to `dest`, recorded in block
    /// `now`.
    pub fn transfer_claim(
        &mut self,
        sender: AccountId,
        proof: Vec<u8>,
        dest: AccountId,
        now: BlockNumber,
    ) -> (r: Result<(), Error>)
        requires
            old(self).wf(),
        ensures
            final(self).wf(),
            final(self).spec_config() == old(self).spec_config(),
            match transfer_claim_outcome(old(self)@, sender, proof@, dest, now) {
                Ok(claims) => r == Ok::<(), Error>(()) && final(self)@ == claims,
                Err(e) => r == Err::<(), Error>(e) && final(self)@ == old(self)@,
            },
    {
        let i = match self.find(&proof) {
            Some(i) => i,
            None => {
                return Err(Error::NoSuchProof);
            },
        };
        if self.proofs[i].owner != sender {
            return Err(Error::NotProofOwner);
        }
        let ghost old_proofs = self.proofs@;
        let ghost key = proof@;
        self.claims = Ghost(self.claims@.insert(key, (dest, now)));
        self.proofs.set(i, ProofEntry { proof, owner: dest, block: now });
        assert forall|k: Seq<u8>| #[trigger] self.claims@.contains_key(k) implies exists|j: int|
            0 <= j < self.proofs@.len() && #[trigger] self.proofs@[j].proof@ == k by {
            let oj = choose|oj: int| 0 <= oj < old_proofs.len() && #[trigger] old_proofs[oj].proof@ == k;
            assert(self.proofs@[oj].proof@ == k);
        }
        Ok(())
    }

    /// Whether `proof` is claimed.
    pub fn contains_proof(&self, proof: &Vec<u8>) -> (r: bool)
        requires
            self.wf(),
        ensures
            r == self@.contains_key(proof@),
    {
        self.find(proof).is_some()
    }

    /// The owner of `proof` and the block of its claim, if it is claimed.
    pub fn get_proof(&self, proof: &Vec<u8>) -> (r: Option<(AccountId, BlockNumber)>)
        requires
            self.wf(),
        ensures
            r == if self@.contains_key(proof@) {
                Some(self@[proof@])
            } else {
                None::<(AccountId, BlockNumber)>
            },
    {
        match self.find(proof) {
            Some(i) => Some((self.proofs[i].owner, self.proofs[i].block)),
            None => None,
        }
    }

    /// The registry's parameters.
    pub fn config(&self) -> (r: Config)
        ensures
            r == self.spec_config(),
    {
        self.config
    }
}

} // verus!

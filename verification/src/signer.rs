//! The signers attached to a request: each public identity once, in the
//! order of attachment.

use vstd::prelude::*;

verus! {

/// Whether two byte strings hold the same bytes.
pub fn bytes_equal(a: &Vec<u8>, b: &Vec<u8>) -> (eq: bool)
    ensures
        eq == (a@ == b@),
{
    if a.len() != b.len() {
        return false;
    }
    let mut i: usize = 0;
    while i < a.len()
        invariant
            a.len() == b.len(),
            i <= a.len(),
            forall|j: int| 0 <= j < i ==> a@[j] == b@[j],
        decreases a.len() - i,
    {
        if a[i] != b[i] {
            return false;
        }
        i = i + 1;
    }
    assert(a@ =~= b@);
    true
}

/// A signature together with the public identity of the signer that made it.
#[derive(Clone, Debug, PartialEq, Eq)]
pub struct SignaturePair {
    pub public_identity: Vec<u8>,
    pub signature: Vec<u8>,
}

/// The public identities of the signers attached to a request.
#[derive(Debug)]
pub struct SignerSet {
    ids: Vec<Vec<u8>>,
}

/// Whether `signature` is an answer of the signing capability `sign` to the
/// request that the signer with these identity bytes sign `payload`.
pub open spec fn signed_by<F: Fn(&Vec<u8>, &Vec<u8>) -> Vec<u8>>(
    sign: F,
    public_identity: Seq<u8>,
    payload: &Vec<u8>,
    signature: Vec<u8>,
) -> bool {
    exists|id: &Vec<u8>| id@ == public_identity && call_ensures(sign, (id, payload), signature)
}

/// The byte strings of a list of identities.
pub open spec fn identities_of(ids: Seq<Vec<u8>>) -> Seq<Seq<u8>> {
    Seq::new(ids.len(), |i: int| ids[i]@)
}

impl View for SignerSet {
    type V = Seq<Seq<u8>>;

    /// The attached identities, in the order of attachment.
    closed spec fn view(&self) -> Seq<Seq<u8>> {
        identities_of(self.ids@)
    }
}

impl SignerSet {
    #[verifier::type_invariant]
    spec fn distinct(self) -> bool {
        identities_of(self.ids@).no_duplicates()
    }

    /// The set without any signer.
    pub fn new() -> (set: Self)
        ensures
            set@ == Seq::<Seq<u8>>::empty(),
    {
        let set = SignerSet { ids: Vec::new() };
        assert(set@ =~= Seq::<Seq<u8>>::empty());
        set
    }

    /// How many signers are attached. No identity is counted twice.
    pub fn len(&self) -> (n: usize)
        ensures
            n == self@.len(),
            self@.no_duplicates(),
    {
        proof {
            use_type_invariant(self);
        }
        self.ids.len()
    }

    /// Whether the identity is attached.
    pub fn contains(&self, public_identity: &Vec<u8>) -> (found: bool)
        ensures
            found == self@.contains(public_identity@),
    {
        let mut i: usize = 0;
        while i < self.ids.len()
            invariant
                i <= self.ids.len(),
                forall|j: int| 0 <= j < i ==> self@[j] != public_identity@,
            decreases self.ids.len() - i,
        {
            if bytes_equal(&self.ids[i], public_identity) {
                assert(self@[i as int] == public_identity@);
                return true;
            }
            i = i + 1;
        }
        false
    }

    /// The identity at a position in the order of attachment, if the
    /// position is taken.
    pub fn get(&self, index: usize) -> (public_identity: Option<&Vec<u8>>)
        ensures
            match public_identity {
                Some(id) => index < self@.len() && id@ == self@[index as int],
                None => index >= self@.len(),
            },
    {
        if index < self.ids.len() {
            Some(&self.ids[index])
        } else {
            None
        }
    }

    /// Attaches a signer unless its identity is attached already, and says
    /// whether it was added. A new identity goes to the end.
    pub fn attach(&mut self, public_identity: Vec<u8>) -> (added: bool)
        ensures
            added == !old(self)@.contains(public_identity@),
            added ==> final(self)@ == old(self)@.push(public_identity@),
            !added ==> final(self)@ == old(self)@,
            final(self)@.no_duplicates(),
    {
        proof {
            use_type_invariant(&*self);
        }
        if self.contains(&public_identity) {
            return false;
        }
        let ghost before = self@;
        let mut ids: Vec<Vec<u8>> = Vec::new();
        std::mem::swap(&mut ids, &mut self.ids);
        ids.push(public_identity);
        assert(identities_of(ids@) =~= before.push(public_identity@));
        self.ids = ids;
        true
    }

    /// Has every attached signer sign the payload, in the order of attachment.
    ///
    /// `sign` is the signing capability: it is called once for each attached
    /// identity, with that identity and the payload, and each answer is paired
    /// with the identity that it was asked of.
    pub fn sign_payload<F: Fn(&Vec<u8>, &Vec<u8>) -> Vec<u8>>(
        &self,
        payload: &Vec<u8>,
        sign: F,
    ) -> (signatures: Vec<SignaturePair>)
        requires
            forall|id: &Vec<u8>| call_requires(sign, (id, payload)),
        ensures
            signatures@.len() == self@.len(),
            forall|i: int|
                0 <= i < self@.len() ==> (#[trigger] signatures@[i]).public_identity@ == self@[i],
            forall|i: int|
                0 <= i < self@.len() ==> signed_by(
                    sign,
                    self@[i],
                    payload,
                    (#[trigger] signatures@[i]).signature,
                ),
    {
        let mut signatures: Vec<SignaturePair> = Vec::new();
        let mut i: usize = 0;
        while i < self.ids.len()
            invariant
                i <= self.ids.len(),
                signatures@.len() == i,
                forall|id: &Vec<u8>| call_requires(sign, (id, payload)),
                forall|j: int|
                    0 <= j < i ==> (#[trigger] signatures@[j]).public_identity@ == self@[j],
                forall|j: int|
                    0 <= j < i ==> signed_by(
                        sign,
                        self@[j],
                        payload,
                        (#[trigger] signatures@[j]).signature,
                    ),
            decreases self.ids.len() - i,
        {
            let id = &self.ids[i];
            let signature = sign(id, payload);
            assert(signed_by(sign, self@[i as int], payload, signature));
            let public_identity = id.clone();
            assert(public_identity@ =~= id@);
            signatures.push(SignaturePair { public_identity, signature });
            i = i + 1;
        }
        signatures
    }
}

} // verus!

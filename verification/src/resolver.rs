//! The resolver of derived accounts: from a caller's identity and a fixed tag
//! to the address of that caller's vault, counters or ledger, and to the
//! material that later authorizes a transfer out of such an address.

use crate::address::{id, lemma_address_by_bytes, program_id, Address};
use anchor_lang::solana_program::pubkey::Pubkey;
use vstd::prelude::*;
use vstd::slice::slice_to_vec;
use vstd::string::StringSliceAdditionalSpecFns;

verus! {

/// What `Pubkey::try_find_program_address` returns for a list of seeds and a
/// program: the derived address with its bump seed, if there is one.
pub uninterp spec fn program_address(seeds: Seq<Seq<u8>>, program: Seq<u8>) -> Option<
    (Seq<u8>, u8),
>;

/// Calls `Pubkey::try_find_program_address` with the two seeds `seed` and
/// `caller`, in that order. The contract claims only that the outcome is a
/// function of the seeds and the program: an address of thirty-two bytes with
/// its bump seed, or nothing where the search finds none.
#[verifier::external_body]
fn try_find_program_address(seed: &[u8], caller: &Address, program: &Address) -> (r: Option<
    (Address, u8),
>)
    ensures
        r matches Some(found) ==> program_address(seq![seed@, caller@], program@) == Some(
            (found.0@, found.1),
        ),
        r is None ==> program_address(seq![seed@, caller@], program@) is None,
{
    let program = Pubkey::new_from_array(program.bytes);
    let found = Pubkey::try_find_program_address(&[seed, &caller.bytes], &program);
    found.map(|(key, bump)| (Address { bytes: key.to_bytes() }, bump))
}

/// The three records that every caller has.
#[derive(Clone, Copy, Debug, PartialEq, Eq, Structural)]
pub enum Tag {
    /// The account that holds the caller's deposited value.
    Vault,
    /// The record of how often the caller deposited and withdrew.
    Counter,
    /// The record of all that the caller ever deposited.
    Balance,
}

impl Tag {
    /// The seed that stands for the tag in a derivation: the bytes of its word.
    pub open spec fn seed(self) -> Seq<u8> {
        match self {
            Tag::Vault => "vault".spec_bytes(),
            Tag::Counter => "counter".spec_bytes(),
            Tag::Balance => "balance".spec_bytes(),
        }
    }

    /// The seed that stands for the tag in a derivation.
    pub fn as_seed(&self) -> (s: &'static [u8])
        ensures
            s@ == self.seed(),
    {
        match self {
            Tag::Vault => "vault".as_bytes(),
            Tag::Counter => "counter".as_bytes(),
            Tag::Balance => "balance".as_bytes(),
        }
    }
}

/// What authorizes a transfer out of a derived address in place of a
/// signature: the seeds it was derived from and the bump seed found for them.
#[derive(Clone, Copy, Debug, PartialEq, Eq)]
pub struct ProofMaterial {
    pub tag: Tag,
    pub caller: Address,
    pub bump: u8,
}

impl ProofMaterial {
    /// The seeds that sign for the derived address: those it was derived
    /// from, then the bump seed.
    pub open spec fn signer_seeds(self) -> Seq<Seq<u8>> {
        seeds_of(self.tag, self.caller).push(seq![self.bump])
    }

    /// The seeds that sign for the derived address, as bytes.
    pub fn to_signer_seeds(&self) -> (r: Vec<Vec<u8>>)
        ensures
            r.deep_view() == self.signer_seeds(),
    {
        let mut seeds: Vec<Vec<u8>> = Vec::new();
        seeds.push(slice_to_vec(self.tag.as_seed()));
        seeds.push(slice_to_vec(self.caller.bytes.as_slice()));
        seeds.push(vec![self.bump]);
        assert(seeds.deep_view() =~~= self.signer_seeds());
        seeds
    }
}

/// A derived address with the material that proves its derivation.
#[derive(Clone, Copy, Debug, PartialEq, Eq)]
pub struct Derived {
    pub address: Address,
    pub proof: ProofMaterial,
}

/// The seeds from which the record `tag` of `caller` is derived.
pub open spec fn seeds_of(tag: Tag, caller: Address) -> Seq<Seq<u8>> {
    seq![tag.seed(), caller@]
}

/// `outcome` is what deriving the record `tag` of `caller` gives.
pub open spec fn derives(tag: Tag, caller: Address, outcome: Option<Derived>) -> bool {
    match outcome {
        Some(d) => {
            &&& program_address(seeds_of(tag, caller), program_id()@) == Some(
                (d.address@, d.proof.bump),
            )
            &&& d.proof.tag == tag
            &&& d.proof.caller == caller
        },
        None => program_address(seeds_of(tag, caller), program_id()@) is None,
    }
}

/// Derives the address of the record `tag` of `caller` under this program,
/// with its proof material. The outcome depends on the tag and the caller
/// alone.
pub fn derive(tag: Tag, caller: &Address) -> (r: Option<Derived>)
    ensures
        derives(tag, *caller, r),
{
    let program = id();
    match try_find_program_address(tag.as_seed(), caller, &program) {
        Some(found) => Some(
            Derived {
                address: found.0,
                proof: ProofMaterial { tag, caller: *caller, bump: found.1 },
            },
        ),
        None => None,
    }
}

/// The three addresses resolved for one caller.
#[derive(Clone, Copy, Debug, PartialEq, Eq)]
pub struct Resolved {
    pub vault: Option<Derived>,
    pub counter: Option<Derived>,
    pub balance: Option<Derived>,
}

/// `key` is the address derived for the record `tag` of `caller`.
pub open spec fn is_address_of(tag: Tag, caller: Address, key: Address) -> bool {
    program_address(seeds_of(tag, caller), program_id()@) matches Some(found) && found.0 == key@
}

/// `resolved` is what resolving the three records of `caller` gives.
pub open spec fn resolves(caller: Address, resolved: Resolved) -> bool {
    &&& derives(Tag::Vault, caller, resolved.vault)
    &&& derives(Tag::Counter, caller, resolved.counter)
    &&& derives(Tag::Balance, caller, resolved.balance)
}

/// `derived` is a derivation of the record `tag` of `caller` that gave the
/// address `key`.
pub open spec fn derived_as(derived: Option<Derived>, tag: Tag, caller: Address, key: Address)
    -> bool {
    &&& derived matches Some(d)
    &&& d.address == key
    &&& d.proof.tag == tag
    &&& d.proof.caller == caller
}

/// Whether `derived` is a derivation of the record `tag` of `caller` that
/// gave the address `key`: the check that lets `key` stand for that record,
/// and that lets the proof material sign for it.
pub fn is_derived_as(derived: &Option<Derived>, tag: Tag, caller: &Address, key: &Address) -> (r:
    bool)
    ensures
        r == derived_as(*derived, tag, *caller, *key),
{
    match derived {
        Some(d) => d.address == *key && d.proof.tag == tag && d.proof.caller == *caller,
        None => false,
    }
}

impl Resolved {
    /// The three accounts presented are those resolved for `caller`.
    pub open spec fn resolved_as(
        self,
        caller: Address,
        vault: Address,
        counter: Address,
        balance: Address,
    ) -> bool {
        &&& derived_as(self.vault, Tag::Vault, caller, vault)
        &&& derived_as(self.counter, Tag::Counter, caller, counter)
        &&& derived_as(self.balance, Tag::Balance, caller, balance)
    }

    /// Whether the three accounts presented are those resolved for `caller`.
    pub fn is_resolved_as(
        &self,
        caller: &Address,
        vault: &Address,
        counter: &Address,
        balance: &Address,
    ) -> (r: bool)
        ensures
            r == self.resolved_as(*caller, *vault, *counter, *balance),
    {
        is_derived_as(&self.vault, Tag::Vault, caller, vault) && is_derived_as(
            &self.counter,
            Tag::Counter,
            caller,
            counter,
        ) && is_derived_as(&self.balance, Tag::Balance, caller, balance)
    }
}

/// Resolves the vault, the counters and the ledger of `caller`.
pub fn resolve(caller: &Address) -> (r: Resolved)
    ensures
        resolves(*caller, r),
{
    Resolved {
        vault: crate::resolver::derive(Tag::Vault, caller),
        counter: crate::resolver::derive(Tag::Counter, caller),
        balance: crate::resolver::derive(Tag::Balance, caller),
    }
}

/// The three accounts presented are those resolved for a caller exactly when
/// each is the address derived for its record.
pub proof fn lemma_resolved_as(
    caller: Address,
    resolved: Resolved,
    vault: Address,
    counter: Address,
    balance: Address,
)
    requires
        resolves(caller, resolved),
    ensures
        resolved.resolved_as(caller, vault, counter, balance) <==> {
            &&& is_address_of(Tag::Vault, caller, vault)
            &&& is_address_of(Tag::Counter, caller, counter)
            &&& is_address_of(Tag::Balance, caller, balance)
        },
{
    lemma_derived_as(Tag::Vault, caller, resolved.vault, vault);
    lemma_derived_as(Tag::Counter, caller, resolved.counter, counter);
    lemma_derived_as(Tag::Balance, caller, resolved.balance, balance);
}

/// A derivation gave the address `key` exactly when `key` is the address
/// derived for the record.
pub proof fn lemma_derived_as(tag: Tag, caller: Address, outcome: Option<Derived>, key: Address)
    requires
        derives(tag, caller, outcome),
    ensures
        derived_as(outcome, tag, caller, key) <==> is_address_of(tag, caller, key),
{
    if let Some(d) = outcome {
        if d.address@ == key@ {
            lemma_address_by_bytes(d.address, key);
        }
    }
}

/// Deriving the same record of the same caller twice gives the same address
/// and the same proof material: whatever two derivations return, they agree.
pub proof fn lemma_derive_deterministic(
    tag: Tag,
    caller: Address,
    first: Option<Derived>,
    second: Option<Derived>,
)
    requires
        derives(tag, caller, first),
        derives(tag, caller, second),
    ensures
        first == second,
{
    if let Some(a) = first {
        let b = second->0;
        lemma_address_by_bytes(a.address, b.address);
        lemma_address_by_bytes(a.proof.caller, b.proof.caller);
    }
}

} // verus!

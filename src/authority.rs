use vstd::prelude::*;

use crate::identity::Identity;

verus! {

/// The address that the program-address search finds for `seeds` under
/// `program`, with its bump seed; `None` where the search finds none.
pub uninterp spec fn program_address_search(seeds: Seq<Seq<u8>>, program: Seq<u8>) -> Option<(Seq<u8>, u8)>;

/// The program address that `seeds` (bump seed included) give under `program`;
/// `None` where they give none.
pub uninterp spec fn program_address_of(seeds: Seq<Seq<u8>>, program: Seq<u8>) -> Option<Seq<u8>>;

pub open spec fn seeds_view(seeds: Seq<Vec<u8>>) -> Seq<Seq<u8>> {
    seeds.map_values(|s: Vec<u8>| s@)
}

pub open spec fn found_view(r: Option<(Identity, u8)>) -> Option<(Seq<u8>, u8)> {
    match r {
        Some((a, b)) => Some((a@, b)),
        None => None,
    }
}

/// Relies on solana_program's `Pubkey::try_find_program_address`: the
/// address and bump seed found for the seeds, a function of the seeds and the
/// program alone; the address is the one that `create_program_address` gives
/// for the seeds followed by the bump seed.
#[verifier::external_body]
fn find_program_address(seeds: &Vec<Vec<u8>>, program_id: &Identity) -> (r: Option<(Identity, u8)>)
    ensures
        found_view(r) == program_address_search(seeds_view(seeds@), program_id@),
        r matches Some((a, b)) ==> program_address_of(
            seeds_view(seeds@).push(seq![b]),
            program_id@,
        ) == Some(a@),
{
    let program = anchor_lang::prelude::Pubkey::new_from_array(program_id.bytes);
    let refs: Vec<&[u8]> = seeds.iter().map(|s| s.as_slice()).collect();
    anchor_lang::prelude::Pubkey::try_find_program_address(&refs, &program).map(
        |(k, b)| (Identity { bytes: k.to_bytes() }, b),
    )
}

/// Relies on solana_program's `Pubkey::create_program_address`: the address
/// that the seeds give, a function of the seeds and the program alone; its
/// errors become `None`.
#[verifier::external_body]
fn create_program_address(seeds: &Vec<Vec<u8>>, program_id: &Identity) -> (r: Option<Identity>)
    ensures
        match r {
            Some(a) => program_address_of(seeds_view(seeds@), program_id@) == Some(a@),
            None => program_address_of(seeds_view(seeds@), program_id@) is None,
        },
{
    let program = anchor_lang::prelude::Pubkey::new_from_array(program_id.bytes);
    let refs: Vec<&[u8]> = seeds.iter().map(|s| s.as_slice()).collect();
    anchor_lang::prelude::Pubkey::create_program_address(&refs, &program).ok().map(
        |k| Identity { bytes: k.to_bytes() },
    )
}

/// The label of a wallet's address: the bytes of "agent_wallet".
pub open spec fn wallet_label() -> Seq<u8> {
    seq![97u8, 103, 101, 110, 116, 95, 119, 97, 108, 108, 101, 116]
}

/// The label of an intent's address: the bytes of "spend_intent".
pub open spec fn intent_label() -> Seq<u8> {
    seq![115u8, 112, 101, 110, 100, 95, 105, 110, 116, 101, 110, 116]
}

/// The eight bytes of `n`, least significant first.
pub open spec fn le_seq(n: u64) -> Seq<u8> {
    seq![
        n as u8,
        (n >> 8u64) as u8,
        (n >> 16u64) as u8,
        (n >> 24u64) as u8,
        (n >> 32u64) as u8,
        (n >> 40u64) as u8,
        (n >> 48u64) as u8,
        (n >> 56u64) as u8,
    ]
}

/// The seeds of the wallet of `owner`.
pub open spec fn wallet_seeds(owner: Identity) -> Seq<Seq<u8>> {
    seq![wallet_label(), owner@]
}

/// The seeds of the intent number `nonce` of the wallet at `wallet_key`.
pub open spec fn intent_seeds(wallet_key: Identity, nonce: u64) -> Seq<Seq<u8>> {
    seq![intent_label(), wallet_key@, le_seq(nonce)]
}

/// The wallet address of `owner` and its bump seed.
pub open spec fn wallet_address_spec(owner: Identity, program_id: Identity) -> Option<(Seq<u8>, u8)> {
    program_address_search(wallet_seeds(owner), program_id@)
}

/// The signing identity of the wallet of `owner` with bump seed `bump`.
pub open spec fn derived_authority_spec(owner: Identity, bump: u8, program_id: Identity) -> Option<Seq<u8>> {
    program_address_of(wallet_seeds(owner).push(seq![bump]), program_id@)
}

pub fn wallet_label_bytes() -> (r: Vec<u8>)
    ensures
        r@ == wallet_label(),
{
    let r = vec![97u8, 103, 101, 110, 116, 95, 119, 97, 108, 108, 101, 116];
    assert(r@ =~= wallet_label());
    r
}

pub fn intent_label_bytes() -> (r: Vec<u8>)
    ensures
        r@ == intent_label(),
{
    let r = vec![115u8, 112, 101, 110, 100, 95, 105, 110, 116, 101, 110, 116];
    assert(r@ =~= intent_label());
    r
}

/// `n` as eight little-endian bytes.
pub fn le_bytes(n: u64) -> (r: Vec<u8>)
    ensures
        r@ == le_seq(n),
{
    let r = vec![
        n as u8,
        (n >> 8u64) as u8,
        (n >> 16u64) as u8,
        (n >> 24u64) as u8,
        (n >> 32u64) as u8,
        (n >> 40u64) as u8,
        (n >> 48u64) as u8,
        (n >> 56u64) as u8,
    ];
    assert(r@ =~= le_seq(n));
    r
}

/// The bytes of an identity.
pub fn identity_bytes(id: &Identity) -> (r: Vec<u8>)
    ensures
        r@ == id@,
{
    let mut r: Vec<u8> = Vec::new();
    let mut i: usize = 0;
    while i < 32
        invariant
            0 <= i <= 32,
            r@ == id@.subrange(0, i as int),
        decreases 32 - i,
    {
        r.push(id.bytes[i]);
        i = i + 1;
    }
    assert(id@.subrange(0, 32) =~= id@);
    r
}

/// The address of the wallet of `owner` and its bump seed: derived from a
/// fixed label and the owner's identity, so one owner has one wallet address.
pub fn wallet_address(owner: &Identity, program_id: &Identity) -> (r: Option<(Identity, u8)>)
    ensures
        found_view(r) == wallet_address_spec(*owner, *program_id),
        r matches Some((a, b)) ==> derived_authority_spec(*owner, b, *program_id) == Some(a@),
{
    let mut seeds: Vec<Vec<u8>> = Vec::new();
    seeds.push(wallet_label_bytes());
    seeds.push(identity_bytes(owner));
    assert(seeds_view(seeds@) =~= wallet_seeds(*owner));
    find_program_address(&seeds, program_id)
}

/// The address of the intent number `nonce` of the wallet at `wallet_key`, and
/// its bump seed.
pub fn intent_address(wallet_key: &Identity, nonce: u64, program_id: &Identity) -> (r: Option<(Identity, u8)>)
    ensures
        found_view(r) == program_address_search(intent_seeds(*wallet_key, nonce), program_id@),
{
    let mut seeds: Vec<Vec<u8>> = Vec::new();
    seeds.push(intent_label_bytes());
    seeds.push(identity_bytes(wallet_key));
    seeds.push(le_bytes(nonce));
    assert(seeds_view(seeds@) =~= intent_seeds(*wallet_key, nonce));
    find_program_address(&seeds, program_id)
}

/// Permission to move `amount` from the wallet's derived authority to
/// `recipient`. Only the execution path of this library builds one, after all
/// of its checks have passed; the transfer layer takes it as the proof of
/// authorization, and `signer_seeds` is what it signs with.
pub struct SignedTransfer {
    authority: Identity,
    recipient: Identity,
    amount: u64,
    signer_seeds: Vec<Vec<u8>>,
}

impl SignedTransfer {
    pub closed spec fn spec_authority(&self) -> Identity {
        self.authority
    }

    pub closed spec fn spec_recipient(&self) -> Identity {
        self.recipient
    }

    pub closed spec fn spec_amount(&self) -> u64 {
        self.amount
    }

    pub closed spec fn spec_signer_seeds(&self) -> Seq<Seq<u8>> {
        seeds_view(self.signer_seeds@)
    }

    pub fn authority(&self) -> (r: Identity)
        ensures
            r == self.spec_authority(),
    {
        self.authority
    }

    pub fn recipient(&self) -> (r: Identity)
        ensures
            r == self.spec_recipient(),
    {
        self.recipient
    }

    pub fn amount(&self) -> (r: u64)
        ensures
            r == self.spec_amount(),
    {
        self.amount
    }

    pub fn signer_seeds(&self) -> (r: &Vec<Vec<u8>>)
        ensures
            seeds_view(r@) == self.spec_signer_seeds(),
    {
        &self.signer_seeds
    }
}

/// Derives the signing identity of the wallet of `owner` (bump seed `bump`)
/// and grants one transfer of `amount` to `recipient` under it.
pub(crate) fn sign_transfer(
    owner: &Identity,
    bump: u8,
    recipient: Identity,
    amount: u64,
    program_id: &Identity,
) -> (r: Option<SignedTransfer>)
    ensures
        match derived_authority_spec(*owner, bump, *program_id) {
            None => r is None,
            Some(a) => r matches Some(t) && {
                &&& t.spec_authority()@ == a
                &&& t.spec_recipient() == recipient
                &&& t.spec_amount() == amount
                &&& t.spec_signer_seeds() == wallet_seeds(*owner).push(seq![bump])
            },
        },
{
    let mut seeds: Vec<Vec<u8>> = Vec::new();
    seeds.push(wallet_label_bytes());
    seeds.push(identity_bytes(owner));
    let mut b: Vec<u8> = Vec::new();
    b.push(bump);
    seeds.push(b);
    assert(seeds_view(seeds@) =~= wallet_seeds(*owner).push(seq![bump]));
    match create_program_address(&seeds, program_id) {
        None => None,
        Some(authority) => Some(SignedTransfer { authority, recipient, amount, signer_seeds: seeds }),
    }
}

} // verus!

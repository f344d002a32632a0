//! The slot claimer: deterministic leader election under partial key
//! custody.
//!
//! The claimer is a pure function of the ordered authority list, the slot
//! number, the set of locally held keys, and the force-authoring flag. The
//! slot's authority is the one at index `slot mod len`; an empty list is a
//! structural error, not a benign skip. When the assigned key is not held
//! and force-authoring is on, the claimer falls back to the first authority
//! in list order whose key is held — a fixed, documented policy, so the
//! outcome stays a function of its inputs alone.

use vstd::prelude::*;
use crate::keys::{keys_view, KeyCustody, PublicKey};

verus! {

/// A claim on one slot: which authority authors it and with which key.
#[derive(Clone, Debug, PartialEq, Eq)]
pub struct SlotClaim {
    pub author_index: usize,
    pub author: PublicKey,
    pub slot: u64,
}

/// The mathematical value of a [`SlotClaim`].
pub ghost struct SlotClaimView {
    pub author_index: int,
    pub author: Seq<u8>,
    pub slot: u64,
}

impl View for SlotClaim {
    type V = SlotClaimView;

    open spec fn view(&self) -> SlotClaimView {
        SlotClaimView {
            author_index: self.author_index as int,
            author: self.author@,
            slot: self.slot,
        }
    }
}

/// The claimer's structural failure: an empty authority list.
#[derive(Clone, Copy, Debug, PartialEq, Eq, Structural)]
pub enum ClaimError {
    EmptyAuthorities,
}

/// The claimer's three outcomes, as mathematical values.
pub ghost enum ClaimResultView {
    /// The authority list was empty: a rejection, never a skip.
    NoAuthorities,
    /// No usable key: the request is skipped, nothing is completed.
    NotOurTurn,
    /// A claim on the slot.
    Claimed(SlotClaimView),
}

/// The mathematical value of the claimer's executable result.
pub open spec fn claim_result_view(r: Result<Option<SlotClaim>, ClaimError>) -> ClaimResultView {
    match r {
        Err(_) => ClaimResultView::NoAuthorities,
        Ok(None) => ClaimResultView::NotOurTurn,
        Ok(Some(c)) => ClaimResultView::Claimed(c@),
    }
}

/// The first authority, in list order, whose key is held — the
/// force-authoring fallback.
pub open spec fn spec_first_held(auths: Seq<Seq<u8>>, custody: Set<Seq<u8>>) -> Option<int>
    decreases auths.len(),
{
    if auths.len() == 0 {
        None
    } else if custody.contains(auths[0]) {
        Some(0)
    } else {
        match spec_first_held(auths.drop_first(), custody) {
            None => None,
            Some(i) => Some(i + 1),
        }
    }
}

/// What the claimer returns on each input: an error on an empty list;
/// otherwise a claim by the authority at `slot mod len` when its key is
/// held; otherwise, under force-authoring, a claim by the first held
/// authority if any; otherwise no claim.
pub open spec fn spec_claim_slot(
    auths: Seq<Seq<u8>>,
    slot: u64,
    custody: Set<Seq<u8>>,
    force_authoring: bool,
) -> ClaimResultView {
    if auths.len() == 0 {
        ClaimResultView::NoAuthorities
    } else {
        let idx = (slot as int) % (auths.len() as int);
        if custody.contains(auths[idx]) {
            ClaimResultView::Claimed(
                SlotClaimView { author_index: idx, author: auths[idx], slot },
            )
        } else if force_authoring {
            match spec_first_held(auths, custody) {
                Some(i) => ClaimResultView::Claimed(
                    SlotClaimView { author_index: i, author: auths[i], slot },
                ),
                None => ClaimResultView::NotOurTurn,
            }
        } else {
            ClaimResultView::NotOurTurn
        }
    }
}

proof fn lemma_first_held_found(auths: Seq<Seq<u8>>, custody: Set<Seq<u8>>, i: int)
    requires
        0 <= i < auths.len(),
        custody.contains(auths[i]),
        forall|j: int| 0 <= j < i ==> !custody.contains(auths[j]),
    ensures
        spec_first_held(auths, custody) == Some(i),
    decreases auths.len(),
{
    if i == 0 {
    } else {
        assert(auths.drop_first()[i - 1] == auths[i]);
        assert(forall|j: int| 0 <= j < i - 1 ==> auths.drop_first()[j] == auths[j + 1]);
        lemma_first_held_found(auths.drop_first(), custody, i - 1);
    }
}

proof fn lemma_first_held_none(auths: Seq<Seq<u8>>, custody: Set<Seq<u8>>)
    requires
        forall|j: int| 0 <= j < auths.len() ==> !custody.contains(auths[j]),
    ensures
        spec_first_held(auths, custody) is None,
    decreases auths.len(),
{
    if auths.len() > 0 {
        assert(forall|j: int|
            0 <= j < auths.drop_first().len() ==> auths.drop_first()[j] == auths[j + 1]);
        lemma_first_held_none(auths.drop_first(), custody);
    }
}

/// Law: with a non-empty authority list whose assigned key is held, the
/// claim names exactly the authority at index `slot mod len`.
pub proof fn lemma_assigned_index(
    auths: Seq<Seq<u8>>,
    slot: u64,
    custody: Set<Seq<u8>>,
    force_authoring: bool,
)
    requires
        auths.len() > 0,
        custody.contains(auths[(slot as int) % (auths.len() as int)]),
    ensures
        spec_claim_slot(auths, slot, custody, force_authoring) == ClaimResultView::Claimed(
            SlotClaimView {
                author_index: (slot as int) % (auths.len() as int),
                author: auths[(slot as int) % (auths.len() as int)],
                slot,
            },
        ),
{
}

/// Law: on an empty authority list the claimer rejects — it does not skip.
pub proof fn lemma_empty_authorities_reject(
    slot: u64,
    custody: Set<Seq<u8>>,
    force_authoring: bool,
)
    ensures
        spec_claim_slot(Seq::empty(), slot, custody, force_authoring)
            == ClaimResultView::NoAuthorities,
{
}

/// Elects the slot's author. Deterministic: the result is a function of
/// the four arguments alone, as [`spec_claim_slot`] states it — no
/// randomness, no hidden state.
pub fn claim_slot(
    authorities: &Vec<PublicKey>,
    slot: u64,
    custody: &KeyCustody,
    force_authoring: bool,
) -> (r: Result<Option<SlotClaim>, ClaimError>)
    ensures
        claim_result_view(r) == spec_claim_slot(
            keys_view(authorities@),
            slot,
            custody@,
            force_authoring,
        ),
{
    let n = authorities.len();
    if n == 0 {
        return Err(ClaimError::EmptyAuthorities);
    }
    let idx = (slot % (n as u64)) as usize;
    assert(idx < n);
    assert(keys_view(authorities@)[idx as int] == authorities@[idx as int]@);
    if custody.holds(&authorities[idx]) {
        return Ok(Some(SlotClaim {
            author_index: idx,
            author: duplicate_key(&authorities[idx]),
            slot,
        }));
    }
    if !force_authoring {
        return Ok(None);
    }
    let ghost kv = keys_view(authorities@);
    let mut i: usize = 0;
    while i < n
        invariant
            n == authorities.len(),
            0 < n,
            i <= n,
            force_authoring,
            kv == keys_view(authorities@),
            kv.len() == n,
            !custody@.contains(kv[(slot as int) % (n as int)]),
            forall|j: int| 0 <= j < i ==> !custody@.contains(kv[j]),
        decreases n - i,
    {
        assert(kv[i as int] == authorities@[i as int]@);
        if custody.holds(&authorities[i]) {
            proof {
                lemma_first_held_found(kv, custody@, i as int);
            }
            return Ok(Some(SlotClaim {
                author_index: i,
                author: duplicate_key(&authorities[i]),
                slot,
            }));
        }
        i = i + 1;
    }
    proof {
        lemma_first_held_none(kv, custody@);
    }
    Ok(None)
}

/// A fresh key with the same bytes.
fn duplicate_key(k: &PublicKey) -> (r: PublicKey)
    ensures
        r@ == k@,
{
    let mut bytes: Vec<u8> = Vec::new();
    let n = k.bytes.len();
    let mut i: usize = 0;
    while i < n
        invariant
            n == k.bytes.len(),
            i <= n,
            bytes@ == k.bytes@.subrange(0, i as int),
        decreases n - i,
    {
        bytes.push(k.bytes[i]);
        assert(bytes@ =~= k.bytes@.subrange(0, i as int + 1));
        i = i + 1;
    }
    assert(bytes@ =~= k.bytes@);
    PublicKey { bytes }
}

} // verus!

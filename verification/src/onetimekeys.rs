//! Issuance and single-use validation of confirmation secrets.
//!
//! The `KeyManager` is the registry: it issues one fresh secret per role of
//! a deal or a shipment, and validates presented secrets against a single
//! permanent consumed-set — a secret validates at most once, across all
//! deals, forever.

use vstd::prelude::*;

verus! {

/// The secrets issued for a two-role deal.
#[derive(Clone, Debug)]
pub struct DealKeys {
    pub seller_key: String,
    pub buyer_key: String,
}

/// The secrets issued for a three-role shipment.
#[derive(Clone, Debug)]
pub struct ShipmentKeys {
    pub sender_key: String,
    pub carrier_key: String,
    pub recipient_key: String,
}

/// The registry of issued secrets and of every secret ever consumed.
pub struct KeyManager {
    /// The live secrets of each deal, keyed by deal id.
    pub deal_keys: Vec<(u64, DealKeys)>,
    /// The live secrets of each shipment, keyed by shipment id.
    pub shipment_keys: Vec<(u64, ShipmentKeys)>,
    /// The permanent consumed-set: every secret that ever validated.
    pub used_keys: Vec<String>,
}

/// True when a presented secret equals one of a deal entry's two slots.
pub open spec fn deal_slot_matches(e: (u64, DealKeys), k: Seq<char>) -> bool {
    ||| e.1.seller_key@ == k
    ||| e.1.buyer_key@ == k
}

/// True when a presented secret equals one of a shipment entry's three slots.
pub open spec fn shipment_slot_matches(e: (u64, ShipmentKeys), k: Seq<char>) -> bool {
    ||| e.1.sender_key@ == k
    ||| e.1.carrier_key@ == k
    ||| e.1.recipient_key@ == k
}

/// A deal entry after a validated secret is cleared out of it: every slot
/// equal to the secret is emptied, everything else is untouched.
pub open spec fn cleared_deal_entry(pre: (u64, DealKeys), post: (u64, DealKeys), k: Seq<
    char,
>) -> bool {
    &&& post.0 == pre.0
    &&& post.1.seller_key@ == (if pre.1.seller_key@ == k {
        Seq::<char>::empty()
    } else {
        pre.1.seller_key@
    })
    &&& post.1.buyer_key@ == (if pre.1.buyer_key@ == k {
        Seq::<char>::empty()
    } else {
        pre.1.buyer_key@
    })
}

/// A shipment entry after a validated secret is cleared out of it.
pub open spec fn cleared_shipment_entry(pre: (u64, ShipmentKeys), post: (u64, ShipmentKeys), k: Seq<
    char,
>) -> bool {
    &&& post.0 == pre.0
    &&& post.1.sender_key@ == (if pre.1.sender_key@ == k {
        Seq::<char>::empty()
    } else {
        pre.1.sender_key@
    })
    &&& post.1.carrier_key@ == (if pre.1.carrier_key@ == k {
        Seq::<char>::empty()
    } else {
        pre.1.carrier_key@
    })
    &&& post.1.recipient_key@ == (if pre.1.recipient_key@ == k {
        Seq::<char>::empty()
    } else {
        pre.1.recipient_key@
    })
}

/// Everything a successful `validate_and_use_key` does: the secret joins
/// the permanent consumed-set and every slot holding it is cleared; no
/// other slot and no other consumed entry moves.
pub open spec fn consumed_step(pre: KeyManager, post: KeyManager, k: Seq<char>) -> bool {
    &&& pre.accepts(k)
    &&& post.used_keys@.len() == pre.used_keys@.len() + 1
    &&& (forall|i: int|
        0 <= i < pre.used_keys@.len() ==> post.used_keys@[i] == pre.used_keys@[i])
    &&& post.used_keys@[pre.used_keys@.len() as int]@ == k
    &&& post.deal_keys@.len() == pre.deal_keys@.len()
    &&& (forall|i: int|
        0 <= i < pre.deal_keys@.len() ==> cleared_deal_entry(
            pre.deal_keys@[i],
            #[trigger] post.deal_keys@[i],
            k,
        ))
    &&& post.shipment_keys@.len() == pre.shipment_keys@.len()
    &&& (forall|i: int|
        0 <= i < pre.shipment_keys@.len() ==> cleared_shipment_entry(
            pre.shipment_keys@[i],
            #[trigger] post.shipment_keys@[i],
            k,
        ))
}

impl KeyManager {
    /// True when the secret is in the permanent consumed-set.
    pub open spec fn is_used(self, k: Seq<char>) -> bool {
        exists|i: int| 0 <= i < self.used_keys@.len() && self.used_keys@[i]@ == k
    }

    /// True when some live slot, of any deal or shipment, holds the secret.
    pub open spec fn matches_some_slot(self, k: Seq<char>) -> bool {
        ||| (exists|i: int|
            0 <= i < self.deal_keys@.len() && deal_slot_matches(#[trigger] self.deal_keys@[i], k))
        ||| (exists|i: int|
            0 <= i < self.shipment_keys@.len() && shipment_slot_matches(
                #[trigger] self.shipment_keys@[i],
                k,
            ))
    }

    /// True when the registry accepts the secret: never consumed before,
    /// and currently held by some live slot.
    pub open spec fn accepts(self, k: Seq<char>) -> bool {
        &&& !self.is_used(k)
        &&& self.matches_some_slot(k)
    }

    /// True when some entry is registered under the deal id.
    pub open spec fn has_deal_entry(self, id: u64) -> bool {
        exists|i: int| 0 <= i < self.deal_keys@.len() && (#[trigger] self.deal_keys@[i]).0 == id
    }

    /// True when some entry is registered under the shipment id.
    pub open spec fn has_shipment_entry(self, id: u64) -> bool {
        exists|i: int|
            0 <= i < self.shipment_keys@.len() && (#[trigger] self.shipment_keys@[i]).0 == id
    }

    /// Each deal id and each shipment id is registered at most once.
    pub open spec fn wf(self) -> bool {
        &&& (forall|i: int, j: int|
            0 <= i < j < self.deal_keys@.len() ==> (#[trigger] self.deal_keys@[i]).0 != (
            #[trigger] self.deal_keys@[j]).0)
        &&& (forall|i: int, j: int|
            0 <= i < j < self.shipment_keys@.len() ==> (#[trigger] self.shipment_keys@[i]).0 != (
            #[trigger] self.shipment_keys@[j]).0)
    }
}

/// Relies on uuid's `Uuid::new_v4` and its `Display` form: a freshly drawn
/// random version-4 identifier, rendered as 36 lower-case hyphenated hex
/// characters.  The value is random, so nothing is promised beyond its
/// length; the engine treats two issued secrets as possibly equal.
#[verifier::external_body]
pub(crate) fn fresh_secret() -> (r: String)
    ensures
        r@.len() == 36,
{
    uuid::Uuid::new_v4().to_string()
}

impl KeyManager {
    /// An empty registry: nothing issued, nothing consumed.
    pub fn new() -> (r: KeyManager)
        ensures
            r.deal_keys@ == Seq::<(u64, DealKeys)>::empty(),
            r.shipment_keys@ == Seq::<(u64, ShipmentKeys)>::empty(),
            r.used_keys@ == Seq::<String>::empty(),
            r.wf(),
    {
        KeyManager { deal_keys: Vec::new(), shipment_keys: Vec::new(), used_keys: Vec::new() }
    }

    /// Issues a fresh pair of secrets for the deal, replacing any pair the
    /// deal already had, and returns them for out-of-band delivery.
    pub fn generate_deal_keys(&mut self, deal_id: u64) -> (r: DealKeys)
        requires
            old(self).wf(),
        ensures
            final(self).wf(),
            r.seller_key@.len() == 36,
            r.buyer_key@.len() == 36,
            final(self).used_keys == old(self).used_keys,
            final(self).shipment_keys == old(self).shipment_keys,
            old(self).has_deal_entry(deal_id) ==> exists|j: int|
                0 <= j < old(self).deal_keys@.len() && (#[trigger] old(self).deal_keys@[j]).0
                    == deal_id && final(self).deal_keys@ == old(self).deal_keys@.update(
                    j,
                    (deal_id, r),
                ),
            !old(self).has_deal_entry(deal_id) ==> final(self).deal_keys@ == old(
                self,
            ).deal_keys@.push((deal_id, r)),
    {
        let seller_key = fresh_secret();
        let buyer_key = fresh_secret();
        let stored = DealKeys { seller_key: seller_key.clone(), buyer_key: buyer_key.clone() };
        let mut i: usize = 0;
        while i < self.deal_keys.len()
            invariant
                i <= self.deal_keys@.len(),
                *self == *old(self),
                old(self).wf(),
                seller_key@.len() == 36,
                buyer_key@.len() == 36,
                stored == (DealKeys { seller_key: seller_key, buyer_key: buyer_key }),
                forall|j: int| 0 <= j < i ==> (#[trigger] self.deal_keys@[j]).0 != deal_id,
            decreases self.deal_keys@.len() - i,
        {
            if self.deal_keys[i].0 == deal_id {
                self.deal_keys[i] = (deal_id, stored);
                proof {
                    // Replacing the entry keeps the sequence of ids, so
                    // uniqueness carries over.
                    assert forall|x: int, y: int|
                        0 <= x < y < self.deal_keys@.len() implies (
                    #[trigger] self.deal_keys@[x]).0 != (#[trigger] self.deal_keys@[y]).0 by {
                        assert((old(self).deal_keys@[x]).0 != (old(self).deal_keys@[y]).0);
                    }
                }
                return DealKeys { seller_key, buyer_key };
            }
            i += 1;
        }
        self.deal_keys.push((deal_id, stored));
        DealKeys { seller_key, buyer_key }
    }

    /// Issues a fresh triple of secrets for the shipment, replacing any
    /// triple the shipment already had, and returns them for out-of-band
    /// delivery.
    pub fn generate_shipment_keys(&mut self, shipment_id: u64) -> (r: ShipmentKeys)
        requires
            old(self).wf(),
        ensures
            final(self).wf(),
            r.sender_key@.len() == 36,
            r.carrier_key@.len() == 36,
            r.recipient_key@.len() == 36,
            final(self).used_keys == old(self).used_keys,
            final(self).deal_keys == old(self).deal_keys,
            old(self).has_shipment_entry(shipment_id) ==> exists|j: int|
                0 <= j < old(self).shipment_keys@.len() && (#[trigger] old(
                    self,
                ).shipment_keys@[j]).0 == shipment_id && final(self).shipment_keys@ == old(
                    self,
                ).shipment_keys@.update(j, (shipment_id, r)),
            !old(self).has_shipment_entry(shipment_id) ==> final(self).shipment_keys@ == old(
                self,
            ).shipment_keys@.push((shipment_id, r)),
    {
        let sender_key = fresh_secret();
        let carrier_key = fresh_secret();
        let recipient_key = fresh_secret();
        let stored = ShipmentKeys {
            sender_key: sender_key.clone(),
            carrier_key: carrier_key.clone(),
            recipient_key: recipient_key.clone(),
        };
        let mut i: usize = 0;
        while i < self.shipment_keys.len()
            invariant
                i <= self.shipment_keys@.len(),
                *self == *old(self),
                old(self).wf(),
                sender_key@.len() == 36,
                carrier_key@.len() == 36,
                recipient_key@.len() == 36,
                stored == (ShipmentKeys {
                    sender_key: sender_key,
                    carrier_key: carrier_key,
                    recipient_key: recipient_key,
                }),
                forall|j: int| 0 <= j < i ==> (#[trigger] self.shipment_keys@[j]).0 != shipment_id,
            decreases self.shipment_keys@.len() - i,
        {
            if self.shipment_keys[i].0 == shipment_id {
                self.shipment_keys[i] = (shipment_id, stored);
                proof {
                    // Replacing the entry keeps the sequence of ids, so
                    // uniqueness carries over.
                    assert forall|x: int, y: int|
                        0 <= x < y < self.shipment_keys@.len() implies (
                    #[trigger] self.shipment_keys@[x]).0 != (#[trigger] self.shipment_keys@[y]).0 by {
                        assert((old(self).shipment_keys@[x]).0 != (old(self).shipment_keys@[y]).0);
                    }
                }
                return ShipmentKeys { sender_key, carrier_key, recipient_key };
            }
            i += 1;
        }
        self.shipment_keys.push((shipment_id, stored));
        ShipmentKeys { sender_key, carrier_key, recipient_key }
    }

    /// Validates a presented secret and permanently consumes it.  A secret
    /// is accepted exactly when it was never consumed before and some live
    /// slot still holds it; on acceptance it joins the consumed-set and
    /// every slot holding it is cleared.  A refused call changes nothing.
    pub fn validate_and_use_key(&mut self, key: &str) -> (r: bool)
        ensures
            r == old(self).accepts(key@),
            !r ==> *final(self) == *old(self),
            r ==> consumed_step(*old(self), *final(self), key@),
    {
        let k: String = key.to_owned();
        // Reject anything in the permanent consumed-set.
        let mut i: usize = 0;
        while i < self.used_keys.len()
            invariant
                i <= self.used_keys@.len(),
                *self == *old(self),
                k@ == key@,
                forall|j: int| 0 <= j < i ==> (#[trigger] self.used_keys@[j])@ != k@,
            decreases self.used_keys@.len() - i,
        {
            if self.used_keys[i] == k {
                return false;
            }
            i += 1;
        }
        // Look for a live slot holding the secret.
        let mut found = false;
        i = 0;
        while i < self.deal_keys.len()
            invariant
                i <= self.deal_keys@.len(),
                *self == *old(self),
                k@ == key@,
                found == exists|j: int|
                    0 <= j < i && deal_slot_matches(#[trigger] self.deal_keys@[j], k@),
            decreases self.deal_keys@.len() - i,
        {
            if self.deal_keys[i].1.seller_key == k || self.deal_keys[i].1.buyer_key == k {
                found = true;
            }
            i += 1;
        }
        let mut found_shipment = false;
        i = 0;
        while i < self.shipment_keys.len()
            invariant
                i <= self.shipment_keys@.len(),
                *self == *old(self),
                k@ == key@,
                found_shipment == exists|j: int|
                    0 <= j < i && shipment_slot_matches(#[trigger] self.shipment_keys@[j], k@),
            decreases self.shipment_keys@.len() - i,
        {
            if self.shipment_keys[i].1.sender_key == k || self.shipment_keys[i].1.carrier_key == k
                || self.shipment_keys[i].1.recipient_key == k {
                found_shipment = true;
            }
            i += 1;
        }
        if !(found || found_shipment) {
            return false;
        }
        // Consume: record the secret forever and clear every slot holding it.
        self.used_keys.push(k.clone());
        i = 0;
        while i < self.deal_keys.len()
            invariant
                i <= self.deal_keys@.len(),
                k@ == key@,
                self.used_keys@ == old(self).used_keys@.push(k),
                self.shipment_keys == old(self).shipment_keys,
                self.deal_keys@.len() == old(self).deal_keys@.len(),
                forall|j: int|
                    0 <= j < i ==> cleared_deal_entry(
                        old(self).deal_keys@[j],
                        #[trigger] self.deal_keys@[j],
                        k@,
                    ),
                forall|j: int|
                    i <= j < self.deal_keys@.len() ==> #[trigger] self.deal_keys@[j] == old(
                        self,
                    ).deal_keys@[j],
            decreases self.deal_keys@.len() - i,
        {
            if self.deal_keys[i].1.seller_key == k {
                self.deal_keys[i].1.seller_key = String::new();
            }
            if self.deal_keys[i].1.buyer_key == k {
                self.deal_keys[i].1.buyer_key = String::new();
            }
            i += 1;
        }
        i = 0;
        while i < self.shipment_keys.len()
            invariant
                i <= self.shipment_keys@.len(),
                k@ == key@,
                self.used_keys@ == old(self).used_keys@.push(k),
                self.deal_keys@.len() == old(self).deal_keys@.len(),
                forall|j: int|
                    0 <= j < self.deal_keys@.len() ==> cleared_deal_entry(
                        old(self).deal_keys@[j],
                        #[trigger] self.deal_keys@[j],
                        k@,
                    ),
                self.shipment_keys@.len() == old(self).shipment_keys@.len(),
                forall|j: int|
                    0 <= j < i ==> cleared_shipment_entry(
                        old(self).shipment_keys@[j],
                        #[trigger] self.shipment_keys@[j],
                        k@,
                    ),
                forall|j: int|
                    i <= j < self.shipment_keys@.len() ==> #[trigger] self.shipment_keys@[j]
                        == old(self).shipment_keys@[j],
            decreases self.shipment_keys@.len() - i,
        {
            if self.shipment_keys[i].1.sender_key == k {
                self.shipment_keys[i].1.sender_key = String::new();
            }
            if self.shipment_keys[i].1.carrier_key == k {
                self.shipment_keys[i].1.carrier_key = String::new();
            }
            if self.shipment_keys[i].1.recipient_key == k {
                self.shipment_keys[i].1.recipient_key = String::new();
            }
            i += 1;
        }
        true
    }
}

/// A consumed secret can never validate again: after a successful
/// `validate_and_use_key`, the same secret is rejected by the registry as
/// it now stands — and, the registry's contract being what it is, that
/// second call neither reverses nor repeats the first one's effect.
pub proof fn lemma_secret_single_use(pre: KeyManager, post: KeyManager, k: Seq<char>)
    requires
        consumed_step(pre, post, k),
    ensures
        post.is_used(k),
        !post.accepts(k),
{
    assert(post.used_keys@[pre.used_keys@.len() as int]@ == k);
}

} // verus!

//! Properties of the registry that relate several operations or hold of
//! every state, proved from the operations' contracts.
use vstd::prelude::*;

use crate::balances::Balances;
use crate::registry::{exceeds, lemma_owned_upto_members, owned_upto, Pallet};
use crate::types::{Error, SubnetStatus, MAX_EMISSION_WEIGHT};

verus! {

/// Growth composes: over any sequence of operations, records are kept, the
/// identifier counter never goes back, and retired records never change.
pub proof fn lemma_grows_to_transitive(a: Pallet, b: Pallet, c: Pallet)
    requires
        a.grows_to(b),
        b.grows_to(c),
    ensures
        a.grows_to(c),
{
}

/// Identifiers handed out by two successful creations, the second made after
/// the first, are distinct and increase in call order.
pub proof fn lemma_created_ids_increase(
    s0: Pallet,
    s1: Pallet,
    s2: Pallet,
    s3: Pallet,
    first_owner: u64,
    first_id: u32,
    second_owner: u64,
    second_id: u32,
)
    requires
        s0.create_committed(s1, first_owner, first_id),
        s1.grows_to(s2),
        s2.create_committed(s3, second_owner, second_id),
    ensures
        first_id < second_id,
{
}

/// A caller that does not own an existing record can neither update nor
/// retire it: both are refused with `NotAuthorized` (and a refused call
/// changes nothing).
pub proof fn lemma_stranger_refused(
    p: Pallet,
    who: u64,
    subnet_id: u32,
    input_len: Option<nat>,
    output_len: Option<nat>,
    uri_len: Option<nat>,
    emission_weight: Option<u8>,
)
    requires
        p.store().contains_key(subnet_id),
        p.store()[subnet_id].owner != who,
    ensures
        p.update_outcome(who, subnet_id, input_len, output_len, uri_len, emission_weight) == Err::<
            (),
            Error,
        >(Error::NotAuthorized),
        p.retire_outcome(who, subnet_id) == Err::<(), Error>(Error::NotAuthorized),
{
}

/// Every update and retire call on a retired record is refused, so the
/// record stays retired with its fields frozen.
pub proof fn lemma_retired_is_final(
    p: Pallet,
    who: u64,
    subnet_id: u32,
    input_len: Option<nat>,
    output_len: Option<nat>,
    uri_len: Option<nat>,
    emission_weight: Option<u8>,
)
    requires
        p.store().contains_key(subnet_id),
        p.store()[subnet_id].status == SubnetStatus::Retired,
    ensures
        p.update_outcome(who, subnet_id, input_len, output_len, uri_len, emission_weight) is Err,
        p.retire_outcome(who, subnet_id) is Err,
        who == p.store()[subnet_id].owner ==> p.update_outcome(
            who,
            subnet_id,
            input_len,
            output_len,
            uri_len,
            emission_weight,
        ) == Err::<(), Error>(Error::SubnetAlreadyRetired) && p.retire_outcome(who, subnet_id)
            == Err::<(), Error>(Error::SubnetAlreadyRetired),
{
}

/// Once the registry holds its largest number of records, every creation
/// with a valid weight is refused with `TooManySubnets`, whoever calls.
pub proof fn lemma_full_registry_refuses(
    p: Pallet,
    ledger: Balances,
    who: u64,
    input_len: nat,
    output_len: nat,
    uri_len: nat,
    emission_weight: u8,
)
    requires
        p.count() == p.config().max_subnets,
        emission_weight <= MAX_EMISSION_WEIGHT,
    ensures
        p.create_outcome(ledger, who, input_len, output_len, uri_len, emission_weight) == Err::<
            u32,
            Error,
        >(Error::TooManySubnets),
{
}

/// A creation whose weight and record count pass is refused with
/// `SchemaTooLarge` when a schema is over its bound, and otherwise with
/// `UriTooLarge` when the URI is over its bound.
pub proof fn lemma_create_bounds_enforced(
    p: Pallet,
    ledger: Balances,
    who: u64,
    input_len: nat,
    output_len: nat,
    uri_len: nat,
    emission_weight: u8,
)
    requires
        p.count() < p.config().max_subnets,
        emission_weight <= MAX_EMISSION_WEIGHT,
    ensures
        input_len > p.config().max_schema_size || output_len > p.config().max_schema_size
            ==> p.create_outcome(ledger, who, input_len, output_len, uri_len, emission_weight)
            == Err::<u32, Error>(Error::SchemaTooLarge),
        input_len <= p.config().max_schema_size && output_len <= p.config().max_schema_size
            && uri_len > p.config().max_uri_size ==> p.create_outcome(
            ledger,
            who,
            input_len,
            output_len,
            uri_len,
            emission_weight,
        ) == Err::<u32, Error>(Error::UriTooLarge),
{
}

/// An update by the owner of an active record is refused with
/// `SchemaTooLarge` when a supplied schema is over its bound, and otherwise
/// with `UriTooLarge` when a supplied URI is over its bound.
pub proof fn lemma_update_bounds_enforced(
    p: Pallet,
    who: u64,
    subnet_id: u32,
    input_len: Option<nat>,
    output_len: Option<nat>,
    uri_len: Option<nat>,
    emission_weight: Option<u8>,
)
    requires
        p.store().contains_key(subnet_id),
        p.store()[subnet_id].owner == who,
        p.store()[subnet_id].status == SubnetStatus::Active,
    ensures
        exceeds(input_len, p.config().max_schema_size) || exceeds(
            output_len,
            p.config().max_schema_size,
        ) ==> p.update_outcome(who, subnet_id, input_len, output_len, uri_len, emission_weight)
            == Err::<(), Error>(Error::SchemaTooLarge),
        !exceeds(input_len, p.config().max_schema_size) && !exceeds(
            output_len,
            p.config().max_schema_size,
        ) && exceeds(uri_len, p.config().max_uri_size) ==> p.update_outcome(
            who,
            subnet_id,
            input_len,
            output_len,
            uri_len,
            emission_weight,
        ) == Err::<(), Error>(Error::UriTooLarge),
{
}

/// In every well-formed registry the owner index lists, for each owner,
/// exactly the identifiers of the records that the owner holds, and no more
/// of them than the per-owner bound.
pub proof fn lemma_owner_index_matches_store(p: Pallet, owner: u64)
    requires
        p.wf(),
    ensures
        forall|i: u32|
            #[trigger] p.owned(owner).contains(i) <==> (p.store().contains_key(i) && p.store()[i].owner
                == owner),
        p.owned(owner).len() <= p.config().max_owned_subnets,
{
    lemma_owned_upto_members(p.store(), owner, p.next_id() as nat);
    assert(p.owned(owner) == owned_upto(p.store(), owner, p.next_id() as nat));
}

} // verus!

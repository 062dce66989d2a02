use std::collections::HashMap;
use vstd::prelude::*;
use vstd::std_specs::hash::group_hash_axioms;

use crate::balances::Balances;
use crate::types::{
    Config, Error, Event, SubnetInfo, SubnetStatus, TaskType, MAX_EMISSION_WEIGHT,
};

verus! {

broadcast use group_hash_axioms;

/// Identifiers below `n` whose record in `store` belongs to `owner`, in
/// increasing order.
pub open spec fn owned_upto(store: Map<u32, SubnetInfo>, owner: u64, n: nat) -> Seq<u32>
    decreases n,
{
    if n == 0 {
        Seq::empty()
    } else {
        let earlier = owned_upto(store, owner, (n - 1) as nat);
        let i = (n - 1) as u32;
        if store.contains_key(i) && store[i].owner == owner {
            earlier.push(i)
        } else {
            earlier
        }
    }
}

/// Two stores that agree on which identifiers below `n` exist and on their
/// owners list the same identifiers for every owner.
pub proof fn lemma_owned_upto_agree(
    s1: Map<u32, SubnetInfo>,
    s2: Map<u32, SubnetInfo>,
    owner: u64,
    n: nat,
)
    requires
        n <= u32::MAX + 1,
        forall|i: u32|
            #![trigger s1[i]]
            #![trigger s2[i]]
            i < n ==> s1.contains_key(i) && s2.contains_key(i) && s1[i].owner == s2[i].owner,
    ensures
        owned_upto(s1, owner, n) == owned_upto(s2, owner, n),
    decreases n,
{
    if n > 0 {
        lemma_owned_upto_agree(s1, s2, owner, (n - 1) as nat);
        let i = (n - 1) as u32;
        assert(s1[i].owner == s2[i].owner);
    }
}

/// The identifiers that `owned_upto` lists are exactly those below `n` of
/// records in `store` that belong to `owner`.
pub proof fn lemma_owned_upto_members(store: Map<u32, SubnetInfo>, owner: u64, n: nat)
    requires
        n <= u32::MAX + 1,
    ensures
        forall|i: u32|
            #[trigger] owned_upto(store, owner, n).contains(i) <==> (i < n && store.contains_key(
                i,
            ) && store[i].owner == owner),
    decreases n,
{
    if n > 0 {
        lemma_owned_upto_members(store, owner, (n - 1) as nat);
        let earlier = owned_upto(store, owner, (n - 1) as nat);
        let last = (n - 1) as u32;
        assert forall|i: u32|
            #[trigger] owned_upto(store, owner, n).contains(i) <==> (i < n && store.contains_key(
                i,
            ) && store[i].owner == owner) by {
            if store.contains_key(last) && store[last].owner == owner {
                assert(owned_upto(store, owner, n) == earlier.push(last));
                assert(earlier.push(last)[earlier.len() as int] == last);
                if earlier.push(last).contains(i) && i != last {
                    let k = choose|k: int|
                        0 <= k < earlier.len() + 1 && earlier.push(last)[k] == i;
                    assert(earlier[k] == i);
                }
                if earlier.contains(i) {
                    let k = choose|k: int| 0 <= k < earlier.len() && earlier[k] == i;
                    assert(earlier.push(last)[k] == i);
                }
            }
        }
    }
}

/// Length of an optional byte string.
pub open spec fn opt_len(v: Option<Vec<u8>>) -> Option<nat> {
    match v {
        Some(bytes) => Some(bytes@.len()),
        None => None,
    }
}

/// An optional length that is present and above `bound`.
pub open spec fn exceeds(len: Option<nat>, bound: u32) -> bool {
    match len {
        Some(l) => l > bound,
        None => false,
    }
}

/// The subnet registry: a store of records keyed by identifier, an
/// identifier counter, a record count, an index from owners to the
/// identifiers they created, and the log of notifications.
pub struct Pallet {
    config: Config,
    subnets: HashMap<u32, SubnetInfo>,
    next_subnet_id: u32,
    subnet_count: u32,
    owner_subnets: HashMap<u64, Vec<u32>>,
    events: Vec<Event>,
}

impl Pallet {
    /// The deployment constants.
    pub closed spec fn config(&self) -> Config {
        self.config
    }

    /// The primary store: identifier to record.
    pub closed spec fn store(&self) -> Map<u32, SubnetInfo> {
        self.subnets@
    }

    /// The identifier that the next successful creation receives.
    pub closed spec fn next_id(&self) -> u32 {
        self.next_subnet_id
    }

    /// The number of records.
    pub closed spec fn count(&self) -> u32 {
        self.subnet_count
    }

    /// The identifiers that the owner index lists for `owner`.
    pub closed spec fn owned(&self, owner: u64) -> Seq<u32> {
        if self.owner_subnets@.contains_key(owner) {
            self.owner_subnets@[owner]@
        } else {
            Seq::empty()
        }
    }

    /// The notifications emitted so far, oldest first.
    pub closed spec fn events_log(&self) -> Seq<Event> {
        self.events@
    }

    /// The registry's invariant.
    pub open spec fn wf(&self) -> bool {
        &&& forall|i: u32| #[trigger] self.store().contains_key(i) <==> i < self.next_id()
        &&& self.count() == self.next_id()
        &&& self.count() <= self.config().max_subnets
        &&& forall|i: u32| #[trigger]
            self.store().contains_key(i) ==> self.store()[i].id == i && self.store()[i].wf(
                self.config(),
            )
        &&& forall|o: u64| #[trigger]
            self.owned(o) == owned_upto(self.store(), o, self.next_id() as nat)
        &&& forall|o: u64| #[trigger]
            self.owned(o).len() <= self.config().max_owned_subnets
    }

    /// What `create_subnet` returns, checked in this order: the weight, the
    /// record count, the schemas, the URI, the caller's share of the owner
    /// index, and last the deposit.
    pub open spec fn create_outcome(
        &self,
        ledger: Balances,
        who: u64,
        input_len: nat,
        output_len: nat,
        uri_len: nat,
        emission_weight: u8,
    ) -> Result<u32, Error> {
        if emission_weight > MAX_EMISSION_WEIGHT {
            Err(Error::InvalidEmissionWeight)
        } else if self.count() >= self.config().max_subnets {
            Err(Error::TooManySubnets)
        } else if input_len > self.config().max_schema_size || output_len
            > self.config().max_schema_size {
            Err(Error::SchemaTooLarge)
        } else if uri_len > self.config().max_uri_size {
            Err(Error::UriTooLarge)
        } else if self.owned(who).len() >= self.config().max_owned_subnets {
            Err(Error::TooManyOwnedSubnets)
        } else if !ledger.can_reserve(who, self.config().subnet_deposit) {
            Err(Error::InsufficientBalance)
        } else {
            Ok(self.next_id())
        }
    }

    /// The state after a committed creation of record `id` for `who`: the
    /// record is added with the next identifier, both counters advance, and
    /// the identifier is appended to the caller's owner index entry.
    pub open spec fn create_committed(&self, after: Pallet, who: u64, id: u32) -> bool {
        &&& id == self.next_id()
        &&& after.config() == self.config()
        &&& after.store() == self.store().insert(id, after.store()[id])
        &&& after.next_id() == self.next_id() + 1
        &&& after.count() == self.count() + 1
        &&& after.owned(who) == self.owned(who).push(id)
        &&& forall|o: u64| o != who ==> #[trigger] after.owned(o) == self.owned(o)
    }

    /// Records are never removed, the counter never goes back, and a
    /// retired record never changes.
    pub open spec fn grows_to(&self, after: Pallet) -> bool {
        &&& after.config() == self.config()
        &&& self.next_id() <= after.next_id()
        &&& forall|i: u32| #[trigger]
            self.store().contains_key(i) ==> after.store().contains_key(i)
        &&& forall|i: u32|
            #![trigger self.store()[i]]
            self.store().contains_key(i) && self.store()[i].status == SubnetStatus::Retired
                ==> after.store()[i] == self.store()[i]
    }

    /// An empty registry with the given constants.
    pub fn new(config: Config) -> (r: Pallet)
        ensures
            r.wf(),
            r.config() == config,
            r.store().is_empty(),
            r.next_id() == 0,
            r.count() == 0,
            forall|o: u64| r.owned(o).len() == 0,
            r.events_log().len() == 0,
    {
        let r = Pallet {
            config,
            subnets: HashMap::new(),
            next_subnet_id: 0,
            subnet_count: 0,
            owner_subnets: HashMap::new(),
            events: Vec::new(),
        };
        assert(r.store() =~= Map::empty());
        r
    }

    /// Creates a subnet owned by `who`, reserving the deposit from its free
    /// balance. A refused creation changes neither the registry nor the
    /// ledger.
    pub fn create_subnet(
        &mut self,
        who: u64,
        ledger: &mut Balances,
        task_type: TaskType,
        input_schema: Vec<u8>,
        output_schema: Vec<u8>,
        evaluation_spec: Vec<u8>,
        emission_weight: u8,
        min_stake_miner: u64,
        min_stake_validator: u64,
    ) -> (r: Result<u32, Error>)
        requires
            old(self).wf(),
            task_type.wf(),
        ensures
            final(self).wf(),
            r == old(self).create_outcome(
                *old(ledger),
                who,
                input_schema@.len(),
                output_schema@.len(),
                evaluation_spec@.len(),
                emission_weight,
            ),
            r is Err ==> *final(self) == *old(self) && *final(ledger) == *old(ledger),
            old(self).grows_to(*final(self)),
            r matches Ok(id) ==> {
                let rec = final(self).store()[id];
                &&& old(self).create_committed(*final(self), who, id)
                &&& rec.id == id
                &&& rec.task_type@ == task_type@
                &&& rec.input_schema@ == input_schema@
                &&& rec.output_schema@ == output_schema@
                &&& rec.evaluation_spec@ == evaluation_spec@
                &&& rec.emission_weight == emission_weight
                &&& rec.min_stake_miner == min_stake_miner
                &&& rec.min_stake_validator == min_stake_validator
                &&& rec.owner == who
                &&& rec.status == SubnetStatus::Active
                &&& final(ledger).free_of(who) == old(ledger).free_of(who)
                    - old(self).config().subnet_deposit
                &&& final(ledger).reserved_of(who) == old(ledger).reserved_of(who)
                    + old(self).config().subnet_deposit
                &&& forall|other: u64|
                    other != who ==> final(ledger).free_of(other) == old(ledger).free_of(other)
                        && final(ledger).reserved_of(other) == old(ledger).reserved_of(other)
                &&& final(self).events_log().len() == old(self).events_log().len() + 1
                &&& final(self).events_log().drop_last() == old(self).events_log()
                &&& final(self).events_log().last() matches Event::SubnetCreated {
                    subnet_id,
                    owner,
                    task_type: t,
                } && subnet_id == id && owner == who && t@ == task_type@
            },
    {
        if emission_weight > MAX_EMISSION_WEIGHT {
            return Err(Error::InvalidEmissionWeight);
        }
        let current_count = self.subnet_count;
        if current_count >= self.config.max_subnets {
            return Err(Error::TooManySubnets);
        }
        if input_schema.len() > self.config.max_schema_size as usize || output_schema.len()
            > self.config.max_schema_size as usize {
            return Err(Error::SchemaTooLarge);
        }
        if evaluation_spec.len() > self.config.max_uri_size as usize {
            return Err(Error::UriTooLarge);
        }
        let subnet_id = self.next_subnet_id;
        let next_id = match subnet_id.checked_add(1) {
            Some(n) => n,
            None => return Err(Error::ArithmeticOverflow),
        };
        let new_count = match current_count.checked_add(1) {
            Some(n) => n,
            None => return Err(Error::ArithmeticOverflow),
        };
        let owned_len = match self.owner_subnets.get(&who) {
            Some(ids) => ids.len(),
            None => 0,
        };
        if owned_len >= self.config.max_owned_subnets as usize {
            return Err(Error::TooManyOwnedSubnets);
        }
        // Every other check comes first, so a refused creation never leaves a
        // deposit behind.
        if !ledger.reserve(who, self.config.subnet_deposit) {
            return Err(Error::InsufficientBalance);
        }
        let ghost pre = *self;
        let ghost old_store = self.store();
        let ghost old_owned = self.owner_subnets@;
        let event_type = task_type.duplicate();
        let info = SubnetInfo {
            id: subnet_id,
            task_type,
            input_schema,
            output_schema,
            evaluation_spec,
            emission_weight,
            min_stake_miner,
            min_stake_validator,
            owner: who,
            status: SubnetStatus::Active,
        };
        let ghost info_view = info;
        self.subnets.insert(subnet_id, info);
        let mut ids = match self.owner_subnets.remove(&who) {
            Some(ids) => ids,
            None => Vec::new(),
        };
        ids.push(subnet_id);
        self.owner_subnets.insert(who, ids);
        self.next_subnet_id = next_id;
        self.subnet_count = new_count;
        self.events.push(
            Event::SubnetCreated { subnet_id, owner: who, task_type: event_type },
        );
        proof {
            let new_store = self.store();
            assert(new_store =~= old_store.insert(subnet_id, info_view));
            assert forall|i: u32| #[trigger] new_store.contains_key(i) <==> i < self.next_id() by {
                if i < subnet_id {
                    assert(old_store.contains_key(i));
                }
            }
            assert(self.owner_subnets@ =~= old_owned.insert(who, ids));
            assert forall|o: u64| #[trigger]
                self.owned(o) == owned_upto(new_store, o, self.next_id() as nat) by {
                lemma_owned_upto_agree(old_store, new_store, o, subnet_id as nat);
                assert(new_store.contains_key(subnet_id) && new_store[subnet_id].owner == who);
                assert(pre.owned(o) == owned_upto(old_store, o, subnet_id as nat));
                if o == who {
                    assert(self.owned(o) =~= pre.owned(o).push(subnet_id));
                } else {
                    assert(self.owned(o) =~= pre.owned(o));
                }
            }
            assert forall|o: u64| #[trigger]
                self.owned(o).len() <= self.config().max_owned_subnets by {
                if o == who {
                    assert(self.owned(o) =~= pre.owned(o).push(subnet_id));
                } else {
                    assert(self.owned(o) =~= pre.owned(o));
                }
            }
        }
        Ok(subnet_id)
    }

    /// What `update_subnet` returns, checked in this order: the record
    /// exists, the caller owns it, it is active, then each supplied field in
    /// turn (input schema, output schema, URI, weight).
    pub open spec fn update_outcome(
        &self,
        who: u64,
        subnet_id: u32,
        input_len: Option<nat>,
        output_len: Option<nat>,
        uri_len: Option<nat>,
        emission_weight: Option<u8>,
    ) -> Result<(), Error> {
        if !self.store().contains_key(subnet_id) {
            Err(Error::SubnetNotFound)
        } else if self.store()[subnet_id].owner != who {
            Err(Error::NotAuthorized)
        } else if self.store()[subnet_id].status == SubnetStatus::Retired {
            Err(Error::SubnetAlreadyRetired)
        } else if exceeds(input_len, self.config().max_schema_size) || exceeds(
            output_len,
            self.config().max_schema_size,
        ) {
            Err(Error::SchemaTooLarge)
        } else if exceeds(uri_len, self.config().max_uri_size) {
            Err(Error::UriTooLarge)
        } else if emission_weight matches Some(w) && w > MAX_EMISSION_WEIGHT {
            Err(Error::InvalidEmissionWeight)
        } else {
            Ok(())
        }
    }

    /// What `retire_subnet` returns: the record exists, the caller owns it,
    /// and it is active.
    pub open spec fn retire_outcome(&self, who: u64, subnet_id: u32) -> Result<(), Error> {
        if !self.store().contains_key(subnet_id) {
            Err(Error::SubnetNotFound)
        } else if self.store()[subnet_id].owner != who {
            Err(Error::NotAuthorized)
        } else if self.store()[subnet_id].status == SubnetStatus::Retired {
            Err(Error::SubnetAlreadyRetired)
        } else {
            Ok(())
        }
    }

    /// `after` differs from this state in the record `subnet_id` alone, and
    /// that record keeps its identifier and owner.
    pub open spec fn replaces_record(&self, after: Pallet, subnet_id: u32) -> bool {
        &&& after.config() == self.config()
        &&& after.store() == self.store().insert(subnet_id, after.store()[subnet_id])
        &&& after.store()[subnet_id].id == self.store()[subnet_id].id
        &&& after.store()[subnet_id].owner == self.store()[subnet_id].owner
        &&& after.next_id() == self.next_id()
        &&& after.count() == self.count()
        &&& forall|o: u64| #[trigger] after.owned(o) == self.owned(o)
    }

    proof fn lemma_replace_keeps_wf(&self, after: Pallet, subnet_id: u32)
        requires
            self.wf(),
            self.store().contains_key(subnet_id),
            self.replaces_record(after, subnet_id),
            after.store()[subnet_id].wf(self.config()),
        ensures
            after.wf(),
    {
        let s1 = self.store();
        let s2 = after.store();
        assert forall|o: u64| #[trigger]
            after.owned(o) == owned_upto(s2, o, after.next_id() as nat) by {
            lemma_owned_upto_agree(s1, s2, o, self.next_id() as nat);
        }
    }

    /// Changes the supplied fields of subnet `subnet_id`. Only its owner may,
    /// and only while it is active; a supplied field out of bounds refuses
    /// the whole update, and a refused update changes nothing.
    pub fn update_subnet(
        &mut self,
        who: u64,
        subnet_id: u32,
        input_schema: Option<Vec<u8>>,
        output_schema: Option<Vec<u8>>,
        evaluation_spec: Option<Vec<u8>>,
        emission_weight: Option<u8>,
        min_stake_miner: Option<u64>,
        min_stake_validator: Option<u64>,
    ) -> (r: Result<(), Error>)
        requires
            old(self).wf(),
        ensures
            final(self).wf(),
            r == old(self).update_outcome(
                who,
                subnet_id,
                opt_len(input_schema),
                opt_len(output_schema),
                opt_len(evaluation_spec),
                emission_weight,
            ),
            r is Err ==> *final(self) == *old(self),
            old(self).grows_to(*final(self)),
            r is Ok ==> {
                let before = old(self).store()[subnet_id];
                let rec = final(self).store()[subnet_id];
                &&& old(self).replaces_record(*final(self), subnet_id)
                &&& rec.task_type@ == before.task_type@
                &&& rec.status == SubnetStatus::Active
                &&& rec.input_schema@ == match input_schema {
                    Some(v) => v@,
                    None => before.input_schema@,
                }
                &&& rec.output_schema@ == match output_schema {
                    Some(v) => v@,
                    None => before.output_schema@,
                }
                &&& rec.evaluation_spec@ == match evaluation_spec {
                    Some(v) => v@,
                    None => before.evaluation_spec@,
                }
                &&& rec.emission_weight == match emission_weight {
                    Some(w) => w,
                    None => before.emission_weight,
                }
                &&& rec.min_stake_miner == match min_stake_miner {
                    Some(m) => m,
                    None => before.min_stake_miner,
                }
                &&& rec.min_stake_validator == match min_stake_validator {
                    Some(m) => m,
                    None => before.min_stake_validator,
                }
                &&& final(self).events_log() == old(self).events_log().push(
                    Event::SubnetUpdated { subnet_id, owner: who },
                )
            },
    {
        let current = match self.subnets.get(&subnet_id) {
            Some(rec) => rec,
            None => return Err(Error::SubnetNotFound),
        };
        if current.owner != who {
            return Err(Error::NotAuthorized);
        }
        if current.status == SubnetStatus::Retired {
            return Err(Error::SubnetAlreadyRetired);
        }
        let max_schema = self.config.max_schema_size as usize;
        match &input_schema {
            Some(v) => if v.len() > max_schema {
                return Err(Error::SchemaTooLarge);
            },
            None => {},
        }
        match &output_schema {
            Some(v) => if v.len() > max_schema {
                return Err(Error::SchemaTooLarge);
            },
            None => {},
        }
        match &evaluation_spec {
            Some(v) => if v.len() > self.config.max_uri_size as usize {
                return Err(Error::UriTooLarge);
            },
            None => {},
        }
        match emission_weight {
            Some(w) => if w > MAX_EMISSION_WEIGHT {
                return Err(Error::InvalidEmissionWeight);
            },
            None => {},
        }
        let ghost pre = *self;
        let mut rec = self.subnets.remove(&subnet_id).unwrap();
        match input_schema {
            Some(v) => rec.input_schema = v,
            None => {},
        }
        match output_schema {
            Some(v) => rec.output_schema = v,
            None => {},
        }
        match evaluation_spec {
            Some(v) => rec.evaluation_spec = v,
            None => {},
        }
        match emission_weight {
            Some(w) => rec.emission_weight = w,
            None => {},
        }
        match min_stake_miner {
            Some(m) => rec.min_stake_miner = m,
            None => {},
        }
        match min_stake_validator {
            Some(m) => rec.min_stake_validator = m,
            None => {},
        }
        self.subnets.insert(subnet_id, rec);
        self.events.push(Event::SubnetUpdated { subnet_id, owner: who });
        proof {
            assert(self.store() =~= pre.store().insert(subnet_id, self.store()[subnet_id]));
            pre.lemma_replace_keeps_wf(*self, subnet_id);
        }
        Ok(())
    }

    /// Marks subnet `subnet_id` retired. Only its owner may, and only once;
    /// a refused call changes nothing.
    pub fn retire_subnet(&mut self, who: u64, subnet_id: u32) -> (r: Result<(), Error>)
        requires
            old(self).wf(),
        ensures
            final(self).wf(),
            r == old(self).retire_outcome(who, subnet_id),
            r is Err ==> *final(self) == *old(self),
            old(self).grows_to(*final(self)),
            r is Ok ==> {
                let rec = final(self).store()[subnet_id];
                &&& old(self).replaces_record(*final(self), subnet_id)
                &&& rec.same_fields(old(self).store()[subnet_id])
                &&& rec.status == SubnetStatus::Retired
                &&& final(self).events_log() == old(self).events_log().push(
                    Event::SubnetRetired { subnet_id, owner: who },
                )
            },
    {
        let current = match self.subnets.get(&subnet_id) {
            Some(rec) => rec,
            None => return Err(Error::SubnetNotFound),
        };
        if current.owner != who {
            return Err(Error::NotAuthorized);
        }
        if current.status == SubnetStatus::Retired {
            return Err(Error::SubnetAlreadyRetired);
        }
        let ghost pre = *self;
        let mut rec = self.subnets.remove(&subnet_id).unwrap();
        rec.status = SubnetStatus::Retired;
        self.subnets.insert(subnet_id, rec);
        self.events.push(Event::SubnetRetired { subnet_id, owner: who });
        proof {
            assert(self.store() =~= pre.store().insert(subnet_id, self.store()[subnet_id]));
            pre.lemma_replace_keeps_wf(*self, subnet_id);
        }
        Ok(())
    }

    /// Whether a subnet with this identifier exists.
    pub fn subnet_exists(&self, subnet_id: u32) -> (r: bool)
        ensures
            r == self.store().contains_key(subnet_id),
    {
        self.subnets.contains_key(&subnet_id)
    }

    /// Whether the subnet exists and is active; false for a retired or
    /// unknown identifier.
    pub fn is_subnet_active(&self, subnet_id: u32) -> (r: bool)
        ensures
            r == (self.store().contains_key(subnet_id) && self.store()[subnet_id].status
                == SubnetStatus::Active),
    {
        match self.subnets.get(&subnet_id) {
            Some(rec) => rec.status == SubnetStatus::Active,
            None => false,
        }
    }

    /// Number of subnets that `owner` created.
    pub fn get_owner_subnet_count(&self, owner: u64) -> (r: u32)
        requires
            self.wf(),
        ensures
            r == self.owned(owner).len(),
            r == owned_upto(self.store(), owner, self.next_id() as nat).len(),
    {
        match self.owner_subnets.get(&owner) {
            Some(ids) => ids.len() as u32,
            None => 0,
        }
    }

    /// The record with this identifier, if any.
    pub fn subnets(&self, subnet_id: u32) -> (r: Option<&SubnetInfo>)
        ensures
            r is Some <==> self.store().contains_key(subnet_id),
            r matches Some(rec) ==> *rec == self.store()[subnet_id],
    {
        self.subnets.get(&subnet_id)
    }

    /// The identifier that the next successful creation receives.
    pub fn next_subnet_id(&self) -> (r: u32)
        ensures
            r == self.next_id(),
    {
        self.next_subnet_id
    }

    /// The number of records.
    pub fn subnet_count(&self) -> (r: u32)
        ensures
            r == self.count(),
    {
        self.subnet_count
    }

    /// The identifiers that `owner` created, oldest first.
    pub fn owner_subnets(&self, owner: u64) -> (r: Vec<u32>)
        ensures
            r@ == self.owned(owner),
    {
        match self.owner_subnets.get(&owner) {
            Some(ids) => {
                let copy = ids.clone();
                assert(copy@ =~= ids@);
                copy
            },
            None => Vec::new(),
        }
    }

    /// The notifications emitted so far, oldest first.
    pub fn events(&self) -> (r: &Vec<Event>)
        ensures
            r@ == self.events_log(),
    {
        &self.events
    }

    /// The deployment constants.
    pub fn registry_config(&self) -> (r: Config)
        ensures
            r == self.config(),
    {
        self.config
    }
}

} // verus!

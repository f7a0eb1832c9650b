//! Property cache and the atomic change builder.
//!
//! The kernel exposes mutable hardware state as named properties.  The cache
//! resolves names to `(property id, cached value)` pairs once; the change
//! builder batches property writes, grouped per object, for one atomic
//! commit call.

use vstd::prelude::*;

use crate::drm::{DrmProperty, DrmPropertyValue};

verus! {

/// Errors of the property and object model.  Transport errors of the ioctls
/// themselves stay with the caller that performs them.
#[derive(Clone, Debug)]
pub enum DrmError {
    /// An object lacks a property that the backend requires.
    MissingProperty(String),
    /// A plane's type property names a type the backend does not know.
    UnknownPlaneType(String),
    /// A plane's type property holds a value outside its enum values.
    InvalidPlaneType(u64),
    /// A plane's type property is not an enum property.
    InvalidPlaneTypeProperty,
    /// A connector could not be inspected; the id names it.
    CreateConnector(u32),
}

/// A property id together with the last value the backend believes the
/// kernel holds.  The value is written optimistically when a commit
/// succeeds and refreshed wholesale after external changes.
#[derive(Copy, Clone, Debug, PartialEq, Eq, Structural)]
pub struct MutableProperty<T: Copy> {
    pub id: DrmProperty,
    pub value: T,
}

impl<T: Copy> MutableProperty<T> {
    /// Pairs a property id with a cached value.
    pub fn new(id: DrmProperty, value: T) -> (r: MutableProperty<T>)
        ensures
            r.id == id,
            r.value == value,
    {
        MutableProperty { id, value }
    }
}

/// One named value of an enum property.
#[derive(Clone, Debug)]
pub struct DrmPropertyEnumValue {
    pub value: u64,
    pub name: String,
}

/// The kind and constraints of a property, as its definition reports them.
#[derive(Clone, Debug)]
pub enum DrmPropertyType {
    Range { min: u64, max: u64 },
    SignedRange { min: i64, max: i64 },
    Object { ty: u32 },
    Blob,
    Enum { values: Vec<DrmPropertyEnumValue>, bitmask: bool },
}

/// One resolved property of an object: its definition name, its kind, its
/// id and its current value.
#[derive(Clone, Debug)]
pub struct CollectedProperty {
    pub name: String,
    pub ty: DrmPropertyType,
    pub id: DrmProperty,
    pub value: u64,
}

/// All properties of one object, as one introspection pass returned them.
#[derive(Clone, Debug)]
pub struct CollectedProperties {
    pub props: Vec<CollectedProperty>,
}

/// The id/value pair of the first property called `name`, if any.
pub open spec fn spec_find_property(props: Seq<CollectedProperty>, name: Seq<char>) -> Option<
    (DrmProperty, u64),
>
    decreases props.len(),
{
    if props.len() == 0 {
        None
    } else if props[0].name@ == name {
        Some((props[0].id, props[0].value))
    } else {
        spec_find_property(props.skip(1), name)
    }
}

/// Character-for-character equality of two string slices.
pub fn str_eq(a: &str, b: &str) -> (r: bool)
    ensures
        r == (a@ == b@),
{
    let alen = a.unicode_len();
    let blen = b.unicode_len();
    if alen != blen {
        return false;
    }
    for i in 0..alen
        invariant
            alen == a@.len(),
            alen == b@.len(),
            forall|j: int| 0 <= j < i ==> a@[j] == b@[j],
    {
        if a.get_char(i) != b.get_char(i) {
            return false;
        }
    }
    proof {
        assert(a@ =~= b@);
    }
    true
}

impl CollectedProperties {
    /// Looks a required property up by name.  A missing name is the
    /// "MissingProperty" error.
    pub fn get(&self, name: &str) -> (r: Result<MutableProperty<u64>, DrmError>)
        ensures
            match spec_find_property(self.props@, name@) {
                Some((id, value)) => {
                    &&& r is Ok
                    &&& r->Ok_0.id == id
                    &&& r->Ok_0.value == value
                },
                None => {
                    &&& r is Err
                    &&& r->Err_0 matches DrmError::MissingProperty(n) && n@ == name@
                },
            },
    {
        let n = self.props.len();
        assert(self.props@.skip(0) =~= self.props@);
        for i in 0..n
            invariant
                n == self.props@.len(),
                spec_find_property(self.props@, name@) == spec_find_property(
                    self.props@.skip(i as int),
                    name@,
                ),
        {
            assert(self.props@.skip(i as int)[0] == self.props@[i as int]);
            if str_eq(self.props[i].name.as_str(), name) {
                return Ok(MutableProperty { id: self.props[i].id, value: self.props[i].value });
            }
            assert(self.props@.skip(i as int).skip(1) =~= self.props@.skip(i + 1));
        }
        assert(self.props@.skip(n as int) =~= Seq::<CollectedProperty>::empty());
        Err(DrmError::MissingProperty(name.to_owned()))
    }
}

/// The first property called `name`, whole.
pub open spec fn spec_find_full(props: Seq<CollectedProperty>, name: Seq<char>) -> Option<
    CollectedProperty,
>
    decreases props.len(),
{
    if props.len() == 0 {
        None
    } else if props[0].name@ == name {
        Some(props[0])
    } else {
        spec_find_full(props.skip(1), name)
    }
}

/// A first occurrence at index `i` pins the result of the whole-property
/// lookup.
pub proof fn lemma_find_full_some(props: Seq<CollectedProperty>, name: Seq<char>, i: int)
    requires
        0 <= i < props.len(),
        props[i].name@ == name,
        forall|j: int| 0 <= j < i ==> props[j].name@ != name,
    ensures
        spec_find_full(props, name) == Some(props[i]),
    decreases i,
{
    if i > 0 {
        assert(props.skip(1)[i - 1] == props[i]);
        assert(forall|j: int| 0 <= j < i - 1 ==> props.skip(1)[j] == props[j + 1]);
        lemma_find_full_some(props.skip(1), name, i - 1);
    }
}

/// Without any occurrence the whole-property lookup finds nothing.
pub proof fn lemma_find_full_none(props: Seq<CollectedProperty>, name: Seq<char>)
    requires
        forall|j: int| 0 <= j < props.len() ==> props[j].name@ != name,
    ensures
        spec_find_full(props, name) is None,
    decreases props.len(),
{
    if props.len() > 0 {
        assert(forall|j: int| 0 <= j < props.skip(1).len() ==> props.skip(1)[j] == props[j + 1]);
        lemma_find_full_none(props.skip(1), name);
    }
}

impl CollectedProperties {
    /// Index of the first property called `name`, for callers that need the
    /// full definition rather than the id/value pair.
    pub fn find(&self, name: &str) -> (r: Option<usize>)
        ensures
            match r {
                Some(i) => {
                    &&& i < self.props@.len()
                    &&& self.props@[i as int].name@ == name@
                    &&& forall|j: int| 0 <= j < i ==> self.props@[j].name@ != name@
                },
                None => forall|j: int|
                    0 <= j < self.props@.len() ==> self.props@[j].name@ != name@,
            },
    {
        let n = self.props.len();
        for i in 0..n
            invariant
                n == self.props@.len(),
                forall|j: int| 0 <= j < i ==> self.props@[j].name@ != name@,
        {
            if str_eq(self.props[i].name.as_str(), name) {
                return Some(i);
            }
        }
        None
    }
}

/// The sum of a sequence of group lengths.
pub open spec fn sum_lengths(s: Seq<u32>) -> int
    decreases s.len(),
{
    if s.len() == 0 {
        0
    } else {
        sum_lengths(s.drop_last()) + s.last()
    }
}

/// Every element of a non-negative sequence is bounded by the sum.
proof fn lemma_sum_bounds_element(s: Seq<u32>, i: int)
    requires
        0 <= i < s.len(),
    ensures
        s[i] <= sum_lengths(s),
    decreases s.len(),
{
    if i == s.len() - 1 {
        lemma_sum_nonneg(s.drop_last());
    } else {
        lemma_sum_bounds_element(s.drop_last(), i);
    }
}

/// A sum of group lengths is never negative.
proof fn lemma_sum_nonneg(s: Seq<u32>)
    ensures
        sum_lengths(s) >= 0,
    decreases s.len(),
{
    if s.len() > 0 {
        lemma_sum_nonneg(s.drop_last());
    }
}

/// A batch of property writes for one atomic commit: parallel arrays of
/// grouped object ids, per-object write counts, property ids and values,
/// exactly as the atomic commit call takes them.
#[derive(Clone, Debug)]
pub struct Change {
    objects: Vec<u32>,
    object_lengths: Vec<u32>,
    props: Vec<u32>,
    values: Vec<u64>,
}

impl Change {
    /// The grouped object ids of the batch.
    pub closed spec fn spec_objects(&self) -> Seq<u32> {
        self.objects@
    }

    /// The per-group write counts of the batch.
    pub closed spec fn spec_object_lengths(&self) -> Seq<u32> {
        self.object_lengths@
    }

    /// The property ids of the batch, in write order.
    pub closed spec fn spec_props(&self) -> Seq<u32> {
        self.props@
    }

    /// The property values of the batch, in write order.
    pub closed spec fn spec_values(&self) -> Seq<u64> {
        self.values@
    }

    /// Shape of a well-formed batch: one length per group, one value per
    /// property, counts that add up, no empty group, and maximal groups
    /// (adjacent groups name different objects).
    pub closed spec fn wf(&self) -> bool {
        &&& self.objects@.len() == self.object_lengths@.len()
        &&& self.props@.len() == self.values@.len()
        &&& sum_lengths(self.object_lengths@) == self.props@.len()
        &&& forall|i: int|
            0 <= i < self.object_lengths@.len() ==> self.object_lengths@[i] > 0
        &&& forall|i: int|
            0 < i < self.objects@.len() ==> #[trigger] self.objects@[i] != self.objects@[i - 1]
    }

    /// An empty batch.
    pub fn new() -> (r: Change)
        ensures
            r.wf(),
            r.spec_objects().len() == 0,
            r.spec_object_lengths().len() == 0,
            r.spec_props().len() == 0,
            r.spec_values().len() == 0,
    {
        Change { objects: Vec::new(), object_lengths: Vec::new(), props: Vec::new(), values: Vec::new() }
    }

    /// Number of property writes staged so far.
    pub fn len(&self) -> (r: usize)
        ensures
            r == self.spec_props().len(),
    {
        self.props.len()
    }

    /// Stages `writes` against object `obj`.  Consecutive calls for the same
    /// object merge into one group; an empty write list leaves the batch
    /// untouched.
    pub fn change_object(&mut self, obj: u32, writes: &Vec<DrmPropertyValue>)
        requires
            old(self).wf(),
            old(self).spec_props().len() + writes@.len() <= u32::MAX,
        ensures
            final(self).wf(),
            final(self).spec_props().len() == old(self).spec_props().len() + writes@.len(),
            final(self).spec_values().len() == old(self).spec_values().len() + writes@.len(),
            forall|i: int|
                0 <= i < old(self).spec_props().len() ==> #[trigger] final(self).spec_props()[i]
                    == old(self).spec_props()[i],
            forall|i: int|
                0 <= i < old(self).spec_values().len() ==> #[trigger] final(self).spec_values()[i]
                    == old(self).spec_values()[i],
            forall|i: int|
                0 <= i < writes@.len() ==> final(self).spec_props()[old(self).spec_props().len()
                    + i] == (#[trigger] writes@[i]).id.0 && final(self).spec_values()[old(
                    self,
                ).spec_values().len() + i] == writes@[i].value,
            writes@.len() == 0 ==> final(self).spec_objects() == old(self).spec_objects()
                && final(self).spec_object_lengths() == old(self).spec_object_lengths(),
            writes@.len() > 0 && old(self).spec_objects().len() > 0 && old(
                self,
            ).spec_objects().last() == obj ==> final(self).spec_objects() == old(
                self,
            ).spec_objects(),
            writes@.len() > 0 && !(old(self).spec_objects().len() > 0 && old(
                self,
            ).spec_objects().last() == obj) ==> final(self).spec_objects() == old(
                self,
            ).spec_objects().push(obj),
            !old(self).spec_objects().contains(obj) && old(self).spec_objects().no_duplicates()
                ==> final(self).spec_objects().no_duplicates(),
    {
        let ghost prior = *self;
        if writes.len() == 0 {
            assert(self.spec_props() =~= prior.spec_props() + writes@.map_values(
                |w: DrmPropertyValue| w.id.0,
            ));
            assert(self.spec_values() =~= prior.spec_values() + writes@.map_values(
                |w: DrmPropertyValue| w.value,
            ));
            return ;
        }
        let n = writes.len();
        for i in 0..n
            invariant
                n == writes@.len(),
                self.objects@ == prior.objects@,
                self.object_lengths@ == prior.object_lengths@,
                self.props@ == prior.props@ + writes@.take(i as int).map_values(
                    |w: DrmPropertyValue| w.id.0,
                ),
                self.values@ == prior.values@ + writes@.take(i as int).map_values(
                    |w: DrmPropertyValue| w.value,
                ),
                prior.props@.len() + n <= u32::MAX,
        {
            self.props.push(writes[i].id.0);
            self.values.push(writes[i].value);
            assert(writes@.take(i + 1) =~= writes@.take(i as int).push(writes@[i as int]));
            assert(self.props@ =~= prior.props@ + writes@.take(i + 1).map_values(
                |w: DrmPropertyValue| w.id.0,
            ));
            assert(self.values@ =~= prior.values@ + writes@.take(i + 1).map_values(
                |w: DrmPropertyValue| w.value,
            ));
        }
        assert(writes@.take(n as int) =~= writes@);
        let new_writes = writes.len() as u32;
        let num_objects = self.objects.len();
        let merge = num_objects > 0 && self.objects[num_objects - 1] == obj;
        if merge {
            proof {
                lemma_sum_bounds_element(prior.object_lengths@, prior.object_lengths@.len() - 1);
                lemma_sum_last_incremented(prior.object_lengths@, new_writes);
            }
            let last_idx = self.object_lengths.len() - 1;
            let grown = self.object_lengths[last_idx] + new_writes;
            self.object_lengths.set(last_idx, grown);
        } else {
            self.objects.push(obj);
            self.object_lengths.push(new_writes);
            proof {
                assert(self.object_lengths@.drop_last() =~= prior.object_lengths@);
            }
        }
    }

    /// The grouped object ids, for handing the batch to the commit call.
    pub fn commit_objects(&self) -> (r: &Vec<u32>)
        ensures
            r@ == self.spec_objects(),
    {
        &self.objects
    }

    /// The per-group counts, for handing the batch to the commit call.
    pub fn commit_object_lengths(&self) -> (r: &Vec<u32>)
        ensures
            r@ == self.spec_object_lengths(),
    {
        &self.object_lengths
    }

    /// The property ids, for handing the batch to the commit call.
    pub fn commit_props(&self) -> (r: &Vec<u32>)
        ensures
            r@ == self.spec_props(),
    {
        &self.props
    }

    /// The property values, for handing the batch to the commit call.
    pub fn commit_values(&self) -> (r: &Vec<u64>)
        ensures
            r@ == self.spec_values(),
    {
        &self.values
    }
}

/// Incrementing the last length increments the sum by the same amount.
proof fn lemma_sum_last_incremented(s: Seq<u32>, add: u32)
    requires
        s.len() > 0,
        s.last() + add <= u32::MAX,
    ensures
        sum_lengths(s.update(s.len() - 1, (s.last() + add) as u32)) == sum_lengths(s) + add,
{
    let updated = s.update(s.len() - 1, (s.last() + add) as u32);
    assert(updated.drop_last() =~= s.drop_last());
    assert(updated.last() == s.last() + add);
}

/// A well-formed batch's parallel arrays line up: one group count per
/// group, one value per staged property write, and group counts that add
/// up to the writes.  Callers that hand the four arrays to the commit
/// call rely on this alignment.
pub proof fn lemma_batch_shape(c: &Change)
    requires
        c.wf(),
    ensures
        c.spec_objects().len() == c.spec_object_lengths().len(),
        c.spec_props().len() == c.spec_values().len(),
        sum_lengths(c.spec_object_lengths()) == c.spec_props().len(),
{
}

/// In a batch whose groups name pairwise distinct objects, the number of
/// distinct object ids equals the number of groups handed to the commit
/// call, and the per-object write counts add up to the total number of
/// staged writes.  The builder guarantees the premise whenever no object is
/// revisited after the batch moved on to another object.
pub proof fn lemma_batch_accounting(c: &Change)
    requires
        c.wf(),
        c.spec_objects().no_duplicates(),
    ensures
        c.spec_objects().to_set().len() == c.spec_objects().len(),
        sum_lengths(c.spec_object_lengths()) == c.spec_props().len(),
{
    c.spec_objects().unique_seq_to_set();
}

} // verus!

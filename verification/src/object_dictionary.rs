//! The Object Dictionary: a capacity-bounded, identifier-sorted store of
//! typed entries, plus device-wide registers and PDO mapping tables.

use vstd::prelude::*;
use vstd::seq_lib::lemma_multiset_commutative;

use crate::entry_id::EntryId;
use crate::pdo::PdoConfiguration;

verus! {

/// The typed value of an entry, tagged by its wire type. Conversion between
/// values and wire bytes is the parameter coders' job; the dictionary only
/// stores the value. Float entries hold their IEEE 754 bit patterns, which is
/// what travels on the wire.
#[derive(Clone, Copy, Debug)]
pub enum VariableType {
    Array(u8),
    Record(u8),
    Boolean(bool),
    Int8(i8),
    UInt8(u8),
    Int16(i16),
    UInt16(u16),
    Int32(i32),
    UInt32(u32),
    Int64(i64),
    UInt64(u64),
    Float32Bits(u32),
    Float64Bits(u64),
    RawBytes(usize),
}

/// The fixed wire width of each variable type, in bytes.
pub open spec fn spec_raw_size(t: VariableType) -> usize {
    match t {
        VariableType::Boolean(_) => 1,
        VariableType::Int8(_) => 1,
        VariableType::UInt8(_) => 1,
        VariableType::Array(_) => 1,
        VariableType::Record(_) => 1,
        VariableType::Int16(_) => 2,
        VariableType::UInt16(_) => 2,
        VariableType::Int32(_) => 4,
        VariableType::UInt32(_) => 4,
        VariableType::Float32Bits(_) => 4,
        VariableType::Int64(_) => 8,
        VariableType::UInt64(_) => 8,
        VariableType::Float64Bits(_) => 8,
        VariableType::RawBytes(size) => size,
    }
}

impl VariableType {
    /// How many bytes this entry occupies on the wire.
    pub fn raw_size(&self) -> (r: usize)
        ensures
            r == spec_raw_size(*self),
    {
        match self {
            VariableType::Boolean(_) | VariableType::Int8(_) | VariableType::UInt8(_)
                | VariableType::Array(_) | VariableType::Record(_) => 1,
            VariableType::Int16(_) | VariableType::UInt16(_) => 2,
            VariableType::Int32(_) | VariableType::UInt32(_) | VariableType::Float32Bits(_) => 4,
            VariableType::Int64(_) | VariableType::UInt64(_) | VariableType::Float64Bits(_) => 8,
            VariableType::RawBytes(size) => *size,
        }
    }
}

/// Which SDO operations may target an entry; enforcing it is the session
/// layer's job, not the dictionary's.
#[derive(Clone, Copy, Debug, PartialEq, Eq, Structural)]
pub enum AccessType {
    ReadOnly,
    WriteOnly,
    ReadWrite,
}

impl AccessType {
    /// Whether a download (write) may target the entry.
    pub fn allows_writing(&self) -> (r: bool)
        ensures
            r == (*self is WriteOnly || *self is ReadWrite),
    {
        match self {
            AccessType::WriteOnly | AccessType::ReadWrite => true,
            AccessType::ReadOnly => false,
        }
    }

    /// Whether an upload (read) may target the entry.
    pub fn allows_reading(&self) -> (r: bool)
        ensures
            r == (*self is ReadOnly || *self is ReadWrite),
    {
        match self {
            AccessType::ReadOnly | AccessType::ReadWrite => true,
            AccessType::WriteOnly => false,
        }
    }
}

/// Where an entry's value lives across power cycles.
#[derive(Clone, Copy, Debug, PartialEq, Eq, Structural)]
pub enum StorageLocation {
    NonVolatile,
    Ram,
}

/// Which PDO directions an entry may be mapped into.
#[derive(Clone, Copy, Debug, PartialEq, Eq, Structural)]
pub enum PdoMapability {
    All,
    Tpdo,
    Rpdo,
    NotMappable,
}

/// One Object Dictionary entry.
#[derive(Clone, Copy, Debug)]
pub struct Variable {
    pub name: &'static str,
    pub storage_location: StorageLocation,
    pub data_type: VariableType,
    pub pdo_mapability: PdoMapability,
    pub access_type: AccessType,
    pub id: EntryId,
}

/// Every pair of entries is ordered by identifier (non-strict form).
pub open spec fn sorted_by_id(s: Seq<Variable>) -> bool {
    forall|i: int, j: int| #![trigger s[i], s[j]] 0 <= i <= j < s.len() ==> s[i].id.spec_le(s[j].id)
}

/// Every pair of entries is strictly ordered by identifier: ascending, no
/// duplicate identifiers.
pub open spec fn strictly_sorted_by_id(s: Seq<Variable>) -> bool {
    forall|i: int, j: int| #![trigger s[i], s[j]] 0 <= i < j < s.len() ==> s[i].id.spec_lt(s[j].id)
}

/// No two entries share an identifier.
pub open spec fn distinct_ids(s: Seq<Variable>) -> bool {
    forall|i: int, j: int| #![trigger s[i], s[j]] 0 <= i < j < s.len() ==> s[i].id != s[j].id
}

/// Inserting into a sequence inserts into its multiset.
proof fn lemma_insert_to_multiset(s: Seq<Variable>, pos: int, v: Variable)
    requires
        0 <= pos <= s.len(),
    ensures
        s.insert(pos, v).to_multiset() == s.to_multiset().insert(v),
{
    broadcast use vstd::seq_lib::group_to_multiset_ensures;
    broadcast use vstd::multiset::group_multiset_axioms;

    let l = s.subrange(0, pos);
    let r = s.subrange(pos, s.len() as int);
    assert(s =~= l + r);
    assert(s.insert(pos, v) =~= l.push(v) + r);
    lemma_multiset_commutative(l.push(v), r);
    lemma_multiset_commutative(l, r);
    assert(l.push(v).to_multiset() =~= l.to_multiset().insert(v));
    assert(l.to_multiset().insert(v).add(r.to_multiset()) =~= l.to_multiset().add(
        r.to_multiset(),
    ).insert(v));
}

/// A duplicated identifier survives any permutation: if one arrangement of
/// the entries repeats an identifier, every rearrangement with the same
/// multiset does too.
proof fn lemma_duplicate_ids_transfer(s: Seq<Variable>, t: Seq<Variable>)
    requires
        s.to_multiset() == t.to_multiset(),
        !distinct_ids(s),
    ensures
        !distinct_ids(t),
{
    broadcast use vstd::seq_lib::group_to_multiset_ensures;
    broadcast use vstd::multiset::group_multiset_axioms;

    let (p, q): (int, int) = choose|p: int, q: int|
        #![trigger s[p], s[q]]
        0 <= p < q < s.len() && s[p].id == s[q].id;
    if s[p] == s[q] {
        if distinct_ids(t) {
            assert(t.no_duplicates()) by {
                assert forall|i: int, j: int|
                    0 <= i < t.len() && 0 <= j < t.len() && i != j implies t[i] != t[j] by {
                    if i < j {
                        assert(t[i].id != t[j].id);
                    } else {
                        assert(t[j].id != t[i].id);
                    }
                }
            }
            t.lemma_multiset_has_no_duplicates();
            s.lemma_multiset_has_no_duplicates_conv();
            assert(s[p] != s[q]);
            assert(false);
        }
    } else {
        assert(s.contains(s[p]) && s.contains(s[q]));
        assert(t.to_multiset().count(s[p]) > 0 && t.to_multiset().count(s[q]) > 0);
        assert(t.contains(s[p]) && t.contains(s[q]));
        let i = choose|i: int| 0 <= i < t.len() && t[i] == s[p];
        let j = choose|j: int| 0 <= j < t.len() && t[j] == s[q];
        assert(i != j && t[i].id == t[j].id);
    }
}

/// Sorts entries ascending by identifier, preserving exactly the collection
/// of entries (as a multiset).
fn sort_entries_by_id(input: &Vec<Variable>) -> (r: Vec<Variable>)
    ensures
        r@.to_multiset() == input@.to_multiset(),
        sorted_by_id(r@),
        r@.len() == input@.len(),
{
    broadcast use vstd::seq_lib::group_to_multiset_ensures;

    let mut out: Vec<Variable> = Vec::new();
    let mut i: usize = 0;
    while i < input.len()
        invariant
            i <= input@.len(),
            out@.len() == i,
            out@.to_multiset() == input@.subrange(0, i as int).to_multiset(),
            sorted_by_id(out@),
        decreases input@.len() - i as int,
    {
        let v = input[i];
        let mut pos: usize = 0;
        while pos < out.len() && out[pos].id.le(&v.id)
            invariant
                pos <= out@.len(),
                forall|k: int| 0 <= k < pos ==> (#[trigger] out@[k].id).spec_le(v.id),
            decreases out@.len() - pos as int,
        {
            pos = pos + 1;
        }
        let ghost old_out = out@;
        out.insert(pos, v);
        proof {
            broadcast use vstd::seq_lib::group_to_multiset_ensures;

            lemma_insert_to_multiset(old_out, pos as int, v);
            assert(input@.subrange(0, i as int).push(input@[i as int]) =~= input@.subrange(
                0,
                (i + 1) as int,
            ));
            assert(input@.subrange(0, (i + 1) as int).to_multiset() =~= input@.subrange(
                0,
                i as int,
            ).to_multiset().insert(v));
            assert(sorted_by_id(out@)) by {
                assert forall|a: int, b: int|
                    #![trigger out@[a], out@[b]]
                    0 <= a <= b < out@.len() implies out@[a].id.spec_le(out@[b].id) by {
                    if a < pos {
                        assert(out@[a] == old_out[a]);
                    }
                    if b < pos {
                        assert(out@[b] == old_out[b]);
                    }
                    if a > pos {
                        assert(out@[a] == old_out[a - 1]);
                    }
                    if b > pos {
                        assert(out@[b] == old_out[b - 1]);
                    }
                }
            }
        }
        i = i + 1;
    }
    proof {
        assert(input@.subrange(0, input@.len() as int) =~= input@);
    }
    out
}

/// A capacity-bounded, identifier-sorted collection of typed entries, plus
/// device registers and fixed-size PDO mapping tables. Constructed once at
/// node initialization; the entry set is immutable in shape thereafter, only
/// values mutate.
pub struct ObjectDictionary<const ENTRY_COUNT: usize, const RPDO_COUNT: usize, const TPDO_COUNT:
    usize> {
    error_register: u8,
    manufacturer_status_register: u32,
    predefined_errors: [u32; 8],
    entries: Vec<Variable>,
    tpdo_mappings: [PdoConfiguration; TPDO_COUNT],
    rpdo_mappings: [PdoConfiguration; RPDO_COUNT],
}

impl<const ENTRY_COUNT: usize, const RPDO_COUNT: usize, const TPDO_COUNT: usize> ObjectDictionary<
    ENTRY_COUNT,
    RPDO_COUNT,
    TPDO_COUNT,
> {
    /// The stored entries, in identifier order.
    pub closed spec fn entries(self) -> Seq<Variable> {
        self.entries@
    }

    /// The 8-bit error register.
    pub closed spec fn spec_error_register(self) -> u8 {
        self.error_register
    }

    /// The 32-bit manufacturer status register.
    pub closed spec fn spec_manufacturer_status_register(self) -> u32 {
        self.manufacturer_status_register
    }

    /// The 8 predefined error slots.
    pub closed spec fn spec_predefined_errors(self) -> Seq<u32> {
        self.predefined_errors@
    }

    /// The transmit-PDO mapping table.
    pub closed spec fn spec_tpdo_mappings(self) -> Seq<PdoConfiguration> {
        self.tpdo_mappings@
    }

    /// The receive-PDO mapping table.
    pub closed spec fn spec_rpdo_mappings(self) -> Seq<PdoConfiguration> {
        self.rpdo_mappings@
    }

    /// The dictionary's invariant: entries strictly ascending by identifier
    /// and within the declared capacity.
    pub open spec fn wf(self) -> bool {
        strictly_sorted_by_id(self.entries()) && self.entries().len() <= ENTRY_COUNT
    }

    /// All device registers and PDO tables of the two dictionaries are equal;
    /// only the entries may differ.
    pub open spec fn same_registers(self, other: Self) -> bool {
        self.spec_error_register() == other.spec_error_register()
            && self.spec_manufacturer_status_register()
            == other.spec_manufacturer_status_register() && self.spec_predefined_errors()
            == other.spec_predefined_errors() && self.spec_tpdo_mappings()
            == other.spec_tpdo_mappings() && self.spec_rpdo_mappings()
            == other.spec_rpdo_mappings()
    }

    /// Builds a dictionary from an unsorted entry list plus device registers
    /// and PDO tables. The entries are sorted ascending by identifier; a list
    /// that repeats an identifier is rejected.
    pub fn new(
        error_register: u8,
        manufacturer_status_register: u32,
        predefined_errors: [u32; 8],
        tpdo_mappings: [PdoConfiguration; TPDO_COUNT],
        rpdo_mappings: [PdoConfiguration; RPDO_COUNT],
        entries: Vec<Variable>,
    ) -> (r: Option<Self>)
        requires
            entries@.len() <= ENTRY_COUNT,
        ensures
            match r {
                Some(d) => distinct_ids(entries@) && d.wf() && d.entries().to_multiset()
                    == entries@.to_multiset() && d.entries().len() == entries@.len()
                    && d.spec_error_register() == error_register
                    && d.spec_manufacturer_status_register() == manufacturer_status_register
                    && d.spec_predefined_errors() == predefined_errors@ && d.spec_tpdo_mappings()
                    == tpdo_mappings@ && d.spec_rpdo_mappings() == rpdo_mappings@,
                None => !distinct_ids(entries@),
            },
    {
        let sorted = sort_entries_by_id(&entries);
        let mut k: usize = 1;
        while k < sorted.len()
            invariant
                1 <= k,
                sorted@.to_multiset() == entries@.to_multiset(),
                sorted@.len() == entries@.len(),
                sorted_by_id(sorted@),
                forall|a: int| 0 <= a < k - 1 && a + 1 < sorted@.len() ==> (#[trigger] sorted@[a].id)
                    != sorted@[a + 1].id,
            decreases sorted@.len() - k as int,
        {
            if sorted[k - 1].id == sorted[k].id {
                proof {
                    assert(!distinct_ids(sorted@));
                    lemma_duplicate_ids_transfer(sorted@, entries@);
                }
                return None;
            }
            k = k + 1;
        }
        proof {
            assert(strictly_sorted_by_id(sorted@)) by {
                assert forall|i: int, j: int|
                    #![trigger sorted@[i], sorted@[j]]
                    0 <= i < j < sorted@.len() implies sorted@[i].id.spec_lt(sorted@[j].id) by {
                    assert(sorted@[i].id.spec_le(sorted@[j].id));
                    if sorted@[i].id == sorted@[j].id {
                        assert(sorted@[i].id.spec_le(sorted@[i + 1].id));
                        assert(sorted@[i + 1].id.spec_le(sorted@[j].id));
                        assert(sorted@[i].id != sorted@[i + 1].id);
                        assert(false);
                    }
                }
            }
            if !distinct_ids(entries@) {
                lemma_duplicate_ids_transfer(entries@, sorted@);
                assert(false);
            }
        }
        Some(
            ObjectDictionary {
                error_register,
                manufacturer_status_register,
                predefined_errors,
                entries: sorted,
                tpdo_mappings,
                rpdo_mappings,
            },
        )
    }

    /// Binary search over the sorted entries: the index holding the
    /// identifier, if any entry does.
    fn find_entry_index(&self, id: EntryId) -> (r: Option<usize>)
        requires
            self.wf(),
        ensures
            match r {
                Some(i) => i < self.entries().len() && self.entries()[i as int].id == id,
                None => forall|k: int|
                    0 <= k < self.entries().len() ==> (#[trigger] self.entries()[k].id) != id,
            },
    {
        let mut lo: usize = 0;
        let mut hi: usize = self.entries.len();
        while lo < hi
            invariant
                lo <= hi <= self.entries().len(),
                self.wf(),
                forall|k: int| 0 <= k < lo ==> (#[trigger] self.entries()[k].id) != id,
                forall|k: int|
                    hi <= k < self.entries().len() ==> (#[trigger] self.entries()[k].id) != id,
            decreases hi - lo,
        {
            let mid = lo + (hi - lo) / 2;
            let mid_id = self.entries[mid].id;
            if mid_id == id {
                return Some(mid);
            } else if mid_id.le(&id) {
                proof {
                    assert forall|k: int| 0 <= k < mid + 1 implies (#[trigger] self.entries()[k].id)
                        != id by {
                        if lo <= k <= mid {
                            assert(self.entries()[k].id.spec_le(self.entries()[mid as int].id));
                        }
                    }
                }
                lo = mid + 1;
            } else {
                proof {
                    assert forall|k: int|
                        mid <= k < self.entries().len() implies (#[trigger] self.entries()[k].id)
                        != id by {
                        if mid <= k < hi {
                            assert(self.entries()[mid as int].id.spec_le(self.entries()[k].id));
                            assert(!self.entries()[mid as int].id.spec_le(id));
                        }
                    }
                }
                hi = mid;
            }
        }
        None
    }

    /// Looks up an entry by identifier and hands out a mutable reference to
    /// it, or no value when no entry has that identifier. Every constructed
    /// entry is found; holders of the reference must leave its identifier
    /// unchanged for the dictionary to stay well-formed.
    pub fn get_mut_variable(&mut self, id: EntryId) -> (r: Option<&mut Variable>)
        requires
            old(self).wf(),
        ensures
            match r {
                Some(v) => {
                    &&& exists|i: int|
                        {
                            &&& 0 <= i < old(self).entries().len()
                            &&& old(self).entries()[i].id == id
                            &&& *v == old(self).entries()[i]
                            &&& final(self).entries() == old(self).entries().update(
                                i,
                                *final(v),
                            )
                        }
                    &&& final(self).same_registers(*old(self))
                },
                None => {
                    &&& *final(self) == *old(self)
                    &&& forall|k: int|
                        0 <= k < old(self).entries().len() ==> (#[trigger] old(self).entries()[
                        k].id) != id
                },
            },
    {
        match self.find_entry_index(id) {
            Some(idx) => Some(vstd::std_specs::vec::vec_index_mut(&mut self.entries, idx)),
            None => None,
        }
    }
}

} // verus!

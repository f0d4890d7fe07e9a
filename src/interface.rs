use vstd::prelude::*;

use crate::address::{address_of, convert_ifaddr_address, Address, RawRecord};
use crate::constants::ConstantTable;
use crate::flags::InterfaceFlags;

verus! {

/// A network interface of the system: its name, its addresses and its flags.
///
/// The operating system gives flags for each address of an interface rather than for the
/// interface; those of the interface's first record are taken, on the assumption that all
/// of its records agree.
#[derive(Debug)]
pub struct Interface {
    /// The name of this interface.
    pub name: String,
    /// All addresses of this interface.
    pub addresses: Vec<Address>,
    /// The interface flags.
    pub flags: InterfaceFlags,
}

/// Whether a record belongs to the interface called `name`.
pub open spec fn record_named(r: RawRecord, name: Seq<char>) -> bool {
    match r.name {
        Some(n) => n@ == name,
        None => false,
    }
}

/// Whether some record belongs to the interface called `name`.
pub open spec fn has_name(records: Seq<RawRecord>, name: Seq<char>) -> bool {
    exists|i: int| 0 <= i < records.len() && record_named(#[trigger] records[i], name)
}

/// The flag word of the first record of the interface called `name`.
pub open spec fn flags_for(records: Seq<RawRecord>, name: Seq<char>) -> u32
    decreases records.len(),
{
    if records.len() == 0 {
        0
    } else if has_name(records.drop_last(), name) {
        flags_for(records.drop_last(), name)
    } else {
        records.last().flags
    }
}

/// The addresses that the records of the interface called `name` contribute, in the order
/// of the records.
pub open spec fn addresses_for(records: Seq<RawRecord>, table: ConstantTable, name: Seq<char>) -> Seq<
    Address,
>
    decreases records.len(),
{
    if records.len() == 0 {
        Seq::empty()
    } else {
        let rest = addresses_for(records.drop_last(), table, name);
        let r = records.last();
        if record_named(r, name) && address_of(r, table) is Some {
            rest.push(address_of(r, table)->Some_0)
        } else {
            rest
        }
    }
}

/// Whether `ifs` groups the records by interface name: one interface for each name that
/// some record carries and no other, each with the flags of its first record and the
/// addresses of all of its records.
pub open spec fn groups_records(ifs: Seq<Interface>, records: Seq<RawRecord>, table: ConstantTable) -> bool {
    &&& forall|i: int, j: int| 0 <= i < j < ifs.len() ==> ifs[i].name@ != ifs[j].name@
    &&& forall|i: int| 0 <= i < ifs.len() ==> has_name(records, #[trigger] ifs[i].name@)
    &&& forall|name: Seq<char>| #[trigger]
        has_name(records, name) ==> exists|i: int| 0 <= i < ifs.len() && ifs[i].name@ == name
    &&& forall|i: int|
        0 <= i < ifs.len() ==> {
            &&& (#[trigger] ifs[i]).flags.bits == flags_for(records, ifs[i].name@)
            &&& ifs[i].addresses@ == addresses_for(records, table, ifs[i].name@)
        }
}

/// The names of a list of interfaces.
pub open spec fn name_set(ifs: Seq<Interface>) -> Set<Seq<char>> {
    Set::new(|n: Seq<char>| exists|i: int| 0 <= i < ifs.len() && ifs[i].name@ == n)
}

/// How one more record changes what the records say of the interface called `name`.
proof fn lemma_push_record(s: Seq<RawRecord>, r: RawRecord, table: ConstantTable, name: Seq<char>)
    ensures
        has_name(s.push(r), name) == (has_name(s, name) || record_named(r, name)),
        flags_for(s.push(r), name) == if has_name(s, name) {
            flags_for(s, name)
        } else {
            r.flags
        },
        addresses_for(s.push(r), table, name) == if record_named(r, name) && address_of(
            r,
            table,
        ) is Some {
            addresses_for(s, table, name).push(address_of(r, table)->Some_0)
        } else {
            addresses_for(s, table, name)
        },
{
    let t = s.push(r);
    assert(t.drop_last() =~= s);
    if has_name(s, name) {
        let i = choose|i: int| 0 <= i < s.len() && record_named(#[trigger] s[i], name);
        assert(t[i] == s[i]);
    }
    if record_named(r, name) {
        assert(t[s.len() as int] == r);
    }
    if has_name(t, name) {
        let i = choose|i: int| 0 <= i < t.len() && record_named(#[trigger] t[i], name);
        if i < s.len() {
            assert(s[i] == t[i]);
        }
    }
}

/// An interface that no record names has no addresses.
proof fn lemma_no_name_no_addresses(s: Seq<RawRecord>, table: ConstantTable, name: Seq<char>)
    requires
        !has_name(s, name),
    ensures
        addresses_for(s, table, name) == Seq::<Address>::empty(),
    decreases s.len(),
{
    if s.len() > 0 {
        let t = s.drop_last();
        assert(t.push(s.last()) =~= s);
        lemma_push_record(t, s.last(), table, name);
        lemma_no_name_no_addresses(t, table, name);
    }
}

/// Whether `ifs` holds an interface with the name, flags and addresses of `x`.
pub open spec fn has_same_interface(ifs: Seq<Interface>, x: Interface) -> bool {
    exists|j: int|
        {
            &&& 0 <= j < ifs.len()
            &&& (#[trigger] ifs[j]).name@ == x.name@
            &&& ifs[j].flags == x.flags
            &&& ifs[j].addresses@ == x.addresses@
        }
}

/// Two listings of the same records name the same interfaces, with the same flags and
/// addresses: listing twice while nothing changes gives equal results.
pub proof fn lemma_get_all_same_names(
    records: Seq<RawRecord>,
    table: ConstantTable,
    a: Seq<Interface>,
    b: Seq<Interface>,
)
    requires
        groups_records(a, records, table),
        groups_records(b, records, table),
    ensures
        name_set(a) == name_set(b),
        a.len() == b.len(),
        forall|i: int| 0 <= i < a.len() ==> has_same_interface(b, #[trigger] a[i]),
{
    assert forall|n: Seq<char>| name_set(a).contains(n) <==> name_set(b).contains(n) by {
        if name_set(a).contains(n) {
            let i = choose|i: int| 0 <= i < a.len() && a[i].name@ == n;
            assert(has_name(records, a[i].name@));
        }
        if name_set(b).contains(n) {
            let j = choose|j: int| 0 <= j < b.len() && b[j].name@ == n;
            assert(has_name(records, b[j].name@));
        }
    }
    assert(name_set(a) =~= name_set(b));
    assert forall|i: int| 0 <= i < a.len() implies has_same_interface(b, #[trigger] a[i]) by {
        assert(has_name(records, a[i].name@));
        let j = choose|j: int| 0 <= j < b.len() && b[j].name@ == a[i].name@;
        assert(b[j].flags.bits == a[i].flags.bits);
        assert(b[j].flags == a[i].flags);
        assert(b[j].addresses@ == a[i].addresses@);
    }
    lemma_same_length(a, b);
}

/// Two lists of interfaces with distinct names and the same names have the same length.
proof fn lemma_same_length(a: Seq<Interface>, b: Seq<Interface>)
    requires
        forall|i: int, j: int| 0 <= i < j < a.len() ==> a[i].name@ != a[j].name@,
        forall|i: int, j: int| 0 <= i < j < b.len() ==> b[i].name@ != b[j].name@,
        name_set(a) == name_set(b),
    ensures
        a.len() == b.len(),
{
    let ma = a.map_values(|x: Interface| x.name@);
    let mb = b.map_values(|x: Interface| x.name@);
    assert forall|i: int, j: int| 0 <= i < ma.len() && 0 <= j < ma.len() && i != j implies ma[i] != ma[j] by {
        if i < j {
            assert(a[i].name@ != a[j].name@);
        } else {
            assert(a[j].name@ != a[i].name@);
        }
    }
    assert forall|i: int, j: int| 0 <= i < mb.len() && 0 <= j < mb.len() && i != j implies mb[i] != mb[j] by {
        if i < j {
            assert(b[i].name@ != b[j].name@);
        } else {
            assert(b[j].name@ != b[i].name@);
        }
    }
    assert forall|n: Seq<char>| ma.to_set().contains(n) <==> mb.to_set().contains(n) by {
        if ma.to_set().contains(n) {
            let i = choose|i: int| 0 <= i < ma.len() && ma[i] == n;
            assert(name_set(a).contains(n));
            let j = choose|j: int| 0 <= j < b.len() && b[j].name@ == n;
            assert(mb[j] == n);
        }
        if mb.to_set().contains(n) {
            let i = choose|i: int| 0 <= i < mb.len() && mb[i] == n;
            assert(name_set(b).contains(n));
            let j = choose|j: int| 0 <= j < a.len() && a[j].name@ == n;
            assert(ma[j] == n);
        }
    }
    assert(ma.to_set() =~= mb.to_set());
    ma.unique_seq_to_set();
    mb.unique_seq_to_set();
}

/// No record with an address is dropped: the address of every record of an interface is
/// among that interface's addresses, whatever its family.
pub proof fn lemma_record_kept(records: Seq<RawRecord>, table: ConstantTable, i: int)
    requires
        0 <= i < records.len(),
        records[i].name is Some,
        address_of(records[i], table) is Some,
    ensures
        has_name(records, records[i].name->Some_0@),
        addresses_for(records, table, records[i].name->Some_0@).contains(
            address_of(records[i], table)->Some_0,
        ),
    decreases records.len(),
{
    let name = records[i].name->Some_0@;
    let t = records.drop_last();
    assert(t.push(records.last()) =~= records);
    lemma_push_record(t, records.last(), table, name);
    assert(record_named(records[i], name));
    if i == records.len() - 1 {
        let s = addresses_for(records, table, name);
        assert(s[s.len() - 1] == address_of(records[i], table)->Some_0);
    } else {
        assert(t[i] == records[i]);
        lemma_record_kept(t, table, i);
        let s = addresses_for(t, table, name);
        let k = choose|k: int| 0 <= k < s.len() && s[k] == address_of(records[i], table)->Some_0;
        if record_named(records.last(), name) && address_of(records.last(), table) is Some {
            assert(addresses_for(records, table, name)[k] == s[k]);
        }
    }
}

impl Interface {
    /// A new interface without addresses, with the flags of its first record.
    fn new_from_record(name: String, flags: u32) -> (r: Interface)
        ensures
            r.name == name,
            r.addresses@ == Seq::<Address>::empty(),
            r.flags.bits == flags,
    {
        Interface { name, addresses: Vec::new(), flags: InterfaceFlags::from_bits(flags) }
    }

    /// Groups a list of raw address records by interface name. Records without a valid name
    /// are skipped; a record with a name but without an address still makes its interface
    /// exist. The order of the interfaces is that of their first records.
    pub fn get_all(records: &Vec<RawRecord>, table: &ConstantTable) -> (r: Vec<Interface>)
        ensures
            groups_records(r@, records@, *table),
    {
        let mut ifs: Vec<Interface> = Vec::new();
        let mut i: usize = 0;
        while i < records.len()
            invariant
                i <= records@.len(),
                groups_records(ifs@, records@.take(i as int), *table),
            decreases records@.len() - i,
        {
            let rec = &records[i];
            let ghost prefix = records@.take(i as int);
            let ghost next = records@.take(i as int + 1);
            assert(next =~= prefix.push(*rec));
            if let Some(name) = &rec.name {
                let ghost old_ifs = ifs@;
                let idx = match find_interface(&ifs, name) {
                    Some(j) => j,
                    None => {
                        proof {
                            if has_name(prefix, name@) {
                                let k = choose|k: int| 0 <= k < old_ifs.len() && old_ifs[k].name@ == name@;
                                assert(old_ifs[k].name@ == name@);
                            }
                        }
                        ifs.push(Interface::new_from_record(name.clone(), rec.flags));
                        ifs.len() - 1
                    },
                };
                let ghost mid_ifs = ifs@;
                let ghost found = old_ifs.len() == mid_ifs.len();
                proof {
                    if !found {
                        lemma_no_name_no_addresses(prefix, *table, name@);
                    }
                }
                match convert_ifaddr_address(rec, table) {
                    Some(a) => {
                        let mut iface = ifs.remove(idx);
                        iface.addresses.push(a);
                        let ghost new_iface = iface;
                        ifs.insert(idx, iface);
                        assert(ifs@ =~= mid_ifs.update(idx as int, new_iface));
                    },
                    None => {},
                }
                proof {
                    let n0 = name@;
                    assert forall|k: int| 0 <= k < ifs@.len() implies ifs@[k].name@ == mid_ifs[k].name@
                        && ifs@[k].flags == mid_ifs[k].flags && (k != idx ==> ifs@[k].addresses@
                        == mid_ifs[k].addresses@) && (k == idx ==> ifs@[k].addresses@ == (
                    if address_of(*rec, *table) is Some {
                        mid_ifs[k].addresses@.push(address_of(*rec, *table)->Some_0)
                    } else {
                        mid_ifs[k].addresses@
                    })) by {}
                    assert forall|i: int, j: int| 0 <= i < j < ifs@.len() implies ifs@[i].name@
                        != ifs@[j].name@ by {
                        if j == old_ifs.len() && !found {
                            assert(old_ifs[i].name@ != n0);
                        }
                    }
                    assert forall|k: int| 0 <= k < ifs@.len() implies has_name(
                        next,
                        #[trigger] ifs@[k].name@,
                    ) by {
                        lemma_push_record(prefix, *rec, *table, ifs@[k].name@);
                        if k < old_ifs.len() {
                            assert(has_name(prefix, old_ifs[k].name@));
                        }
                    }
                    assert forall|n: Seq<char>| #[trigger] has_name(next, n) implies exists|i: int|
                        0 <= i < ifs@.len() && ifs@[i].name@ == n by {
                        lemma_push_record(prefix, *rec, *table, n);
                        if has_name(prefix, n) {
                            let k = choose|k: int| 0 <= k < old_ifs.len() && old_ifs[k].name@ == n;
                            assert(ifs@[k].name@ == n);
                        } else {
                            assert(ifs@[idx as int].name@ == n);
                        }
                    }
                    assert forall|k: int| 0 <= k < ifs@.len() implies {
                        &&& (#[trigger] ifs@[k]).flags.bits == flags_for(next, ifs@[k].name@)
                        &&& ifs@[k].addresses@ == addresses_for(next, *table, ifs@[k].name@)
                    } by {
                        let nk = ifs@[k].name@;
                        lemma_push_record(prefix, *rec, *table, nk);
                        if k < old_ifs.len() {
                            assert(old_ifs[k] == mid_ifs[k]);
                            assert(has_name(prefix, old_ifs[k].name@));
                            if k != idx {
                                assert(nk != n0);
                            }
                        }
                    }
                }
            } else {
                proof {
                    assert forall|k: int| 0 <= k < ifs@.len() implies has_name(
                        next,
                        #[trigger] ifs@[k].name@,
                    ) by {
                        lemma_push_record(prefix, *rec, *table, ifs@[k].name@);
                    }
                    assert forall|n: Seq<char>| #[trigger] has_name(next, n) implies exists|i: int|
                        0 <= i < ifs@.len() && ifs@[i].name@ == n by {
                        lemma_push_record(prefix, *rec, *table, n);
                    }
                    assert forall|k: int| 0 <= k < ifs@.len() implies {
                        &&& (#[trigger] ifs@[k]).flags.bits == flags_for(next, ifs@[k].name@)
                        &&& ifs@[k].addresses@ == addresses_for(next, *table, ifs@[k].name@)
                    } by {
                        lemma_push_record(prefix, *rec, *table, ifs@[k].name@);
                        assert(has_name(prefix, ifs@[k].name@));
                    }
                }
            }
            i = i + 1;
        }
        assert(records@.take(records@.len() as int) =~= records@);
        ifs
    }
}

impl Interface {
    /// The interface called `name`, built from the records that carry that name: `None` when
    /// no record does. Every record is looked at, since later records add addresses.
    pub fn get_by_name(records: &Vec<RawRecord>, table: &ConstantTable, name: &str) -> (r: Option<
        Interface,
    >)
        ensures
            r is None <==> !has_name(records@, name@),
            r matches Some(iface) ==> {
                &&& iface.name@ == name@
                &&& iface.flags.bits == flags_for(records@, name@)
                &&& iface.addresses@ == addresses_for(records@, *table, name@)
            },
    {
        let key = name.to_owned();
        let mut found = false;
        let mut flags: u32 = 0;
        let mut addresses: Vec<Address> = Vec::new();
        let mut i: usize = 0;
        proof {
            lemma_no_name_no_addresses(records@.take(0), *table, name@);
        }
        while i < records.len()
            invariant
                i <= records@.len(),
                key@ == name@,
                found == has_name(records@.take(i as int), name@),
                found ==> flags == flags_for(records@.take(i as int), name@),
                addresses@ == addresses_for(records@.take(i as int), *table, name@),
            decreases records@.len() - i,
        {
            let rec = &records[i];
            proof {
                assert(records@.take(i as int + 1) =~= records@.take(i as int).push(*rec));
                lemma_push_record(records@.take(i as int), *rec, *table, name@);
            }
            if let Some(n) = &rec.name {
                if *n == key {
                    if !found {
                        found = true;
                        flags = rec.flags;
                    }
                    if let Some(a) = convert_ifaddr_address(rec, table) {
                        addresses.push(a);
                    }
                }
            }
            i = i + 1;
        }
        assert(records@.take(records@.len() as int) =~= records@);
        if found {
            Some(Interface { name: key, addresses, flags: InterfaceFlags::from_bits(flags) })
        } else {
            None
        }
    }

    /// Whether this interface is up.
    pub fn is_up(&self) -> (r: bool)
        ensures
            r == (self.flags.bits & InterfaceFlags::IFF_UP == InterfaceFlags::IFF_UP),
    {
        self.flags.contains(InterfaceFlags::IFF_UP)
    }

    /// Whether this interface is a loopback interface.
    pub fn is_loopback(&self) -> (r: bool)
        ensures
            r == (self.flags.bits & InterfaceFlags::IFF_LOOPBACK == InterfaceFlags::IFF_LOOPBACK),
    {
        self.flags.contains(InterfaceFlags::IFF_LOOPBACK)
    }
}

impl PartialEq for Interface {
    fn eq(&self, other: &Interface) -> bool {
        self.name == other.name
    }
}

impl vstd::std_specs::cmp::PartialEqSpecImpl for Interface {
    open spec fn obeys_eq_spec() -> bool {
        true
    }

    open spec fn eq_spec(&self, other: &Interface) -> bool {
        self.name@ == other.name@
    }
}

impl Eq for Interface {

}

/// The position of the interface called `name`, if there is one.
fn find_interface(ifs: &Vec<Interface>, name: &String) -> (r: Option<usize>)
    ensures
        match r {
            Some(j) => j < ifs@.len() && ifs@[j as int].name@ == name@,
            None => forall|k: int| 0 <= k < ifs@.len() ==> ifs@[k].name@ != name@,
        },
{
    let mut j: usize = 0;
    while j < ifs.len()
        invariant
            j <= ifs@.len(),
            forall|k: int| 0 <= k < j ==> ifs@[k].name@ != name@,
        decreases ifs@.len() - j,
    {
        if ifs[j].name == *name {
            return Some(j);
        }
        j = j + 1;
    }
    None
}

} // verus!

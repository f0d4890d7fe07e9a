use vstd::prelude::*;

verus! {

/// The platform's numeric constants that the control calls and the address classification
/// need: control-call request codes, family tags and structure sizes, looked up by their
/// symbolic names, together with the tags of the IPv4 and IPv6 families.
///
/// A table is built once, at start-up, and handed by reference to whatever needs it, so a
/// made-up table can stand in for the platform's.
pub struct ConstantTable {
    /// The named constants; a name that occurs more than once has the value of its first entry.
    pub entries: Vec<(String, u64)>,
    /// The family tag of IPv4 addresses.
    pub af_inet: i32,
    /// The family tag of IPv6 addresses.
    pub af_inet6: i32,
}

/// The value of the first entry named `name`, if there is one.
pub open spec fn lookup(entries: Seq<(String, u64)>, name: Seq<char>) -> Option<u64>
    decreases entries.len(),
{
    if entries.len() == 0 {
        None
    } else if entries[0].0@ == name {
        Some(entries[0].1)
    } else {
        lookup(entries.subrange(1, entries.len() as int), name)
    }
}

/// Relies on `libc::AF_INET`: the tag of the IPv4 family on this platform.
#[verifier::external_body]
fn platform_af_inet() -> (r: i32) {
    libc::AF_INET
}

/// Relies on `libc::AF_INET6`: the tag of the IPv6 family on this platform.
#[verifier::external_body]
fn platform_af_inet6() -> (r: i32) {
    libc::AF_INET6
}

impl ConstantTable {
    /// The value that the table gives to `name`.
    pub open spec fn value_of(&self, name: Seq<char>) -> Option<u64> {
        lookup(self.entries@, name)
    }

    /// A table of the given named constants, with this platform's IPv4 and IPv6 family tags.
    pub fn new(entries: Vec<(String, u64)>) -> (r: ConstantTable)
        ensures
            r.entries@ == entries@,
    {
        ConstantTable { entries, af_inet: platform_af_inet(), af_inet6: platform_af_inet6() }
    }
}

/// Looks a constant up by name. `None` means that the platform does not have it.
pub fn get_constant(table: &ConstantTable, name: &str) -> (r: Option<u64>)
    ensures
        r == table.value_of(name@),
{
    let key = name.to_owned();
    let mut i: usize = 0;
    assert(table.entries@.subrange(0, table.entries@.len() as int) =~= table.entries@);
    while i < table.entries.len()
        invariant
            i <= table.entries@.len(),
            key@ == name@,
            lookup(table.entries@, name@) == lookup(
                table.entries@.subrange(i as int, table.entries@.len() as int),
                name@,
            ),
        decreases table.entries@.len() - i,
    {
        let ghost rest = table.entries@.subrange(i as int, table.entries@.len() as int);
        if table.entries[i].0 == key {
            return Some(table.entries[i].1);
        }
        assert(rest.subrange(1, rest.len() as int) =~= table.entries@.subrange(
            i as int + 1,
            table.entries@.len() as int,
        ));
        i = i + 1;
    }
    None
}

} // verus!

use vstd::prelude::*;
use vstd::utf8::encode_utf8;

use crate::address::RawRecord;
use crate::constants::{get_constant, ConstantTable};
use crate::error::InterfacesError;
use crate::flags::{set_up_bit, up_word, InterfaceFlags};
use crate::hwaddr::{link_layer_bytes, HardwareAddr};
use crate::interface::{record_named, Interface};

verus! {

/// The size of the name field at the start of a control-call payload.
pub const IFNAMSIZ: usize = 16;

/// A control call to make on an interface: its request code, and the zero-padded name that
/// its payload starts with.
#[derive(Debug, PartialEq, Eq, Clone, Copy)]
pub struct ControlRequest {
    pub code: u64,
    pub name: [u8; IFNAMSIZ],
}

/// The name field of a control-call payload: the UTF-8 bytes of the name, cut to the size
/// of the field or padded with zeros.
pub open spec fn name_buffer(name: Seq<char>) -> Seq<u8> {
    let b = encode_utf8(name);
    Seq::new(IFNAMSIZ as nat, |k: int| if k < b.len() { b[k] } else { 0u8 })
}

/// Whether `q` is the request for the call named `code_name`, made on the interface called
/// `name`.
pub open spec fn is_request(q: ControlRequest, table: ConstantTable, code_name: Seq<char>, name: Seq<char>) -> bool {
    &&& table.value_of(code_name) == Some(q.code)
    &&& q.name@ == name_buffer(name)
}

/// Copies as many bytes as both slices hold from `src` to the start of `dst`, and returns
/// how many that was.
pub fn copy_slice(dst: &mut [u8], src: &[u8]) -> (r: usize)
    ensures
        r == if old(dst)@.len() < src@.len() { old(dst)@.len() } else { src@.len() },
        final(dst)@ == src@.take(r as int) + old(dst)@.skip(r as int),
{
    let n = if dst.len() < src.len() {
        dst.len()
    } else {
        src.len()
    };
    let mut c: usize = 0;
    assert(old(dst)@ =~= src@.take(0) + old(dst)@.skip(0));
    while c < n
        invariant
            c <= n,
            n <= old(dst)@.len(),
            n <= src@.len(),
            n == if old(dst)@.len() < src@.len() { old(dst)@.len() } else { src@.len() },
            dst@ == src@.take(c as int) + old(dst)@.skip(c as int),
        decreases n - c,
    {
        dst[c] = src[c];
        assert(dst@ =~= src@.take(c as int + 1) + old(dst)@.skip(c as int + 1));
        c = c + 1;
    }
    c
}

/// Where a change of an interface's up flag stands.
#[derive(Debug, PartialEq, Eq, Clone, Copy)]
pub enum SetUpStage {
    /// The flag word has been asked for; it is to be written back, changed, with the
    /// request code `set_code`.
    Reading { set_code: u64, name: [u8; IFNAMSIZ], up: bool },
    /// The changed flag word `flags` has been handed over to be written.
    Writing { flags: u32 },
    /// The change is over.
    Finished,
}

/// What the caller does next in a change of an interface's up flag.
#[derive(Debug)]
pub enum FlagsAction {
    /// Write the flag word with this request, then report how that went.
    Write(ControlRequest, u32),
    /// Stop: the change is over, with this result.
    Done(Result<(), InterfacesError>),
}

/// Whether a record is one of the interface `name` whose address has the family `link`.
pub open spec fn is_link_record(r: RawRecord, name: Seq<char>, link: i32) -> bool {
    &&& record_named(r, name)
    &&& r.addr is Some
    &&& r.addr->Some_0.family == link
}

/// What a scan of the records for the link-level address of the interface `name` gives:
/// the address carried by the first record of `name` with the link family, if it holds six
/// bytes, and otherwise `NotSupported("No AF_LINK")`.
pub open spec fn link_scan(
    records: Seq<RawRecord>,
    name: Seq<char>,
    link: i32,
    r: Result<HardwareAddr, InterfacesError>,
) -> bool {
    if exists|k: int| 0 <= k < records.len() && is_link_record(#[trigger] records[k], name, link) {
        exists|k: int|
            {
                &&& 0 <= k < records.len()
                &&& is_link_record(#[trigger] records[k], name, link)
                &&& forall|j: int| 0 <= j < k ==> !is_link_record(#[trigger] records[j], name, link)
                &&& match link_layer_bytes(records[k].addr->Some_0.data@) {
                    Some(b) => r matches Ok(h) && h.0@ == b,
                    None => r matches Err(e) && e == InterfacesError::NotSupported("No AF_LINK"),
                }
            }
    } else {
        r matches Err(e) && e == InterfacesError::NotSupported("No AF_LINK")
    }
}

impl Interface {
    /// The zero-padded name field of this interface's control calls.
    pub fn request_name(&self) -> (r: [u8; IFNAMSIZ])
        ensures
            r@ == name_buffer(self.name@),
    {
        let mut buf = [0u8; IFNAMSIZ];
        let bytes = self.name.as_str().as_bytes();
        copy_slice(&mut buf, bytes);
        assert(buf@ =~= name_buffer(self.name@));
        buf
    }

    /// The control call whose request code is named `code_name`, on this interface; the
    /// error `NotSupported(code_name)` where the platform has no such code.
    fn control_request(&self, table: &ConstantTable, code_name: &'static str) -> (r: Result<
        ControlRequest,
        InterfacesError,
    >)
        ensures
            match r {
                Ok(q) => is_request(q, *table, code_name@, self.name@),
                Err(e) => table.value_of(code_name@) is None && e == InterfacesError::NotSupported(
                    code_name,
                ),
            },
    {
        match get_constant(table, code_name) {
            Some(code) => Ok(ControlRequest { code, name: self.request_name() }),
            None => Err(InterfacesError::NotSupported(code_name)),
        }
    }

    /// The control call that reads this interface's MTU. Where the platform has no
    /// `SIOCGIFMTU` code this fails with `NotSupported("SIOCGIFMTU")`, and there is no call
    /// to make.
    pub fn mtu_request(&self, table: &ConstantTable) -> (r: Result<ControlRequest, InterfacesError>)
        ensures
            match r {
                Ok(q) => is_request(q, *table, "SIOCGIFMTU"@, self.name@),
                Err(e) => table.value_of("SIOCGIFMTU"@) is None && e == InterfacesError::NotSupported(
                    "SIOCGIFMTU",
                ),
            },
    {
        self.control_request(table, "SIOCGIFMTU")
    }

    /// The control call that reads this interface's hardware address into a socket address.
    /// Where the platform has no `SIOCGIFHWADDR` code this fails with
    /// `NotSupported("SIOCGIFHWADDR")`.
    pub fn hwaddr_request(&self, table: &ConstantTable) -> (r: Result<ControlRequest, InterfacesError>)
        ensures
            match r {
                Ok(q) => is_request(q, *table, "SIOCGIFHWADDR"@, self.name@),
                Err(e) => table.value_of("SIOCGIFHWADDR"@) is None && e
                    == InterfacesError::NotSupported("SIOCGIFHWADDR"),
            },
    {
        self.control_request(table, "SIOCGIFHWADDR")
    }

    /// The hardware address of this interface, read from the address list: the first record
    /// of this interface whose address has the platform's link family (`AF_LINK`) carries it
    /// after the interface name. Fails with `NotSupported("AF_LINK")` where the platform has
    /// no link family, and with `NotSupported("No AF_LINK")` where no such record is found or
    /// its address is too short to hold six bytes.
    pub fn hardware_addr_from_list(&self, table: &ConstantTable, records: &Vec<RawRecord>) -> (r: Result<
        HardwareAddr,
        InterfacesError,
    >)
        ensures
            match table.value_of("AF_LINK"@) {
                None => r matches Err(e) && e == InterfacesError::NotSupported("AF_LINK"),
                Some(v) => link_scan(records@, self.name@, v as i32, r),
            },
    {
        let link = match get_constant(table, "AF_LINK") {
            Some(c) => c as i32,
            None => return Err(InterfacesError::NotSupported("AF_LINK")),
        };
        let mut i: usize = 0;
        while i < records.len()
            invariant
                i <= records@.len(),
                table.value_of("AF_LINK"@) matches Some(v) && link == v as i32,
                forall|j: int| 0 <= j < i ==> !is_link_record(#[trigger] records@[j], self.name@, link),
            decreases records@.len() - i,
        {
            let rec = &records[i];
            if let (Some(n), Some(sa)) = (&rec.name, &rec.addr) {
                if *n == self.name && sa.family == link {
                    assert(is_link_record(records@[i as int], self.name@, link));
                    return match HardwareAddr::from_link_layer(sa.data.as_slice()) {
                        Some(h) => Ok(h),
                        None => Err(InterfacesError::NotSupported("No AF_LINK")),
                    };
                }
            }
            i = i + 1;
        }
        Err(InterfacesError::NotSupported("No AF_LINK"))
    }

    /// Begins setting this interface up or down: the call that reads the flag word, and the
    /// stage to go on from. Both flag codes are needed; a missing one fails with
    /// `NotSupported` naming it, the read code first.
    pub fn set_up_start(&self, table: &ConstantTable, up: bool) -> (r: Result<
        (ControlRequest, SetUpStage),
        InterfacesError,
    >)
        ensures
            match r {
                Ok((q, stage)) => {
                    &&& is_request(q, *table, "SIOCGIFFLAGS"@, self.name@)
                    &&& table.value_of("SIOCSIFFLAGS"@) is Some
                    &&& stage == SetUpStage::Reading {
                        set_code: table.value_of("SIOCSIFFLAGS"@)->Some_0,
                        name: q.name,
                        up,
                    }
                },
                Err(e) => {
                    ||| table.value_of("SIOCGIFFLAGS"@) is None && e == InterfacesError::NotSupported(
                        "SIOCGIFFLAGS",
                    )
                    ||| table.value_of("SIOCGIFFLAGS"@) is Some && table.value_of("SIOCSIFFLAGS"@) is None
                        && e == InterfacesError::NotSupported("SIOCSIFFLAGS")
                },
            },
    {
        let get = self.control_request(table, "SIOCGIFFLAGS")?;
        let set = self.control_request(table, "SIOCSIFFLAGS")?;
        Ok((get, SetUpStage::Reading { set_code: set.code, name: get.name, up }))
    }

    /// Takes the next step of setting this interface up or down, given how the last call went:
    /// `Ok` with the flag word read (or written), or the error it failed with. After the read,
    /// exactly the up bit of the word is changed and the word handed back to be written; after
    /// the write, this interface's flags become the word written. An error ends the change
    /// with that error.
    pub fn set_up_step(&mut self, stage: &mut SetUpStage, reply: Result<u32, InterfacesError>) -> (r:
        FlagsAction)
        ensures
            match *old(stage) {
                SetUpStage::Reading { set_code, name, up } => match reply {
                    Ok(w) => {
                        &&& r matches FlagsAction::Write(q, word) && q.code == set_code && q.name
                            == name && word == up_word(w, up)
                        &&& *final(stage) == SetUpStage::Writing { flags: up_word(w, up) }
                        &&& *final(self) == *old(self)
                    },
                    Err(e) => {
                        &&& r matches FlagsAction::Done(Err(e2)) && e2 == e
                        &&& *final(stage) == SetUpStage::Finished
                        &&& *final(self) == *old(self)
                    },
                },
                SetUpStage::Writing { flags } => match reply {
                    Ok(_) => {
                        &&& r matches FlagsAction::Done(Ok(()))
                        &&& *final(stage) == SetUpStage::Finished
                        &&& final(self).flags.bits == flags
                        &&& final(self).name == old(self).name
                        &&& final(self).addresses == old(self).addresses
                    },
                    Err(e) => {
                        &&& r matches FlagsAction::Done(Err(e2)) && e2 == e
                        &&& *final(stage) == SetUpStage::Finished
                        &&& *final(self) == *old(self)
                    },
                },
                SetUpStage::Finished => {
                    &&& r matches FlagsAction::Done(Ok(()))
                    &&& *final(stage) == SetUpStage::Finished
                    &&& *final(self) == *old(self)
                },
            },
    {
        match *stage {
            SetUpStage::Reading { set_code, name, up } => match reply {
                Ok(w) => {
                    let word = set_up_bit(w, up);
                    *stage = SetUpStage::Writing { flags: word };
                    FlagsAction::Write(ControlRequest { code: set_code, name }, word)
                },
                Err(e) => {
                    *stage = SetUpStage::Finished;
                    FlagsAction::Done(Err(e))
                },
            },
            SetUpStage::Writing { flags } => match reply {
                Ok(_) => {
                    self.flags = InterfaceFlags::from_bits(flags);
                    *stage = SetUpStage::Finished;
                    FlagsAction::Done(Ok(()))
                },
                Err(e) => {
                    *stage = SetUpStage::Finished;
                    FlagsAction::Done(Err(e))
                },
            },
            SetUpStage::Finished => FlagsAction::Done(Ok(())),
        }
    }
}

} // verus!

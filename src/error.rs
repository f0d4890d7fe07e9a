use vstd::prelude::*;

verus! {

#[verifier::external_type_specification]
#[verifier::external_body]
pub struct ExErrno(nix::errno::Errno);

pub assume_specification[ nix::errno::Errno::last ]() -> nix::errno::Errno;

/// The error of every fallible operation of this library.
#[derive(Debug)]
pub enum InterfacesError {
    /// A call into the operating system failed; this is the `errno` it left.
    Errno(nix::errno::Errno),
    /// Something that the operation needs is not available on this platform; the text names it.
    NotSupported(&'static str),
}

impl InterfacesError {
    /// An error that carries the current value of `errno`.
    pub fn last_os_error() -> (r: InterfacesError)
        ensures
            r is Errno,
    {
        InterfacesError::Errno(nix::errno::Errno::last())
    }

    /// A short description of the kind of error.
    pub fn description(&self) -> (r: &'static str)
        ensures
            self is Errno ==> r@ == "A syscall error occured"@,
            self is NotSupported ==> r@ == "A required feature is not supported"@,
    {
        match self {
            InterfacesError::Errno(..) => "A syscall error occured",
            InterfacesError::NotSupported(..) => "A required feature is not supported",
        }
    }
}

impl From<nix::errno::Errno> for InterfacesError {
    fn from(e: nix::errno::Errno) -> InterfacesError {
        InterfacesError::Errno(e)
    }
}

impl vstd::std_specs::convert::FromSpecImpl<nix::errno::Errno> for InterfacesError {
    open spec fn obeys_from_spec() -> bool {
        true
    }

    open spec fn from_spec(v: nix::errno::Errno) -> InterfacesError {
        InterfacesError::Errno(v)
    }
}

} // verus!

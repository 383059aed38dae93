//! The unified failure type.
//!
//! Creating, configuring, driving or destroying a virtual input device can
//! fail at several independent layers: a kernel syscall, validation of a
//! caller-supplied name, the device-discovery layer, or generic I/O on the
//! device's file. [`Error`] unifies those failures into one tagged value.
//! Every variant but [`Error::NotFound`] carries its originating cause
//! unchanged, and rendering delegates to the cause's own text.

use vstd::prelude::*;

use crate::nul::NulError;

verus! {

#[verifier::external_type_specification]
#[verifier::external_body]
pub struct ExErrno(nix::errno::Errno);

#[verifier::external_type_specification]
#[verifier::external_body]
pub struct ExIoError(std::io::Error);

/// The rendered text of [`Error::NotFound`].
pub open spec fn not_found_text() -> Seq<char> {
    "Device not found."@
}

/// Virtual input device error.
///
/// Exactly one variant is active at a time; a value is created once, when a
/// lower layer reports failure, and is then propagated upward unchanged.
#[derive(Debug)]
pub enum Error {
    /// A kernel syscall used to create, configure or destroy a virtual
    /// device failed; carries the errno-style failure unchanged.
    Nix(nix::errno::Errno),
    /// A caller-supplied name or property string contained an embedded NUL
    /// byte, so it cannot be encoded as a C-style string.
    Nul(NulError),
    /// The device-discovery layer failed while enumerating or matching
    /// device nodes; carries the failure it reported unchanged.
    Udev(std::io::Error),
    /// A file or stream operation on the emulated device failed for a reason
    /// not covered by the other variants.
    IoError(std::io::Error),
    /// The expected device file could not be located; a terminal,
    /// payload-less condition distinct from a discovery failure.
    NotFound,
}

/// Relies on the `Display` of `nix::errno::Errno`: it writes the errno's
/// name followed by its fixed description (for example
/// `EACCES: Permission denied`), both chosen by the errno value alone, so
/// the text is never empty.
#[verifier::external_body]
fn errno_message(e: &nix::errno::Errno) -> (r: String)
    ensures
        r@.len() > 0,
{
    format!("{}", e)
}

/// Relies on the `Display` of `std::io::Error`: it writes the error's own
/// description (for an OS error, the platform's text for its code).
#[verifier::external_body]
fn io_message(e: &std::io::Error) -> String {
    format!("{}", e)
}

impl Error {
    /// Wraps a failure reported by the device-discovery layer. The discovery
    /// layer reports its failures as generic I/O values; wrapping them here
    /// keeps them distinct from [`Error::IoError`].
    pub fn device_discovery(e: std::io::Error) -> (r: Error)
        ensures
            r == Error::Udev(e),
    {
        Error::Udev(e)
    }

    /// The human-readable rendering of this error. Each variant delegates to
    /// its cause's own rendering, except [`Error::NotFound`], which renders
    /// as the fixed text `"Device not found."`.
    pub fn message(&self) -> (r: String)
        ensures
            (*self) matches Error::Nix(_) ==> r@.len() > 0,
            (*self) matches Error::Nul(e) ==> r@ == e.text(),
            (*self) matches Error::NotFound ==> r@ == not_found_text(),
    {
        match self {
            Error::Nix(e) => errno_message(e),
            Error::Nul(e) => e.message(),
            Error::Udev(e) => io_message(e),
            Error::IoError(e) => io_message(e),
            Error::NotFound => String::from_str("Device not found."),
        }
    }
}

impl core::convert::From<nix::errno::Errno> for Error {
    fn from(value: nix::errno::Errno) -> Self {
        Error::Nix(value)
    }
}

impl vstd::std_specs::convert::FromSpecImpl<nix::errno::Errno> for Error {
    open spec fn obeys_from_spec() -> bool {
        true
    }

    open spec fn from_spec(v: nix::errno::Errno) -> Error {
        Error::Nix(v)
    }
}

impl core::convert::From<NulError> for Error {
    fn from(value: NulError) -> Self {
        Error::Nul(value)
    }
}

impl vstd::std_specs::convert::FromSpecImpl<NulError> for Error {
    open spec fn obeys_from_spec() -> bool {
        true
    }

    open spec fn from_spec(v: NulError) -> Error {
        Error::Nul(v)
    }
}

impl core::convert::From<std::io::Error> for Error {
    fn from(value: std::io::Error) -> Self {
        Error::IoError(value)
    }
}

impl vstd::std_specs::convert::FromSpecImpl<std::io::Error> for Error {
    open spec fn obeys_from_spec() -> bool {
        true
    }

    open spec fn from_spec(v: std::io::Error) -> Error {
        Error::IoError(v)
    }
}

/// Converting a system-call failure is total and deterministic: every
/// errno value `e` yields the syscall variant, carrying `e` unchanged.
pub proof fn lemma_system_call_conversion(e: nix::errno::Errno)
    ensures
        <Error as vstd::std_specs::convert::FromSpec<nix::errno::Errno>>::obeys_from_spec(),
        <Error as vstd::std_specs::convert::FromSpec<nix::errno::Errno>>::from_spec(e)
            == Error::Nix(e),
{
}

/// Converting an embedded-NUL failure is total and deterministic: every
/// failure `e` yields the invalid-name variant, carrying `e` unchanged —
/// so the converted error renders exactly as `e` itself does.
pub proof fn lemma_invalid_name_conversion(e: NulError)
    ensures
        <Error as vstd::std_specs::convert::FromSpec<NulError>>::obeys_from_spec(),
        <Error as vstd::std_specs::convert::FromSpec<NulError>>::from_spec(e) == Error::Nul(e),
        (<Error as vstd::std_specs::convert::FromSpec<NulError>>::from_spec(
            e,
        ) matches Error::Nul(n) && n.text() == e.text()),
{
}

/// Converting a generic I/O failure is total and deterministic: every
/// failure `e` yields the I/O variant, carrying `e` unchanged.
pub proof fn lemma_io_conversion(e: std::io::Error)
    ensures
        <Error as vstd::std_specs::convert::FromSpec<std::io::Error>>::obeys_from_spec(),
        <Error as vstd::std_specs::convert::FromSpec<std::io::Error>>::from_spec(e)
            == Error::IoError(e),
{
}

/// Variant identity is preserved through propagation: the five variants are
/// pairwise distinct — in particular a discovery failure never collapses
/// into a generic I/O failure, even when both wrap the same value — and
/// each wrapping variant determines its payload.
pub proof fn lemma_variant_identity(
    sys: nix::errno::Errno,
    nul: NulError,
    io: std::io::Error,
)
    ensures
        Error::Nix(sys) != Error::Nul(nul),
        Error::Nix(sys) != Error::Udev(io),
        Error::Nix(sys) != Error::IoError(io),
        Error::Nix(sys) != Error::NotFound,
        Error::Nul(nul) != Error::Udev(io),
        Error::Nul(nul) != Error::IoError(io),
        Error::Nul(nul) != Error::NotFound,
        Error::Udev(io) != Error::IoError(io),
        Error::Udev(io) != Error::NotFound,
        Error::IoError(io) != Error::NotFound,
        (Error::Nix(sys))->Nix_0 == sys,
        (Error::Nul(nul))->Nul_0 == nul,
        (Error::Udev(io))->Udev_0 == io,
        (Error::IoError(io))->IoError_0 == io,
{
}

} // verus!

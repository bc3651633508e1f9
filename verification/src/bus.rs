//! The bus-facing side of the coordinator: the names under which the service is
//! published, the errors that reject a call, and the signal by which the bus
//! reports that a connection changed hands.

use dbus_crossroads::MethodErr;
use vstd::prelude::*;

verus! {

/// The interface that the service implements, which is also the name it requests.
pub const SYGENID_INTERFACE: &'static str = "com.RFC.sysgenid";

/// The object path at which the service is published.
pub const SYGENID_PATH: &'static str = "/com/RFC/sysgenid";

/// The error type of the bus layer. Its contents are not visible to the verifier;
/// it is only carried from the place that builds it to the caller.
#[verifier::external_type_specification]
#[verifier::external_body]
pub struct ExMethodErr(MethodErr);

/// The error that `MethodErr::invalid_arg` builds for the argument named `argument`.
pub uninterp spec fn invalid_arg_error(argument: Seq<char>) -> MethodErr;

/// The error that `MethodErr::failed` builds for the reason `reason`.
pub uninterp spec fn failed_error(reason: Seq<char>) -> MethodErr;

/// Calls `MethodErr::invalid_arg`, which builds the bus error
/// `org.freedesktop.DBus.Error.InvalidArgs` with a description that quotes `argument`.
/// Trusted: the result depends on `argument` alone.
#[verifier::external_body]
pub(crate) fn invalid_arg(argument: &str) -> (error: MethodErr)
    ensures
        error == invalid_arg_error(argument@),
{
    MethodErr::invalid_arg(argument)
}

/// Calls `MethodErr::failed`, which builds the bus error
/// `org.freedesktop.DBus.Error.Failed` with `reason` as its description.
/// Trusted: the result depends on `reason` alone.
#[verifier::external_body]
pub(crate) fn failed(reason: &str) -> (error: MethodErr)
    ensures
        error == failed_error(reason@),
{
    MethodErr::failed(reason)
}

/// The rejection of an acknowledgement that names a generation other than the
/// current one.
pub open spec fn stale_acknowledgement_error() -> MethodErr {
    invalid_arg_error("watcher_counter"@)
}

/// The rejection of a call whose sender the bus could not name.
pub open spec fn identity_unavailable_error() -> MethodErr {
    failed_error("could not identify sender"@)
}

/// The arguments of the bus daemon's `NameOwnerChanged` signal: a bus name, the
/// connection that owned it before, and the connection that owns it now.
#[derive(Debug)]
pub struct OrgFreedesktopDBusNameOwnerChanged {
    pub arg0: String,
    pub arg1: String,
    pub arg2: String,
}

impl OrgFreedesktopDBusNameOwnerChanged {
    /// The connection that this signal reports as gone from the bus, if any: the
    /// name, where the name is its own previous owner.
    pub open spec fn departed(self) -> Option<Seq<char>> {
        if self.arg0@ == self.arg1@ {
            Some(self.arg0@)
        } else {
            None
        }
    }

    /// The connection that this signal reports as gone from the bus, if any.
    pub fn departed_watcher(&self) -> (id: Option<&str>)
        ensures
            match id {
                Some(name) => self.departed() == Some(name@),
                None => self.departed() is None,
            },
    {
        if self.arg0 == self.arg1 {
            Some(self.arg0.as_str())
        } else {
            None
        }
    }
}

} // verus!

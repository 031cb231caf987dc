//! Operating-mode resolution.
//!
//! The process runs in exactly one of three modes, selected once at
//! startup from mutually exclusive inputs: share internet access with
//! peers (with an allowlist), use a sharer's internet access, or print
//! the local peer identity and exit. An ambiguous or empty selection is
//! a startup error, never a runtime state.

use vstd::prelude::*;

use crate::acl::AccessControlList;

verus! {

/// Where the user-side local proxy listener binds: loopback only, or all
/// interfaces when exposure to the local network is requested.
#[derive(PartialEq, Eq, Structural, Clone, Copy, Debug)]
pub enum ProxyBind {
    Loopback,
    AllInterfaces,
}

/// The resolved operating configuration, immutable for the process
/// lifetime.
pub enum Configuration {
    /// Share internet access; inbound peers pass the access-control gate.
    Sharer { acl: AccessControlList },
    /// Use internet access of the sharer with the given peer identifier
    /// (textual form, as bytes); the local proxy listener binds as given.
    User { target: Vec<u8>, bind: ProxyBind },
    /// Print the local peer identity and terminate without any network
    /// activity.
    PrintIdentityOnly,
}

/// The startup failure when no mode was selected: the caller prints the
/// usage message and exits without error.
#[derive(PartialEq, Eq, Structural, Clone, Copy, Debug)]
pub enum StartupError {
    NoModeSelected,
}

/// Resolve the operating mode from the startup inputs.
///
/// The print-identity flag overrides everything; otherwise a sharer
/// allowlist (possibly empty) selects sharer mode; otherwise a target
/// peer identifier selects user mode, binding the local proxy to all
/// interfaces only when LAN exposure is requested; with none of the
/// three, no mode is selected and startup fails.
pub fn resolve_configuration(
    sharer_ids: Option<Vec<Vec<u8>>>,
    user_target: Option<Vec<u8>>,
    print_identity: bool,
    expose_lan: bool,
) -> (r: Result<Configuration, StartupError>)
    ensures
        print_identity ==> (r matches Ok(c) && c is PrintIdentityOnly),
        (!print_identity && sharer_ids is Some) ==> (r matches Ok(c)
            && c matches Configuration::Sharer { acl } && acl@ == sharer_ids->0.deep_view()),
        (!print_identity && sharer_ids is None && user_target is Some) ==> (r matches Ok(c)
            && c matches Configuration::User { target, bind } && target@ == user_target->0@
            && bind == (
        if expose_lan {
            ProxyBind::AllInterfaces
        } else {
            ProxyBind::Loopback
        })),
        !print_identity && sharer_ids is None && user_target is None ==> r == Err::<
            Configuration,
            StartupError,
        >(StartupError::NoModeSelected),
{
    if print_identity {
        return Ok(Configuration::PrintIdentityOnly);
    }
    match sharer_ids {
        Some(ids) => Ok(Configuration::Sharer { acl: AccessControlList::new(ids) }),
        None => match user_target {
            Some(target) => {
                let bind = if expose_lan {
                    ProxyBind::AllInterfaces
                } else {
                    ProxyBind::Loopback
                };
                Ok(Configuration::User { target, bind })
            },
            None => Err(StartupError::NoModeSelected),
        },
    }
}

} // verus!

//! The decision table of the tool: which address a selected operation mode
//! installs, given the already-resolved inputs.
//!
//! The command line selects exactly one mode and supplies the interface
//! name; the process boundary reads the current and the permanent address
//! and draws entropy. This module only decides, from those plain values,
//! what is to be done; it performs no request itself.

use vstd::prelude::*;

use crate::mac::MAC;
use crate::mac::ParseMACError;
use crate::mac::random_policy;
use crate::mac::spec_parse;

verus! {

/// One operation mode, as selected on the command line.
#[derive(Debug, Clone)]
pub enum Mode {
    /// Report the current and the permanent address; change nothing.
    Show,
    /// Keep the three vendor bytes, randomize the device-specific suffix.
    Ending,
    /// A random address of the same vendor kind; not implemented.
    Another,
    /// A random address of any vendor kind; not implemented.
    Any,
    /// Reset to the factory-burned address.
    Permanent,
    /// A fully random address.
    Random,
    /// A literal address, as text to be parsed.
    Mac(String),
}

/// What the run is to do once the mode has been resolved.
#[derive(Debug, Clone)]
pub enum Action {
    /// Report only; no set request is issued.
    ReportOnly,
    /// Issue the set request for `addr`. When the new address equals the
    /// current one, `warn_same` asks for a warning — but the request is
    /// still issued.
    SetAddress { addr: MAC, warn_same: bool },
}

/// Why no action could be resolved. Every variant is a user-facing error;
/// no interface state has been touched when one is reported.
#[derive(Debug, Clone, Copy, PartialEq, Eq, Structural)]
pub enum PlanError {
    /// No mode was selected.
    NoModeSelected,
    /// The selected mode is declared but not implemented.
    Unimplemented,
    /// The literal address text could not be parsed.
    Parse(ParseMACError),
}

/// Resolve the selected mode to the action to take.
///
/// `drawn` is one six-byte draw from the entropy source and is read only
/// by the modes that need randomness; `bia` asks the random mode to leave
/// the address looking vendor-assigned (burned in).
pub fn plan_operation(
    mode: &Option<Mode>,
    current: &MAC,
    permanent: &MAC,
    drawn: &[u8; 6],
    bia: bool,
) -> (r: Result<Action, PlanError>)
    ensures
        mode is None ==> r == Err::<Action, PlanError>(PlanError::NoModeSelected),
        mode matches Some(m) ==> match m {
            Mode::Show => r == Ok::<Action, PlanError>(Action::ReportOnly),
            Mode::Ending => r matches Ok(Action::SetAddress { addr, warn_same }) && addr@
                == current@.take(3) + drawn@.skip(3) && warn_same == (addr@ == current@),
            Mode::Another => r == Err::<Action, PlanError>(PlanError::Unimplemented),
            Mode::Any => r == Err::<Action, PlanError>(PlanError::Unimplemented),
            Mode::Permanent => r matches Ok(Action::SetAddress { addr, warn_same }) && addr@ == permanent@
                && warn_same == (addr@ == current@),
            Mode::Random => r matches Ok(Action::SetAddress { addr, warn_same }) && addr@ == random_policy(
                drawn@,
                bia,
            ) && warn_same == (addr@ == current@),
            Mode::Mac(text) => match spec_parse(text@) {
                Ok(bytes) => r matches Ok(Action::SetAddress { addr, warn_same }) && addr@ == bytes
                    && warn_same == (addr@ == current@),
                Err(e) => r == Err::<Action, PlanError>(PlanError::Parse(e)),
            },
        },
{
    match mode {
        Option::None => Err(PlanError::NoModeSelected),
        Option::Some(m) => match m {
            Mode::Show => Ok(Action::ReportOnly),
            Mode::Ending => {
                let mut addr = *current;
                let fresh = MAC::from_random_bytes(drawn, false);
                let suffix = fresh.get_ending();
                proof {
                    assert(suffix@ =~= drawn@.skip(3));
                }
                addr.set_ending(&suffix);
                let warn_same = addr == *current;
                Ok(Action::SetAddress { addr, warn_same })
            },
            Mode::Another => Err(PlanError::Unimplemented),
            Mode::Any => Err(PlanError::Unimplemented),
            Mode::Permanent => {
                let addr = *permanent;
                let warn_same = addr == *current;
                Ok(Action::SetAddress { addr, warn_same })
            },
            Mode::Random => {
                let addr = MAC::from_random_bytes(drawn, bia);
                let warn_same = addr == *current;
                Ok(Action::SetAddress { addr, warn_same })
            },
            Mode::Mac(text) => match MAC::parse(text.as_str()) {
                Ok(addr) => {
                    let warn_same = addr == *current;
                    Ok(Action::SetAddress { addr, warn_same })
                },
                Err(e) => Err(PlanError::Parse(e)),
            },
        },
    }
}

} // verus!

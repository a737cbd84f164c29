//! Controller-specific error type.

use vstd::prelude::*;
use vstd::string::StringExecFns;

verus! {

/// An error reported by the Matter core the controller runs on
/// (transport, sessions, interaction model), identified by its code.
#[derive(Debug, Clone, Copy, PartialEq, Eq, Structural)]
pub struct Error {
    /// Numeric error code of the core.
    pub code: u16,
}

/// Errors produced by the controller-side state machines.
///
/// Wraps the underlying core [`Error`] and adds context unique to the
/// controller role (commissioning step, BLE state, etc.).
#[derive(Debug, Clone, Copy, PartialEq, Eq, Structural)]
#[non_exhaustive]
pub enum ControllerError {
    /// Wrapped error from the Matter core.
    Inner(Error),
    /// The requested operation requires BLE but no BLE adapter is configured.
    BleUnavailable,
    /// PASE session establishment failed (wrong passcode, timeout, etc.).
    PaseFailed,
    /// ArmFailSafe failed or fail-safe expired during commissioning.
    FailSafeExpired,
    /// AddNOC was rejected by the accessory.
    AddNocRejected,
    /// CASE session establishment failed after commissioning.
    CaseFailed,
    /// The accessory could not be found via operational discovery (mDNS).
    OperationalDiscoveryFailed,
    /// Network credential delivery (Thread/Wi-Fi) failed.
    NetworkCommissioningFailed,
    /// The fabric this controller manages is not provisioned in storage.
    FabricNotProvisioned,
    /// The targeted node is not commissioned on this fabric.
    NodeNotCommissioned,
}

impl From<Error> for ControllerError {
    fn from(e: Error) -> (r: Self) {
        ControllerError::Inner(e)
    }
}

impl vstd::std_specs::convert::FromSpecImpl<Error> for ControllerError {
    open spec fn obeys_from_spec() -> bool {
        true
    }

    open spec fn from_spec(e: Error) -> ControllerError {
        ControllerError::Inner(e)
    }
}

/// `n` in decimal, without leading zeros.
pub open spec fn decimal_text(n: nat) -> Seq<char>
    decreases n,
{
    if n < 10 {
        seq![digit_text_char(n)]
    } else {
        decimal_text(n / 10) + seq![digit_text_char(n % 10)]
    }
}

/// The character of a decimal digit.
pub open spec fn digit_text_char(d: nat) -> char {
    if d == 0 {
        '0'
    } else if d == 1 {
        '1'
    } else if d == 2 {
        '2'
    } else if d == 3 {
        '3'
    } else if d == 4 {
        '4'
    } else if d == 5 {
        '5'
    } else if d == 6 {
        '6'
    } else if d == 7 {
        '7'
    } else if d == 8 {
        '8'
    } else {
        '9'
    }
}

/// The text a [`ControllerError`] is shown as.
pub open spec fn error_message(e: ControllerError) -> Seq<char> {
    match e {
        ControllerError::Inner(inner) => "matter: Error { code: "@ + decimal_text(inner.code as nat)
            + " }"@,
        ControllerError::BleUnavailable => "BLE adapter not configured"@,
        ControllerError::PaseFailed => "PASE session establishment failed"@,
        ControllerError::FailSafeExpired => "ArmFailSafe failed or fail-safe expired"@,
        ControllerError::AddNocRejected => "AddNOC rejected by accessory"@,
        ControllerError::CaseFailed => "CASE session establishment failed"@,
        ControllerError::OperationalDiscoveryFailed => "operational mDNS discovery failed"@,
        ControllerError::NetworkCommissioningFailed => "network commissioning failed"@,
        ControllerError::FabricNotProvisioned => "fabric not provisioned in storage"@,
        ControllerError::NodeNotCommissioned => "node not commissioned on this fabric"@,
    }
}

/// The one-character string of a decimal digit.
fn digit_str(d: u16) -> (s: &'static str)
    requires
        d < 10,
    ensures
        s@ == seq![digit_text_char(d as nat)],
{
    proof {
        reveal_strlit("0");
        reveal_strlit("1");
        reveal_strlit("2");
        reveal_strlit("3");
        reveal_strlit("4");
        reveal_strlit("5");
        reveal_strlit("6");
        reveal_strlit("7");
        reveal_strlit("8");
        reveal_strlit("9");
    }
    if d == 0 {
        "0"
    } else if d == 1 {
        "1"
    } else if d == 2 {
        "2"
    } else if d == 3 {
        "3"
    } else if d == 4 {
        "4"
    } else if d == 5 {
        "5"
    } else if d == 6 {
        "6"
    } else if d == 7 {
        "7"
    } else if d == 8 {
        "8"
    } else {
        "9"
    }
}

/// Appends `n` in decimal to `out`.
fn push_decimal(out: &mut String, n: u16)
    ensures
        final(out)@ == old(out)@ + decimal_text(n as nat),
    decreases n,
{
    if n >= 10 {
        push_decimal(out, n / 10);
    }
    out.append(digit_str(n % 10));
    proof {
        if n >= 10 {
            assert(old(out)@ + decimal_text((n / 10) as nat) + seq![digit_text_char((n % 10) as nat)]
                =~= old(out)@ + decimal_text(n as nat));
        } else {
            assert(old(out)@ + seq![digit_text_char((n % 10) as nat)] =~= old(out)@ + decimal_text(
                n as nat,
            ));
        }
    }
}

impl ControllerError {
    /// Human-readable description of the error.
    pub fn message(&self) -> (s: String)
        ensures
            s@ == error_message(*self),
    {
        match self {
            ControllerError::Inner(e) => {
                let mut s = String::from_str("matter: Error { code: ");
                push_decimal(&mut s, e.code);
                s.append(" }");
                s
            },
            ControllerError::BleUnavailable => String::from_str("BLE adapter not configured"),
            ControllerError::PaseFailed => String::from_str("PASE session establishment failed"),
            ControllerError::FailSafeExpired => String::from_str(
                "ArmFailSafe failed or fail-safe expired",
            ),
            ControllerError::AddNocRejected => String::from_str("AddNOC rejected by accessory"),
            ControllerError::CaseFailed => String::from_str("CASE session establishment failed"),
            ControllerError::OperationalDiscoveryFailed => String::from_str(
                "operational mDNS discovery failed",
            ),
            ControllerError::NetworkCommissioningFailed => String::from_str(
                "network commissioning failed",
            ),
            ControllerError::FabricNotProvisioned => String::from_str(
                "fabric not provisioned in storage",
            ),
            ControllerError::NodeNotCommissioned => String::from_str(
                "node not commissioned on this fabric",
            ),
        }
    }
}

} // verus!

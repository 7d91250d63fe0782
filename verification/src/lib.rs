//! Building the device identity of a TPM-backed attestation agent: the IAK
//! (Initial Attestation Key) and the IDevID (Initial Device Identifier), each
//! with its certificate.
use vstd::prelude::*;

pub mod builder;
pub mod device;
pub mod error;
pub mod laws;
pub mod steps;
pub mod text;

pub use builder::{DeviceIDBuilder, IdentityKind};
pub use device::{CertifyRequest, DeviceID, IAKResult, IDevIDResult, KeyAlgorithms, KeyResult};
pub use error::{DeviceIDBuilderError, DeviceIDError};
pub use steps::{BuildAction, BuildEvent, BuildProgress, DeviceIDBuild};

verus! {

/// The X.509 certificate type of `openssl`; certificates are carried through
/// unread.
#[verifier::external_type_specification]
#[verifier::external_body]
pub struct ExX509(openssl::x509::X509);

} // verus!

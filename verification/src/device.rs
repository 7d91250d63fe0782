//! A built device identity, and the certification of keys with its IAK.
use vstd::prelude::*;

use openssl::x509::X509;

use crate::error::DeviceIDError;

verus! {

/// The algorithms of a key template, as TPM algorithm identifiers
/// (`TPM2_ALG_ID`): the asymmetric algorithm and the hash algorithm.
#[derive(Clone, Copy, Debug, PartialEq, Eq, Structural)]
pub struct KeyAlgorithms {
    pub asym_alg: u16,
    pub hash_alg: u16,
}

/// A key loaded in the TPM: its handle and its public area, marshalled.
#[derive(Debug)]
pub struct KeyResult {
    pub handle: u32,
    pub public: Vec<u8>,
}

/// The IAK as loaded in the TPM.
pub type IAKResult = KeyResult;

/// The IDevID as loaded in the TPM.
pub type IDevIDResult = KeyResult;

/// A device identity: the IAK and the IDevID, each with its certificate.
#[derive(Debug)]
pub struct DeviceID {
    pub iak: IAKResult,
    pub iak_cert: X509,
    pub idevid: IDevIDResult,
    pub idevid_cert: X509,
}

/// The TPM command that certifies a key with the IAK: the qualifying data, the
/// handle of the key to certify (the AK) and the handle of the IAK.
#[derive(Debug)]
pub struct CertifyRequest {
    pub qualifying_data: Vec<u8>,
    pub ak: u32,
    pub iak_handle: u32,
}

impl DeviceID {
    /// Certify IAK against AK using the provided qualifying data: the command
    /// that does it.
    pub fn certify(&self, qualifying_data: Vec<u8>, ak: u32) -> (r: CertifyRequest)
        ensures
            r.qualifying_data@ == qualifying_data@,
            r.ak == ak,
            r.iak_handle == self.iak.handle,
    {
        CertifyRequest { qualifying_data, ak, iak_handle: self.iak.handle }
    }
}

impl CertifyRequest {
    /// What certifying answers, given what the TPM answered to the command:
    /// the attestation and its signature (both marshalled), or the TPM's error
    /// reported as a certification failure.
    pub fn outcome(self, answer: Result<(Vec<u8>, Vec<u8>), String>) -> (r: Result<
        (Vec<u8>, Vec<u8>),
        DeviceIDError,
    >)
        ensures
            match answer {
                Ok(signed) => r == Ok::<(Vec<u8>, Vec<u8>), DeviceIDError>(signed),
                Err(e) => r == Err::<(Vec<u8>, Vec<u8>), DeviceIDError>(DeviceIDError::Certify(e)),
            },
    {
        match answer {
            Ok(signed) => Ok(signed),
            Err(e) => Err(DeviceIDError::Certify(e)),
        }
    }
}

} // verus!

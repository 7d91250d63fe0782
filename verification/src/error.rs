//! The errors of building a device identity and of using it.
//!
//! An error that a failed outside operation (loading a certificate, a TPM
//! command) caused carries that operation's report as text.
use vstd::prelude::*;

verus! {

/// Why building a `DeviceID` failed.
#[derive(Debug, PartialEq, Eq)]
pub enum DeviceIDBuilderError {
    /// Failed to load certificate
    CertLoad(String),
    /// Public key does not match the certificate
    CertPubKeyMismatch(String),
    /// Failed to create IAK
    IAKCreate(String),
    /// Could not get IAK from provided handle
    IAKFromHandle(String),
    /// IAK handle not set in DeviceIDBuilder
    IAKHandleNotSet,
    /// IAK certificate not set in DeviceIDBuilder
    IAKCertNotSet,
    /// IAK password not set in DeviceIDBuilder
    IAKPasswordNotSet,
    /// Failed to create IDevID
    IDevIDCreate(String),
    /// Could not get IDevID from provided handle
    IDevIDFromHandle(String),
    /// IDevID handle not set in DeviceIDBuilder
    IDevIDHandleNotSet,
    /// IDevID certificate not set in DeviceIDBuilder
    IDevIDCertNotSet,
    /// IDevID password not set in DeviceIDBuilder
    IDevIDPasswordNotSet,
    /// Failed to get template from certificate
    TemplateFromCert(String),
    /// Failed to obtain template
    Template(String),
}

/// Why using a `DeviceID` failed.
#[derive(Debug, PartialEq, Eq)]
pub enum DeviceIDError {
    /// Failed to certify credential with IAK
    Certify(String),
}

/// The text by which each builder error describes itself.
pub open spec fn builder_error_text(e: DeviceIDBuilderError) -> Seq<char> {
    match e {
        DeviceIDBuilderError::CertLoad(_) => "Failed to load certificate"@,
        DeviceIDBuilderError::CertPubKeyMismatch(_) => "Public key does not match the certificate"@,
        DeviceIDBuilderError::IAKCreate(_) => "Failed to create IAK"@,
        DeviceIDBuilderError::IAKFromHandle(_) => "Could not get IAK from provided handle"@,
        DeviceIDBuilderError::IAKHandleNotSet => "IAK handle not set in DeviceBuilder. Set the IAK handle with the iak_handle() method from the DeviceIDBuilder object"@,
        DeviceIDBuilderError::IAKCertNotSet => "IAK certificate not set in DeviceBuilder. Set the IAK certificate with the iak_cert() method from the DeviceIDBuilder object"@,
        DeviceIDBuilderError::IAKPasswordNotSet => "IAK password not set in DeviceBuilder. Set the IAK password with the iak_password() method from the DeviceIDBuilder object"@,
        DeviceIDBuilderError::IDevIDCreate(_) => "Failed to create IDevID"@,
        DeviceIDBuilderError::IDevIDFromHandle(_) => "Could not get IDevID from provided handle"@,
        DeviceIDBuilderError::IDevIDHandleNotSet => "IDevID handle not set in DeviceBuilder. Set the IDevID handle with the idevid_handle() method from the DeviceIDBuilder object"@,
        DeviceIDBuilderError::IDevIDCertNotSet => "IDevID certificate not set in DeviceBuilder. Set the IDevID certificate with the idevid_cert() method from the DeviceIDBuilder object"@,
        DeviceIDBuilderError::IDevIDPasswordNotSet => "IDevID password not set in DeviceBuilder. Set the IDevID password with the idevid_password() method from the DeviceIDBuilder object"@,
        DeviceIDBuilderError::TemplateFromCert(_) => "Failed to get template from certificate"@,
        DeviceIDBuilderError::Template(_) => "Failed to obtain template"@,
    }
}

/// The text by which each device identity error describes itself.
pub open spec fn device_error_text(e: DeviceIDError) -> Seq<char> {
    match e {
        DeviceIDError::Certify(_) => "Failed to certify credential with IAK"@,
    }
}

impl DeviceIDBuilderError {
    /// The text that describes this error.
    pub fn message(&self) -> (r: &'static str)
        ensures
            r@ == builder_error_text(*self),
    {
        match self {
            DeviceIDBuilderError::CertLoad(_) => "Failed to load certificate",
            DeviceIDBuilderError::CertPubKeyMismatch(_) => "Public key does not match the certificate",
            DeviceIDBuilderError::IAKCreate(_) => "Failed to create IAK",
            DeviceIDBuilderError::IAKFromHandle(_) => "Could not get IAK from provided handle",
            DeviceIDBuilderError::IAKHandleNotSet => "IAK handle not set in DeviceBuilder. Set the IAK handle with the iak_handle() method from the DeviceIDBuilder object",
            DeviceIDBuilderError::IAKCertNotSet => "IAK certificate not set in DeviceBuilder. Set the IAK certificate with the iak_cert() method from the DeviceIDBuilder object",
            DeviceIDBuilderError::IAKPasswordNotSet => "IAK password not set in DeviceBuilder. Set the IAK password with the iak_password() method from the DeviceIDBuilder object",
            DeviceIDBuilderError::IDevIDCreate(_) => "Failed to create IDevID",
            DeviceIDBuilderError::IDevIDFromHandle(_) => "Could not get IDevID from provided handle",
            DeviceIDBuilderError::IDevIDHandleNotSet => "IDevID handle not set in DeviceBuilder. Set the IDevID handle with the idevid_handle() method from the DeviceIDBuilder object",
            DeviceIDBuilderError::IDevIDCertNotSet => "IDevID certificate not set in DeviceBuilder. Set the IDevID certificate with the idevid_cert() method from the DeviceIDBuilder object",
            DeviceIDBuilderError::IDevIDPasswordNotSet => "IDevID password not set in DeviceBuilder. Set the IDevID password with the idevid_password() method from the DeviceIDBuilder object",
            DeviceIDBuilderError::TemplateFromCert(_) => "Failed to get template from certificate",
            DeviceIDBuilderError::Template(_) => "Failed to obtain template",
        }
    }
}

impl DeviceIDError {
    /// The text that describes this error.
    pub fn message(&self) -> (r: &'static str)
        ensures
            r@ == device_error_text(*self),
    {
        match self {
            DeviceIDError::Certify(_) => "Failed to certify credential with IAK",
        }
    }
}

} // verus!

//! The settings from which a device identity is built.
use vstd::prelude::*;

use openssl::x509::X509;

use crate::error::DeviceIDBuilderError;
use crate::text::{or_empty, str_trim, trim};

verus! {

/// One of the two keys of a device identity.
#[derive(Clone, Copy, Debug, PartialEq, Eq, Structural)]
pub enum IdentityKind {
    /// The Initial Attestation Key.
    Iak,
    /// The Initial Device Identifier.
    IDevID,
}

/// What is known of the settings of one key.
pub struct KeySettings {
    pub handle: Option<Seq<char>>,
    pub password: Option<Seq<char>>,
    pub cert: Option<X509>,
    pub cert_path: Option<Seq<char>>,
    pub template: Option<Seq<char>>,
    pub asym_alg: Option<Seq<char>>,
    pub hash_alg: Option<Seq<char>>,
}

/// What is known of a builder: the settings of both keys.
pub struct BuilderSettings {
    pub iak: KeySettings,
    pub idevid: KeySettings,
}

impl BuilderSettings {
    /// The settings of the key `kind`.
    pub open spec fn of(self, kind: IdentityKind) -> KeySettings {
        match kind {
            IdentityKind::Iak => self.iak,
            IdentityKind::IDevID => self.idevid,
        }
    }

    /// These settings with those of the key `kind` replaced by `s`.
    pub open spec fn with(self, kind: IdentityKind, s: KeySettings) -> BuilderSettings {
        match kind {
            IdentityKind::Iak => BuilderSettings { iak: s, idevid: self.idevid },
            IdentityKind::IDevID => BuilderSettings { iak: self.iak, idevid: s },
        }
    }
}

/// Settings in which nothing is set.
pub open spec fn unset_key_settings() -> KeySettings {
    KeySettings {
        handle: None,
        password: None,
        cert: None,
        cert_path: None,
        template: None,
        asym_alg: None,
        hash_alg: None,
    }
}

/// A builder in which nothing is set.
pub open spec fn unset_settings() -> BuilderSettings {
    BuilderSettings { iak: unset_key_settings(), idevid: unset_key_settings() }
}

/// The text of an optional string slice.
pub open spec fn text_of(o: Option<&str>) -> Option<Seq<char>> {
    match o {
        Some(s) => Some(s@),
        None => None,
    }
}

/// The error for a key whose certificate is neither loaded nor given by a path.
pub open spec fn cert_not_set(kind: IdentityKind) -> DeviceIDBuilderError {
    match kind {
        IdentityKind::Iak => DeviceIDBuilderError::IAKCertNotSet,
        IdentityKind::IDevID => DeviceIDBuilderError::IDevIDCertNotSet,
    }
}

/// The error for a key whose handle is not set.
pub open spec fn handle_not_set(kind: IdentityKind) -> DeviceIDBuilderError {
    match kind {
        IdentityKind::Iak => DeviceIDBuilderError::IAKHandleNotSet,
        IdentityKind::IDevID => DeviceIDBuilderError::IDevIDHandleNotSet,
    }
}

/// Where the certificate of a key comes from: `Ok(None)` when it is already
/// loaded, `Ok(Some(path))` when it is to be loaded from the (trimmed) `path`.
/// A path that is unset or blank means that no certificate was configured.
pub open spec fn cert_source(s: KeySettings, kind: IdentityKind) -> Result<
    Option<Seq<char>>,
    DeviceIDBuilderError,
> {
    match s.cert {
        Some(_) => Ok(None),
        None => match s.cert_path {
            Some(p) => if trim(p).len() == 0 {
                Err(cert_not_set(kind))
            } else {
                Ok(Some(trim(p)))
            },
            None => Err(cert_not_set(kind)),
        },
    }
}

/// How a key is obtained once its algorithms are known: `Ok(None)` when it is
/// created anew (the handle is blank), `Ok(Some((handle, password)))` when it is
/// collected from a persisted handle, both trimmed, an unset password read as
/// the empty text.
pub open spec fn key_source(s: KeySettings, kind: IdentityKind) -> Result<
    Option<(Seq<char>, Seq<char>)>,
    DeviceIDBuilderError,
> {
    match s.handle {
        Some(h) => if trim(h).len() == 0 {
            Ok(None)
        } else {
            Ok(Some((trim(h), trim(or_empty(s.password)))))
        },
        None => Err(handle_not_set(kind)),
    }
}

#[derive(Debug)]
struct Key<'a> {
    handle: Option<&'a str>,
    password: Option<&'a str>,
    cert: Option<X509>,
    cert_path: Option<&'a str>,
    template: Option<&'a str>,
    asym_alg: Option<&'a str>,
    hash_alg: Option<&'a str>,
}

impl<'a> Key<'a> {
    spec fn settings(&self) -> KeySettings {
        KeySettings {
            handle: text_of(self.handle),
            password: text_of(self.password),
            cert: self.cert,
            cert_path: text_of(self.cert_path),
            template: text_of(self.template),
            asym_alg: text_of(self.asym_alg),
            hash_alg: text_of(self.hash_alg),
        }
    }

    fn unset() -> (r: Key<'a>)
        ensures
            r.settings() == unset_key_settings(),
    {
        Key {
            handle: None,
            password: None,
            cert: None,
            cert_path: None,
            template: None,
            asym_alg: None,
            hash_alg: None,
        }
    }
}

/// The options from which a `DeviceID` is built: for each of the IAK and the
/// IDevID a handle, a password, a certificate path, a template and its
/// asymmetric and hash algorithms.
#[derive(Debug)]
pub struct DeviceIDBuilder<'a> {
    iak: Key<'a>,
    idevid: Key<'a>,
}

impl<'a> View for DeviceIDBuilder<'a> {
    type V = BuilderSettings;

    closed spec fn view(&self) -> BuilderSettings {
        BuilderSettings { iak: self.iak.settings(), idevid: self.idevid.settings() }
    }
}

impl<'a> Default for DeviceIDBuilder<'a> {
    fn default() -> (r: DeviceIDBuilder<'a>)
        ensures
            r@ == unset_settings(),
    {
        DeviceIDBuilder { iak: Key::unset(), idevid: Key::unset() }
    }
}

impl<'a> DeviceIDBuilder<'a> {
    /// Create a new DeviceIDBuilder object
    pub fn new() -> (r: DeviceIDBuilder<'a>)
        ensures
            r@ == unset_settings(),
    {
        Self::default()
    }

    /// Set the IAK handle to use when building the DeviceID object
    pub fn iak_handle(self, iak_handle: &'a str) -> (r: DeviceIDBuilder<'a>)
        ensures
            r@ == self@.with(IdentityKind::Iak, KeySettings { handle: Some(iak_handle@), ..self@.iak }),
    {
        let mut b = self;
        b.iak.handle = Some(iak_handle);
        b
    }

    /// Set the IAK password to use when building the DeviceID object
    pub fn iak_password(self, iak_password: &'a str) -> (r: DeviceIDBuilder<'a>)
        ensures
            r@ == self@.with(IdentityKind::Iak, KeySettings { password: Some(iak_password@), ..self@.iak }),
    {
        let mut b = self;
        b.iak.password = Some(iak_password);
        b
    }

    /// Set the path to the IAK certificate to use when building the DeviceID object
    pub fn iak_cert_path(self, path: &'a str) -> (r: DeviceIDBuilder<'a>)
        ensures
            r@ == self@.with(IdentityKind::Iak, KeySettings { cert_path: Some(path@), ..self@.iak }),
    {
        let mut b = self;
        b.iak.cert_path = Some(path);
        b
    }

    /// Set the template to use for the IAK
    ///
    /// If the string is empty, or the special keywords 'detect' or 'default' are set, the template
    /// will be obtained from the IAK certificate
    pub fn iak_template(self, template: &'a str) -> (r: DeviceIDBuilder<'a>)
        ensures
            r@ == self@.with(IdentityKind::Iak, KeySettings { template: Some(template@), ..self@.iak }),
    {
        let mut b = self;
        b.iak.template = Some(template);
        b
    }

    /// Set the Asymmetric algorithm to use in the IAK template
    pub fn iak_asym_alg(self, asym_alg: &'a str) -> (r: DeviceIDBuilder<'a>)
        ensures
            r@ == self@.with(IdentityKind::Iak, KeySettings { asym_alg: Some(asym_alg@), ..self@.iak }),
    {
        let mut b = self;
        b.iak.asym_alg = Some(asym_alg);
        b
    }

    /// Set the template Hash algorithm to use in the IAK template
    pub fn iak_hash_alg(self, hash_alg: &'a str) -> (r: DeviceIDBuilder<'a>)
        ensures
            r@ == self@.with(IdentityKind::Iak, KeySettings { hash_alg: Some(hash_alg@), ..self@.iak }),
    {
        let mut b = self;
        b.iak.hash_alg = Some(hash_alg);
        b
    }

    /// Set the IDevID handle to use when building the DeviceID object
    pub fn idevid_handle(self, idevid_handle: &'a str) -> (r: DeviceIDBuilder<'a>)
        ensures
            r@ == self@.with(IdentityKind::IDevID, KeySettings { handle: Some(idevid_handle@), ..self@.idevid }),
    {
        let mut b = self;
        b.idevid.handle = Some(idevid_handle);
        b
    }

    /// Set the IDevID password to use when building the DeviceID object
    pub fn idevid_password(self, idevid_password: &'a str) -> (r: DeviceIDBuilder<'a>)
        ensures
            r@ == self@.with(IdentityKind::IDevID, KeySettings { password: Some(idevid_password@), ..self@.idevid }),
    {
        let mut b = self;
        b.idevid.password = Some(idevid_password);
        b
    }

    /// Set the IDevID certificate path to use when building the DeviceID object
    pub fn idevid_cert_path(self, path: &'a str) -> (r: DeviceIDBuilder<'a>)
        ensures
            r@ == self@.with(IdentityKind::IDevID, KeySettings { cert_path: Some(path@), ..self@.idevid }),
    {
        let mut b = self;
        b.idevid.cert_path = Some(path);
        b
    }

    /// Set the template to use for the IDevID
    ///
    /// If the string is empty, or the special keywords 'detect' or 'default' are set, the template
    /// will be obtained from the IDevID certificate
    pub fn idevid_template(self, template: &'a str) -> (r: DeviceIDBuilder<'a>)
        ensures
            r@ == self@.with(IdentityKind::IDevID, KeySettings { template: Some(template@), ..self@.idevid }),
    {
        let mut b = self;
        b.idevid.template = Some(template);
        b
    }

    /// Set the Asymmetric algorithm to use in the IDevID template
    pub fn idevid_asym_alg(self, asym_alg: &'a str) -> (r: DeviceIDBuilder<'a>)
        ensures
            r@ == self@.with(IdentityKind::IDevID, KeySettings { asym_alg: Some(asym_alg@), ..self@.idevid }),
    {
        let mut b = self;
        b.idevid.asym_alg = Some(asym_alg);
        b
    }

    /// Set the template Hash algorithm to use in the IDevID template
    pub fn idevid_hash_alg(self, hash_alg: &'a str) -> (r: DeviceIDBuilder<'a>)
        ensures
            r@ == self@.with(IdentityKind::IDevID, KeySettings { hash_alg: Some(hash_alg@), ..self@.idevid }),
    {
        let mut b = self;
        b.idevid.hash_alg = Some(hash_alg);
        b
    }

    fn key(&self, kind: IdentityKind) -> (r: &Key<'a>)
        ensures
            r.settings() == self@.of(kind),
    {
        match kind {
            IdentityKind::Iak => &self.iak,
            IdentityKind::IDevID => &self.idevid,
        }
    }

    /// Where the certificate of the key `kind` comes from (see `cert_source`).
    pub(crate) fn get_cert_source(&self, kind: IdentityKind) -> (r: Result<
        Option<&'a str>,
        DeviceIDBuilderError,
    >)
        ensures
            match (r, cert_source(self@.of(kind), kind)) {
                (Ok(Some(p)), Ok(Some(q))) => p@ == q,
                (Ok(None), Ok(None)) => true,
                (Err(e), Err(f)) => e == f,
                _ => false,
            },
    {
        let key = self.key(kind);
        if key.cert.is_some() {
            return Ok(None);
        }
        match key.cert_path {
            Some(path) => {
                let trimmed = str_trim(path);
                if trimmed.is_empty() {
                    Err(Self::cert_not_set_error(kind))
                } else {
                    Ok(Some(trimmed))
                }
            },
            None => Err(Self::cert_not_set_error(kind)),
        }
    }

    fn cert_not_set_error(kind: IdentityKind) -> (r: DeviceIDBuilderError)
        ensures
            r == cert_not_set(kind),
    {
        match kind {
            IdentityKind::Iak => DeviceIDBuilderError::IAKCertNotSet,
            IdentityKind::IDevID => DeviceIDBuilderError::IDevIDCertNotSet,
        }
    }

    /// Keep `cert` as the certificate of the key `kind`.
    pub(crate) fn store_cert(&mut self, kind: IdentityKind, cert: X509)
        ensures
            final(self)@ == old(self)@.with(kind, KeySettings { cert: Some(cert), ..old(self)@.of(kind) }),
    {
        match kind {
            IdentityKind::Iak => self.iak.cert = Some(cert),
            IdentityKind::IDevID => self.idevid.cert = Some(cert),
        }
    }

    /// The certificate of the key `kind`, where it is loaded.
    pub(crate) fn cert(&self, kind: IdentityKind) -> (r: Option<&X509>)
        ensures
            match r {
                Some(c) => self@.of(kind).cert == Some(*c),
                None => self@.of(kind).cert is None,
            },
    {
        match &self.key(kind).cert {
            Some(c) => Some(c),
            None => None,
        }
    }

    /// The template, asymmetric algorithm and hash algorithm set for the key
    /// `kind`, each trimmed, an unset one read as the empty text.
    pub(crate) fn template_settings(&self, kind: IdentityKind) -> (r: (&'a str, &'a str, &'a str))
        ensures
            r.0@ == trim(or_empty(self@.of(kind).template)),
            r.1@ == trim(or_empty(self@.of(kind).asym_alg)),
            r.2@ == trim(or_empty(self@.of(kind).hash_alg)),
    {
        let key = self.key(kind);
        (str_trim(unwrap_or_empty(key.template)), str_trim(unwrap_or_empty(key.asym_alg)), str_trim(unwrap_or_empty(key.hash_alg)))
    }

    /// How the key `kind` is obtained (see `key_source`).
    pub(crate) fn get_key_source(&self, kind: IdentityKind) -> (r: Result<
        Option<(&'a str, &'a str)>,
        DeviceIDBuilderError,
    >)
        ensures
            match (r, key_source(self@.of(kind), kind)) {
                (Ok(Some((h, p))), Ok(Some((g, q)))) => h@ == g && p@ == q,
                (Ok(None), Ok(None)) => true,
                (Err(e), Err(f)) => e == f,
                _ => false,
            },
    {
        let key = self.key(kind);
        match key.handle {
            Some(handle) => {
                let handle = str_trim(handle);
                if handle.is_empty() {
                    Ok(None)
                } else {
                    Ok(Some((handle, str_trim(unwrap_or_empty(key.password)))))
                }
            },
            None => match kind {
                IdentityKind::Iak => Err(DeviceIDBuilderError::IAKHandleNotSet),
                IdentityKind::IDevID => Err(DeviceIDBuilderError::IDevIDHandleNotSet),
            },
        }
    }

    /// The certificates of both keys, taking them out of the builder.
    pub(crate) fn into_certs(self) -> (r: (Option<X509>, Option<X509>))
        ensures
            r.0 == self@.iak.cert,
            r.1 == self@.idevid.cert,
    {
        (self.iak.cert, self.idevid.cert)
    }
}

/// The text of an optional setting, with an unset one read as the empty text.
fn unwrap_or_empty<'a>(o: Option<&'a str>) -> (r: &'a str)
    ensures
        r@ == or_empty(text_of(o)),
{
    match o {
        Some(s) => s,
        None => {
            proof {
                reveal_strlit("");
            }
            ""
        },
    }
}

} // verus!

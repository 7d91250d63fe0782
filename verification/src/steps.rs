//! Building a `DeviceID` from a `DeviceIDBuilder`.
//!
//! Building alternates between decisions, taken here, and work done outside
//! the library: loading a certificate from a file, detecting the template that
//! a certificate calls for, resolving a template to algorithms, creating or
//! collecting a key in the TPM, and checking a key against its certificate.
//! A build is a state machine: each state names the one operation it waits
//! for (`BuildAction`), and `step` takes that operation's outcome
//! (`BuildEvent`) to the next state, to the finished `DeviceID`, or to the
//! error that ends the build.
//!
//! The IAK is handled first, then the IDevID, each in this order: its
//! certificate, the template detected from the certificate, the algorithms
//! resolved from the template, the key, and the check of the key against the
//! certificate.
use vstd::prelude::*;

use openssl::x509::X509;

use crate::builder::{
    cert_source, key_source, BuilderSettings, DeviceIDBuilder, IdentityKind, KeySettings,
};
use crate::device::{DeviceID, KeyAlgorithms, KeyResult};
use crate::error::DeviceIDBuilderError;
use crate::text::{or_empty, trim};

verus! {

/// The outside operation that a build waits for.
#[derive(Debug)]
pub enum BuildAction<'a> {
    /// Load the certificate of the key `kind` from the file at `path`.
    LoadCert { kind: IdentityKind, path: &'a str },
    /// Detect the template that the certificate of the key `kind` calls for
    /// (the certificate is `DeviceIDBuild::cert(kind)`).
    DetectTemplate { kind: IdentityKind },
    /// Resolve the algorithms of the key `kind` from the detected template and
    /// the configured template and algorithms.
    ResolveTemplate {
        kind: IdentityKind,
        detected: String,
        template: &'a str,
        asym_alg: &'a str,
        hash_alg: &'a str,
    },
    /// Create the key `kind` anew in the TPM with the given algorithms.
    CreateKey { kind: IdentityKind, algorithms: KeyAlgorithms },
    /// Collect the key `kind` persisted in the TPM under `handle`.
    KeyFromHandle { kind: IdentityKind, handle: &'a str, password: &'a str },
    /// Check that the public key of the key `kind` (`DeviceIDBuild::key(kind)`)
    /// matches its certificate (`DeviceIDBuild::cert(kind)`).
    CheckKey { kind: IdentityKind },
}

/// The outcome of the outside operation that a build waits for; a failure is
/// reported as text.
#[derive(Debug)]
pub enum BuildEvent {
    CertLoaded(Result<X509, String>),
    TemplateDetected(Result<String, String>),
    TemplateResolved(Result<KeyAlgorithms, String>),
    KeyObtained(Result<KeyResult, String>),
    KeyChecked(Result<(), String>),
}

/// What is known of a `BuildAction`.
pub enum PendingOp {
    LoadCert(IdentityKind, Seq<char>),
    DetectTemplate(IdentityKind),
    ResolveTemplate(IdentityKind, Seq<char>, Seq<char>, Seq<char>, Seq<char>),
    CreateKey(IdentityKind, KeyAlgorithms),
    KeyFromHandle(IdentityKind, Seq<char>, Seq<char>),
    CheckKey(IdentityKind),
}

impl PendingOp {
    /// The key that the operation is about.
    pub open spec fn kind(self) -> IdentityKind {
        match self {
            PendingOp::LoadCert(k, _) => k,
            PendingOp::DetectTemplate(k) => k,
            PendingOp::ResolveTemplate(k, _, _, _, _) => k,
            PendingOp::CreateKey(k, _) => k,
            PendingOp::KeyFromHandle(k, _, _) => k,
            PendingOp::CheckKey(k) => k,
        }
    }
}

impl<'a> View for BuildAction<'a> {
    type V = PendingOp;

    open spec fn view(&self) -> PendingOp {
        match *self {
            BuildAction::LoadCert { kind, path } => PendingOp::LoadCert(kind, path@),
            BuildAction::DetectTemplate { kind } => PendingOp::DetectTemplate(kind),
            BuildAction::ResolveTemplate { kind, detected, template, asym_alg, hash_alg } =>
                PendingOp::ResolveTemplate(kind, detected@, template@, asym_alg@, hash_alg@),
            BuildAction::CreateKey { kind, algorithms } => PendingOp::CreateKey(kind, algorithms),
            BuildAction::KeyFromHandle { kind, handle, password } =>
                PendingOp::KeyFromHandle(kind, handle@, password@),
            BuildAction::CheckKey { kind } => PendingOp::CheckKey(kind),
        }
    }
}

/// What is known of a build in progress: the builder's settings (with the
/// certificates loaded so far), the pending operation, and the keys obtained
/// so far.
pub struct BuildState {
    pub settings: BuilderSettings,
    pub pending: PendingOp,
    pub iak: Option<KeyResult>,
    pub idevid: Option<KeyResult>,
}

impl BuildState {
    /// The key `kind`, where it was obtained.
    pub open spec fn key(self, kind: IdentityKind) -> Option<KeyResult> {
        match kind {
            IdentityKind::Iak => self.iak,
            IdentityKind::IDevID => self.idevid,
        }
    }

    /// This state with the key `kind` set to `key` and `op` pending.
    pub open spec fn with_key(self, kind: IdentityKind, key: KeyResult, op: PendingOp) -> BuildState {
        match kind {
            IdentityKind::Iak => BuildState { pending: op, iak: Some(key), ..self },
            IdentityKind::IDevID => BuildState { pending: op, idevid: Some(key), ..self },
        }
    }

    /// The state is one that a build reaches: the IDevID is handled only once
    /// the IAK is obtained, a key is held exactly while its check is pending,
    /// the certificate of a key is loaded only when it is not held, and past
    /// loading it is held.
    pub open spec fn well_formed(self) -> bool {
        let k = self.pending.kind();
        &&& k == IdentityKind::Iak ==> self.idevid is None
        &&& k == IdentityKind::IDevID ==> self.iak is Some && self.settings.iak.cert is Some
        &&& (self.key(k) is Some <==> self.pending is CheckKey)
        &&& !(self.pending is LoadCert) ==> self.settings.of(k).cert is Some
        &&& self.pending is LoadCert ==> self.settings.of(k).cert is None
    }
}

/// Where a build goes next: on to a state, or to its end with the device
/// identity.
pub enum BuildOutcome {
    Continue(BuildState),
    Done(DeviceID),
}

/// The first operation for the key `kind` (fetching its certificate), or the
/// error that ends the build there.
pub open spec fn first_op(s: BuilderSettings, kind: IdentityKind) -> Result<PendingOp, DeviceIDBuilderError> {
    match cert_source(s.of(kind), kind) {
        Ok(Some(path)) => Ok(PendingOp::LoadCert(kind, path)),
        Ok(None) => Ok(PendingOp::DetectTemplate(kind)),
        Err(e) => Err(e),
    }
}

/// The operation that resolves the algorithms of the key `kind` from the
/// `detected` template and the (trimmed) settings.
pub open spec fn resolve_op(s: BuilderSettings, kind: IdentityKind, detected: Seq<char>) -> PendingOp {
    PendingOp::ResolveTemplate(
        kind,
        detected,
        trim(or_empty(s.of(kind).template)),
        trim(or_empty(s.of(kind).asym_alg)),
        trim(or_empty(s.of(kind).hash_alg)),
    )
}

/// The operation that obtains the key `kind` with the algorithms `algs`, or the
/// error that ends the build there.
pub open spec fn key_op(s: BuilderSettings, kind: IdentityKind, algs: KeyAlgorithms) -> Result<PendingOp, DeviceIDBuilderError> {
    match key_source(s.of(kind), kind) {
        Ok(None) => Ok(PendingOp::CreateKey(kind, algs)),
        Ok(Some((handle, password))) => Ok(PendingOp::KeyFromHandle(kind, handle, password)),
        Err(e) => Err(e),
    }
}

/// The error for a key that the TPM failed to create.
pub open spec fn create_failed(kind: IdentityKind, e: String) -> DeviceIDBuilderError {
    match kind {
        IdentityKind::Iak => DeviceIDBuilderError::IAKCreate(e),
        IdentityKind::IDevID => DeviceIDBuilderError::IDevIDCreate(e),
    }
}

/// The error for a key that the TPM failed to give from its handle.
pub open spec fn from_handle_failed(kind: IdentityKind, e: String) -> DeviceIDBuilderError {
    match kind {
        IdentityKind::Iak => DeviceIDBuilderError::IAKFromHandle(e),
        IdentityKind::IDevID => DeviceIDBuilderError::IDevIDFromHandle(e),
    }
}

/// The state in which `op` follows, or the error that ends the build.
pub open spec fn go_on(st: BuildState, op: Result<PendingOp, DeviceIDBuilderError>) -> Result<BuildOutcome, DeviceIDBuilderError> {
    match op {
        Ok(op) => Ok(BuildOutcome::Continue(BuildState { pending: op, ..st })),
        Err(e) => Err(e),
    }
}

/// Where a build in the state `st` goes on the event `e`. An event that does
/// not answer the pending operation leaves the state as it is.
pub open spec fn next(st: BuildState, e: BuildEvent) -> Result<BuildOutcome, DeviceIDBuilderError> {
    let s = st.settings;
    let unchanged = Ok(BuildOutcome::Continue(st));
    match st.pending {
        PendingOp::LoadCert(k, _) => match e {
            BuildEvent::CertLoaded(Ok(cert)) => Ok(BuildOutcome::Continue(BuildState {
                settings: s.with(k, KeySettings { cert: Some(cert), ..s.of(k) }),
                pending: PendingOp::DetectTemplate(k),
                ..st
            })),
            BuildEvent::CertLoaded(Err(m)) => Err(DeviceIDBuilderError::CertLoad(m)),
            _ => unchanged,
        },
        PendingOp::DetectTemplate(k) => match e {
            BuildEvent::TemplateDetected(Ok(d)) => go_on(st, Ok(resolve_op(s, k, d@))),
            BuildEvent::TemplateDetected(Err(m)) => Err(DeviceIDBuilderError::TemplateFromCert(m)),
            _ => unchanged,
        },
        PendingOp::ResolveTemplate(k, _, _, _, _) => match e {
            BuildEvent::TemplateResolved(Ok(algs)) => go_on(st, key_op(s, k, algs)),
            BuildEvent::TemplateResolved(Err(m)) => Err(DeviceIDBuilderError::Template(m)),
            _ => unchanged,
        },
        PendingOp::CreateKey(k, _) => match e {
            BuildEvent::KeyObtained(Ok(key)) => Ok(BuildOutcome::Continue(st.with_key(k, key, PendingOp::CheckKey(k)))),
            BuildEvent::KeyObtained(Err(m)) => Err(create_failed(k, m)),
            _ => unchanged,
        },
        PendingOp::KeyFromHandle(k, _, _) => match e {
            BuildEvent::KeyObtained(Ok(key)) => Ok(BuildOutcome::Continue(st.with_key(k, key, PendingOp::CheckKey(k)))),
            BuildEvent::KeyObtained(Err(m)) => Err(from_handle_failed(k, m)),
            _ => unchanged,
        },
        PendingOp::CheckKey(k) => match e {
            BuildEvent::KeyChecked(Ok(())) => match k {
                IdentityKind::Iak => go_on(st, first_op(s, IdentityKind::IDevID)),
                IdentityKind::IDevID => Ok(BuildOutcome::Done(DeviceID {
                    iak: st.iak.unwrap(),
                    iak_cert: s.iak.cert.unwrap(),
                    idevid: st.idevid.unwrap(),
                    idevid_cert: s.idevid.cert.unwrap(),
                })),
            },
            BuildEvent::KeyChecked(Err(m)) => Err(DeviceIDBuilderError::CertPubKeyMismatch(m)),
            _ => unchanged,
        },
    }
}

/// Where building from the settings `s` starts: with the first operation for
/// the IAK, nothing obtained yet.
pub open spec fn start(s: BuilderSettings) -> Result<BuildOutcome, DeviceIDBuilderError> {
    go_on(
        BuildState { settings: s, pending: PendingOp::DetectTemplate(IdentityKind::Iak), iak: None, idevid: None },
        first_op(s, IdentityKind::Iak),
    )
}

/// A build in progress.
pub struct DeviceIDBuild<'a> {
    builder: DeviceIDBuilder<'a>,
    pending: BuildAction<'a>,
    iak: Option<KeyResult>,
    idevid: Option<KeyResult>,
}

/// Where a build stands after a step.
pub enum BuildProgress<'a> {
    /// The build waits for the outcome of `DeviceIDBuild::action()`.
    Pending(DeviceIDBuild<'a>),
    /// The build is finished.
    Built(DeviceID),
}

impl<'a> View for DeviceIDBuild<'a> {
    type V = BuildState;

    closed spec fn view(&self) -> BuildState {
        BuildState { settings: self.builder@, pending: self.pending@, iak: self.iak, idevid: self.idevid }
    }
}

/// `r` is what `o` says.
pub open spec fn reports(r: Result<BuildProgress, DeviceIDBuilderError>, o: Result<BuildOutcome, DeviceIDBuilderError>) -> bool {
    match (r, o) {
        (Ok(BuildProgress::Pending(b)), Ok(BuildOutcome::Continue(st))) => b@ == st,
        (Ok(BuildProgress::Built(d)), Ok(BuildOutcome::Done(e))) => d == e,
        (Err(e), Err(f)) => e == f,
        _ => false,
    }
}

impl<'a> DeviceIDBuild<'a> {
    #[verifier::type_invariant]
    spec fn reachable(self) -> bool {
        self@.well_formed()
    }

    /// The operation that the build waits for.
    pub fn action(&self) -> (r: &BuildAction<'a>)
        ensures
            r@ == self@.pending,
            self@.well_formed(),
            !(r@ is LoadCert) ==> self@.settings.of(r@.kind()).cert is Some,
            r@ is LoadCert ==> self@.settings.of(r@.kind()).cert is None,
            r@ is CheckKey <==> self@.key(r@.kind()) is Some,
    {
        proof {
            use_type_invariant(self);
        }
        &self.pending
    }

    /// The certificate of the key `kind`, where it is loaded.
    pub fn cert(&self, kind: IdentityKind) -> (r: Option<&X509>)
        ensures
            match r {
                Some(c) => self@.settings.of(kind).cert == Some(*c),
                None => self@.settings.of(kind).cert is None,
            },
            self@.well_formed(),
    {
        proof {
            use_type_invariant(self);
        }
        self.builder.cert(kind)
    }

    /// The key `kind`, where it was obtained.
    pub fn key(&self, kind: IdentityKind) -> (r: Option<&KeyResult>)
        ensures
            match r {
                Some(k) => self@.key(kind) == Some(*k),
                None => self@.key(kind) is None,
            },
            self@.well_formed(),
    {
        proof {
            use_type_invariant(self);
        }
        let key = match kind {
            IdentityKind::Iak => &self.iak,
            IdentityKind::IDevID => &self.idevid,
        };
        match key {
            Some(k) => Some(k),
            None => None,
        }
    }

    /// The build in the state `builder, op, iak, idevid`, or the error.
    fn resume(
        builder: DeviceIDBuilder<'a>,
        op: Result<BuildAction<'a>, DeviceIDBuilderError>,
        iak: Option<KeyResult>,
        idevid: Option<KeyResult>,
    ) -> (r: Result<BuildProgress<'a>, DeviceIDBuilderError>)
        requires
            op matches Ok(a) ==> (BuildState { settings: builder@, pending: a@, iak, idevid }).well_formed(),
        ensures
            match op {
                Ok(a) => r matches Ok(BuildProgress::Pending(b)) && b@ == (BuildState { settings: builder@, pending: a@, iak, idevid }),
                Err(e) => r == Err::<BuildProgress<'a>, DeviceIDBuilderError>(e),
            },
    {
        match op {
            Ok(a) => Ok(BuildProgress::Pending(DeviceIDBuild { builder, pending: a, iak, idevid })),
            Err(e) => Err(e),
        }
    }

    /// The operation that begins the key `kind`: loading its certificate, or
    /// detecting its template where the certificate is loaded already.
    fn begin_key(builder: &DeviceIDBuilder<'a>, kind: IdentityKind) -> (r: Result<BuildAction<'a>, DeviceIDBuilderError>)
        ensures
            match (r, first_op(builder@, kind)) {
                (Ok(a), Ok(op)) => a@ == op,
                (Err(e), Err(f)) => e == f,
                _ => false,
            },
    {
        match builder.get_cert_source(kind) {
            Ok(Some(path)) => Ok(BuildAction::LoadCert { kind, path }),
            Ok(None) => Ok(BuildAction::DetectTemplate { kind }),
            Err(e) => Err(e),
        }
    }

    /// The operation that obtains the key `kind` with the algorithms `algorithms`.
    fn obtain_key(builder: &DeviceIDBuilder<'a>, kind: IdentityKind, algorithms: KeyAlgorithms) -> (r: Result<BuildAction<'a>, DeviceIDBuilderError>)
        ensures
            match (r, key_op(builder@, kind, algorithms)) {
                (Ok(a), Ok(op)) => a@ == op,
                (Err(e), Err(f)) => e == f,
                _ => false,
            },
    {
        match builder.get_key_source(kind) {
            Ok(None) => Ok(BuildAction::CreateKey { kind, algorithms }),
            Ok(Some((handle, password))) => Ok(BuildAction::KeyFromHandle { kind, handle, password }),
            Err(e) => Err(e),
        }
    }

    /// Begin building from `builder`.
    pub fn start(builder: DeviceIDBuilder<'a>) -> (r: Result<BuildProgress<'a>, DeviceIDBuilderError>)
        ensures
            reports(r, start(builder@)),
    {
        let op = Self::begin_key(&builder, IdentityKind::Iak);
        Self::resume(builder, op, None, None)
    }

    /// Take the build on by the outcome `event` of its pending operation.
    pub fn step(self, event: BuildEvent) -> (r: Result<BuildProgress<'a>, DeviceIDBuilderError>)
        ensures
            reports(r, next(self@, event)),
    {
        proof {
            use_type_invariant(&self);
        }
        let DeviceIDBuild { builder, pending, iak, idevid } = self;
        match pending {
            BuildAction::LoadCert { kind, path } => match event {
                BuildEvent::CertLoaded(Ok(cert)) => {
                    let mut builder = builder;
                    builder.store_cert(kind, cert);
                    Self::resume(builder, Ok(BuildAction::DetectTemplate { kind }), iak, idevid)
                },
                BuildEvent::CertLoaded(Err(m)) => Err(DeviceIDBuilderError::CertLoad(m)),
                _ => Self::resume(builder, Ok(BuildAction::LoadCert { kind, path }), iak, idevid),
            },
            BuildAction::DetectTemplate { kind } => match event {
                BuildEvent::TemplateDetected(Ok(detected)) => {
                    let (template, asym_alg, hash_alg) = builder.template_settings(kind);
                    let op = BuildAction::ResolveTemplate { kind, detected, template, asym_alg, hash_alg };
                    Self::resume(builder, Ok(op), iak, idevid)
                },
                BuildEvent::TemplateDetected(Err(m)) => Err(DeviceIDBuilderError::TemplateFromCert(m)),
                _ => Self::resume(builder, Ok(BuildAction::DetectTemplate { kind }), iak, idevid),
            },
            BuildAction::ResolveTemplate { kind, detected, template, asym_alg, hash_alg } => match event {
                BuildEvent::TemplateResolved(Ok(algorithms)) => {
                    let op = Self::obtain_key(&builder, kind, algorithms);
                    Self::resume(builder, op, iak, idevid)
                },
                BuildEvent::TemplateResolved(Err(m)) => Err(DeviceIDBuilderError::Template(m)),
                _ => {
                    let op = BuildAction::ResolveTemplate { kind, detected, template, asym_alg, hash_alg };
                    Self::resume(builder, Ok(op), iak, idevid)
                },
            },
            BuildAction::CreateKey { kind, algorithms } => match event {
                BuildEvent::KeyObtained(Ok(key)) => Self::keep_key(builder, kind, key, iak, idevid),
                BuildEvent::KeyObtained(Err(m)) => match kind {
                    IdentityKind::Iak => Err(DeviceIDBuilderError::IAKCreate(m)),
                    IdentityKind::IDevID => Err(DeviceIDBuilderError::IDevIDCreate(m)),
                },
                _ => Self::resume(builder, Ok(BuildAction::CreateKey { kind, algorithms }), iak, idevid),
            },
            BuildAction::KeyFromHandle { kind, handle, password } => match event {
                BuildEvent::KeyObtained(Ok(key)) => Self::keep_key(builder, kind, key, iak, idevid),
                BuildEvent::KeyObtained(Err(m)) => match kind {
                    IdentityKind::Iak => Err(DeviceIDBuilderError::IAKFromHandle(m)),
                    IdentityKind::IDevID => Err(DeviceIDBuilderError::IDevIDFromHandle(m)),
                },
                _ => Self::resume(builder, Ok(BuildAction::KeyFromHandle { kind, handle, password }), iak, idevid),
            },
            BuildAction::CheckKey { kind } => match event {
                BuildEvent::KeyChecked(Ok(())) => match kind {
                    IdentityKind::Iak => {
                        let op = Self::begin_key(&builder, IdentityKind::IDevID);
                        Self::resume(builder, op, iak, idevid)
                    },
                    IdentityKind::IDevID => Self::finish(builder, iak, idevid),
                },
                BuildEvent::KeyChecked(Err(m)) => Err(DeviceIDBuilderError::CertPubKeyMismatch(m)),
                _ => Self::resume(builder, Ok(BuildAction::CheckKey { kind }), iak, idevid),
            },
        }
    }

    /// Keep the obtained `key` as the key `kind`, and go on to its check.
    fn keep_key(
        builder: DeviceIDBuilder<'a>,
        kind: IdentityKind,
        key: KeyResult,
        iak: Option<KeyResult>,
        idevid: Option<KeyResult>,
    ) -> (r: Result<BuildProgress<'a>, DeviceIDBuilderError>)
        requires
            (BuildState { settings: builder@, pending: PendingOp::DetectTemplate(kind), iak, idevid }).well_formed(),
        ensures
            r matches Ok(BuildProgress::Pending(b)) && b@ == (BuildState {
                settings: builder@,
                pending: PendingOp::DetectTemplate(kind),
                iak,
                idevid,
            }).with_key(kind, key, PendingOp::CheckKey(kind)),
    {
        match kind {
            IdentityKind::Iak => Self::resume(builder, Ok(BuildAction::CheckKey { kind }), Some(key), idevid),
            IdentityKind::IDevID => Self::resume(builder, Ok(BuildAction::CheckKey { kind }), iak, Some(key)),
        }
    }

    /// The device identity made of both keys and both certificates.
    fn finish(builder: DeviceIDBuilder<'a>, iak: Option<KeyResult>, idevid: Option<KeyResult>) -> (r: Result<
        BuildProgress<'a>,
        DeviceIDBuilderError,
    >)
        requires
            iak is Some,
            idevid is Some,
            builder@.iak.cert is Some,
            builder@.idevid.cert is Some,
        ensures
            r matches Ok(BuildProgress::Built(d)) && d == (DeviceID {
                iak: iak.unwrap(),
                iak_cert: builder@.iak.cert.unwrap(),
                idevid: idevid.unwrap(),
                idevid_cert: builder@.idevid.cert.unwrap(),
            }),
    {
        let (iak_cert, idevid_cert) = builder.into_certs();
        match (iak, iak_cert, idevid, idevid_cert) {
            (Some(iak), Some(iak_cert), Some(idevid), Some(idevid_cert)) => Ok(
                BuildProgress::Built(DeviceID { iak, iak_cert, idevid, idevid_cert }),
            ),
            _ => {
                proof {
                    assert(false);
                }
                Err(DeviceIDBuilderError::IAKCertNotSet)
            },
        }
    }
}

impl<'a> DeviceIDBuilder<'a> {
    /// Generate the DeviceID object using the previously set options: begin the
    /// build, which then goes on by `DeviceIDBuild::step`.
    pub fn build(self) -> (r: Result<BuildProgress<'a>, DeviceIDBuilderError>)
        ensures
            reports(r, start(self@)),
    {
        DeviceIDBuild::start(self)
    }
}

} // verus!

//! What holds of every build.
use vstd::prelude::*;

use crate::builder::{cert_not_set, handle_not_set, BuilderSettings, IdentityKind, KeySettings};
use crate::device::{DeviceID, KeyAlgorithms, KeyResult};
use crate::error::DeviceIDBuilderError;
use crate::steps::{first_op, key_op, next, start, BuildEvent, BuildOutcome, BuildState, PendingOp};
use crate::text::{is_blank, lemma_trim_empty_iff_blank, or_empty, trim};

verus! {

/// Where a build goes from `o` on the events `events`, one after the other; a
/// finished or failed build stays as it is.
pub open spec fn run(o: Result<BuildOutcome, DeviceIDBuilderError>, events: Seq<BuildEvent>) -> Result<
    BuildOutcome,
    DeviceIDBuilderError,
>
    decreases events.len(),
{
    if events.len() == 0 {
        o
    } else {
        match o {
            Ok(BuildOutcome::Continue(st)) => run(next(st, events[0]), events.drop_first()),
            _ => o,
        }
    }
}

/// A key whose handle is blank (white space only, or empty) is created anew
/// with the resolved algorithms; no handle or password is used.
pub proof fn lemma_blank_handle_recreates(s: BuilderSettings, kind: IdentityKind, algs: KeyAlgorithms)
    requires
        s.of(kind).handle matches Some(h) && is_blank(h),
    ensures
        key_op(s, kind, algs) == Ok::<PendingOp, DeviceIDBuilderError>(PendingOp::CreateKey(kind, algs)),
{
    lemma_trim_empty_iff_blank(s.of(kind).handle.unwrap());
}

/// A key whose handle is set and not blank is collected from the persisted
/// handle, with the trimmed handle and the trimmed password (the empty text
/// when no password is set).
pub proof fn lemma_handle_collects(s: BuilderSettings, kind: IdentityKind, algs: KeyAlgorithms)
    requires
        s.of(kind).handle matches Some(h) && !is_blank(h),
    ensures
        key_op(s, kind, algs) == Ok::<PendingOp, DeviceIDBuilderError>(
            PendingOp::KeyFromHandle(
                kind,
                trim(s.of(kind).handle.unwrap()),
                trim(or_empty(s.of(kind).password)),
            ),
        ),
{
    lemma_trim_empty_iff_blank(s.of(kind).handle.unwrap());
}

/// Without a handle, a key cannot be obtained.
pub proof fn lemma_no_handle_fails(s: BuilderSettings, kind: IdentityKind, algs: KeyAlgorithms)
    requires
        s.of(kind).handle is None,
    ensures
        key_op(s, kind, algs) == Err::<PendingOp, DeviceIDBuilderError>(handle_not_set(kind)),
{
}

/// A certificate that is already loaded is used as it is; it is never loaded
/// again.
pub proof fn lemma_loaded_cert_is_reused(s: BuilderSettings, kind: IdentityKind)
    requires
        s.of(kind).cert is Some,
    ensures
        first_op(s, kind) == Ok::<PendingOp, DeviceIDBuilderError>(PendingOp::DetectTemplate(kind)),
{
}

/// A certificate that is not loaded, and whose path is unset or blank, ends the
/// build with the error that the certificate is not set; otherwise it is loaded
/// from the trimmed path.
pub proof fn lemma_cert_path_decides(s: BuilderSettings, kind: IdentityKind)
    requires
        s.of(kind).cert is None,
    ensures
        (s.of(kind).cert_path is None || is_blank(s.of(kind).cert_path.unwrap())) ==> first_op(s, kind)
            == Err::<PendingOp, DeviceIDBuilderError>(cert_not_set(kind)),
        (s.of(kind).cert_path matches Some(p) && !is_blank(p)) ==> first_op(s, kind)
            == Ok::<PendingOp, DeviceIDBuilderError>(PendingOp::LoadCert(kind, trim(s.of(kind).cert_path.unwrap()))),
{
    if s.of(kind).cert_path is Some {
        lemma_trim_empty_iff_blank(s.of(kind).cert_path.unwrap());
    }
}

/// Fetching the IAK's certificate comes first: without a loaded certificate
/// and without a (non-blank) path to one, a build fails at once for the missing
/// IAK certificate, whatever else is set.
pub proof fn lemma_iak_cert_comes_first(s: BuilderSettings)
    requires
        s.iak.cert is None,
        s.iak.cert_path is None || is_blank(s.iak.cert_path.unwrap()),
    ensures
        start(s) == Err::<BuildOutcome, DeviceIDBuilderError>(DeviceIDBuilderError::IAKCertNotSet),
{
    if s.iak.cert is None {
        lemma_cert_path_decides(s, IdentityKind::Iak);
    }
}

/// Each step keeps a build in a state that a build reaches: the IDevID is only
/// handled once the IAK is obtained and checked, a key is held exactly while
/// its check is pending, and past loading the certificate of a key is held.
pub proof fn lemma_step_keeps_well_formed(st: BuildState, e: BuildEvent)
    requires
        st.well_formed(),
    ensures
        next(st, e) matches Ok(BuildOutcome::Continue(t)) ==> t.well_formed(),
{
}

/// A build starts in a state that a build reaches.
pub proof fn lemma_start_well_formed(s: BuilderSettings)
    ensures
        start(s) matches Ok(BuildOutcome::Continue(t)) ==> t.well_formed() && t.iak is None && t.idevid is None,
{
}

/// A build finishes only on the successful check of the IDevID against its
/// certificate, and the device identity it gives holds the keys obtained and
/// the certificates held at that point.
pub proof fn lemma_finished_build(st: BuildState, e: BuildEvent)
    requires
        st.well_formed(),
        next(st, e) matches Ok(BuildOutcome::Done(_)),
    ensures
        st.pending == PendingOp::CheckKey(IdentityKind::IDevID),
        e matches BuildEvent::KeyChecked(Ok(_)),
        next(st, e) == Ok::<BuildOutcome, DeviceIDBuilderError>(
            BuildOutcome::Done(
                DeviceID {
                    iak: st.iak.unwrap(),
                    iak_cert: st.settings.iak.cert.unwrap(),
                    idevid: st.idevid.unwrap(),
                    idevid_cert: st.settings.idevid.cert.unwrap(),
                },
            ),
        ),
{
}

/// An event that does not answer the pending operation changes nothing.
pub proof fn lemma_unanswered_event_ignored(st: BuildState, e: BuildEvent)
    requires
        !answers(st.pending, e),
    ensures
        next(st, e) == Ok::<BuildOutcome, DeviceIDBuilderError>(BuildOutcome::Continue(st)),
{
}

/// `e` is the outcome of the kind of operation `op`.
pub open spec fn answers(op: PendingOp, e: BuildEvent) -> bool {
    match op {
        PendingOp::LoadCert(_, _) => e is CertLoaded,
        PendingOp::DetectTemplate(_) => e is TemplateDetected,
        PendingOp::ResolveTemplate(_, _, _, _, _) => e is TemplateResolved,
        PendingOp::CreateKey(_, _) => e is KeyObtained,
        PendingOp::KeyFromHandle(_, _, _) => e is KeyObtained,
        PendingOp::CheckKey(_) => e is KeyChecked,
    }
}

/// The events of a build in which every operation succeeds: for the IAK and
/// then the IDevID, the certificate is loaded, its template detected, the
/// algorithms resolved, the key obtained and checked.
pub open spec fn successful_events(
    iak_cert: openssl::x509::X509,
    iak_detected: String,
    iak_algs: KeyAlgorithms,
    iak: KeyResult,
    idevid_cert: openssl::x509::X509,
    idevid_detected: String,
    idevid_algs: KeyAlgorithms,
    idevid: KeyResult,
) -> Seq<BuildEvent> {
    seq![
        BuildEvent::CertLoaded(Ok(iak_cert)),
        BuildEvent::TemplateDetected(Ok(iak_detected)),
        BuildEvent::TemplateResolved(Ok(iak_algs)),
        BuildEvent::KeyObtained(Ok(iak)),
        BuildEvent::KeyChecked(Ok(())),
        BuildEvent::CertLoaded(Ok(idevid_cert)),
        BuildEvent::TemplateDetected(Ok(idevid_detected)),
        BuildEvent::TemplateResolved(Ok(idevid_algs)),
        BuildEvent::KeyObtained(Ok(idevid)),
        BuildEvent::KeyChecked(Ok(())),
    ]
}

/// A builder with a handle and a certificate path (not blank) for each key, no
/// certificate loaded yet, builds, when every outside operation succeeds, the
/// device identity made of the loaded certificates and the obtained keys.
pub proof fn lemma_successful_build(
    s: BuilderSettings,
    iak_cert: openssl::x509::X509,
    iak_detected: String,
    iak_algs: KeyAlgorithms,
    iak: KeyResult,
    idevid_cert: openssl::x509::X509,
    idevid_detected: String,
    idevid_algs: KeyAlgorithms,
    idevid: KeyResult,
)
    requires
        s.iak.cert is None,
        s.idevid.cert is None,
        s.iak.cert_path matches Some(p) && !is_blank(p),
        s.idevid.cert_path matches Some(p) && !is_blank(p),
        s.iak.handle is Some,
        s.idevid.handle is Some,
    ensures
        run(
            start(s),
            successful_events(
                iak_cert,
                iak_detected,
                iak_algs,
                iak,
                idevid_cert,
                idevid_detected,
                idevid_algs,
                idevid,
            ),
        ) == Ok::<BuildOutcome, DeviceIDBuilderError>(
            BuildOutcome::Done(DeviceID { iak, iak_cert, idevid, idevid_cert }),
        ),
{
    let events = successful_events(
        iak_cert,
        iak_detected,
        iak_algs,
        iak,
        idevid_cert,
        idevid_detected,
        idevid_algs,
        idevid,
    );
    lemma_cert_path_decides(s, IdentityKind::Iak);
    lemma_trim_empty_iff_blank(s.iak.handle.unwrap());
    let o0 = start(s);
    let st0 = BuildState {
        settings: s,
        pending: PendingOp::LoadCert(IdentityKind::Iak, trim(s.iak.cert_path.unwrap())),
        iak: None,
        idevid: None,
    };
    assert(o0 == Ok::<BuildOutcome, DeviceIDBuilderError>(BuildOutcome::Continue(st0)));
    let s1 = s.with(IdentityKind::Iak, KeySettings { cert: Some(iak_cert), ..s.iak });
    let st1 = BuildState { settings: s1, pending: PendingOp::DetectTemplate(IdentityKind::Iak), ..st0 };
    assert(next(st0, events[0]) == Ok::<BuildOutcome, DeviceIDBuilderError>(BuildOutcome::Continue(st1)));
    let op2 = PendingOp::ResolveTemplate(
        IdentityKind::Iak,
        iak_detected@,
        trim(or_empty(s.iak.template)),
        trim(or_empty(s.iak.asym_alg)),
        trim(or_empty(s.iak.hash_alg)),
    );
    let st2 = BuildState { pending: op2, ..st1 };
    assert(next(st1, events[1]) == Ok::<BuildOutcome, DeviceIDBuilderError>(BuildOutcome::Continue(st2)));
    let r3 = next(st2, events[2]);
    assert(r3 matches Ok(BuildOutcome::Continue(t)) && t.settings == s1 && t.iak is None && t.idevid is None
        && (t.pending is CreateKey || t.pending is KeyFromHandle) && t.pending.kind() == IdentityKind::Iak);
    let st3 = match r3 {
        Ok(BuildOutcome::Continue(t)) => t,
        _ => st2,
    };
    let st4 = BuildState { pending: PendingOp::CheckKey(IdentityKind::Iak), iak: Some(iak), ..st3 };
    assert(next(st3, events[3]) == Ok::<BuildOutcome, DeviceIDBuilderError>(BuildOutcome::Continue(st4)));
    lemma_cert_path_decides(s1, IdentityKind::IDevID);
    lemma_trim_empty_iff_blank(s.idevid.handle.unwrap());
    let st5 = BuildState {
        pending: PendingOp::LoadCert(IdentityKind::IDevID, trim(s.idevid.cert_path.unwrap())),
        ..st4
    };
    assert(next(st4, events[4]) == Ok::<BuildOutcome, DeviceIDBuilderError>(BuildOutcome::Continue(st5)));
    let s6 = s1.with(IdentityKind::IDevID, KeySettings { cert: Some(idevid_cert), ..s1.idevid });
    let st6 = BuildState { settings: s6, pending: PendingOp::DetectTemplate(IdentityKind::IDevID), ..st5 };
    assert(next(st5, events[5]) == Ok::<BuildOutcome, DeviceIDBuilderError>(BuildOutcome::Continue(st6)));
    let op7 = PendingOp::ResolveTemplate(
        IdentityKind::IDevID,
        idevid_detected@,
        trim(or_empty(s.idevid.template)),
        trim(or_empty(s.idevid.asym_alg)),
        trim(or_empty(s.idevid.hash_alg)),
    );
    let st7 = BuildState { pending: op7, ..st6 };
    assert(next(st6, events[6]) == Ok::<BuildOutcome, DeviceIDBuilderError>(BuildOutcome::Continue(st7)));
    let r8 = next(st7, events[7]);
    assert(r8 matches Ok(BuildOutcome::Continue(t)) && t.settings == s6 && t.iak == Some(iak) && t.idevid is None
        && (t.pending is CreateKey || t.pending is KeyFromHandle) && t.pending.kind() == IdentityKind::IDevID);
    let st8 = match r8 {
        Ok(BuildOutcome::Continue(t)) => t,
        _ => st7,
    };
    let st9 = BuildState { pending: PendingOp::CheckKey(IdentityKind::IDevID), idevid: Some(idevid), ..st8 };
    assert(next(st8, events[8]) == Ok::<BuildOutcome, DeviceIDBuilderError>(BuildOutcome::Continue(st9)));
    let done = Ok::<BuildOutcome, DeviceIDBuilderError>(
        BuildOutcome::Done(DeviceID { iak, iak_cert, idevid, idevid_cert }),
    );
    assert(next(st9, events[9]) == done);
    reveal_with_fuel(run, 11);
    assert(run(o0, events) == done);
}

/// The pending operation of `st` is the IAK's key check, and `e` reports it
/// passed: the step that ends the IAK's part of a build.
pub open spec fn completes_iak(st: BuildState, e: BuildEvent) -> bool {
    st.pending == PendingOp::CheckKey(IdentityKind::Iak) && e matches BuildEvent::KeyChecked(Ok(_))
}

/// Where a build goes from `o` on `events` while it handles the IAK: it stops
/// where it ends, fails, or is about to complete the IAK.
pub open spec fn run_iak(o: Result<BuildOutcome, DeviceIDBuilderError>, events: Seq<BuildEvent>) -> Result<
    BuildOutcome,
    DeviceIDBuilderError,
>
    decreases events.len(),
{
    if events.len() == 0 {
        o
    } else {
        match o {
            Ok(BuildOutcome::Continue(st)) => if st.pending.kind() == IdentityKind::Iak && !completes_iak(
                st,
                events[0],
            ) {
                run_iak(next(st, events[0]), events.drop_first())
            } else {
                o
            },
            _ => o,
        }
    }
}

/// Two states of the IAK's part of a build that wait for the same operation,
/// hold the same keys and the same IAK settings.
pub open spec fn same_iak_progress(a: BuildState, b: BuildState) -> bool {
    &&& a.pending == b.pending
    &&& a.pending.kind() == IdentityKind::Iak
    &&& a.iak == b.iak
    &&& a.idevid == b.idevid
    &&& a.settings.iak == b.settings.iak
}

/// Two outcomes of the IAK's part of a build are alike: the same error, or
/// states of the same progress.
pub open spec fn alike_iak(
    a: Result<BuildOutcome, DeviceIDBuilderError>,
    b: Result<BuildOutcome, DeviceIDBuilderError>,
) -> bool {
    match (a, b) {
        (Err(x), Err(y)) => x == y,
        (Ok(BuildOutcome::Continue(x)), Ok(BuildOutcome::Continue(y))) => same_iak_progress(x, y),
        _ => false,
    }
}

proof fn lemma_iak_step_ignores_idevid(a: BuildState, b: BuildState, e: BuildEvent)
    requires
        same_iak_progress(a, b),
        !completes_iak(a, e),
    ensures
        alike_iak(next(a, e), next(b, e)),
{
}

/// The IAK's part of a build does not depend on the IDevID's settings: two
/// builders with the same IAK settings, given the same outcomes, ask for the
/// same operations (all of them about the IAK) and fail with the same error,
/// up to the passed check of the IAK.
pub proof fn lemma_iak_part_ignores_idevid(s1: BuilderSettings, s2: BuilderSettings, events: Seq<BuildEvent>)
    requires
        s1.iak == s2.iak,
    ensures
        alike_iak(run_iak(start(s1), events), run_iak(start(s2), events)),
{
    lemma_iak_run_ignores_idevid(start(s1), start(s2), events);
}

proof fn lemma_iak_run_ignores_idevid(
    a: Result<BuildOutcome, DeviceIDBuilderError>,
    b: Result<BuildOutcome, DeviceIDBuilderError>,
    events: Seq<BuildEvent>,
)
    requires
        alike_iak(a, b),
    ensures
        alike_iak(run_iak(a, events), run_iak(b, events)),
    decreases events.len(),
{
    if events.len() > 0 {
        if let Ok(BuildOutcome::Continue(x)) = a {
            if let Ok(BuildOutcome::Continue(y)) = b {
                if !completes_iak(x, events[0]) {
                    lemma_iak_step_ignores_idevid(x, y, events[0]);
                    lemma_iak_run_ignores_idevid(next(x, events[0]), next(y, events[0]), events.drop_first());
                }
            }
        }
    }
}

/// Two optional texts that mean the same once trimmed, an unset one read as
/// the empty text.
pub open spec fn same_trimmed(a: Option<Seq<char>>, b: Option<Seq<char>>) -> bool {
    trim(or_empty(a)) == trim(or_empty(b))
}

/// Two settings of a key that differ at most in the white space around the
/// values, or in an unset value against a blank one where unset reads as
/// empty (all but the handle, whose being unset is an error).
pub open spec fn equivalent_key_settings(a: KeySettings, b: KeySettings) -> bool {
    &&& a.cert == b.cert
    &&& (a.handle is None <==> b.handle is None)
    &&& same_trimmed(a.handle, b.handle)
    &&& same_trimmed(a.password, b.password)
    &&& same_trimmed(a.cert_path, b.cert_path)
    &&& same_trimmed(a.template, b.template)
    &&& same_trimmed(a.asym_alg, b.asym_alg)
    &&& same_trimmed(a.hash_alg, b.hash_alg)
}

/// Builder settings that are equivalent for both keys.
pub open spec fn equivalent_settings(a: BuilderSettings, b: BuilderSettings) -> bool {
    equivalent_key_settings(a.iak, b.iak) && equivalent_key_settings(a.idevid, b.idevid)
}

/// Two build states that wait for the same operation, hold the same keys, and
/// whose settings are equivalent.
pub open spec fn equivalent_states(a: BuildState, b: BuildState) -> bool {
    &&& a.pending == b.pending
    &&& a.iak == b.iak
    &&& a.idevid == b.idevid
    &&& equivalent_settings(a.settings, b.settings)
}

/// Two outcomes of builds that are alike: the same error, the same device
/// identity, or equivalent states.
pub open spec fn equivalent_outcomes(
    a: Result<BuildOutcome, DeviceIDBuilderError>,
    b: Result<BuildOutcome, DeviceIDBuilderError>,
) -> bool {
    match (a, b) {
        (Err(x), Err(y)) => x == y,
        (Ok(BuildOutcome::Done(x)), Ok(BuildOutcome::Done(y))) => x == y,
        (Ok(BuildOutcome::Continue(x)), Ok(BuildOutcome::Continue(y))) => equivalent_states(x, y),
        _ => false,
    }
}

proof fn lemma_trim_empty()
    ensures
        trim(Seq::<char>::empty()) == Seq::<char>::empty(),
{
}

proof fn lemma_equivalent_first_op(a: BuilderSettings, b: BuilderSettings, kind: IdentityKind)
    requires
        equivalent_settings(a, b),
    ensures
        first_op(a, kind) == first_op(b, kind),
{
    lemma_trim_empty();
}

proof fn lemma_equivalent_key_op(a: BuilderSettings, b: BuilderSettings, kind: IdentityKind, algs: KeyAlgorithms)
    requires
        equivalent_settings(a, b),
    ensures
        key_op(a, kind, algs) == key_op(b, kind, algs),
{
}

proof fn lemma_equivalent_step(a: BuildState, b: BuildState, e: BuildEvent)
    requires
        equivalent_states(a, b),
    ensures
        equivalent_outcomes(next(a, e), next(b, e)),
{
    let k = a.pending.kind();
    lemma_equivalent_first_op(a.settings, b.settings, IdentityKind::IDevID);
    if let BuildEvent::TemplateResolved(Ok(algs)) = e {
        lemma_equivalent_key_op(a.settings, b.settings, k, algs);
    }
}

proof fn lemma_equivalent_run(
    a: Result<BuildOutcome, DeviceIDBuilderError>,
    b: Result<BuildOutcome, DeviceIDBuilderError>,
    events: Seq<BuildEvent>,
)
    requires
        equivalent_outcomes(a, b),
    ensures
        equivalent_outcomes(run(a, events), run(b, events)),
    decreases events.len(),
{
    if events.len() > 0 {
        if let Ok(BuildOutcome::Continue(x)) = a {
            if let Ok(BuildOutcome::Continue(y)) = b {
                lemma_equivalent_step(x, y, events[0]);
                lemma_equivalent_run(next(x, events[0]), next(y, events[0]), events.drop_first());
            }
        }
    }
}

/// Builders whose settings differ only in the white space around their values
/// (or in an unset password, template, algorithm or certificate path against a
/// blank one) build alike: given the same outcomes they ask for the same
/// operations with the same arguments, and end with the same error or the same
/// device identity.
pub proof fn lemma_white_space_is_ignored(s1: BuilderSettings, s2: BuilderSettings, events: Seq<BuildEvent>)
    requires
        equivalent_settings(s1, s2),
    ensures
        equivalent_outcomes(run(start(s1), events), run(start(s2), events)),
{
    lemma_equivalent_first_op(s1, s2, IdentityKind::Iak);
    lemma_equivalent_run(start(s1), start(s2), events);
}

/// Loading a key's certificate: on success the certificate is held by that key
/// (and nothing else changes) and its template is detected next; on failure the
/// build ends with `CertLoad`, for either key.
pub proof fn lemma_cert_load_outcome(st: BuildState, kind: IdentityKind, path: Seq<char>, cert: openssl::x509::X509, m: String)
    requires
        st.pending == PendingOp::LoadCert(kind, path),
    ensures
        next(st, BuildEvent::CertLoaded(Err(m))) == Err::<BuildOutcome, DeviceIDBuilderError>(
            DeviceIDBuilderError::CertLoad(m),
        ),
        next(st, BuildEvent::CertLoaded(Ok(cert))) matches Ok(BuildOutcome::Continue(t)) && t.pending
            == PendingOp::DetectTemplate(kind) && t.iak == st.iak && t.idevid == st.idevid
            && t.settings.of(kind).cert == Some(cert)
            && t.settings.of(kind).handle == st.settings.of(kind).handle
            && t.settings.of(kind).password == st.settings.of(kind).password
            && t.settings.of(kind).cert_path == st.settings.of(kind).cert_path
            && t.settings.of(kind).template == st.settings.of(kind).template
            && t.settings.of(kind).asym_alg == st.settings.of(kind).asym_alg
            && t.settings.of(kind).hash_alg == st.settings.of(kind).hash_alg
            && (kind == IdentityKind::Iak ==> t.settings.idevid == st.settings.idevid)
            && (kind == IdentityKind::IDevID ==> t.settings.iak == st.settings.iak),
{
}

/// Detecting a key's template: on success the key's template is resolved next,
/// from the detected template and that key's own template, asymmetric and hash
/// algorithm settings, each trimmed (an unset one read as empty); on failure
/// the build ends with `TemplateFromCert`, for either key.
pub proof fn lemma_detection_outcome(st: BuildState, kind: IdentityKind, d: String, m: String)
    requires
        st.pending == PendingOp::DetectTemplate(kind),
    ensures
        next(st, BuildEvent::TemplateDetected(Err(m))) == Err::<BuildOutcome, DeviceIDBuilderError>(
            DeviceIDBuilderError::TemplateFromCert(m),
        ),
        next(st, BuildEvent::TemplateDetected(Ok(d))) == Ok::<BuildOutcome, DeviceIDBuilderError>(
            BuildOutcome::Continue(BuildState {
                settings: st.settings,
                pending: PendingOp::ResolveTemplate(
                    kind,
                    d@,
                    trim(or_empty(st.settings.of(kind).template)),
                    trim(or_empty(st.settings.of(kind).asym_alg)),
                    trim(or_empty(st.settings.of(kind).hash_alg)),
                ),
                iak: st.iak,
                idevid: st.idevid,
            }),
        ),
{
}

/// The template resolution of the IDevID reads only the IDevID's settings:
/// builds that differ only in the IAK's template, asymmetric and hash algorithm
/// settings resolve the IDevID's template alike.
pub proof fn lemma_idevid_resolution_ignores_iak_settings(a: BuildState, b: BuildState, d: String)
    requires
        a.pending == PendingOp::DetectTemplate(IdentityKind::IDevID),
        b.pending == a.pending,
        b.iak == a.iak,
        b.idevid == a.idevid,
        b.settings.idevid == a.settings.idevid,
    ensures
        next(a, BuildEvent::TemplateDetected(Ok(d))) matches Ok(BuildOutcome::Continue(x))
            && next(b, BuildEvent::TemplateDetected(Ok(d))) matches Ok(BuildOutcome::Continue(y))
            && x.pending == y.pending,
{
    lemma_detection_outcome(a, IdentityKind::IDevID, d, d);
    lemma_detection_outcome(b, IdentityKind::IDevID, d, d);
}

/// Resolving a key's template: on success, without a handle the build ends with
/// that key's `HandleNotSet`; with a blank handle the key is created with
/// exactly the resolved algorithms; with any other handle it is collected from
/// the trimmed handle with the trimmed password (an unset one read as empty).
/// On failure the build ends with `Template`. All of it for either key.
pub proof fn lemma_resolution_outcome(
    st: BuildState,
    kind: IdentityKind,
    d: Seq<char>,
    t: Seq<char>,
    a: Seq<char>,
    h: Seq<char>,
    algs: KeyAlgorithms,
    m: String,
)
    requires
        st.pending == PendingOp::ResolveTemplate(kind, d, t, a, h),
    ensures
        next(st, BuildEvent::TemplateResolved(Err(m))) == Err::<BuildOutcome, DeviceIDBuilderError>(
            DeviceIDBuilderError::Template(m),
        ),
        st.settings.of(kind).handle is None && kind == IdentityKind::Iak ==> next(
            st,
            BuildEvent::TemplateResolved(Ok(algs)),
        ) == Err::<BuildOutcome, DeviceIDBuilderError>(DeviceIDBuilderError::IAKHandleNotSet),
        st.settings.of(kind).handle is None && kind == IdentityKind::IDevID ==> next(
            st,
            BuildEvent::TemplateResolved(Ok(algs)),
        ) == Err::<BuildOutcome, DeviceIDBuilderError>(DeviceIDBuilderError::IDevIDHandleNotSet),
        (st.settings.of(kind).handle matches Some(hd) && is_blank(hd)) ==> next(
            st,
            BuildEvent::TemplateResolved(Ok(algs)),
        ) == Ok::<BuildOutcome, DeviceIDBuilderError>(
            BuildOutcome::Continue(BuildState {
                settings: st.settings,
                pending: PendingOp::CreateKey(kind, algs),
                iak: st.iak,
                idevid: st.idevid,
            }),
        ),
        (st.settings.of(kind).handle matches Some(hd) && !is_blank(hd)) ==> next(
            st,
            BuildEvent::TemplateResolved(Ok(algs)),
        ) == Ok::<BuildOutcome, DeviceIDBuilderError>(
            BuildOutcome::Continue(BuildState {
                settings: st.settings,
                pending: PendingOp::KeyFromHandle(
                    kind,
                    trim(st.settings.of(kind).handle.unwrap()),
                    trim(or_empty(st.settings.of(kind).password)),
                ),
                iak: st.iak,
                idevid: st.idevid,
            }),
        ),
{
    if st.settings.of(kind).handle is Some {
        lemma_trim_empty_iff_blank(st.settings.of(kind).handle.unwrap());
    }
}

/// Obtaining a key: on success the key is held as that key (the other key
/// unchanged) and checked next; on failure the build ends with that key's
/// `Create` or `FromHandle` error, as the operation was a creation or a
/// collection.
pub proof fn lemma_key_outcome(st: BuildState, key: KeyResult, m: String)
    requires
        st.pending is CreateKey || st.pending is KeyFromHandle,
    ensures
        next(st, BuildEvent::KeyObtained(Ok(key))) == Ok::<BuildOutcome, DeviceIDBuilderError>(
            BuildOutcome::Continue(BuildState {
                settings: st.settings,
                pending: PendingOp::CheckKey(st.pending.kind()),
                iak: if st.pending.kind() == IdentityKind::Iak { Some(key) } else { st.iak },
                idevid: if st.pending.kind() == IdentityKind::IDevID { Some(key) } else { st.idevid },
            }),
        ),
        st.pending == PendingOp::CreateKey(IdentityKind::Iak, st.pending->CreateKey_1) ==> next(
            st,
            BuildEvent::KeyObtained(Err(m)),
        ) == Err::<BuildOutcome, DeviceIDBuilderError>(DeviceIDBuilderError::IAKCreate(m)),
        st.pending == PendingOp::CreateKey(IdentityKind::IDevID, st.pending->CreateKey_1) ==> next(
            st,
            BuildEvent::KeyObtained(Err(m)),
        ) == Err::<BuildOutcome, DeviceIDBuilderError>(DeviceIDBuilderError::IDevIDCreate(m)),
        (st.pending is KeyFromHandle && st.pending.kind() == IdentityKind::Iak) ==> next(
            st,
            BuildEvent::KeyObtained(Err(m)),
        ) == Err::<BuildOutcome, DeviceIDBuilderError>(DeviceIDBuilderError::IAKFromHandle(m)),
        (st.pending is KeyFromHandle && st.pending.kind() == IdentityKind::IDevID) ==> next(
            st,
            BuildEvent::KeyObtained(Err(m)),
        ) == Err::<BuildOutcome, DeviceIDBuilderError>(DeviceIDBuilderError::IDevIDFromHandle(m)),
{
}

/// Checking a key against its certificate: a failed check ends the build with
/// `CertPubKeyMismatch`, for either key. A passed check of the IAK goes on to
/// the IDevID's certificate (held, to be loaded from its trimmed path, or
/// missing); a passed check of the IDevID, in a reachable state, finishes the
/// build with both keys and both certificates.
pub proof fn lemma_check_outcome(st: BuildState, kind: IdentityKind, m: String)
    requires
        st.pending == PendingOp::CheckKey(kind),
    ensures
        next(st, BuildEvent::KeyChecked(Err(m))) == Err::<BuildOutcome, DeviceIDBuilderError>(
            DeviceIDBuilderError::CertPubKeyMismatch(m),
        ),
        kind == IdentityKind::Iak && st.settings.idevid.cert is Some ==> next(st, BuildEvent::KeyChecked(Ok(())))
            == Ok::<BuildOutcome, DeviceIDBuilderError>(
            BuildOutcome::Continue(BuildState { pending: PendingOp::DetectTemplate(IdentityKind::IDevID), ..st }),
        ),
        kind == IdentityKind::Iak && st.settings.idevid.cert is None && (st.settings.idevid.cert_path is None
            || is_blank(st.settings.idevid.cert_path.unwrap())) ==> next(st, BuildEvent::KeyChecked(Ok(())))
            == Err::<BuildOutcome, DeviceIDBuilderError>(DeviceIDBuilderError::IDevIDCertNotSet),
        kind == IdentityKind::Iak && st.settings.idevid.cert is None && (st.settings.idevid.cert_path matches Some(
            p,
        ) && !is_blank(p)) ==> next(st, BuildEvent::KeyChecked(Ok(())))
            == Ok::<BuildOutcome, DeviceIDBuilderError>(
            BuildOutcome::Continue(BuildState {
                pending: PendingOp::LoadCert(IdentityKind::IDevID, trim(st.settings.idevid.cert_path.unwrap())),
                ..st
            }),
        ),
        kind == IdentityKind::IDevID && st.well_formed() ==> next(st, BuildEvent::KeyChecked(Ok(())))
            == Ok::<BuildOutcome, DeviceIDBuilderError>(
            BuildOutcome::Done(
                DeviceID {
                    iak: st.iak.unwrap(),
                    iak_cert: st.settings.iak.cert.unwrap(),
                    idevid: st.idevid.unwrap(),
                    idevid_cert: st.settings.idevid.cert.unwrap(),
                },
            ),
        ),
{
    if st.settings.idevid.cert is None {
        lemma_cert_path_decides(st.settings, IdentityKind::IDevID);
    }
}

/// A build starts with the IAK's certificate: held, to be loaded from its
/// trimmed path, or missing (`IAKCertNotSet`), with no key obtained yet.
pub proof fn lemma_start_outcome(s: BuilderSettings)
    ensures
        s.iak.cert is Some ==> start(s) == Ok::<BuildOutcome, DeviceIDBuilderError>(
            BuildOutcome::Continue(
                BuildState { settings: s, pending: PendingOp::DetectTemplate(IdentityKind::Iak), iak: None, idevid: None },
            ),
        ),
        s.iak.cert is None && (s.iak.cert_path matches Some(p) && !is_blank(p)) ==> start(s)
            == Ok::<BuildOutcome, DeviceIDBuilderError>(
            BuildOutcome::Continue(
                BuildState {
                    settings: s,
                    pending: PendingOp::LoadCert(IdentityKind::Iak, trim(s.iak.cert_path.unwrap())),
                    iak: None,
                    idevid: None,
                },
            ),
        ),
        s.iak.cert is None && (s.iak.cert_path is None || is_blank(s.iak.cert_path.unwrap())) ==> start(s)
            == Err::<BuildOutcome, DeviceIDBuilderError>(DeviceIDBuilderError::IAKCertNotSet),
{
    if s.iak.cert is None {
        lemma_cert_path_decides(s, IdentityKind::Iak);
    }
}

/// The settings of a key are its own: replacing those of one key gives that key
/// the new settings and leaves the other key's as they were.
pub proof fn lemma_settings_of_each_key(s: BuilderSettings, x: KeySettings)
    ensures
        s.of(IdentityKind::Iak) == s.iak,
        s.of(IdentityKind::IDevID) == s.idevid,
        s.with(IdentityKind::Iak, x).iak == x,
        s.with(IdentityKind::Iak, x).idevid == s.idevid,
        s.with(IdentityKind::IDevID, x).idevid == x,
        s.with(IdentityKind::IDevID, x).iak == s.iak,
{
}

} // verus!

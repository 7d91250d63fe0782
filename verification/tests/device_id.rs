use keylime_device_id::{
    BuildAction, BuildEvent, BuildProgress, DeviceID, DeviceIDBuild, DeviceIDBuilder,
    DeviceIDBuilderError, DeviceIDError, IdentityKind, KeyAlgorithms, KeyResult,
};
use openssl::asn1::Asn1Integer;
use openssl::bn::BigNum;
use openssl::x509::X509;

fn cert(serial: u32) -> X509 {
    let mut builder = X509::builder().unwrap();
    let bn = BigNum::from_u32(serial).unwrap();
    let serial = Asn1Integer::from_bn(&bn).unwrap();
    builder.set_serial_number(&serial).unwrap();
    builder.build()
}

fn serial_of(c: &X509) -> String {
    c.serial_number().to_bn().unwrap().to_dec_str().unwrap().to_string()
}

fn key(handle: u32, public: &[u8]) -> KeyResult {
    KeyResult { handle, public: public.to_vec() }
}

fn pending<'a>(p: Result<BuildProgress<'a>, DeviceIDBuilderError>) -> DeviceIDBuild<'a> {
    match p {
        Ok(BuildProgress::Pending(b)) => b,
        Ok(BuildProgress::Built(_)) => panic!("build finished early"),
        Err(e) => panic!("build failed: {:?}", e),
    }
}

fn built(p: Result<BuildProgress<'_>, DeviceIDBuilderError>) -> DeviceID {
    match p {
        Ok(BuildProgress::Built(d)) => d,
        Ok(BuildProgress::Pending(b)) => panic!("build still waits for {:?}", b.action()),
        Err(e) => panic!("build failed: {:?}", e),
    }
}

fn failure(p: Result<BuildProgress<'_>, DeviceIDBuilderError>) -> DeviceIDBuilderError {
    match p {
        Err(e) => e,
        Ok(_) => panic!("build did not fail"),
    }
}

const ALGS: KeyAlgorithms = KeyAlgorithms { asym_alg: 0x0001, hash_alg: 0x000B };

fn configured<'a>(iak_handle: &'a str, idevid_handle: &'a str) -> DeviceIDBuilder<'a> {
    DeviceIDBuilder::new()
        .iak_handle(iak_handle)
        .iak_cert_path("/certs/iak.cert.pem")
        .iak_password("")
        .iak_template("")
        .iak_asym_alg("")
        .iak_hash_alg("")
        .idevid_handle(idevid_handle)
        .idevid_cert_path("/certs/idevid.cert.pem")
        .idevid_password("")
        .idevid_template("")
        .idevid_asym_alg("")
        .idevid_hash_alg("")
}

/// Takes a build from its start through the IAK's certificate, template and
/// algorithms, up to the operation that obtains the IAK.
fn up_to_iak_key(b: DeviceIDBuilder<'_>) -> DeviceIDBuild<'_> {
    let s = pending(b.build());
    let s = pending(s.step(BuildEvent::CertLoaded(Ok(cert(1)))));
    let s = pending(s.step(BuildEvent::TemplateDetected(Ok("H-1".to_string()))));
    pending(s.step(BuildEvent::TemplateResolved(Ok(ALGS))))
}

/// Takes a build waiting for the IAK through its key and check, and the
/// IDevID's certificate, template and algorithms.
fn up_to_idevid_key(s: DeviceIDBuild<'_>) -> DeviceIDBuild<'_> {
    let s = pending(s.step(BuildEvent::KeyObtained(Ok(key(0x8000_0001, b"iak-public")))));
    let s = pending(s.step(BuildEvent::KeyChecked(Ok(()))));
    let s = pending(s.step(BuildEvent::CertLoaded(Ok(cert(2)))));
    let s = pending(s.step(BuildEvent::TemplateDetected(Ok("H-1".to_string()))));
    pending(s.step(BuildEvent::TemplateResolved(Ok(ALGS))))
}

#[test]
fn test_device_id_builder_setting() {
    let _builder = DeviceIDBuilder::new()
        .iak_handle("")
        .iak_cert_path("")
        .iak_password("")
        .iak_template("")
        .iak_asym_alg("")
        .iak_hash_alg("")
        .idevid_handle("")
        .idevid_cert_path("")
        .idevid_password("")
        .idevid_template("")
        .idevid_asym_alg("")
        .idevid_hash_alg("");
}

#[test]
fn new_builder_has_no_iak_certificate() {
    assert_eq!(failure(DeviceIDBuilder::new().build()), DeviceIDBuilderError::IAKCertNotSet);
}

#[test]
fn blank_iak_cert_path_is_not_set() {
    let b = DeviceIDBuilder::new().iak_cert_path(" \t\n").iak_handle("");
    assert_eq!(failure(b.build()), DeviceIDBuilderError::IAKCertNotSet);
}

#[test]
fn empty_cert_paths_of_the_setting_test_do_not_build() {
    let b = DeviceIDBuilder::new()
        .iak_handle("")
        .iak_cert_path("")
        .idevid_handle("")
        .idevid_cert_path("");
    assert_eq!(failure(b.build()), DeviceIDBuilderError::IAKCertNotSet);
}

#[test]
fn certificate_is_loaded_from_the_trimmed_path() {
    let b = DeviceIDBuilder::new().iak_cert_path("  /certs/iak.pem\n");
    let s = pending(b.build());
    match s.action() {
        BuildAction::LoadCert { kind, path } => {
            assert_eq!(*kind, IdentityKind::Iak);
            assert_eq!(*path, "/certs/iak.pem");
        }
        other => panic!("unexpected action {:?}", other),
    }
}

#[test]
fn the_last_setting_wins() {
    let b = DeviceIDBuilder::new().iak_cert_path("/first").iak_cert_path("/second");
    let s = pending(b.build());
    match s.action() {
        BuildAction::LoadCert { path, .. } => assert_eq!(*path, "/second"),
        other => panic!("unexpected action {:?}", other),
    }
}

#[test]
fn template_settings_are_trimmed() {
    let b = DeviceIDBuilder::new()
        .iak_cert_path("/certs/iak.pem")
        .iak_template(" H-1 ")
        .iak_asym_alg("\trsa")
        .iak_hash_alg("sha256 ");
    let s = pending(b.build());
    let s = pending(s.step(BuildEvent::CertLoaded(Ok(cert(7)))));
    match s.action() {
        BuildAction::DetectTemplate { kind } => assert_eq!(*kind, IdentityKind::Iak),
        other => panic!("unexpected action {:?}", other),
    }
    assert_eq!(serial_of(s.cert(IdentityKind::Iak).unwrap()), "7");
    assert!(s.cert(IdentityKind::IDevID).is_none());
    let s = pending(s.step(BuildEvent::TemplateDetected(Ok("H-2".to_string()))));
    match s.action() {
        BuildAction::ResolveTemplate { kind, detected, template, asym_alg, hash_alg } => {
            assert_eq!(*kind, IdentityKind::Iak);
            assert_eq!(detected, "H-2");
            assert_eq!(*template, "H-1");
            assert_eq!(*asym_alg, "rsa");
            assert_eq!(*hash_alg, "sha256");
        }
        other => panic!("unexpected action {:?}", other),
    }
}

#[test]
fn unset_template_settings_read_as_empty() {
    let b = DeviceIDBuilder::new().iak_cert_path("/certs/iak.pem");
    let s = pending(b.build());
    let s = pending(s.step(BuildEvent::CertLoaded(Ok(cert(7)))));
    let s = pending(s.step(BuildEvent::TemplateDetected(Ok("H-1".to_string()))));
    match s.action() {
        BuildAction::ResolveTemplate { template, asym_alg, hash_alg, .. } => {
            assert_eq!(*template, "");
            assert_eq!(*asym_alg, "");
            assert_eq!(*hash_alg, "");
        }
        other => panic!("unexpected action {:?}", other),
    }
}

#[test]
fn blank_handle_recreates_the_key() {
    let s = up_to_iak_key(configured("  ", ""));
    match s.action() {
        BuildAction::CreateKey { kind, algorithms } => {
            assert_eq!(*kind, IdentityKind::Iak);
            assert_eq!(*algorithms, ALGS);
        }
        other => panic!("unexpected action {:?}", other),
    }
}

#[test]
fn handle_collects_the_persisted_key() {
    let b = configured(" 0x81010002 ", "").iak_password("  secret\t");
    let s = up_to_iak_key(b);
    match s.action() {
        BuildAction::KeyFromHandle { kind, handle, password } => {
            assert_eq!(*kind, IdentityKind::Iak);
            assert_eq!(*handle, "0x81010002");
            assert_eq!(*password, "secret");
        }
        other => panic!("unexpected action {:?}", other),
    }
}

#[test]
fn unset_password_reads_as_empty() {
    let b = DeviceIDBuilder::new()
        .iak_cert_path("/certs/iak.pem")
        .iak_handle("0x81010002");
    let s = up_to_iak_key(b);
    match s.action() {
        BuildAction::KeyFromHandle { password, .. } => assert_eq!(*password, ""),
        other => panic!("unexpected action {:?}", other),
    }
}

#[test]
fn unset_iak_handle_fails_after_the_template() {
    let b = DeviceIDBuilder::new().iak_cert_path("/certs/iak.pem");
    let s = pending(b.build());
    let s = pending(s.step(BuildEvent::CertLoaded(Ok(cert(1)))));
    let s = pending(s.step(BuildEvent::TemplateDetected(Ok("H-1".to_string()))));
    assert_eq!(
        failure(s.step(BuildEvent::TemplateResolved(Ok(ALGS)))),
        DeviceIDBuilderError::IAKHandleNotSet
    );
}

#[test]
fn certificate_error_comes_before_handle_error() {
    let b = DeviceIDBuilder::new().idevid_handle("").idevid_cert_path("/x");
    assert_eq!(failure(b.build()), DeviceIDBuilderError::IAKCertNotSet);
}

#[test]
fn full_build_recreating_both_keys() {
    let s = up_to_iak_key(configured("", ""));
    let s = pending(s.step(BuildEvent::KeyObtained(Ok(key(0x8000_0001, b"iak-public")))));
    match s.action() {
        BuildAction::CheckKey { kind } => assert_eq!(*kind, IdentityKind::Iak),
        other => panic!("unexpected action {:?}", other),
    }
    assert_eq!(s.key(IdentityKind::Iak).unwrap().public, b"iak-public".to_vec());
    let s = pending(s.step(BuildEvent::KeyChecked(Ok(()))));
    match s.action() {
        BuildAction::LoadCert { kind, path } => {
            assert_eq!(*kind, IdentityKind::IDevID);
            assert_eq!(*path, "/certs/idevid.cert.pem");
        }
        other => panic!("unexpected action {:?}", other),
    }
    let s = pending(s.step(BuildEvent::CertLoaded(Ok(cert(2)))));
    let s = pending(s.step(BuildEvent::TemplateDetected(Ok("H-1".to_string()))));
    let s = pending(s.step(BuildEvent::TemplateResolved(Ok(ALGS))));
    match s.action() {
        BuildAction::CreateKey { kind, .. } => assert_eq!(*kind, IdentityKind::IDevID),
        other => panic!("unexpected action {:?}", other),
    }
    let s = pending(s.step(BuildEvent::KeyObtained(Ok(key(0x8000_0002, b"idevid-public")))));
    match s.action() {
        BuildAction::CheckKey { kind } => assert_eq!(*kind, IdentityKind::IDevID),
        other => panic!("unexpected action {:?}", other),
    }
    let d = built(s.step(BuildEvent::KeyChecked(Ok(()))));
    assert_eq!(d.iak.handle, 0x8000_0001);
    assert_eq!(d.iak.public, b"iak-public".to_vec());
    assert_eq!(serial_of(&d.iak_cert), "1");
    assert_eq!(d.idevid.handle, 0x8000_0002);
    assert_eq!(d.idevid.public, b"idevid-public".to_vec());
    assert_eq!(serial_of(&d.idevid_cert), "2");
}

#[test]
fn idevid_handle_collects_with_trimmed_password() {
    let b = configured("", "0x81020000").idevid_password(" pw ");
    let s = up_to_idevid_key(up_to_iak_key(b));
    match s.action() {
        BuildAction::KeyFromHandle { kind, handle, password } => {
            assert_eq!(*kind, IdentityKind::IDevID);
            assert_eq!(*handle, "0x81020000");
            assert_eq!(*password, "pw");
        }
        other => panic!("unexpected action {:?}", other),
    }
}

#[test]
fn unset_idevid_handle_fails() {
    let b = DeviceIDBuilder::new()
        .iak_handle("")
        .iak_cert_path("/certs/iak.pem")
        .idevid_cert_path("/certs/idevid.pem");
    let s = up_to_iak_key(b);
    let s = pending(s.step(BuildEvent::KeyObtained(Ok(key(1, b"p")))));
    let s = pending(s.step(BuildEvent::KeyChecked(Ok(()))));
    let s = pending(s.step(BuildEvent::CertLoaded(Ok(cert(2)))));
    let s = pending(s.step(BuildEvent::TemplateDetected(Ok("H-1".to_string()))));
    assert_eq!(
        failure(s.step(BuildEvent::TemplateResolved(Ok(ALGS)))),
        DeviceIDBuilderError::IDevIDHandleNotSet
    );
}

#[test]
fn unset_idevid_cert_path_fails_after_the_iak() {
    let b = DeviceIDBuilder::new().iak_handle("").iak_cert_path("/certs/iak.pem");
    let s = up_to_iak_key(b);
    let s = pending(s.step(BuildEvent::KeyObtained(Ok(key(1, b"p")))));
    assert_eq!(
        failure(s.step(BuildEvent::KeyChecked(Ok(())))),
        DeviceIDBuilderError::IDevIDCertNotSet
    );
}

#[test]
fn certificate_load_failure() {
    let s = pending(configured("", "").build());
    assert_eq!(
        failure(s.step(BuildEvent::CertLoaded(Err("no such file".to_string())))),
        DeviceIDBuilderError::CertLoad("no such file".to_string())
    );
}

#[test]
fn template_detection_failure() {
    let s = pending(configured("", "").build());
    let s = pending(s.step(BuildEvent::CertLoaded(Ok(cert(1)))));
    assert_eq!(
        failure(s.step(BuildEvent::TemplateDetected(Err("unknown key".to_string())))),
        DeviceIDBuilderError::TemplateFromCert("unknown key".to_string())
    );
}

#[test]
fn template_resolution_failure() {
    let s = pending(configured("", "").build());
    let s = pending(s.step(BuildEvent::CertLoaded(Ok(cert(1)))));
    let s = pending(s.step(BuildEvent::TemplateDetected(Ok("H-1".to_string()))));
    assert_eq!(
        failure(s.step(BuildEvent::TemplateResolved(Err("bad template".to_string())))),
        DeviceIDBuilderError::Template("bad template".to_string())
    );
}

#[test]
fn iak_creation_failure() {
    let s = up_to_iak_key(configured("", ""));
    assert_eq!(
        failure(s.step(BuildEvent::KeyObtained(Err("tpm".to_string())))),
        DeviceIDBuilderError::IAKCreate("tpm".to_string())
    );
}

#[test]
fn iak_from_handle_failure() {
    let s = up_to_iak_key(configured("0x81010002", ""));
    assert_eq!(
        failure(s.step(BuildEvent::KeyObtained(Err("tpm".to_string())))),
        DeviceIDBuilderError::IAKFromHandle("tpm".to_string())
    );
}

#[test]
fn idevid_creation_failure() {
    let s = up_to_idevid_key(up_to_iak_key(configured("", "")));
    assert_eq!(
        failure(s.step(BuildEvent::KeyObtained(Err("tpm".to_string())))),
        DeviceIDBuilderError::IDevIDCreate("tpm".to_string())
    );
}

#[test]
fn idevid_from_handle_failure() {
    let s = up_to_idevid_key(up_to_iak_key(configured("", "0x81020000")));
    assert_eq!(
        failure(s.step(BuildEvent::KeyObtained(Err("tpm".to_string())))),
        DeviceIDBuilderError::IDevIDFromHandle("tpm".to_string())
    );
}

#[test]
fn key_mismatch_failure() {
    let s = up_to_iak_key(configured("", ""));
    let s = pending(s.step(BuildEvent::KeyObtained(Ok(key(1, b"p")))));
    assert_eq!(
        failure(s.step(BuildEvent::KeyChecked(Err("mismatch".to_string())))),
        DeviceIDBuilderError::CertPubKeyMismatch("mismatch".to_string())
    );
}

#[test]
fn unanswered_event_changes_nothing() {
    let s = pending(configured("", "").build());
    let s = pending(s.step(BuildEvent::KeyChecked(Ok(()))));
    match s.action() {
        BuildAction::LoadCert { kind, path } => {
            assert_eq!(*kind, IdentityKind::Iak);
            assert_eq!(*path, "/certs/iak.cert.pem");
        }
        other => panic!("unexpected action {:?}", other),
    }
    assert!(s.cert(IdentityKind::Iak).is_none());
}

fn loaded_path(path: &str) -> Result<String, DeviceIDBuilderError> {
    let b = DeviceIDBuilder::new().iak_cert_path(path);
    match b.build() {
        Ok(BuildProgress::Pending(s)) => match s.action() {
            BuildAction::LoadCert { path, .. } => Ok(path.to_string()),
            other => panic!("unexpected action {:?}", other),
        },
        Ok(BuildProgress::Built(_)) => panic!("build finished early"),
        Err(e) => Err(e),
    }
}

#[test]
fn trim_removes_unicode_white_space() {
    assert_eq!(loaded_path("\u{3000}\u{85} a b\t\n\u{2029}"), Ok("a b".to_string()));
    assert_eq!(loaded_path("\u{200B}x\u{200B}"), Ok("\u{200B}x\u{200B}".to_string()));
    assert_eq!(
        loaded_path(" \u{A0}\u{1680}\u{2000}\u{200A}\u{202F}\u{205F}\u{2028}"),
        Err(DeviceIDBuilderError::IAKCertNotSet)
    );
    assert_eq!(loaded_path("\u{B}\u{C}\r"), Err(DeviceIDBuilderError::IAKCertNotSet));
    assert_eq!(loaded_path("keep"), Ok("keep".to_string()));
}

#[test]
fn error_messages() {
    assert_eq!(DeviceIDBuilderError::CertLoad(String::new()).message(), "Failed to load certificate");
    assert_eq!(
        DeviceIDBuilderError::CertPubKeyMismatch(String::new()).message(),
        "Public key does not match the certificate"
    );
    assert_eq!(DeviceIDBuilderError::IAKCreate(String::new()).message(), "Failed to create IAK");
    assert_eq!(
        DeviceIDBuilderError::IAKHandleNotSet.message(),
        "IAK handle not set in DeviceBuilder. Set the IAK handle with the iak_handle() method from the DeviceIDBuilder object"
    );
    assert_eq!(
        DeviceIDBuilderError::IDevIDCertNotSet.message(),
        "IDevID certificate not set in DeviceBuilder. Set the IDevID certificate with the idevid_cert() method from the DeviceIDBuilder object"
    );
    assert_eq!(DeviceIDBuilderError::Template(String::new()).message(), "Failed to obtain template");
    assert_eq!(
        DeviceIDError::Certify(String::new()).message(),
        "Failed to certify credential with IAK"
    );
}

#[test]
fn certify_uses_the_iak_handle() {
    let d = DeviceID {
        iak: key(0x8000_0011, b"iak"),
        iak_cert: cert(1),
        idevid: key(0x8000_0022, b"idevid"),
        idevid_cert: cert(2),
    };
    let req = d.certify(vec![1, 2, 3], 0x8000_0033);
    assert_eq!(req.qualifying_data, vec![1, 2, 3]);
    assert_eq!(req.ak, 0x8000_0033);
    assert_eq!(req.iak_handle, 0x8000_0011);
    let ok = req.outcome(Ok((vec![9], vec![8])));
    assert_eq!(ok, Ok((vec![9], vec![8])));
    let req = d.certify(vec![], 1);
    assert_eq!(req.outcome(Err("tpm".to_string())), Err(DeviceIDError::Certify("tpm".to_string())));
}

#[test]
fn iak_failure_does_not_depend_on_idevid_settings() {
    let with_idevid = configured("", "0x81020000").idevid_password("pw");
    let without_idevid = DeviceIDBuilder::new().iak_handle("").iak_cert_path("/certs/iak.cert.pem");
    for b in [with_idevid, without_idevid] {
        let s = up_to_iak_key(b);
        match s.action() {
            BuildAction::CreateKey { kind, algorithms } => {
                assert_eq!(*kind, IdentityKind::Iak);
                assert_eq!(*algorithms, ALGS);
            }
            other => panic!("unexpected action {:?}", other),
        }
        let s = pending(s.step(BuildEvent::KeyObtained(Ok(key(1, b"p")))));
        assert_eq!(
            failure(s.step(BuildEvent::KeyChecked(Err("mismatch".to_string())))),
            DeviceIDBuilderError::CertPubKeyMismatch("mismatch".to_string())
        );
    }
}

#[test]
fn surrounding_white_space_is_ignored() {
    let plain = DeviceIDBuilder::new()
        .iak_handle("0x81010002")
        .iak_cert_path("/certs/iak.pem")
        .iak_template("H-1");
    let padded = DeviceIDBuilder::new()
        .iak_handle("\t0x81010002 ")
        .iak_cert_path("  /certs/iak.pem\n")
        .iak_template(" H-1")
        .iak_password("   ")
        .iak_asym_alg(" ");
    for b in [plain, padded] {
        let s = pending(b.build());
        match s.action() {
            BuildAction::LoadCert { path, .. } => assert_eq!(*path, "/certs/iak.pem"),
            other => panic!("unexpected action {:?}", other),
        }
        let s = pending(s.step(BuildEvent::CertLoaded(Ok(cert(1)))));
        let s = pending(s.step(BuildEvent::TemplateDetected(Ok("H-2".to_string()))));
        match s.action() {
            BuildAction::ResolveTemplate { template, asym_alg, hash_alg, .. } => {
                assert_eq!(*template, "H-1");
                assert_eq!(*asym_alg, "");
                assert_eq!(*hash_alg, "");
            }
            other => panic!("unexpected action {:?}", other),
        }
        let s = pending(s.step(BuildEvent::TemplateResolved(Ok(ALGS))));
        match s.action() {
            BuildAction::KeyFromHandle { handle, password, .. } => {
                assert_eq!(*handle, "0x81010002");
                assert_eq!(*password, "");
            }
            other => panic!("unexpected action {:?}", other),
        }
    }
}

use traceix::errors::{HttpFailure, TraceixError};
use traceix::upload::{FullUploadState, FullUploadStep, UploadKind};

fn value(s: &str) -> serde_json::Value {
    serde_json::from_str(s).unwrap()
}

#[test]
fn full_upload_completes_in_call_order() {
    let p = value("{\"verdict\":\"benign\"}");
    let c = value("[\"cap-a\"]");
    let x = value("{\"make\":\"Canon\"}");

    let s0 = FullUploadState::start();
    assert_eq!(s0.pending_kind(), UploadKind::Prediction);

    let s1 = match s0.advance(Ok(p.clone())) {
        FullUploadStep::Pending(s) => s,
        _ => panic!("expected the upload to continue"),
    };
    assert_eq!(s1.pending_kind(), UploadKind::Capa);

    let s2 = match s1.advance(Ok(c.clone())) {
        FullUploadStep::Pending(s) => s,
        _ => panic!("expected the upload to continue"),
    };
    assert_eq!(s2.pending_kind(), UploadKind::Exif);

    match s2.advance(Ok(x.clone())) {
        FullUploadStep::Complete { prediction, capa, exif } => {
            assert_eq!(prediction, p);
            assert_eq!(capa, c);
            assert_eq!(exif, x);
        }
        _ => panic!("expected the upload to complete"),
    }
}

#[test]
fn full_upload_aborts_when_the_first_call_fails() {
    let s0 = FullUploadState::start();
    let step = s0.advance(Err(TraceixError::Io("no such file".to_string())));
    match step {
        FullUploadStep::Failed(TraceixError::Io(m)) => assert_eq!(m, "no such file"),
        _ => panic!("expected the upload to fail"),
    }
}

#[test]
fn full_upload_discards_gathered_payloads_on_a_later_failure() {
    let s0 = FullUploadState::start();
    let s1 = match s0.advance(Ok(value("1"))) {
        FullUploadStep::Pending(s) => s,
        _ => panic!("expected the upload to continue"),
    };
    let step = s1.advance(Err(TraceixError::Http(HttpFailure::Status(500))));
    assert!(matches!(
        step,
        FullUploadStep::Failed(TraceixError::Http(HttpFailure::Status(500)))
    ));
}

use calculator::error::{reply_status, ServiceError, STATUS_OK};

const ALL: [ServiceError; 3] =
    [ServiceError::ClientInput, ServiceError::Storage, ServiceError::Upstream];

#[test]
fn each_failure_has_its_status() {
    assert_eq!(ServiceError::ClientInput.status(), 400);
    assert_eq!(ServiceError::Storage.status(), 500);
    assert_eq!(ServiceError::Upstream.status(), 502);
}

#[test]
fn statuses_tell_the_failures_apart() {
    for a in ALL {
        for b in ALL {
            assert_eq!(a.status() == b.status(), a == b);
        }
    }
}

#[test]
fn a_rejected_request_is_the_only_client_error() {
    for error in ALL {
        let status = error.status();
        if error == ServiceError::ClientInput {
            assert!((400..500).contains(&status));
        } else {
            assert!((500..600).contains(&status));
        }
    }
}

#[test]
fn each_failure_has_a_short_diagnostic() {
    assert_eq!(
        ServiceError::ClientInput.diagnostic(),
        "num1 and num2 are required and must be numbers"
    );
    assert_eq!(ServiceError::Storage.diagnostic(), "the calculation store is unavailable");
    assert_eq!(
        ServiceError::Upstream.diagnostic(),
        "the calculation service did not answer with a record"
    );
}

#[test]
fn a_reply_goes_out_with_success_or_with_the_failure_status() {
    assert_eq!(STATUS_OK, 200);
    assert_eq!(reply_status(&Ok::<u8, ServiceError>(0)), 200);
    assert_eq!(reply_status(&Ok::<Vec<u8>, ServiceError>(Vec::new())), 200);
    for error in ALL {
        assert_eq!(reply_status(&Err::<u8, ServiceError>(error)), error.status());
    }
}

use httpstatus::{StatusClass, StatusCode};

const REGISTERED: [u16; 62] = [
    100, 101, 102, 103, 200, 201, 202, 203, 204, 205, 206, 207, 208, 226, 300, 301, 302, 303,
    304, 305, 306, 307, 308, 400, 401, 402, 403, 404, 405, 406, 407, 408, 409, 410, 411, 412,
    413, 414, 415, 416, 417, 418, 421, 422, 423, 424, 426, 428, 429, 431, 451, 500, 501, 502,
    503, 504, 505, 506, 507, 508, 510, 511,
];

#[test]
fn registered_round_trip() {
    for &code in REGISTERED.iter() {
        let status = StatusCode::from(code);
        assert!(!matches!(status, StatusCode::Unknown(_)));
        assert_eq!(status.as_u16(), code);
    }
}

#[test]
fn unregistered_becomes_unknown() {
    for code in [0u16, 1, 99, 104, 199, 209, 225, 227, 299, 309, 399, 419, 420, 425, 427, 430,
        432, 450, 452, 499, 509, 512, 599, 600, 999, 1000, u16::MAX]
    {
        assert!(!REGISTERED.contains(&code));
        let status = StatusCode::from(code);
        assert_eq!(status, StatusCode::Unknown(code));
        assert_eq!(status.as_u16(), code);
    }
}

#[test]
fn class_follows_range_table() {
    for code in 0..=u16::MAX {
        let expected = match code {
            100..=199 => StatusClass::Informational,
            200..=299 => StatusClass::Success,
            300..=399 => StatusClass::Redirection,
            400..=499 => StatusClass::ClientError,
            500..=599 => StatusClass::ServerError,
            _ => StatusClass::Unknown,
        };
        assert_eq!(StatusCode::from(code).class(), expected);
        assert_eq!(StatusCode::Unknown(code).class(), expected);
    }
}

#[test]
fn class_of_unregistered_in_range_code() {
    assert_eq!(StatusCode::Unknown(250).class(), StatusClass::Success);
    assert_eq!(StatusCode::Unknown(420).class(), StatusClass::ClientError);
    assert_eq!(StatusCode::Unknown(99).class(), StatusClass::Unknown);
    assert_eq!(StatusCode::Unknown(600).class(), StatusClass::Unknown);
}

#[test]
fn reason_phrase_empty_iff_unknown() {
    for &code in REGISTERED.iter() {
        assert!(!StatusCode::from(code).reason_phrase().is_empty());
    }
    for code in [0u16, 99, 104, 419, 600, 1000, u16::MAX] {
        assert_eq!(StatusCode::from(code).reason_phrase(), "");
        assert_eq!(StatusCode::Unknown(code).reason_phrase(), "");
    }
}

#[test]
fn reason_phrase_exact_values() {
    assert_eq!(StatusCode::Continue.reason_phrase(), "Continue");
    assert_eq!(StatusCode::Okay.reason_phrase(), "OK");
    assert_eq!(StatusCode::ImATeapot.reason_phrase(), "I'm a teapot");
    assert_eq!(
        StatusCode::NonAuthoritativeInformation.reason_phrase(),
        "Non-Authoritative Information"
    );
    assert_eq!(
        StatusCode::HttpVersionNotSupported.reason_phrase(),
        "HTTP Version Not Supported"
    );
    assert_eq!(
        StatusCode::NetworkAuthenticationRequired.reason_phrase(),
        "Network Authentication Required"
    );
}

#[test]
fn display_is_well_spaced() {
    for &code in REGISTERED.iter() {
        let text = StatusCode::from(code).render_display();
        assert!(!text.contains("  "));
        assert!(!text.ends_with(' '));
        assert!(!text.starts_with(' '));
    }
    for code in [0u16, 7, 99, 419, 600, 1000, u16::MAX] {
        let text = StatusCode::Unknown(code).render_display();
        assert!(!text.contains(' '));
    }
}

#[test]
fn display_of_unknown_is_bare_number() {
    assert_eq!(StatusCode::Unknown(0).render_display(), "0");
    assert_eq!(StatusCode::Unknown(7).render_display(), "7");
    assert_eq!(StatusCode::Unknown(42).render_display(), "42");
    assert_eq!(StatusCode::Unknown(600).render_display(), "600");
    assert_eq!(StatusCode::Unknown(u16::MAX).render_display(), "65535");
}

#[test]
fn concrete_scenarios() {
    let c = StatusCode::from(100u16);
    assert_eq!(c, StatusCode::Continue);
    assert_eq!(c.as_u16(), 100);
    assert_eq!(c.render_display(), "100 Continue");
    assert_eq!(c.class(), StatusClass::Informational);

    let c = StatusCode::from(200u16);
    assert_eq!(c, StatusCode::Okay);
    assert_eq!(c.render_display(), "200 OK");
    assert_eq!(c.class(), StatusClass::Success);

    let c = StatusCode::from(300u16);
    assert_eq!(c, StatusCode::MultipleChoices);
    assert_eq!(c.render_display(), "300 Multiple Choices");
    assert_eq!(c.class(), StatusClass::Redirection);

    let c = StatusCode::from(400u16);
    assert_eq!(c, StatusCode::BadRequest);
    assert_eq!(c.render_display(), "400 Bad Request");
    assert_eq!(c.class(), StatusClass::ClientError);

    let c = StatusCode::from(500u16);
    assert_eq!(c, StatusCode::InternalServerError);
    assert_eq!(c.render_display(), "500 Internal Server Error");
    assert_eq!(c.class(), StatusClass::ServerError);

    let c = StatusCode::from(1000u16);
    assert_eq!(c, StatusCode::Unknown(1000));
    assert_eq!(c.as_u16(), 1000);
    assert_eq!(c.render_display(), "1000");
    assert_eq!(c.class(), StatusClass::Unknown);
}

#[test]
fn ordering_follows_declaration_order() {
    assert!(StatusCode::Continue < StatusCode::SwitchingProtocols);
    assert!(StatusCode::Okay < StatusCode::MultipleChoices);
    assert!(StatusCode::NetworkAuthenticationRequired < StatusCode::Unknown(0));
    assert!(StatusCode::Unknown(1) < StatusCode::Unknown(2));
    assert_eq!(StatusCode::NotFound, StatusCode::NotFound.clone());
    assert_ne!(StatusCode::Unknown(404), StatusCode::NotFound);
}

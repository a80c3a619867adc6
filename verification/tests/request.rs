use outcomes_lookup::ident::EventId;
use outcomes_lookup::request::{
    get_default_dsn, LookupRequest, DEFAULT_ENDPOINT, ENDPOINT_VARIABLE,
};
use outcomes_lookup::time::{Day, Timestamp};

fn bare_request() -> LookupRequest {
    LookupRequest {
        event_id: EventId { bits: 0x11111111_1111_1111_1111_111111111111 },
        org_id: None,
        project_id: None,
        time_from: None,
        time_to: None,
        day: None,
        endpoint: String::from("tcp://127.0.0.1:9000"),
    }
}

#[test]
fn configured_endpoint_is_used() {
    assert_eq!(get_default_dsn(Some(String::from("tcp://store:9000"))), "tcp://store:9000");
    assert_eq!(get_default_dsn(Some(String::new())), "");
}

#[test]
fn local_endpoint_is_the_default() {
    assert_eq!(get_default_dsn(None), "tcp://127.0.0.1:9000");
    assert_eq!(DEFAULT_ENDPOINT, "tcp://127.0.0.1:9000");
    assert_eq!(ENDPOINT_VARIABLE, "OUTCOMES_LOOKUP_DSN");
}

#[test]
fn bounds_without_day_are_the_given_instants() {
    let mut request = bare_request();
    assert_eq!(request.time_bounds(), (None, None));
    request.time_from = Some(Timestamp { secs: 10, nanos: 5 });
    assert_eq!(request.time_bounds(), (Some(Timestamp { secs: 10, nanos: 5 }), None));
    request.time_to = Some(Timestamp { secs: 20, nanos: 0 });
    assert_eq!(
        request.time_bounds(),
        (Some(Timestamp { secs: 10, nanos: 5 }), Some(Timestamp { secs: 20, nanos: 0 }))
    );
    request.time_from = None;
    assert_eq!(request.time_bounds(), (None, Some(Timestamp { secs: 20, nanos: 0 })));
}

#[test]
fn day_gives_its_two_ends() {
    let mut request = bare_request();
    request.day = Some(Day { days: 19_723 });
    assert_eq!(
        request.time_bounds(),
        (
            Some(Timestamp { secs: 1_704_067_200, nanos: 0 }),
            Some(Timestamp { secs: 1_704_153_600, nanos: 0 })
        )
    );
}

#[test]
fn day_overrides_given_instants() {
    let mut request = bare_request();
    request.time_from = Some(Timestamp { secs: 1, nanos: 1 });
    request.time_to = Some(Timestamp { secs: 2, nanos: 2 });
    request.day = Some(Day { days: 19_723 });
    assert_eq!(
        request.time_bounds(),
        (
            Some(Timestamp { secs: 1_704_067_200, nanos: 0 }),
            Some(Timestamp { secs: 1_704_153_600, nanos: 0 })
        )
    );
    let mut only_day = bare_request();
    only_day.day = Some(Day { days: 19_723 });
    assert_eq!(request.time_bounds(), only_day.time_bounds());
}

#[test]
fn day_beside_instants_is_noticed() {
    let mut request = bare_request();
    assert!(!request.day_shadows_bounds());
    request.day = Some(Day { days: 3 });
    assert!(!request.day_shadows_bounds());
    request.time_to = Some(Timestamp { secs: 2, nanos: 0 });
    assert!(request.day_shadows_bounds());
    request.time_to = None;
    request.time_from = Some(Timestamp { secs: 2, nanos: 0 });
    assert!(request.day_shadows_bounds());
    request.day = None;
    assert!(!request.day_shadows_bounds());
}

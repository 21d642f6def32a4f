use routing_model::response::route::RouteResponse;
use routing_model::response::ResponseStatus;
use routing_model::wire::{Field, Value};

fn field(key: &str, value: Value) -> Field {
    Field { key: key.to_string(), value }
}

#[test]
fn route_response_keeps_grouping_through_round_trip() {
    let r = RouteResponse { code: ResponseStatus::Okay, waypoints: vec![vec![4, 5], vec![4, 5]] };
    let wire = r.to_fields();
    assert_eq!(
        wire,
        vec![
            field("code", Value::Token("Ok".to_string())),
            field("waypoints", Value::Groups(vec![vec![4, 5], vec![4, 5]])),
        ]
    );
    let back = RouteResponse::from_fields(&wire).unwrap();
    assert_eq!(back, r);
    assert_eq!(back.waypoints.len(), 2);
    assert_eq!(back.waypoints[0], vec![4, 5]);
    assert_eq!(back.waypoints[1], vec![4, 5]);
    assert_ne!(back.waypoints, vec![vec![4, 5, 4, 5]]);
}

#[test]
fn route_response_round_trip_with_unmatched_input() {
    let r = RouteResponse {
        code: ResponseStatus::Okay,
        waypoints: vec![vec![], vec![7], vec![], vec![1, 2, 3]],
    };
    assert_eq!(RouteResponse::from_fields(&r.to_fields()), Ok(r));
    let none = RouteResponse { code: ResponseStatus::NoSegment, waypoints: vec![] };
    assert_eq!(RouteResponse::from_fields(&none.to_fields()), Ok(none));
}

#[test]
fn payload_only_under_ok() {
    let ok = RouteResponse { code: ResponseStatus::Okay, waypoints: vec![vec![4, 5]] };
    assert_eq!(ok.payload(), Some(&vec![vec![4, 5]]));
    let bad = RouteResponse { code: ResponseStatus::TooBig, waypoints: vec![vec![4, 5]] };
    assert_eq!(bad.payload(), None);
}

#[test]
fn route_response_without_waypoints_has_none() {
    let wire = vec![field("code", Value::Token("InvalidValue".to_string()))];
    assert_eq!(
        RouteResponse::from_fields(&wire),
        Ok(RouteResponse { code: ResponseStatus::InvalidValue, waypoints: vec![] })
    );
}

#[test]
fn route_response_refusals() {
    // no code
    let wire = vec![field("waypoints", Value::Groups(vec![]))];
    assert_eq!(RouteResponse::from_fields(&wire), Err(ResponseStatus::InvalidQuery));
    // a code that names no status
    let wire = vec![field("code", Value::Token("Fine".to_string()))];
    assert_eq!(RouteResponse::from_fields(&wire), Err(ResponseStatus::InvalidOptions));
    // a foreign key
    let wire = vec![
        field("code", Value::Token("Ok".to_string())),
        field("routes", Value::Groups(vec![])),
    ];
    assert_eq!(RouteResponse::from_fields(&wire), Err(ResponseStatus::InvalidOptions));
    // waypoints of the wrong kind
    let wire = vec![
        field("code", Value::Token("Ok".to_string())),
        field("waypoints", Value::Counts(vec![4, 5])),
    ];
    assert_eq!(RouteResponse::from_fields(&wire), Err(ResponseStatus::InvalidQuery));
}

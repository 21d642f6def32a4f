use routing_model::wire::{Field, Value};
use routing_model::request::{
    Annotation, Format, Gaps, GeometryType, Overview, Profile, Request, Service, ServiceKind,
    Source,
};
use routing_model::response::ResponseStatus;

fn field(key: &str, value: Value) -> Field {
    Field { key: key.to_string(), value }
}

fn token(t: &str) -> Value {
    Value::Token(t.to_string())
}

fn pair(lon: f64, lat: f64) -> (u64, u64) {
    (lon.to_bits(), lat.to_bits())
}

fn envelope(service: &str) -> Vec<Field> {
    vec![
        field("service", token(service)),
        field("profile", token("driving")),
        field("coordinates", Value::Pairs(vec![pair(13.388, 52.517), pair(13.397, 52.529)])),
    ]
}

#[test]
fn new_keeps_every_part() {
    let coordinates = vec![pair(13.388, 52.517), pair(13.397, 52.529), pair(13.428, 52.523)];
    let r = Request::new(
        Service::Nearest { number: Some(3) },
        Some("v1".to_string()),
        Profile::Bike,
        coordinates.clone(),
        Format::FlatBuffers,
    );
    assert_eq!(r.service, Service::Nearest { number: Some(3) });
    assert_eq!(r.version, Some("v1".to_string()));
    assert_eq!(r.profile, Profile::Bike);
    assert_eq!(r.coordinates, coordinates);
    assert_eq!(f64::from_bits(r.coordinates[2].0), 13.428);
    assert_eq!(f64::from_bits(r.coordinates[0].1), 52.517);
    assert_eq!(r.format, Format::FlatBuffers);
}

#[test]
fn coordinates_keep_their_order() {
    let forward = vec![pair(1.0, 2.0), pair(3.0, 4.0), pair(1.0, 2.0), pair(5.0, 6.0)];
    let mut backward = forward.clone();
    backward.reverse();
    let a = Request::new(Service::Tile {}, None, Profile::Car, forward.clone(), Format::Json);
    assert_eq!(a.coordinates, forward);
    let mut fields = envelope("trip");
    fields[2] = field("coordinates", Value::Pairs(backward.clone()));
    fields.push(field("roundtrip", Value::Flag(true)));
    let b = Request::from_fields(&fields).unwrap();
    assert_eq!(b.coordinates, backward);
    assert_ne!(b.coordinates, forward);
}

#[test]
fn route_scenario() {
    let fields = vec![
        field("service", token("route")),
        field("profile", token("driving")),
        field("coordinates", Value::Pairs(vec![pair(13.388, 52.517), pair(13.397, 52.529)])),
        field("format", token("json")),
        field("steps", Value::Flag(false)),
        field("continue_straight", Value::Flag(false)),
    ];
    let r = Request::from_fields(&fields).unwrap();
    assert_eq!(r.coordinates.len(), 2);
    assert_eq!(r.coordinates, vec![pair(13.388, 52.517), pair(13.397, 52.529)]);
    assert_eq!(r.profile, Profile::Car);
    assert_eq!(r.format, Format::Json);
    assert_eq!(r.version, None);
    assert_eq!(
        r.service,
        Service::Route {
            alternatives: None,
            steps: false,
            annotations: None,
            geometries: None,
            overview: None,
            continue_straight: false,
            waypoints: None,
        }
    );
    assert_eq!(r.service.kind(), ServiceKind::Route);
    assert_eq!(r.service.to_string(), "route");
}

#[test]
fn unknown_service_is_refused() {
    let fields = envelope("tableX");
    assert_eq!(Request::from_fields(&fields), Err(ResponseStatus::InvalidService));
}

#[test]
fn route_with_every_option() {
    let mut fields = envelope("route");
    fields.push(field("version", token("v1")));
    fields.push(field("alternatives", Value::Count(2)));
    fields.push(field("steps", Value::Flag(true)));
    fields.push(field(
        "annotations",
        Value::Tokens(vec!["speed".to_string(), "nodes".to_string(), "duration".to_string()]),
    ));
    fields.push(field("geometries", token("geojson")));
    fields.push(field("overview", token("full")));
    fields.push(field("continue_straight", Value::Flag(true)));
    fields.push(field("waypoints", Value::Counts(vec![1, 0])));
    let r = Request::from_fields(&fields).unwrap();
    assert_eq!(r.version, Some("v1".to_string()));
    assert_eq!(
        r.service,
        Service::Route {
            alternatives: Some(2),
            steps: true,
            annotations: Some(vec![Annotation::Speed, Annotation::Nodes, Annotation::Duration]),
            geometries: Some(GeometryType::GeoJson),
            overview: Some(Overview::Full),
            continue_straight: true,
            waypoints: Some(vec![1, 0]),
        }
    );
}

#[test]
fn nearest_with_its_option() {
    let mut fields = envelope("nearest");
    fields.push(field("number", Value::Count(5)));
    let r = Request::from_fields(&fields).unwrap();
    assert_eq!(r.service, Service::Nearest { number: Some(5) });
    let bare = Request::from_fields(&envelope("nearest")).unwrap();
    assert_eq!(bare.service, Service::Nearest { number: None });
}

#[test]
fn table_with_its_options() {
    let mut fields = envelope("table");
    fields.push(field("sources", Value::Counts(vec![0])));
    fields.push(field("destinations", Value::Counts(vec![1, 0])));
    fields.push(field("fallback_speed", Value::Real(12.5f64.to_bits())));
    let r = Request::from_fields(&fields).unwrap();
    assert_eq!(
        r.service,
        Service::Table {
            sources: Some(vec![0]),
            destinations: Some(vec![1, 0]),
            fallback_speed: Some(12.5f64.to_bits()),
        }
    );
}

#[test]
fn match_with_its_options() {
    let mut fields = envelope("match");
    fields.push(field("steps", Value::Flag(true)));
    fields.push(field("geometries", token("polyline6")));
    fields.push(field("annotations", Value::Tokens(vec!["weight".to_string()])));
    fields.push(field("overview", token("false")));
    fields.push(field("timestamps", Value::Counts(vec![1424684612, 1424684616])));
    fields.push(field("radiuses", Value::Reals(vec![5.0f32.to_bits(), 7.5f32.to_bits()])));
    fields.push(field("gaps", token("ignore")));
    fields.push(field("tidy", Value::Flag(true)));
    fields.push(field("waypoints", Value::Counts(vec![0, 1])));
    let r = Request::from_fields(&fields).unwrap();
    assert_eq!(
        r.service,
        Service::Match {
            steps: true,
            geometries: Some(GeometryType::Polyline6),
            annotations: Some(vec![Annotation::Weight]),
            overview: Some(Overview::False),
            timestamps: Some(vec![1424684612, 1424684616]),
            radiuses: Some(vec![5.0f32.to_bits(), 7.5f32.to_bits()]),
            gaps: Some(Gaps::Ignore),
            tidy: true,
            waypoints: Some(vec![0, 1]),
        }
    );
}

#[test]
fn trip_with_its_options() {
    let mut fields = envelope("trip");
    fields.push(field("roundtrip", Value::Flag(false)));
    fields.push(field("source", token("first")));
    fields.push(field("annotations", Value::Tokens(vec![])));
    fields.push(field("geometries", token("polyline")));
    fields.push(field("overview", token("simplified")));
    let r = Request::from_fields(&fields).unwrap();
    assert_eq!(
        r.service,
        Service::Trip {
            roundtrip: false,
            source: Source::First,
            annotations: Some(vec![]),
            geometries: Some(GeometryType::Polyline),
            overview: Some(Overview::Simplified),
        }
    );
}

#[test]
fn tile_has_no_options() {
    let r = Request::from_fields(&envelope("tile")).unwrap();
    assert_eq!(r.service, Service::Tile {});
    assert_eq!(r.service.kind(), ServiceKind::Tile);
    let mut fields = envelope("tile");
    fields.push(field("steps", Value::Flag(true)));
    assert_eq!(Request::from_fields(&fields), Err(ResponseStatus::InvalidOptions));
}

#[test]
fn option_of_another_service_is_invalid_options() {
    let mut route = envelope("route");
    route.push(field("steps", Value::Flag(false)));
    route.push(field("continue_straight", Value::Flag(false)));
    route.push(field("fallback_speed", Value::Real(1.0f64.to_bits())));
    assert_eq!(Request::from_fields(&route), Err(ResponseStatus::InvalidOptions));

    let mut nearest = envelope("nearest");
    nearest.push(field("steps", Value::Flag(false)));
    assert_eq!(Request::from_fields(&nearest), Err(ResponseStatus::InvalidOptions));

    let mut table = envelope("table");
    table.push(field("number", Value::Count(1)));
    assert_eq!(Request::from_fields(&table), Err(ResponseStatus::InvalidOptions));

    let mut matching = envelope("match");
    matching.push(field("steps", Value::Flag(false)));
    matching.push(field("roundtrip", Value::Flag(false)));
    assert_eq!(Request::from_fields(&matching), Err(ResponseStatus::InvalidOptions));

    let mut trip = envelope("trip");
    trip.push(field("roundtrip", Value::Flag(false)));
    trip.push(field("tidy", Value::Flag(false)));
    assert_eq!(Request::from_fields(&trip), Err(ResponseStatus::InvalidOptions));
}

#[test]
fn unknown_key_is_invalid_options() {
    let mut fields = envelope("nearest");
    fields.push(field("colour", token("red")));
    assert_eq!(Request::from_fields(&fields), Err(ResponseStatus::InvalidOptions));
}

#[test]
fn omitted_options_take_their_defaults() {
    let mut trip = envelope("trip");
    trip.push(field("roundtrip", Value::Flag(true)));
    let r = Request::from_fields(&trip).unwrap();
    assert_eq!(r.format, Format::Json);
    assert_eq!(
        r.service,
        Service::Trip {
            roundtrip: true,
            source: Source::Any,
            annotations: None,
            geometries: None,
            overview: None,
        }
    );

    let mut matching = envelope("match");
    matching.push(field("steps", Value::Flag(false)));
    let m = Request::from_fields(&matching).unwrap();
    match m.service {
        Service::Match { gaps, overview, tidy, .. } => {
            assert_eq!(gaps, None);
            assert_eq!(overview, None);
            assert!(!tidy);
            assert_eq!(gaps.unwrap_or_default(), Gaps::Split);
            assert_eq!(overview.unwrap_or_default(), Overview::Simplified);
        }
        _ => panic!("not a match service"),
    }
}

#[test]
fn explicit_format_is_kept() {
    let mut fields = envelope("nearest");
    fields.push(field("format", token("flatbuffers")));
    let r = Request::from_fields(&fields).unwrap();
    assert_eq!(r.format, Format::FlatBuffers);
}

#[test]
fn unknown_token_is_invalid_options() {
    let mut fields = envelope("nearest");
    fields[1] = field("profile", token("car"));
    assert_eq!(Request::from_fields(&fields), Err(ResponseStatus::InvalidOptions));

    let mut fields = envelope("nearest");
    fields.push(field("format", token("xml")));
    assert_eq!(Request::from_fields(&fields), Err(ResponseStatus::InvalidOptions));

    let mut fields = envelope("route");
    fields.push(field("steps", Value::Flag(false)));
    fields.push(field("continue_straight", Value::Flag(false)));
    fields.push(field(
        "annotations",
        Value::Tokens(vec!["speed".to_string(), "true".to_string()]),
    ));
    assert_eq!(Request::from_fields(&fields), Err(ResponseStatus::InvalidOptions));

    let mut fields = envelope("match");
    fields.push(field("steps", Value::Flag(false)));
    fields.push(field("gaps", token("bridge")));
    assert_eq!(Request::from_fields(&fields), Err(ResponseStatus::InvalidOptions));
}

#[test]
fn malformed_input_is_invalid_query() {
    // no service tag
    let fields = vec![
        field("profile", token("driving")),
        field("coordinates", Value::Pairs(vec![pair(1.0, 2.0)])),
    ];
    assert_eq!(Request::from_fields(&fields), Err(ResponseStatus::InvalidQuery));
    assert_eq!(Request::from_fields(&Vec::new()), Err(ResponseStatus::InvalidQuery));

    // a service tag that is no token
    let mut fields = envelope("route");
    fields[0] = field("service", Value::Count(1));
    assert_eq!(Request::from_fields(&fields), Err(ResponseStatus::InvalidQuery));

    // no profile, no coordinates
    let fields = vec![field("service", token("nearest")), field("profile", token("foot"))];
    assert_eq!(Request::from_fields(&fields), Err(ResponseStatus::InvalidQuery));
    let fields = vec![
        field("service", token("nearest")),
        field("coordinates", Value::Pairs(vec![pair(1.0, 2.0)])),
    ];
    assert_eq!(Request::from_fields(&fields), Err(ResponseStatus::InvalidQuery));

    // a required flag is missing
    let mut fields = envelope("route");
    fields.push(field("steps", Value::Flag(false)));
    assert_eq!(Request::from_fields(&fields), Err(ResponseStatus::InvalidQuery));

    // a value of the wrong kind
    let mut fields = envelope("nearest");
    fields.push(field("number", token("three")));
    assert_eq!(Request::from_fields(&fields), Err(ResponseStatus::InvalidQuery));
    let mut fields = envelope("nearest");
    fields.push(field("version", Value::Count(1)));
    assert_eq!(Request::from_fields(&fields), Err(ResponseStatus::InvalidQuery));
}

#[test]
fn first_occurrence_of_a_key_counts() {
    let mut fields = envelope("nearest");
    fields.push(field("number", Value::Count(1)));
    fields.push(field("number", Value::Count(9)));
    let r = Request::from_fields(&fields).unwrap();
    assert_eq!(r.service, Service::Nearest { number: Some(1) });
}

#[test]
fn service_read_alone() {
    let fields = vec![field("number", Value::Count(4)), field("steps", Value::Flag(true))];
    assert_eq!(
        Service::from_fields(ServiceKind::Nearest, &fields),
        Ok(Service::Nearest { number: Some(4) })
    );
    assert_eq!(
        Service::from_fields(ServiceKind::Route, &fields),
        Err(ResponseStatus::InvalidQuery)
    );
    assert_eq!(Service::from_fields(ServiceKind::Tile, &fields), Ok(Service::Tile {}));
}

#[test]
fn wire_form_of_a_route_request() {
    let r = Request::new(
        Service::Route {
            alternatives: None,
            steps: false,
            annotations: None,
            geometries: None,
            overview: None,
            continue_straight: false,
            waypoints: None,
        },
        None,
        Profile::Car,
        vec![pair(13.388, 52.517), pair(13.397, 52.529)],
        Format::Json,
    );
    let wire = r.to_fields();
    assert_eq!(
        wire,
        vec![
            field("service", token("route")),
            field("profile", token("driving")),
            field("coordinates", Value::Pairs(vec![pair(13.388, 52.517), pair(13.397, 52.529)])),
            field("format", token("json")),
            field("steps", Value::Flag(false)),
            field("continue_straight", Value::Flag(false)),
        ]
    );
    assert_eq!(Request::from_fields(&wire), Ok(r));
}

#[test]
fn absent_options_are_left_out_of_the_wire_form() {
    let r = Request::new(
        Service::Match {
            steps: true,
            geometries: None,
            annotations: Some(vec![Annotation::Distance, Annotation::DataSources]),
            overview: None,
            timestamps: None,
            radiuses: Some(vec![2.5f32.to_bits()]),
            gaps: Some(Gaps::Split),
            tidy: false,
            waypoints: None,
        },
        Some("v1".to_string()),
        Profile::Foot,
        vec![pair(1.0, 2.0)],
        Format::FlatBuffers,
    );
    let wire = r.to_fields();
    let keys: Vec<&str> = wire.iter().map(|f| f.key.as_str()).collect();
    assert_eq!(
        keys,
        vec![
            "service",
            "version",
            "profile",
            "coordinates",
            "format",
            "steps",
            "annotations",
            "radiuses",
            "gaps",
            "tidy"
        ]
    );
    assert_eq!(
        wire[6].value,
        Value::Tokens(vec!["distance".to_string(), "datasources".to_string()])
    );
    assert_eq!(wire[8].value, token("split"));
    assert_eq!(Request::from_fields(&wire), Ok(r));
}

#[test]
fn every_service_survives_the_round_trip() {
    let services = vec![
        Service::Route {
            alternatives: Some(3),
            steps: true,
            annotations: Some(vec![Annotation::Speed, Annotation::Weight, Annotation::Nodes]),
            geometries: Some(GeometryType::Polyline6),
            overview: Some(Overview::False),
            continue_straight: true,
            waypoints: Some(vec![2, 0, 1]),
        },
        Service::Nearest { number: Some(7) },
        Service::Nearest { number: None },
        Service::Table {
            sources: Some(vec![0, 2]),
            destinations: None,
            fallback_speed: Some(25.0f64.to_bits()),
        },
        Service::Match {
            steps: false,
            geometries: Some(GeometryType::GeoJson),
            annotations: Some(vec![]),
            overview: Some(Overview::Full),
            timestamps: Some(vec![10, 20, 30]),
            radiuses: Some(vec![1.0f32.to_bits(), 2.0f32.to_bits(), 3.0f32.to_bits()]),
            gaps: Some(Gaps::Ignore),
            tidy: true,
            waypoints: Some(vec![0, 2]),
        },
        Service::Trip {
            roundtrip: true,
            source: Source::First,
            annotations: Some(vec![Annotation::Duration]),
            geometries: None,
            overview: Some(Overview::Simplified),
        },
        Service::Trip {
            roundtrip: false,
            source: Source::Any,
            annotations: None,
            geometries: None,
            overview: None,
        },
        Service::Tile {},
    ];
    for service in services {
        let r = Request::new(
            service,
            Some("v1".to_string()),
            Profile::Bike,
            vec![pair(3.0, 4.0), pair(1.0, 2.0), pair(3.0, 4.0)],
            Format::FlatBuffers,
        );
        assert_eq!(Request::from_fields(&r.to_fields()), Ok(r));
    }
}

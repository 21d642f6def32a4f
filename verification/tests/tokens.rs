use routing_model::request::{
    Annotation, Format, Gaps, GeometryType, Overview, Profile, ServiceKind, Source,
};
use routing_model::response::ResponseStatus;
use routing_model::text::same_text;

#[test]
fn same_text_compares_characters() {
    assert!(same_text("route", "route"));
    assert!(same_text("", ""));
    assert!(!same_text("route", "routes"));
    assert!(!same_text("split", "first"));
    assert!(same_text("grüße", "grüße"));
    assert!(!same_text("grüße", "grusse"));
}

#[test]
fn geometry_type_tokens() {
    assert_eq!(GeometryType::Polyline.to_string(), "polyline");
    assert_eq!(GeometryType::Polyline6.to_string(), "polyline6");
    assert_eq!(GeometryType::GeoJson.to_string(), "geojson");
    assert_eq!(GeometryType::GeoJson.as_str(), "geojson");
}

#[test]
fn geometry_type_round_trip() {
    for v in [GeometryType::Polyline, GeometryType::Polyline6, GeometryType::GeoJson] {
        assert_eq!(GeometryType::from_token(&v.to_string()), Ok(v));
    }
    assert_eq!(GeometryType::from_token("GeoJson"), Err(ResponseStatus::InvalidOptions));
    assert_eq!(GeometryType::from_token(""), Err(ResponseStatus::InvalidOptions));
}

#[test]
fn annotation_tokens() {
    assert_eq!(Annotation::Duration.to_string(), "duration");
    assert_eq!(Annotation::Distance.to_string(), "distance");
    assert_eq!(Annotation::Nodes.to_string(), "nodes");
    assert_eq!(Annotation::DataSources.to_string(), "datasources");
    assert_eq!(Annotation::Weight.to_string(), "weight");
    assert_eq!(Annotation::Speed.to_string(), "speed");
}

#[test]
fn annotation_round_trip() {
    let all = [
        Annotation::Duration,
        Annotation::Distance,
        Annotation::Nodes,
        Annotation::DataSources,
        Annotation::Weight,
        Annotation::Speed,
    ];
    for v in all {
        assert_eq!(Annotation::from_token(v.as_str()), Ok(v));
    }
    for (i, a) in all.iter().enumerate() {
        for (j, b) in all.iter().enumerate() {
            assert_eq!(i == j, a.as_str() == b.as_str());
        }
    }
    assert_eq!(Annotation::from_token("true"), Err(ResponseStatus::InvalidOptions));
}

#[test]
fn overview_tokens_and_round_trip() {
    assert_eq!(Overview::Simplified.to_string(), "simplified");
    assert_eq!(Overview::Full.to_string(), "full");
    assert_eq!(Overview::False.to_string(), "false");
    for v in [Overview::Simplified, Overview::Full, Overview::False] {
        assert_eq!(Overview::from_token(v.as_str()), Ok(v));
    }
    assert_eq!(Overview::from_token("none"), Err(ResponseStatus::InvalidOptions));
}

#[test]
fn gaps_tokens_and_round_trip() {
    assert_eq!(Gaps::Split.to_string(), "split");
    assert_eq!(Gaps::Ignore.to_string(), "ignore");
    for v in [Gaps::Split, Gaps::Ignore] {
        assert_eq!(Gaps::from_token(v.as_str()), Ok(v));
    }
    assert_eq!(Gaps::from_token("Split"), Err(ResponseStatus::InvalidOptions));
}

#[test]
fn source_tokens_and_round_trip() {
    assert_eq!(Source::Any.to_string(), "any");
    assert_eq!(Source::First.to_string(), "first");
    for v in [Source::Any, Source::First] {
        assert_eq!(Source::from_token(v.as_str()), Ok(v));
    }
    assert_eq!(Source::from_token("last"), Err(ResponseStatus::InvalidOptions));
}

#[test]
fn profile_tokens_and_round_trip() {
    assert_eq!(Profile::Car.to_string(), "driving");
    assert_eq!(Profile::Bike.to_string(), "bike");
    assert_eq!(Profile::Foot.to_string(), "foot");
    for v in [Profile::Car, Profile::Bike, Profile::Foot] {
        assert_eq!(Profile::from_token(v.as_str()), Ok(v));
    }
    assert_eq!(Profile::from_token("car"), Err(ResponseStatus::InvalidOptions));
}

#[test]
fn format_tokens_and_round_trip() {
    assert_eq!(Format::Json.to_string(), "json");
    assert_eq!(Format::FlatBuffers.to_string(), "flatbuffers");
    for v in [Format::Json, Format::FlatBuffers] {
        assert_eq!(Format::from_token(v.as_str()), Ok(v));
    }
    assert_eq!(Format::from_token("xml"), Err(ResponseStatus::InvalidOptions));
}

#[test]
fn service_kind_tokens_and_round_trip() {
    assert_eq!(ServiceKind::Route.to_string(), "route");
    assert_eq!(ServiceKind::Nearest.to_string(), "nearest");
    assert_eq!(ServiceKind::Table.to_string(), "table");
    assert_eq!(ServiceKind::Match.to_string(), "match");
    assert_eq!(ServiceKind::Trip.to_string(), "trip");
    assert_eq!(ServiceKind::Tile.to_string(), "tile");
    let all = [
        ServiceKind::Route,
        ServiceKind::Nearest,
        ServiceKind::Table,
        ServiceKind::Match,
        ServiceKind::Trip,
        ServiceKind::Tile,
    ];
    for v in all {
        assert_eq!(ServiceKind::from_token(v.as_str()), Ok(v));
    }
}

#[test]
fn unknown_service_tag_is_invalid_service() {
    assert_eq!(ServiceKind::from_token("tableX"), Err(ResponseStatus::InvalidService));
    assert_eq!(ServiceKind::from_token("Route"), Err(ResponseStatus::InvalidService));
}

#[test]
fn response_status_tokens_and_round_trip() {
    let all = [
        (ResponseStatus::Okay, "Ok"),
        (ResponseStatus::InvalidUrl, "InvalidUrl"),
        (ResponseStatus::InvalidService, "InvalidService"),
        (ResponseStatus::InvalidVersion, "InvalidVersion"),
        (ResponseStatus::InvalidOptions, "InvalidOptions"),
        (ResponseStatus::InvalidQuery, "InvalidQuery"),
        (ResponseStatus::InvalidValue, "InvalidValue"),
        (ResponseStatus::NoSegment, "NoSegment"),
        (ResponseStatus::TooBig, "TooBig"),
    ];
    for (v, t) in all {
        assert_eq!(v.to_string(), t);
        assert_eq!(v.as_str(), t);
        assert_eq!(ResponseStatus::from_token(t), Ok(v));
    }
    assert_eq!(ResponseStatus::from_token("ok"), Err(ResponseStatus::InvalidOptions));
}

#[test]
fn only_ok_carries_a_payload() {
    assert!(ResponseStatus::Okay.is_ok());
    assert!(!ResponseStatus::NoSegment.is_ok());
    assert!(!ResponseStatus::InvalidQuery.is_ok());
    assert!(!ResponseStatus::TooBig.is_ok());
}

#[test]
fn defaults() {
    assert_eq!(Overview::default(), Overview::Simplified);
    assert_eq!(Gaps::default(), Gaps::Split);
    assert_eq!(Source::default(), Source::Any);
    assert_eq!(Format::default(), Format::Json);
}

#[test]
fn declared_options_per_service() {
    assert!(ServiceKind::Route.declares_key("continue_straight"));
    assert!(ServiceKind::Route.declares_key("waypoints"));
    assert!(!ServiceKind::Route.declares_key("fallback_speed"));
    assert!(ServiceKind::Nearest.declares_key("number"));
    assert!(!ServiceKind::Nearest.declares_key("steps"));
    assert!(ServiceKind::Table.declares_key("fallback_speed"));
    assert!(ServiceKind::Match.declares_key("gaps"));
    assert!(ServiceKind::Match.declares_key("tidy"));
    assert!(!ServiceKind::Match.declares_key("roundtrip"));
    assert!(ServiceKind::Trip.declares_key("source"));
    assert!(!ServiceKind::Trip.declares_key("steps"));
    assert!(!ServiceKind::Tile.declares_key("steps"));
}

#[test]
fn tile_is_reserved() {
    assert!(!ServiceKind::Tile.is_implemented());
    assert!(ServiceKind::Route.is_implemented());
    assert!(ServiceKind::Nearest.is_implemented());
    assert!(ServiceKind::Table.is_implemented());
    assert!(ServiceKind::Match.is_implemented());
    assert!(ServiceKind::Trip.is_implemented());
}

//! Request side of the model: the option enumerations, the services with
//! their option sets, and the request envelope.

use crate::response::ResponseStatus;
use crate::text::same_text;
use vstd::prelude::*;
use vstd::string::*;

pub mod fields;

verus! {

/// Encoding of the geometry returned with a route.
#[derive(Clone, Copy, Debug, PartialEq, Eq, Structural)]
pub enum GeometryType {
    /// Polyline with a precision of five decimal places. Token `polyline`.
    Polyline,
    /// Polyline with a precision of six decimal places. Token `polyline6`.
    Polyline6,
    /// GeoJSON line string. Token `geojson`.
    GeoJson,
}

impl GeometryType {
    /// The canonical wire token of a variant.
    pub open spec fn token(self) -> Seq<char> {
        match self {
            GeometryType::Polyline => "polyline"@,
            GeometryType::Polyline6 => "polyline6"@,
            GeometryType::GeoJson => "geojson"@,
        }
    }

    /// The variant that a token names, if any.
    pub open spec fn parse(t: Seq<char>) -> Option<GeometryType> {
        if t == "polyline"@ {
            Some(GeometryType::Polyline)
        } else if t == "polyline6"@ {
            Some(GeometryType::Polyline6)
        } else if t == "geojson"@ {
            Some(GeometryType::GeoJson)
        } else {
            None
        }
    }

    /// The wire token as a static string slice.
    pub fn as_str(&self) -> (s: &'static str)
        ensures
            s@ == self.token(),
    {
        match self {
            GeometryType::Polyline => "polyline",
            GeometryType::Polyline6 => "polyline6",
            GeometryType::GeoJson => "geojson",
        }
    }

    /// The wire token as an owned string.
    pub fn to_string(&self) -> (s: String)
        ensures
            s@ == self.token(),
    {
        self.as_str().to_owned()
    }

    /// Reads a geometry encoding from its wire token. A token outside the closed set is
    /// refused as `InvalidOptions`.
    pub fn from_token(t: &str) -> (r: Result<GeometryType, ResponseStatus>)
        ensures
            r == match GeometryType::parse(t@) {
                Some(v) => Ok::<GeometryType, ResponseStatus>(v),
                None => Err(ResponseStatus::InvalidOptions),
            },
    {
        if same_text(t, "polyline") {
            Ok(GeometryType::Polyline)
        } else if same_text(t, "polyline6") {
            Ok(GeometryType::Polyline6)
        } else if same_text(t, "geojson") {
            Ok(GeometryType::GeoJson)
        } else {
            Err(ResponseStatus::InvalidOptions)
        }
    }

    /// Rendering a variant and reading the token back gives the variant again,
    /// and a token that reads as a variant is that variant's own token.
    pub proof fn lemma_token_round_trip(v: GeometryType)
        ensures
            GeometryType::parse(v.token()) == Some(v),
            forall|t: Seq<char>| GeometryType::parse(t) == Some(v) ==> t == v.token(),
    {
        reveal_strlit("polyline");
        reveal_strlit("polyline6");
        reveal_strlit("geojson");
        assert("polyline"@.len() == 8);
        assert("polyline6"@.len() == 9);
        assert("geojson"@.len() == 7);
    }
}

/// Additional per-edge metric attached to route output.
///
/// The set is closed and every variant has a token of its own, so that a
/// token names exactly one annotation.
#[derive(Clone, Copy, Debug, PartialEq, Eq, Structural)]
pub enum Annotation {
    /// Duration of each edge, in seconds. Token `duration`.
    Duration,
    /// Length of each edge, in meters. Token `distance`.
    Distance,
    /// Identifiers of the nodes along the route. Token `nodes`.
    Nodes,
    /// Index of the data source of each edge's speed. Token `datasources`.
    DataSources,
    /// Routing weight of each edge. Token `weight`.
    Weight,
    /// Speed on each edge. Token `speed`.
    Speed,
}

impl Annotation {
    /// The canonical wire token of a variant.
    pub open spec fn token(self) -> Seq<char> {
        match self {
            Annotation::Duration => "duration"@,
            Annotation::Distance => "distance"@,
            Annotation::Nodes => "nodes"@,
            Annotation::DataSources => "datasources"@,
            Annotation::Weight => "weight"@,
            Annotation::Speed => "speed"@,
        }
    }

    /// The variant that a token names, if any.
    pub open spec fn parse(t: Seq<char>) -> Option<Annotation> {
        if t == "duration"@ {
            Some(Annotation::Duration)
        } else if t == "distance"@ {
            Some(Annotation::Distance)
        } else if t == "nodes"@ {
            Some(Annotation::Nodes)
        } else if t == "datasources"@ {
            Some(Annotation::DataSources)
        } else if t == "weight"@ {
            Some(Annotation::Weight)
        } else if t == "speed"@ {
            Some(Annotation::Speed)
        } else {
            None
        }
    }

    /// The wire token as a static string slice.
    pub fn as_str(&self) -> (s: &'static str)
        ensures
            s@ == self.token(),
    {
        match self {
            Annotation::Duration => "duration",
            Annotation::Distance => "distance",
            Annotation::Nodes => "nodes",
            Annotation::DataSources => "datasources",
            Annotation::Weight => "weight",
            Annotation::Speed => "speed",
        }
    }

    /// The wire token as an owned string.
    pub fn to_string(&self) -> (s: String)
        ensures
            s@ == self.token(),
    {
        self.as_str().to_owned()
    }

    /// Reads an annotation from its wire token. A token outside the closed set is
    /// refused as `InvalidOptions`.
    pub fn from_token(t: &str) -> (r: Result<Annotation, ResponseStatus>)
        ensures
            r == match Annotation::parse(t@) {
                Some(v) => Ok::<Annotation, ResponseStatus>(v),
                None => Err(ResponseStatus::InvalidOptions),
            },
    {
        if same_text(t, "duration") {
            Ok(Annotation::Duration)
        } else if same_text(t, "distance") {
            Ok(Annotation::Distance)
        } else if same_text(t, "nodes") {
            Ok(Annotation::Nodes)
        } else if same_text(t, "datasources") {
            Ok(Annotation::DataSources)
        } else if same_text(t, "weight") {
            Ok(Annotation::Weight)
        } else if same_text(t, "speed") {
            Ok(Annotation::Speed)
        } else {
            Err(ResponseStatus::InvalidOptions)
        }
    }

    /// Rendering a variant and reading the token back gives the variant again,
    /// and a token that reads as a variant is that variant's own token.
    pub proof fn lemma_token_round_trip(v: Annotation)
        ensures
            Annotation::parse(v.token()) == Some(v),
            forall|t: Seq<char>| Annotation::parse(t) == Some(v) ==> t == v.token(),
    {
        reveal_strlit("duration");
        reveal_strlit("distance");
        reveal_strlit("nodes");
        reveal_strlit("datasources");
        reveal_strlit("weight");
        reveal_strlit("speed");
        assert("duration"@.len() == 8);
        assert("distance"@.len() == 8);
        assert("nodes"@.len() == 5);
        assert("datasources"@.len() == 11);
        assert("weight"@.len() == 6);
        assert("speed"@.len() == 5);
        assert("duration"@[1] != "distance"@[1]);
        assert("nodes"@[0] != "speed"@[0]);
    }
}

/// Level of detail of the geometry returned for a whole route.
#[derive(Clone, Copy, Debug, PartialEq, Eq, Structural)]
pub enum Overview {
    /// Geometry simplified to the highest zoom level it could be shown at. Token `simplified`.
    Simplified,
    /// Geometry in full detail. Token `full`.
    Full,
    /// No overview geometry. Token `false`.
    False,
}

impl Overview {
    /// The canonical wire token of a variant.
    pub open spec fn token(self) -> Seq<char> {
        match self {
            Overview::Simplified => "simplified"@,
            Overview::Full => "full"@,
            Overview::False => "false"@,
        }
    }

    /// The variant that a token names, if any.
    pub open spec fn parse(t: Seq<char>) -> Option<Overview> {
        if t == "simplified"@ {
            Some(Overview::Simplified)
        } else if t == "full"@ {
            Some(Overview::Full)
        } else if t == "false"@ {
            Some(Overview::False)
        } else {
            None
        }
    }

    /// The wire token as a static string slice.
    pub fn as_str(&self) -> (s: &'static str)
        ensures
            s@ == self.token(),
    {
        match self {
            Overview::Simplified => "simplified",
            Overview::Full => "full",
            Overview::False => "false",
        }
    }

    /// The wire token as an owned string.
    pub fn to_string(&self) -> (s: String)
        ensures
            s@ == self.token(),
    {
        self.as_str().to_owned()
    }

    /// Reads an overview level from its wire token. A token outside the closed set is
    /// refused as `InvalidOptions`.
    pub fn from_token(t: &str) -> (r: Result<Overview, ResponseStatus>)
        ensures
            r == match Overview::parse(t@) {
                Some(v) => Ok::<Overview, ResponseStatus>(v),
                None => Err(ResponseStatus::InvalidOptions),
            },
    {
        if same_text(t, "simplified") {
            Ok(Overview::Simplified)
        } else if same_text(t, "full") {
            Ok(Overview::Full)
        } else if same_text(t, "false") {
            Ok(Overview::False)
        } else {
            Err(ResponseStatus::InvalidOptions)
        }
    }

    /// Rendering a variant and reading the token back gives the variant again,
    /// and a token that reads as a variant is that variant's own token.
    pub proof fn lemma_token_round_trip(v: Overview)
        ensures
            Overview::parse(v.token()) == Some(v),
            forall|t: Seq<char>| Overview::parse(t) == Some(v) ==> t == v.token(),
    {
        reveal_strlit("simplified");
        reveal_strlit("full");
        reveal_strlit("false");
        assert("simplified"@.len() == 10);
        assert("full"@.len() == 4);
        assert("false"@.len() == 5);
    }
}

impl Default for Overview {
    /// `Simplified` is what holds where nothing was asked for.
    fn default() -> (r: Overview)
        ensures
            r == Overview::Simplified,
    {
        Overview::Simplified
    }
}

/// How map matching handles low-confidence segments of a trace.
#[derive(Clone, Copy, Debug, PartialEq, Eq, Structural)]
pub enum Gaps {
    /// Split the trace into sub-traces. Token `split`.
    Split,
    /// Ignore the gap and bridge it. Token `ignore`.
    Ignore,
}

impl Gaps {
    /// The canonical wire token of a variant.
    pub open spec fn token(self) -> Seq<char> {
        match self {
            Gaps::Split => "split"@,
            Gaps::Ignore => "ignore"@,
        }
    }

    /// The variant that a token names, if any.
    pub open spec fn parse(t: Seq<char>) -> Option<Gaps> {
        if t == "split"@ {
            Some(Gaps::Split)
        } else if t == "ignore"@ {
            Some(Gaps::Ignore)
        } else {
            None
        }
    }

    /// The wire token as a static string slice.
    pub fn as_str(&self) -> (s: &'static str)
        ensures
            s@ == self.token(),
    {
        match self {
            Gaps::Split => "split",
            Gaps::Ignore => "ignore",
        }
    }

    /// The wire token as an owned string.
    pub fn to_string(&self) -> (s: String)
        ensures
            s@ == self.token(),
    {
        self.as_str().to_owned()
    }

    /// Reads a gap policy from its wire token. A token outside the closed set is
    /// refused as `InvalidOptions`.
    pub fn from_token(t: &str) -> (r: Result<Gaps, ResponseStatus>)
        ensures
            r == match Gaps::parse(t@) {
                Some(v) => Ok::<Gaps, ResponseStatus>(v),
                None => Err(ResponseStatus::InvalidOptions),
            },
    {
        if same_text(t, "split") {
            Ok(Gaps::Split)
        } else if same_text(t, "ignore") {
            Ok(Gaps::Ignore)
        } else {
            Err(ResponseStatus::InvalidOptions)
        }
    }

    /// Rendering a variant and reading the token back gives the variant again,
    /// and a token that reads as a variant is that variant's own token.
    pub proof fn lemma_token_round_trip(v: Gaps)
        ensures
            Gaps::parse(v.token()) == Some(v),
            forall|t: Seq<char>| Gaps::parse(t) == Some(v) ==> t == v.token(),
    {
        reveal_strlit("split");
        reveal_strlit("ignore");
        assert("split"@.len() == 5);
        assert("ignore"@.len() == 6);
    }
}

impl Default for Gaps {
    /// `Split` is what holds where nothing was asked for.
    fn default() -> (r: Gaps)
        ensures
            r == Gaps::Split,
    {
        Gaps::Split
    }
}

/// Which input coordinate anchors a computed trip.
#[derive(Clone, Copy, Debug, PartialEq, Eq, Structural)]
pub enum Source {
    /// Any coordinate may start the trip. Token `any`.
    Any,
    /// The first coordinate starts the trip. Token `first`.
    First,
}

impl Source {
    /// The canonical wire token of a variant.
    pub open spec fn token(self) -> Seq<char> {
        match self {
            Source::Any => "any"@,
            Source::First => "first"@,
        }
    }

    /// The variant that a token names, if any.
    pub open spec fn parse(t: Seq<char>) -> Option<Source> {
        if t == "any"@ {
            Some(Source::Any)
        } else if t == "first"@ {
            Some(Source::First)
        } else {
            None
        }
    }

    /// The wire token as a static string slice.
    pub fn as_str(&self) -> (s: &'static str)
        ensures
            s@ == self.token(),
    {
        match self {
            Source::Any => "any",
            Source::First => "first",
        }
    }

    /// The wire token as an owned string.
    pub fn to_string(&self) -> (s: String)
        ensures
            s@ == self.token(),
    {
        self.as_str().to_owned()
    }

    /// Reads a trip source from its wire token. A token outside the closed set is
    /// refused as `InvalidOptions`.
    pub fn from_token(t: &str) -> (r: Result<Source, ResponseStatus>)
        ensures
            r == match Source::parse(t@) {
                Some(v) => Ok::<Source, ResponseStatus>(v),
                None => Err(ResponseStatus::InvalidOptions),
            },
    {
        if same_text(t, "any") {
            Ok(Source::Any)
        } else if same_text(t, "first") {
            Ok(Source::First)
        } else {
            Err(ResponseStatus::InvalidOptions)
        }
    }

    /// Rendering a variant and reading the token back gives the variant again,
    /// and a token that reads as a variant is that variant's own token.
    pub proof fn lemma_token_round_trip(v: Source)
        ensures
            Source::parse(v.token()) == Some(v),
            forall|t: Seq<char>| Source::parse(t) == Some(v) ==> t == v.token(),
    {
        reveal_strlit("any");
        reveal_strlit("first");
        assert("any"@.len() == 3);
        assert("first"@.len() == 5);
    }
}

impl Default for Source {
    /// `Any` is what holds where nothing was asked for.
    fn default() -> (r: Source)
        ensures
            r == Source::Any,
    {
        Source::Any
    }
}

/// Travel mode, which determines the routing cost weights.
#[derive(Clone, Copy, Debug, PartialEq, Eq, Structural)]
pub enum Profile {
    /// Travel by car. Token `driving`.
    Car,
    /// Travel by bicycle. Token `bike`.
    Bike,
    /// Travel on foot. Token `foot`.
    Foot,
}

impl Profile {
    /// The canonical wire token of a variant.
    pub open spec fn token(self) -> Seq<char> {
        match self {
            Profile::Car => "driving"@,
            Profile::Bike => "bike"@,
            Profile::Foot => "foot"@,
        }
    }

    /// The variant that a token names, if any.
    pub open spec fn parse(t: Seq<char>) -> Option<Profile> {
        if t == "driving"@ {
            Some(Profile::Car)
        } else if t == "bike"@ {
            Some(Profile::Bike)
        } else if t == "foot"@ {
            Some(Profile::Foot)
        } else {
            None
        }
    }

    /// The wire token as a static string slice.
    pub fn as_str(&self) -> (s: &'static str)
        ensures
            s@ == self.token(),
    {
        match self {
            Profile::Car => "driving",
            Profile::Bike => "bike",
            Profile::Foot => "foot",
        }
    }

    /// The wire token as an owned string.
    pub fn to_string(&self) -> (s: String)
        ensures
            s@ == self.token(),
    {
        self.as_str().to_owned()
    }

    /// Reads a profile from its wire token. A token outside the closed set is
    /// refused as `InvalidOptions`.
    pub fn from_token(t: &str) -> (r: Result<Profile, ResponseStatus>)
        ensures
            r == match Profile::parse(t@) {
                Some(v) => Ok::<Profile, ResponseStatus>(v),
                None => Err(ResponseStatus::InvalidOptions),
            },
    {
        if same_text(t, "driving") {
            Ok(Profile::Car)
        } else if same_text(t, "bike") {
            Ok(Profile::Bike)
        } else if same_text(t, "foot") {
            Ok(Profile::Foot)
        } else {
            Err(ResponseStatus::InvalidOptions)
        }
    }

    /// Rendering a variant and reading the token back gives the variant again,
    /// and a token that reads as a variant is that variant's own token.
    pub proof fn lemma_token_round_trip(v: Profile)
        ensures
            Profile::parse(v.token()) == Some(v),
            forall|t: Seq<char>| Profile::parse(t) == Some(v) ==> t == v.token(),
    {
        reveal_strlit("driving");
        reveal_strlit("bike");
        reveal_strlit("foot");
        assert("driving"@.len() == 7);
        assert("bike"@.len() == 4);
        assert("foot"@.len() == 4);
        assert("bike"@[0] != "foot"@[0]);
    }
}

/// Encoding of the response.
#[derive(Clone, Copy, Debug, PartialEq, Eq, Structural)]
pub enum Format {
    /// JSON. Token `json`.
    Json,
    /// FlatBuffers. Token `flatbuffers`.
    FlatBuffers,
}

impl Format {
    /// The canonical wire token of a variant.
    pub open spec fn token(self) -> Seq<char> {
        match self {
            Format::Json => "json"@,
            Format::FlatBuffers => "flatbuffers"@,
        }
    }

    /// The variant that a token names, if any.
    pub open spec fn parse(t: Seq<char>) -> Option<Format> {
        if t == "json"@ {
            Some(Format::Json)
        } else if t == "flatbuffers"@ {
            Some(Format::FlatBuffers)
        } else {
            None
        }
    }

    /// The wire token as a static string slice.
    pub fn as_str(&self) -> (s: &'static str)
        ensures
            s@ == self.token(),
    {
        match self {
            Format::Json => "json",
            Format::FlatBuffers => "flatbuffers",
        }
    }

    /// The wire token as an owned string.
    pub fn to_string(&self) -> (s: String)
        ensures
            s@ == self.token(),
    {
        self.as_str().to_owned()
    }

    /// Reads a format from its wire token. A token outside the closed set is
    /// refused as `InvalidOptions`.
    pub fn from_token(t: &str) -> (r: Result<Format, ResponseStatus>)
        ensures
            r == match Format::parse(t@) {
                Some(v) => Ok::<Format, ResponseStatus>(v),
                None => Err(ResponseStatus::InvalidOptions),
            },
    {
        if same_text(t, "json") {
            Ok(Format::Json)
        } else if same_text(t, "flatbuffers") {
            Ok(Format::FlatBuffers)
        } else {
            Err(ResponseStatus::InvalidOptions)
        }
    }

    /// Rendering a variant and reading the token back gives the variant again,
    /// and a token that reads as a variant is that variant's own token.
    pub proof fn lemma_token_round_trip(v: Format)
        ensures
            Format::parse(v.token()) == Some(v),
            forall|t: Seq<char>| Format::parse(t) == Some(v) ==> t == v.token(),
    {
        reveal_strlit("json");
        reveal_strlit("flatbuffers");
        assert("json"@.len() == 4);
        assert("flatbuffers"@.len() == 11);
    }
}

impl Default for Format {
    /// `Json` is what holds where nothing was asked for.
    fn default() -> (r: Format)
        ensures
            r == Format::Json,
    {
        Format::Json
    }
}
/// The discriminant of a service: which of the services a request asks for.
#[derive(Clone, Copy, Debug, PartialEq, Eq, Structural)]
pub enum ServiceKind {
    /// Fastest route through the coordinates in the supplied order. Token `route`.
    Route,
    /// Snaps a coordinate to the street network and returns the nearest matches. Token `nearest`.
    Nearest,
    /// Duration or distance of the fastest route between all pairs of coordinates. Token `table`.
    Table,
    /// Snaps the points of a GPS trace to the road network. Token `match`.
    Match,
    /// Approximate round trip through all coordinates. Token `trip`.
    Trip,
    /// Vector tiles of the routing graph; reserved. Token `tile`.
    Tile,
}

impl ServiceKind {
    /// The canonical wire token of a variant.
    pub open spec fn token(self) -> Seq<char> {
        match self {
            ServiceKind::Route => "route"@,
            ServiceKind::Nearest => "nearest"@,
            ServiceKind::Table => "table"@,
            ServiceKind::Match => "match"@,
            ServiceKind::Trip => "trip"@,
            ServiceKind::Tile => "tile"@,
        }
    }

    /// The variant that a token names, if any.
    pub open spec fn parse(t: Seq<char>) -> Option<ServiceKind> {
        if t == "route"@ {
            Some(ServiceKind::Route)
        } else if t == "nearest"@ {
            Some(ServiceKind::Nearest)
        } else if t == "table"@ {
            Some(ServiceKind::Table)
        } else if t == "match"@ {
            Some(ServiceKind::Match)
        } else if t == "trip"@ {
            Some(ServiceKind::Trip)
        } else if t == "tile"@ {
            Some(ServiceKind::Tile)
        } else {
            None
        }
    }

    /// The wire token as a static string slice.
    pub fn as_str(&self) -> (s: &'static str)
        ensures
            s@ == self.token(),
    {
        match self {
            ServiceKind::Route => "route",
            ServiceKind::Nearest => "nearest",
            ServiceKind::Table => "table",
            ServiceKind::Match => "match",
            ServiceKind::Trip => "trip",
            ServiceKind::Tile => "tile",
        }
    }

    /// The wire token as an owned string.
    pub fn to_string(&self) -> (s: String)
        ensures
            s@ == self.token(),
    {
        self.as_str().to_owned()
    }

    /// Reads a service tag from its wire token. A token outside the closed set is
    /// refused as `InvalidService`.
    pub fn from_token(t: &str) -> (r: Result<ServiceKind, ResponseStatus>)
        ensures
            r == match ServiceKind::parse(t@) {
                Some(v) => Ok::<ServiceKind, ResponseStatus>(v),
                None => Err(ResponseStatus::InvalidService),
            },
    {
        if same_text(t, "route") {
            Ok(ServiceKind::Route)
        } else if same_text(t, "nearest") {
            Ok(ServiceKind::Nearest)
        } else if same_text(t, "table") {
            Ok(ServiceKind::Table)
        } else if same_text(t, "match") {
            Ok(ServiceKind::Match)
        } else if same_text(t, "trip") {
            Ok(ServiceKind::Trip)
        } else if same_text(t, "tile") {
            Ok(ServiceKind::Tile)
        } else {
            Err(ResponseStatus::InvalidService)
        }
    }

    /// Rendering a variant and reading the token back gives the variant again,
    /// and a token that reads as a variant is that variant's own token.
    pub proof fn lemma_token_round_trip(v: ServiceKind)
        ensures
            ServiceKind::parse(v.token()) == Some(v),
            forall|t: Seq<char>| ServiceKind::parse(t) == Some(v) ==> t == v.token(),
    {
        reveal_strlit("route");
        reveal_strlit("nearest");
        reveal_strlit("table");
        reveal_strlit("match");
        reveal_strlit("trip");
        reveal_strlit("tile");
        assert("route"@.len() == 5);
        assert("nearest"@.len() == 7);
        assert("table"@.len() == 5);
        assert("match"@.len() == 5);
        assert("trip"@.len() == 4);
        assert("tile"@.len() == 4);
        assert("route"@[0] != "table"@[0]);
        assert("route"@[0] != "match"@[0]);
        assert("table"@[0] != "match"@[0]);
        assert("trip"@[1] != "tile"@[1]);
    }
}

impl ServiceKind {
    /// Whether the service can be asked for. `Tile` is reserved: it can be
    /// named in a request, and a dispatcher refuses it.
    pub fn is_implemented(&self) -> (r: bool)
        ensures
            r == (*self != ServiceKind::Tile),
    {
        match self {
            ServiceKind::Tile => false,
            _ => true,
        }
    }

    /// Whether `key` names an option that this service declares.
    pub open spec fn declares(self, key: Seq<char>) -> bool {
        match self {
            ServiceKind::Route => {
                key == "alternatives"@ || key == "steps"@ || key == "annotations"@ || key
                    == "geometries"@ || key == "overview"@ || key == "continue_straight"@ || key
                    == "waypoints"@
            },
            ServiceKind::Nearest => key == "number"@,
            ServiceKind::Table => {
                key == "sources"@ || key == "destinations"@ || key == "fallback_speed"@
            },
            ServiceKind::Match => {
                key == "steps"@ || key == "geometries"@ || key == "annotations"@ || key
                    == "overview"@ || key == "timestamps"@ || key == "radiuses"@ || key == "gaps"@
                    || key == "tidy"@ || key == "waypoints"@
            },
            ServiceKind::Trip => {
                key == "roundtrip"@ || key == "source"@ || key == "annotations"@ || key
                    == "geometries"@ || key == "overview"@
            },
            ServiceKind::Tile => false,
        }
    }

    /// Whether `key` names an option that this service declares.
    pub fn declares_key(&self, key: &str) -> (r: bool)
        ensures
            r == self.declares(key@),
    {
        match self {
            ServiceKind::Route => {
                same_text(key, "alternatives") || same_text(key, "steps") || same_text(
                    key,
                    "annotations",
                ) || same_text(key, "geometries") || same_text(key, "overview") || same_text(
                    key,
                    "continue_straight",
                ) || same_text(key, "waypoints")
            },
            ServiceKind::Nearest => same_text(key, "number"),
            ServiceKind::Table => {
                same_text(key, "sources") || same_text(key, "destinations") || same_text(
                    key,
                    "fallback_speed",
                )
            },
            ServiceKind::Match => {
                same_text(key, "steps") || same_text(key, "geometries") || same_text(
                    key,
                    "annotations",
                ) || same_text(key, "overview") || same_text(key, "timestamps") || same_text(
                    key,
                    "radiuses",
                ) || same_text(key, "gaps") || same_text(key, "tidy") || same_text(
                    key,
                    "waypoints",
                )
            },
            ServiceKind::Trip => {
                same_text(key, "roundtrip") || same_text(key, "source") || same_text(
                    key,
                    "annotations",
                ) || same_text(key, "geometries") || same_text(key, "overview")
            },
            ServiceKind::Tile => false,
        }
    }
}

/// A service together with its options. Each variant carries exactly the
/// options that its service declares; an option that was not asked for is
/// `None`, which is distinct from asking for the default.
///
/// Real numbers are held as the bit patterns of their IEEE 754 encoding:
/// `fallback_speed` as binary64, each of `radiuses` as binary32.
#[derive(Clone, Debug, PartialEq)]
pub enum Service {
    /// Finds the fastest route between coordinates in the supplied order.
    Route {
        alternatives: Option<u32>,
        steps: bool,
        annotations: Option<Vec<Annotation>>,
        geometries: Option<GeometryType>,
        overview: Option<Overview>,
        continue_straight: bool,
        /// Indices of the input coordinates.
        waypoints: Option<Vec<u32>>,
    },
    /// Snaps a coordinate to the street network and returns the nearest n matches.
    Nearest { number: Option<u32> },
    /// Computes the duration of the fastest route between all pairs of supplied
    /// coordinates. Durations are in seconds and distances in meters.
    Table {
        sources: Option<Vec<u32>>,
        destinations: Option<Vec<u32>>,
        fallback_speed: Option<u64>,
    },
    /// Snaps given GPS points to the road network in the most plausible way.
    /// The result may consist of several sub-traces.
    Match {
        steps: bool,
        geometries: Option<GeometryType>,
        annotations: Option<Vec<Annotation>>,
        overview: Option<Overview>,
        timestamps: Option<Vec<u32>>,
        radiuses: Option<Vec<u32>>,
        gaps: Option<Gaps>,
        tidy: bool,
        /// Indices of the input coordinates.
        waypoints: Option<Vec<u32>>,
    },
    /// Solves the travelling salesman problem approximately over the
    /// coordinates.
    Trip {
        roundtrip: bool,
        source: Source,
        annotations: Option<Vec<Annotation>>,
        geometries: Option<GeometryType>,
        overview: Option<Overview>,
    },
    /// Reserved: vector tiles of the routing graph. It has no options and no
    /// response; a dispatcher refuses it.
    Tile {  },
}

/// What a `Service` value stands for: the same options, with sequences in
/// place of vectors.
pub enum ServiceModel {
    Route {
        alternatives: Option<u32>,
        steps: bool,
        annotations: Option<Seq<Annotation>>,
        geometries: Option<GeometryType>,
        overview: Option<Overview>,
        continue_straight: bool,
        waypoints: Option<Seq<u32>>,
    },
    Nearest { number: Option<u32> },
    Table {
        sources: Option<Seq<u32>>,
        destinations: Option<Seq<u32>>,
        fallback_speed: Option<u64>,
    },
    Match {
        steps: bool,
        geometries: Option<GeometryType>,
        annotations: Option<Seq<Annotation>>,
        overview: Option<Overview>,
        timestamps: Option<Seq<u32>>,
        radiuses: Option<Seq<u32>>,
        gaps: Option<Gaps>,
        tidy: bool,
        waypoints: Option<Seq<u32>>,
    },
    Trip {
        roundtrip: bool,
        source: Source,
        annotations: Option<Seq<Annotation>>,
        geometries: Option<GeometryType>,
        overview: Option<Overview>,
    },
    Tile,
}

impl ServiceModel {
    /// The discriminant of the service.
    pub open spec fn kind(self) -> ServiceKind {
        match self {
            ServiceModel::Route { .. } => ServiceKind::Route,
            ServiceModel::Nearest { .. } => ServiceKind::Nearest,
            ServiceModel::Table { .. } => ServiceKind::Table,
            ServiceModel::Match { .. } => ServiceKind::Match,
            ServiceModel::Trip { .. } => ServiceKind::Trip,
            ServiceModel::Tile => ServiceKind::Tile,
        }
    }
}

/// The sequence that an optional vector holds.
pub open spec fn items<T>(o: Option<Vec<T>>) -> Option<Seq<T>> {
    match o {
        Some(v) => Some(v@),
        None => None,
    }
}

impl View for Service {
    type V = ServiceModel;

    open spec fn view(&self) -> ServiceModel {
        match *self {
            Service::Route {
                alternatives,
                steps,
                annotations,
                geometries,
                overview,
                continue_straight,
                waypoints,
            } => ServiceModel::Route {
                alternatives,
                steps,
                annotations: items(annotations),
                geometries,
                overview,
                continue_straight,
                waypoints: items(waypoints),
            },
            Service::Nearest { number } => ServiceModel::Nearest { number },
            Service::Table { sources, destinations, fallback_speed } => ServiceModel::Table {
                sources: items(sources),
                destinations: items(destinations),
                fallback_speed,
            },
            Service::Match {
                steps,
                geometries,
                annotations,
                overview,
                timestamps,
                radiuses,
                gaps,
                tidy,
                waypoints,
            } => ServiceModel::Match {
                steps,
                geometries,
                annotations: items(annotations),
                overview,
                timestamps: items(timestamps),
                radiuses: items(radiuses),
                gaps,
                tidy,
                waypoints: items(waypoints),
            },
            Service::Trip { roundtrip, source, annotations, geometries, overview } => {
                ServiceModel::Trip {
                    roundtrip,
                    source,
                    annotations: items(annotations),
                    geometries,
                    overview,
                }
            },
            Service::Tile {  } => ServiceModel::Tile,
        }
    }
}

impl Service {
    /// The discriminant of this service.
    pub fn kind(&self) -> (k: ServiceKind)
        ensures
            k == self@.kind(),
    {
        match self {
            Service::Route { .. } => ServiceKind::Route,
            Service::Nearest { .. } => ServiceKind::Nearest,
            Service::Table { .. } => ServiceKind::Table,
            Service::Match { .. } => ServiceKind::Match,
            Service::Trip { .. } => ServiceKind::Trip,
            Service::Tile { .. } => ServiceKind::Tile,
        }
    }

    /// The service's tag on the wire.
    pub fn to_string(&self) -> (s: String)
        ensures
            s@ == self@.kind().token(),
    {
        self.kind().to_string()
    }
}

/// One routing query: which service with which options, for which profile,
/// over which coordinates, answered in which format.
///
/// A coordinate is a pair of real numbers, each held as the bit pattern of
/// its IEEE 754 binary64 encoding. The order of the coordinates is
/// significant.
#[derive(Clone, Debug, PartialEq)]
pub struct Request {
    pub service: Service,
    pub version: Option<String>,
    pub profile: Profile,
    pub coordinates: Vec<(u64, u64)>,
    pub format: Format,
}

/// What a `Request` value stands for.
pub struct RequestModel {
    pub service: ServiceModel,
    pub version: Option<Seq<char>>,
    pub profile: Profile,
    pub coordinates: Seq<(u64, u64)>,
    pub format: Format,
}

impl View for Request {
    type V = RequestModel;

    open spec fn view(&self) -> RequestModel {
        RequestModel {
            service: self.service@,
            version: match self.version {
                Some(v) => Some(v@),
                None => None,
            },
            profile: self.profile,
            coordinates: self.coordinates@,
            format: self.format,
        }
    }
}

impl Request {
    /// Puts a request together from its parts, as they are: nothing is
    /// checked, reordered or defaulted.
    pub fn new(
        service: Service,
        version: Option<String>,
        profile: Profile,
        coordinates: Vec<(u64, u64)>,
        format: Format,
    ) -> (r: Request)
        ensures
            r.service == service,
            r.version == version,
            r.profile == profile,
            r.coordinates == coordinates,
            r.format == format,
    {
        Request { service, version, profile, coordinates, format }
    }
}

} // verus!

//! The reading of a request from its wire form, and the writing of one.
//!
//! Reading checks the shape only: that the service tag is known, that every
//! key belongs to the envelope or to the selected service, that every value
//! has the kind its key asks for, and that every token is a member of its
//! enumeration. Writing leaves out what the request does not have, and what
//! was written reads back as the same request.

use crate::request::{
    Annotation, Format, Gaps, GeometryType, Overview, Profile, Request, RequestModel, Service,
    ServiceKind, ServiceModel, Source,
};
use crate::response::ResponseStatus;
use crate::text::same_text;
use crate::wire::{
    all_named, choice_of, choice_value, choices_of, choices_value, copy_items, count_of,
    count_value, counts_of, counts_value, find, flag_of, flag_value, has_key, is_first, need,
    or_default, pairs_of, put, read_choice, read_choices, read_count, read_counts, read_flag,
    read_pairs, read_real, read_reals, reads_as, real_of, real_value, reals_of, reals_value,
    required, token_of, value_of, Field, Value, WireToken,
};
use vstd::prelude::*;
use vstd::string::*;

verus! {

impl WireToken for GeometryType {
    open spec fn name(self) -> Seq<char> {
        self.token()
    }

    open spec fn named(t: Seq<char>) -> Option<GeometryType> {
        GeometryType::parse(t)
    }

    fn write(&self) -> (s: String) {
        self.to_string()
    }

    fn read(t: &str) -> (r: Option<GeometryType>) {
        match GeometryType::from_token(t) {
            Ok(v) => Some(v),
            Err(_) => None,
        }
    }

    proof fn lemma_name_is_read(v: GeometryType) {
        GeometryType::lemma_token_round_trip(v);
    }
}

impl WireToken for Annotation {
    open spec fn name(self) -> Seq<char> {
        self.token()
    }

    open spec fn named(t: Seq<char>) -> Option<Annotation> {
        Annotation::parse(t)
    }

    fn write(&self) -> (s: String) {
        self.to_string()
    }

    fn read(t: &str) -> (r: Option<Annotation>) {
        match Annotation::from_token(t) {
            Ok(v) => Some(v),
            Err(_) => None,
        }
    }

    proof fn lemma_name_is_read(v: Annotation) {
        Annotation::lemma_token_round_trip(v);
    }
}

impl WireToken for Overview {
    open spec fn name(self) -> Seq<char> {
        self.token()
    }

    open spec fn named(t: Seq<char>) -> Option<Overview> {
        Overview::parse(t)
    }

    fn write(&self) -> (s: String) {
        self.to_string()
    }

    fn read(t: &str) -> (r: Option<Overview>) {
        match Overview::from_token(t) {
            Ok(v) => Some(v),
            Err(_) => None,
        }
    }

    proof fn lemma_name_is_read(v: Overview) {
        Overview::lemma_token_round_trip(v);
    }
}

impl WireToken for Gaps {
    open spec fn name(self) -> Seq<char> {
        self.token()
    }

    open spec fn named(t: Seq<char>) -> Option<Gaps> {
        Gaps::parse(t)
    }

    fn write(&self) -> (s: String) {
        self.to_string()
    }

    fn read(t: &str) -> (r: Option<Gaps>) {
        match Gaps::from_token(t) {
            Ok(v) => Some(v),
            Err(_) => None,
        }
    }

    proof fn lemma_name_is_read(v: Gaps) {
        Gaps::lemma_token_round_trip(v);
    }
}

impl WireToken for Source {
    open spec fn name(self) -> Seq<char> {
        self.token()
    }

    open spec fn named(t: Seq<char>) -> Option<Source> {
        Source::parse(t)
    }

    fn write(&self) -> (s: String) {
        self.to_string()
    }

    fn read(t: &str) -> (r: Option<Source>) {
        match Source::from_token(t) {
            Ok(v) => Some(v),
            Err(_) => None,
        }
    }

    proof fn lemma_name_is_read(v: Source) {
        Source::lemma_token_round_trip(v);
    }
}

impl WireToken for Profile {
    open spec fn name(self) -> Seq<char> {
        self.token()
    }

    open spec fn named(t: Seq<char>) -> Option<Profile> {
        Profile::parse(t)
    }

    fn write(&self) -> (s: String) {
        self.to_string()
    }

    fn read(t: &str) -> (r: Option<Profile>) {
        match Profile::from_token(t) {
            Ok(v) => Some(v),
            Err(_) => None,
        }
    }

    proof fn lemma_name_is_read(v: Profile) {
        Profile::lemma_token_round_trip(v);
    }
}

impl WireToken for Format {
    open spec fn name(self) -> Seq<char> {
        self.token()
    }

    open spec fn named(t: Seq<char>) -> Option<Format> {
        Format::parse(t)
    }

    fn write(&self) -> (s: String) {
        self.to_string()
    }

    fn read(t: &str) -> (r: Option<Format>) {
        match Format::from_token(t) {
            Ok(v) => Some(v),
            Err(_) => None,
        }
    }

    proof fn lemma_name_is_read(v: Format) {
        Format::lemma_token_round_trip(v);
    }
}

/// The route service that the fields describe. `steps` and
/// `continue_straight` must be there.
pub open spec fn route_of(f: Seq<Field>) -> Result<ServiceModel, ResponseStatus> {
    let alternatives = count_of(f, "alternatives"@);
    let steps = required(flag_of(f, "steps"@));
    let annotations = choices_of::<Annotation>(f, "annotations"@);
    let geometries = choice_of::<GeometryType>(f, "geometries"@);
    let overview = choice_of::<Overview>(f, "overview"@);
    let continue_straight = required(flag_of(f, "continue_straight"@));
    let waypoints = counts_of(f, "waypoints"@);
    if alternatives is Err {
        Err(alternatives->Err_0)
    } else if steps is Err {
        Err(steps->Err_0)
    } else if annotations is Err {
        Err(annotations->Err_0)
    } else if geometries is Err {
        Err(geometries->Err_0)
    } else if overview is Err {
        Err(overview->Err_0)
    } else if continue_straight is Err {
        Err(continue_straight->Err_0)
    } else if waypoints is Err {
        Err(waypoints->Err_0)
    } else {
        Ok(
            ServiceModel::Route {
                alternatives: alternatives->Ok_0,
                steps: steps->Ok_0,
                annotations: annotations->Ok_0,
                geometries: geometries->Ok_0,
                overview: overview->Ok_0,
                continue_straight: continue_straight->Ok_0,
                waypoints: waypoints->Ok_0,
            },
        )
    }
}

/// The nearest service that the fields describe.
pub open spec fn nearest_of(f: Seq<Field>) -> Result<ServiceModel, ResponseStatus> {
    match count_of(f, "number"@) {
        Err(e) => Err(e),
        Ok(number) => Ok(ServiceModel::Nearest { number }),
    }
}

/// The table service that the fields describe.
pub open spec fn table_of(f: Seq<Field>) -> Result<ServiceModel, ResponseStatus> {
    let sources = counts_of(f, "sources"@);
    let destinations = counts_of(f, "destinations"@);
    let fallback_speed = real_of(f, "fallback_speed"@);
    if sources is Err {
        Err(sources->Err_0)
    } else if destinations is Err {
        Err(destinations->Err_0)
    } else if fallback_speed is Err {
        Err(fallback_speed->Err_0)
    } else {
        Ok(
            ServiceModel::Table {
                sources: sources->Ok_0,
                destinations: destinations->Ok_0,
                fallback_speed: fallback_speed->Ok_0,
            },
        )
    }
}

/// The match service that the fields describe. `steps` must be there;
/// `tidy` is off where it is absent.
pub open spec fn match_of(f: Seq<Field>) -> Result<ServiceModel, ResponseStatus> {
    let steps = required(flag_of(f, "steps"@));
    let geometries = choice_of::<GeometryType>(f, "geometries"@);
    let annotations = choices_of::<Annotation>(f, "annotations"@);
    let overview = choice_of::<Overview>(f, "overview"@);
    let timestamps = counts_of(f, "timestamps"@);
    let radiuses = reals_of(f, "radiuses"@);
    let gaps = choice_of::<Gaps>(f, "gaps"@);
    let tidy = or_default(flag_of(f, "tidy"@), false);
    let waypoints = counts_of(f, "waypoints"@);
    if steps is Err {
        Err(steps->Err_0)
    } else if geometries is Err {
        Err(geometries->Err_0)
    } else if annotations is Err {
        Err(annotations->Err_0)
    } else if overview is Err {
        Err(overview->Err_0)
    } else if timestamps is Err {
        Err(timestamps->Err_0)
    } else if radiuses is Err {
        Err(radiuses->Err_0)
    } else if gaps is Err {
        Err(gaps->Err_0)
    } else if tidy is Err {
        Err(tidy->Err_0)
    } else if waypoints is Err {
        Err(waypoints->Err_0)
    } else {
        Ok(
            ServiceModel::Match {
                steps: steps->Ok_0,
                geometries: geometries->Ok_0,
                annotations: annotations->Ok_0,
                overview: overview->Ok_0,
                timestamps: timestamps->Ok_0,
                radiuses: radiuses->Ok_0,
                gaps: gaps->Ok_0,
                tidy: tidy->Ok_0,
                waypoints: waypoints->Ok_0,
            },
        )
    }
}

/// The trip service that the fields describe. `roundtrip` must be there;
/// `source` is `Any` where it is absent.
pub open spec fn trip_of(f: Seq<Field>) -> Result<ServiceModel, ResponseStatus> {
    let roundtrip = required(flag_of(f, "roundtrip"@));
    let source = or_default(choice_of::<Source>(f, "source"@), Source::Any);
    let annotations = choices_of::<Annotation>(f, "annotations"@);
    let geometries = choice_of::<GeometryType>(f, "geometries"@);
    let overview = choice_of::<Overview>(f, "overview"@);
    if roundtrip is Err {
        Err(roundtrip->Err_0)
    } else if source is Err {
        Err(source->Err_0)
    } else if annotations is Err {
        Err(annotations->Err_0)
    } else if geometries is Err {
        Err(geometries->Err_0)
    } else if overview is Err {
        Err(overview->Err_0)
    } else {
        Ok(
            ServiceModel::Trip {
                roundtrip: roundtrip->Ok_0,
                source: source->Ok_0,
                annotations: annotations->Ok_0,
                geometries: geometries->Ok_0,
                overview: overview->Ok_0,
            },
        )
    }
}

/// The service of the given kind that the fields describe, read from the
/// options that the kind declares.
pub open spec fn service_of(kind: ServiceKind, f: Seq<Field>) -> Result<
    ServiceModel,
    ResponseStatus,
> {
    match kind {
        ServiceKind::Route => route_of(f),
        ServiceKind::Nearest => nearest_of(f),
        ServiceKind::Table => table_of(f),
        ServiceKind::Match => match_of(f),
        ServiceKind::Trip => trip_of(f),
        ServiceKind::Tile => Ok(ServiceModel::Tile),
    }
}

/// Whether the key is one of the envelope's.
pub open spec fn envelope_key(key: Seq<char>) -> bool {
    key == "service"@ || key == "version"@ || key == "profile"@ || key == "coordinates"@ || key
        == "format"@
}

/// Whether a request for a service of this kind may carry the key.
pub open spec fn admits(kind: ServiceKind, key: Seq<char>) -> bool {
    envelope_key(key) || kind.declares(key)
}

/// Whether a request for a service of this kind may carry every key of the
/// fields.
pub open spec fn all_admitted(kind: ServiceKind, f: Seq<Field>) -> bool {
    forall|i: int| 0 <= i < f.len() ==> admits(kind, (#[trigger] f[i]).key@)
}

/// The request that the fields describe, or why there is none. In this
/// order: the service tag must be there as a token (`InvalidQuery`) and be a
/// known one (`InvalidService`); every key must belong to the envelope or to
/// that service (`InvalidOptions`); then the envelope is read, `profile` and
/// `coordinates` being required and `format` being `Json` where absent;
/// then the service's own options.
pub open spec fn request_of(f: Seq<Field>) -> Result<RequestModel, ResponseStatus> {
    let tag = required(token_of(f, "service"@));
    if tag is Err {
        Err(tag->Err_0)
    } else {
        match ServiceKind::parse(tag->Ok_0) {
            None => Err(ResponseStatus::InvalidService),
            Some(kind) => {
                let version = token_of(f, "version"@);
                let profile = required(choice_of::<Profile>(f, "profile"@));
                let coordinates = required(pairs_of(f, "coordinates"@));
                let format = or_default(choice_of::<Format>(f, "format"@), Format::Json);
                let service = service_of(kind, f);
                if !all_admitted(kind, f) {
                    Err(ResponseStatus::InvalidOptions)
                } else if version is Err {
                    Err(version->Err_0)
                } else if profile is Err {
                    Err(profile->Err_0)
                } else if coordinates is Err {
                    Err(coordinates->Err_0)
                } else if format is Err {
                    Err(format->Err_0)
                } else if service is Err {
                    Err(service->Err_0)
                } else {
                    Ok(
                        RequestModel {
                            service: service->Ok_0,
                            version: version->Ok_0,
                            profile: profile->Ok_0,
                            coordinates: coordinates->Ok_0,
                            format: format->Ok_0,
                        },
                    )
                }
            },
        }
    }
}

/// Whether the key is one of the envelope's.
fn is_envelope_key(key: &str) -> (r: bool)
    ensures
        r == envelope_key(key@),
{
    same_text(key, "service") || same_text(key, "version") || same_text(key, "profile")
        || same_text(key, "coordinates") || same_text(key, "format")
}

/// Whether a request for a service of this kind may carry every key.
fn check_keys(kind: ServiceKind, fields: &Vec<Field>) -> (r: bool)
    ensures
        r == all_admitted(kind, fields@),
{
    let mut i: usize = 0;
    while i < fields.len()
        invariant
            i <= fields.len(),
            forall|j: int| 0 <= j < i ==> admits(kind, (#[trigger] fields@[j]).key@),
        decreases fields.len() - i,
    {
        let key = fields[i].key.as_str();
        if !is_envelope_key(key) && !kind.declares_key(key) {
            proof {
                assert(!admits(kind, fields@[i as int].key@));
            }
            return false;
        }
        i += 1;
    }
    true
}

impl Service {
    /// Reads the service of the given kind from the options among the
    /// fields. Keys that the kind does not declare are not looked at.
    pub fn from_fields(kind: ServiceKind, fields: &Vec<Field>) -> (r: Result<
        Service,
        ResponseStatus,
    >)
        ensures
            reads_as(r, service_of(kind, fields@)),
    {
        match kind {
            ServiceKind::Route => {
                let alternatives = read_count(fields, "alternatives")?;
                let steps = need(read_flag(fields, "steps")?)?;
                let annotations = read_choices::<Annotation>(fields, "annotations")?;
                let geometries = read_choice::<GeometryType>(fields, "geometries")?;
                let overview = read_choice::<Overview>(fields, "overview")?;
                let continue_straight = need(read_flag(fields, "continue_straight")?)?;
                let waypoints = read_counts(fields, "waypoints")?;
                Ok(
                    Service::Route {
                        alternatives,
                        steps,
                        annotations,
                        geometries,
                        overview,
                        continue_straight,
                        waypoints,
                    },
                )
            },
            ServiceKind::Nearest => {
                let number = read_count(fields, "number")?;
                Ok(Service::Nearest { number })
            },
            ServiceKind::Table => {
                let sources = read_counts(fields, "sources")?;
                let destinations = read_counts(fields, "destinations")?;
                let fallback_speed = read_real(fields, "fallback_speed")?;
                Ok(Service::Table { sources, destinations, fallback_speed })
            },
            ServiceKind::Match => {
                let steps = need(read_flag(fields, "steps")?)?;
                let geometries = read_choice::<GeometryType>(fields, "geometries")?;
                let annotations = read_choices::<Annotation>(fields, "annotations")?;
                let overview = read_choice::<Overview>(fields, "overview")?;
                let timestamps = read_counts(fields, "timestamps")?;
                let radiuses = read_reals(fields, "radiuses")?;
                let gaps = read_choice::<Gaps>(fields, "gaps")?;
                let tidy = match read_flag(fields, "tidy")? {
                    Some(b) => b,
                    None => false,
                };
                let waypoints = read_counts(fields, "waypoints")?;
                Ok(
                    Service::Match {
                        steps,
                        geometries,
                        annotations,
                        overview,
                        timestamps,
                        radiuses,
                        gaps,
                        tidy,
                        waypoints,
                    },
                )
            },
            ServiceKind::Trip => {
                let roundtrip = need(read_flag(fields, "roundtrip")?)?;
                let source = match read_choice::<Source>(fields, "source")? {
                    Some(s) => s,
                    None => Source::default(),
                };
                let annotations = read_choices::<Annotation>(fields, "annotations")?;
                let geometries = read_choice::<GeometryType>(fields, "geometries")?;
                let overview = read_choice::<Overview>(fields, "overview")?;
                Ok(Service::Trip { roundtrip, source, annotations, geometries, overview })
            },
            ServiceKind::Tile => Ok(Service::Tile {  }),
        }
    }
}

impl Request {
    /// Reads a request from its wire form. It is built whole or not at all:
    /// the result is the request that `request_of` describes, or the status
    /// that it gives as the reason.
    pub fn from_fields(fields: &Vec<Field>) -> (r: Result<Request, ResponseStatus>)
        ensures
            reads_as(r, request_of(fields@)),
    {
        let tag = match find(fields, "service") {
            None => {
                return Err(ResponseStatus::InvalidQuery);
            },
            Some(i) => match &fields[i].value {
                Value::Token(t) => t.as_str(),
                _ => {
                    return Err(ResponseStatus::InvalidQuery);
                },
            },
        };
        let kind = ServiceKind::from_token(tag)?;
        if !check_keys(kind, fields) {
            return Err(ResponseStatus::InvalidOptions);
        }
        let version = match find(fields, "version") {
            None => None,
            Some(i) => match &fields[i].value {
                Value::Token(t) => Some(t.clone()),
                _ => {
                    return Err(ResponseStatus::InvalidQuery);
                },
            },
        };
        let profile = need(read_choice::<Profile>(fields, "profile")?)?;
        let coordinates = need(read_pairs(fields, "coordinates")?)?;
        let format = match read_choice::<Format>(fields, "format")? {
            Some(x) => x,
            None => Format::default(),
        };
        let service = Service::from_fields(kind, fields)?;
        Ok(Request::new(service, version, profile, coordinates, format))
    }
}

/// Whether a value has the kind that its key asks for, with every token a
/// member of the key's enumeration.
pub open spec fn fits(key: Seq<char>, value: Value) -> bool {
    &&& key == "service"@ || key == "version"@ ==> value is Token
    &&& key == "profile"@ ==> value is Token && Profile::parse(value->Token_0@) is Some
    &&& key == "format"@ ==> value is Token && Format::parse(value->Token_0@) is Some
    &&& key == "coordinates"@ ==> value is Pairs
    &&& key == "alternatives"@ || key == "number"@ ==> value is Count
    &&& key == "steps"@ || key == "continue_straight"@ || key == "tidy"@ || key == "roundtrip"@
        ==> value is Flag
    &&& key == "annotations"@ ==> value is Tokens && all_named::<Annotation>(value->Tokens_0@)
    &&& key == "geometries"@ ==> value is Token && GeometryType::parse(value->Token_0@) is Some
    &&& key == "overview"@ ==> value is Token && Overview::parse(value->Token_0@) is Some
    &&& key == "gaps"@ ==> value is Token && Gaps::parse(value->Token_0@) is Some
    &&& key == "source"@ ==> value is Token && Source::parse(value->Token_0@) is Some
    &&& key == "waypoints"@ || key == "sources"@ || key == "destinations"@ || key
        == "timestamps"@ ==> value is Counts
    &&& key == "fallback_speed"@ ==> value is Real
    &&& key == "radiuses"@ ==> value is Reals
}

/// Whether every field's value fits its key.
pub open spec fn all_fit(f: Seq<Field>) -> bool {
    forall|i: int| 0 <= i < f.len() ==> fits((#[trigger] f[i]).key@, f[i].value)
}

/// Whether the fields hold what a request for a service of this kind cannot
/// do without.
pub open spec fn complete(kind: ServiceKind, f: Seq<Field>) -> bool {
    &&& has_key(f, "profile"@)
    &&& has_key(f, "coordinates"@)
    &&& kind == ServiceKind::Route ==> has_key(f, "steps"@) && has_key(f, "continue_straight"@)
    &&& kind == ServiceKind::Match ==> has_key(f, "steps"@)
    &&& kind == ServiceKind::Trip ==> has_key(f, "roundtrip"@)
}

/// A key's value is the value of one of the fields with that key, and is
/// there exactly when such a field is.
pub proof fn lemma_value_is_a_field(f: Seq<Field>, key: Seq<char>)
    ensures
        value_of(f, key) is Some <==> has_key(f, key),
        value_of(f, key) is Some ==> exists|i: int|
            0 <= i < f.len() && (#[trigger] f[i]).key@ == key && value_of(f, key) == Some(
                f[i].value,
            ),
{
    if has_key(f, key) {
        let c = choose|c: int| is_first(f, key, c);
        assert(f[c].key@ == key);
    }
}

/// For every service: fields that name it, carry only keys of the envelope
/// and of that service, hold fitting values and lack nothing required are
/// read as a request for that service.
pub proof fn lemma_declared_fields_are_read(f: Seq<Field>, kind: ServiceKind)
    requires
        token_of(f, "service"@) is Ok,
        token_of(f, "service"@)->Ok_0 is Some,
        ServiceKind::parse(token_of(f, "service"@)->Ok_0->Some_0) == Some(kind),
        all_admitted(kind, f),
        all_fit(f),
        complete(kind, f),
    ensures
        request_of(f) is Ok,
        request_of(f)->Ok_0.service.kind() == kind,
{
    lemma_value_is_a_field(f, "version"@);
    lemma_value_is_a_field(f, "profile"@);
    lemma_value_is_a_field(f, "coordinates"@);
    lemma_value_is_a_field(f, "format"@);
    lemma_value_is_a_field(f, "alternatives"@);
    lemma_value_is_a_field(f, "number"@);
    lemma_value_is_a_field(f, "steps"@);
    lemma_value_is_a_field(f, "continue_straight"@);
    lemma_value_is_a_field(f, "tidy"@);
    lemma_value_is_a_field(f, "roundtrip"@);
    lemma_value_is_a_field(f, "annotations"@);
    lemma_value_is_a_field(f, "geometries"@);
    lemma_value_is_a_field(f, "overview"@);
    lemma_value_is_a_field(f, "gaps"@);
    lemma_value_is_a_field(f, "source"@);
    lemma_value_is_a_field(f, "waypoints"@);
    lemma_value_is_a_field(f, "sources"@);
    lemma_value_is_a_field(f, "destinations"@);
    lemma_value_is_a_field(f, "timestamps"@);
    lemma_value_is_a_field(f, "fallback_speed"@);
    lemma_value_is_a_field(f, "radiuses"@);
}

/// A key that belongs neither to the envelope nor to the service that the
/// tag names, such as an option of another service, has the whole refused
/// as `InvalidOptions`.
pub proof fn lemma_foreign_key_is_refused(f: Seq<Field>, kind: ServiceKind, i: int)
    requires
        token_of(f, "service"@) is Ok,
        token_of(f, "service"@)->Ok_0 is Some,
        ServiceKind::parse(token_of(f, "service"@)->Ok_0->Some_0) == Some(kind),
        0 <= i < f.len(),
        !admits(kind, f[i].key@),
    ensures
        request_of(f) == Err::<RequestModel, ResponseStatus>(ResponseStatus::InvalidOptions),
{
}

/// A tag outside the closed set of services has the whole refused as
/// `InvalidService`, whatever else the fields hold.
pub proof fn lemma_unknown_service_is_refused(f: Seq<Field>)
    requires
        token_of(f, "service"@) is Ok,
        token_of(f, "service"@)->Ok_0 is Some,
        ServiceKind::parse(token_of(f, "service"@)->Ok_0->Some_0) is None,
    ensures
        request_of(f) == Err::<RequestModel, ResponseStatus>(ResponseStatus::InvalidService),
{
}

/// Where a request is read from fields that leave out an option with a
/// default, the default stands in the request: the format is `Json`, a
/// trip's source `Any`, and a match is not tidied.
pub proof fn lemma_defaults_apply(f: Seq<Field>)
    requires
        request_of(f) is Ok,
    ensures
        !has_key(f, "format"@) ==> request_of(f)->Ok_0.format == Format::Json,
        !has_key(f, "source"@) ==> (request_of(f)->Ok_0.service matches ServiceModel::Trip {
            source,
            ..
        } ==> source == Source::Any),
        !has_key(f, "tidy"@) ==> (request_of(f)->Ok_0.service matches ServiceModel::Match {
            tidy,
            ..
        } ==> !tidy),
{
}

/// Whether the key names an option of the service that may be absent, and
/// is.
pub open spec fn left_out(m: ServiceModel, key: Seq<char>) -> bool {
    match m {
        ServiceModel::Route { alternatives, annotations, geometries, overview, waypoints, .. } => {
            ||| key == "alternatives"@ && alternatives is None
            ||| key == "annotations"@ && annotations is None
            ||| key == "geometries"@ && geometries is None
            ||| key == "overview"@ && overview is None
            ||| key == "waypoints"@ && waypoints is None
        },
        ServiceModel::Nearest { number } => key == "number"@ && number is None,
        ServiceModel::Table { sources, destinations, fallback_speed } => {
            ||| key == "sources"@ && sources is None
            ||| key == "destinations"@ && destinations is None
            ||| key == "fallback_speed"@ && fallback_speed is None
        },
        ServiceModel::Match {
            geometries,
            annotations,
            overview,
            timestamps,
            radiuses,
            gaps,
            waypoints,
            ..
        } => {
            ||| key == "geometries"@ && geometries is None
            ||| key == "annotations"@ && annotations is None
            ||| key == "overview"@ && overview is None
            ||| key == "timestamps"@ && timestamps is None
            ||| key == "radiuses"@ && radiuses is None
            ||| key == "gaps"@ && gaps is None
            ||| key == "waypoints"@ && waypoints is None
        },
        ServiceModel::Trip { annotations, geometries, overview, .. } => {
            ||| key == "annotations"@ && annotations is None
            ||| key == "geometries"@ && geometries is None
            ||| key == "overview"@ && overview is None
        },
        ServiceModel::Tile => false,
    }
}

/// Whether the key names an option of the service that may be absent, and
/// is there.
pub open spec fn given(m: ServiceModel, key: Seq<char>) -> bool {
    match m {
        ServiceModel::Route { alternatives, annotations, geometries, overview, waypoints, .. } => {
            ||| key == "alternatives"@ && alternatives is Some
            ||| key == "annotations"@ && annotations is Some
            ||| key == "geometries"@ && geometries is Some
            ||| key == "overview"@ && overview is Some
            ||| key == "waypoints"@ && waypoints is Some
        },
        ServiceModel::Nearest { number } => key == "number"@ && number is Some,
        ServiceModel::Table { sources, destinations, fallback_speed } => {
            ||| key == "sources"@ && sources is Some
            ||| key == "destinations"@ && destinations is Some
            ||| key == "fallback_speed"@ && fallback_speed is Some
        },
        ServiceModel::Match {
            geometries,
            annotations,
            overview,
            timestamps,
            radiuses,
            gaps,
            waypoints,
            ..
        } => {
            ||| key == "geometries"@ && geometries is Some
            ||| key == "annotations"@ && annotations is Some
            ||| key == "overview"@ && overview is Some
            ||| key == "timestamps"@ && timestamps is Some
            ||| key == "radiuses"@ && radiuses is Some
            ||| key == "gaps"@ && gaps is Some
            ||| key == "waypoints"@ && waypoints is Some
        },
        ServiceModel::Trip { annotations, geometries, overview, .. } => {
            ||| key == "annotations"@ && annotations is Some
            ||| key == "geometries"@ && geometries is Some
            ||| key == "overview"@ && overview is Some
        },
        ServiceModel::Tile => false,
    }
}

/// Absence is kept in a route service's options.
proof fn lemma_route_absence(f: Seq<Field>, key: Seq<char>)
    requires
        route_of(f) is Ok,
    ensures
        left_out(route_of(f)->Ok_0, key) ==> !has_key(f, key),
        given(route_of(f)->Ok_0, key) ==> has_key(f, key),
{
    lemma_value_is_a_field(f, key);
}

/// Absence is kept in a nearest service's option.
proof fn lemma_nearest_absence(f: Seq<Field>, key: Seq<char>)
    requires
        nearest_of(f) is Ok,
    ensures
        left_out(nearest_of(f)->Ok_0, key) ==> !has_key(f, key),
        given(nearest_of(f)->Ok_0, key) ==> has_key(f, key),
{
    lemma_value_is_a_field(f, key);
}

/// Absence is kept in a table service's options.
proof fn lemma_table_absence(f: Seq<Field>, key: Seq<char>)
    requires
        table_of(f) is Ok,
    ensures
        left_out(table_of(f)->Ok_0, key) ==> !has_key(f, key),
        given(table_of(f)->Ok_0, key) ==> has_key(f, key),
{
    lemma_value_is_a_field(f, key);
}

/// Absence is kept in a match service's options.
proof fn lemma_match_absence(f: Seq<Field>, key: Seq<char>)
    requires
        match_of(f) is Ok,
    ensures
        left_out(match_of(f)->Ok_0, key) ==> !has_key(f, key),
        given(match_of(f)->Ok_0, key) ==> has_key(f, key),
{
    lemma_value_is_a_field(f, key);
}

/// Absence is kept in a trip service's options.
proof fn lemma_trip_absence(f: Seq<Field>, key: Seq<char>)
    requires
        trip_of(f) is Ok,
    ensures
        left_out(trip_of(f)->Ok_0, key) ==> !has_key(f, key),
        given(trip_of(f)->Ok_0, key) ==> has_key(f, key),
{
    lemma_value_is_a_field(f, key);
}

/// Absence is kept between the wire and the request: where fields read as
/// a request, an option is absent from the request exactly when its key is
/// absent from the fields, and so is the version. In particular the wire
/// form of a request leaves out what the request does not have.
pub proof fn lemma_absence_is_kept(f: Seq<Field>, key: Seq<char>)
    requires
        request_of(f) is Ok,
    ensures
        left_out(request_of(f)->Ok_0.service, key) ==> !has_key(f, key),
        given(request_of(f)->Ok_0.service, key) ==> has_key(f, key),
        request_of(f)->Ok_0.version is None <==> !has_key(f, "version"@),
{
    let kind = ServiceKind::parse(required(token_of(f, "service"@))->Ok_0)->Some_0;
    assert(request_of(f)->Ok_0.service == service_of(kind, f)->Ok_0);
    match kind {
        ServiceKind::Route => lemma_route_absence(f, key),
        ServiceKind::Nearest => lemma_nearest_absence(f, key),
        ServiceKind::Table => lemma_table_absence(f, key),
        ServiceKind::Match => lemma_match_absence(f, key),
        ServiceKind::Trip => lemma_trip_absence(f, key),
        ServiceKind::Tile => {},
    }
    lemma_value_is_a_field(f, "version"@);
}

/// Where a request is read, its coordinates are those of the wire form, in
/// the same order.
pub proof fn lemma_coordinates_are_kept(f: Seq<Field>)
    requires
        request_of(f) is Ok,
    ensures
        value_of(f, "coordinates"@) matches Some(Value::Pairs(v)) && v@ == request_of(
            f,
        )->Ok_0.coordinates,
{
}

/// The keys of a request differ from one another: in their length, or in
/// one of their first two characters.
proof fn lemma_keys_differ()
    ensures
        "service"@.len() == 7,
        "service"@[0] == 's',
        "version"@.len() == 7,
        "version"@[0] == 'v',
        "profile"@.len() == 7,
        "profile"@[0] == 'p',
        "coordinates"@.len() == 11,
        "coordinates"@[0] == 'c',
        "format"@.len() == 6,
        "format"@[0] == 'f',
        "alternatives"@.len() == 12,
        "alternatives"@[0] == 'a',
        "steps"@.len() == 5,
        "steps"@[0] == 's',
        "annotations"@.len() == 11,
        "annotations"@[0] == 'a',
        "geometries"@.len() == 10,
        "geometries"@[0] == 'g',
        "overview"@.len() == 8,
        "overview"@[0] == 'o',
        "continue_straight"@.len() == 17,
        "continue_straight"@[0] == 'c',
        "waypoints"@.len() == 9,
        "waypoints"@[0] == 'w',
        "number"@.len() == 6,
        "number"@[0] == 'n',
        "sources"@.len() == 7,
        "sources"@[0] == 's',
        "destinations"@.len() == 12,
        "destinations"@[0] == 'd',
        "fallback_speed"@.len() == 14,
        "fallback_speed"@[0] == 'f',
        "timestamps"@.len() == 10,
        "timestamps"@[0] == 't',
        "radiuses"@.len() == 8,
        "radiuses"@[0] == 'r',
        "gaps"@.len() == 4,
        "gaps"@[0] == 'g',
        "tidy"@.len() == 4,
        "tidy"@[0] == 't',
        "roundtrip"@.len() == 9,
        "roundtrip"@[0] == 'r',
        "source"@.len() == 6,
        "source"@[0] == 's',
        "service"@[1] == 'e',
        "sources"@[1] == 'o',
{
    reveal_strlit("service");
    reveal_strlit("version");
    reveal_strlit("profile");
    reveal_strlit("coordinates");
    reveal_strlit("format");
    reveal_strlit("alternatives");
    reveal_strlit("steps");
    reveal_strlit("annotations");
    reveal_strlit("geometries");
    reveal_strlit("overview");
    reveal_strlit("continue_straight");
    reveal_strlit("waypoints");
    reveal_strlit("number");
    reveal_strlit("sources");
    reveal_strlit("destinations");
    reveal_strlit("fallback_speed");
    reveal_strlit("timestamps");
    reveal_strlit("radiuses");
    reveal_strlit("gaps");
    reveal_strlit("tidy");
    reveal_strlit("roundtrip");
    reveal_strlit("source");
}

/// Appends a field with the key, where there is a value for it; a request
/// that could carry the keys so far and can carry this one can carry them all.
fn set(out: &mut Vec<Field>, key: &str, value: Option<Value>)
    ensures
        forall|k: Seq<char>|
            #[trigger] value_of(final(out)@, k) == (if value_of(old(out)@, k) is Some {
                value_of(old(out)@, k)
            } else if k == key@ {
                value
            } else {
                None
            }),
        forall|kind: ServiceKind|
            all_admitted(kind, old(out)@) && admits(kind, key@) ==> #[trigger] all_admitted(
                kind,
                final(out)@,
            ),
{
    put(out, key, value);
    proof {
        assert forall|kind: ServiceKind|
            all_admitted(kind, old(out)@) && admits(kind, key@) implies #[trigger] all_admitted(
            kind,
            final(out)@,
        ) by {
            if value is Some {
                assert forall|i: int| 0 <= i < final(out)@.len() implies admits(
                    kind,
                    (#[trigger] final(out)@[i]).key@,
                ) by {
                    if i < old(out)@.len() {
                        assert(final(out)@[i] == final(out)@.drop_last()[i]);
                    }
                }
            }
        }
    }
}

/// Whether no key but the envelope's has a value yet.
pub open spec fn only_envelope(f: Seq<Field>) -> bool {
    forall|k: Seq<char>| !envelope_key(k) ==> (#[trigger] value_of(f, k)) is None
}

/// Whether the envelope's keys have the same values in both.
pub open spec fn same_envelope(f: Seq<Field>, g: Seq<Field>) -> bool {
    forall|k: Seq<char>| envelope_key(k) ==> #[trigger] value_of(g, k) == value_of(f, k)
}

/// Appends the options of a route service.
fn write_route(out: &mut Vec<Field>, service: &Service)
    requires
        service is Route,
        only_envelope(old(out)@),
        all_admitted(ServiceKind::Route, old(out)@),
    ensures
        same_envelope(old(out)@, final(out)@),
        all_admitted(ServiceKind::Route, final(out)@),
        route_of(final(out)@) == Ok::<ServiceModel, ResponseStatus>(service@),
{
    proof {
        lemma_keys_differ();
    }
    match service {
        Service::Route {
            alternatives,
            steps,
            annotations,
            geometries,
            overview,
            continue_straight,
            waypoints,
        } => {
            set(out, "alternatives", count_value(alternatives));
            set(out, "steps", flag_value(*steps));
            set(out, "annotations", choices_value(annotations));
            set(out, "geometries", choice_value(geometries));
            set(out, "overview", choice_value(overview));
            set(out, "continue_straight", flag_value(*continue_straight));
            set(out, "waypoints", counts_value(waypoints));
        },
        _ => {},
    }
}

/// Appends the option of a nearest service.
fn write_nearest(out: &mut Vec<Field>, service: &Service)
    requires
        service is Nearest,
        only_envelope(old(out)@),
        all_admitted(ServiceKind::Nearest, old(out)@),
    ensures
        same_envelope(old(out)@, final(out)@),
        all_admitted(ServiceKind::Nearest, final(out)@),
        nearest_of(final(out)@) == Ok::<ServiceModel, ResponseStatus>(service@),
{
    proof {
        lemma_keys_differ();
    }
    match service {
        Service::Nearest { number } => {
            set(out, "number", count_value(number));
        },
        _ => {},
    }
}

/// Appends the options of a table service.
fn write_table(out: &mut Vec<Field>, service: &Service)
    requires
        service is Table,
        only_envelope(old(out)@),
        all_admitted(ServiceKind::Table, old(out)@),
    ensures
        same_envelope(old(out)@, final(out)@),
        all_admitted(ServiceKind::Table, final(out)@),
        table_of(final(out)@) == Ok::<ServiceModel, ResponseStatus>(service@),
{
    proof {
        lemma_keys_differ();
    }
    match service {
        Service::Table { sources, destinations, fallback_speed } => {
            set(out, "sources", counts_value(sources));
            set(out, "destinations", counts_value(destinations));
            set(out, "fallback_speed", real_value(fallback_speed));
        },
        _ => {},
    }
}

/// Appends the options of a match service.
fn write_match(out: &mut Vec<Field>, service: &Service)
    requires
        service is Match,
        only_envelope(old(out)@),
        all_admitted(ServiceKind::Match, old(out)@),
    ensures
        same_envelope(old(out)@, final(out)@),
        all_admitted(ServiceKind::Match, final(out)@),
        match_of(final(out)@) == Ok::<ServiceModel, ResponseStatus>(service@),
{
    proof {
        lemma_keys_differ();
    }
    match service {
        Service::Match {
            steps,
            geometries,
            annotations,
            overview,
            timestamps,
            radiuses,
            gaps,
            tidy,
            waypoints,
        } => {
            set(out, "steps", flag_value(*steps));
            set(out, "geometries", choice_value(geometries));
            set(out, "annotations", choices_value(annotations));
            set(out, "overview", choice_value(overview));
            set(out, "timestamps", counts_value(timestamps));
            set(out, "radiuses", reals_value(radiuses));
            set(out, "gaps", choice_value(gaps));
            set(out, "tidy", flag_value(*tidy));
            set(out, "waypoints", counts_value(waypoints));
        },
        _ => {},
    }
}

/// Appends the options of a trip service.
fn write_trip(out: &mut Vec<Field>, service: &Service)
    requires
        service is Trip,
        only_envelope(old(out)@),
        all_admitted(ServiceKind::Trip, old(out)@),
    ensures
        same_envelope(old(out)@, final(out)@),
        all_admitted(ServiceKind::Trip, final(out)@),
        trip_of(final(out)@) == Ok::<ServiceModel, ResponseStatus>(service@),
{
    proof {
        lemma_keys_differ();
    }
    match service {
        Service::Trip { roundtrip, source, annotations, geometries, overview } => {
            set(out, "roundtrip", flag_value(*roundtrip));
            set(out, "source", choice_value(&Some(*source)));
            set(out, "annotations", choices_value(annotations));
            set(out, "geometries", choice_value(geometries));
            set(out, "overview", choice_value(overview));
        },
        _ => {},
    }
}

impl Service {
    /// Appends the options of the service, leaving out those that are
    /// absent. Over fields that hold an envelope and no more, the options
    /// read back as the service.
    fn write_options(&self, out: &mut Vec<Field>)
        requires
            only_envelope(old(out)@),
            all_admitted(self@.kind(), old(out)@),
        ensures
            same_envelope(old(out)@, final(out)@),
            all_admitted(self@.kind(), final(out)@),
            service_of(self@.kind(), final(out)@) == Ok::<ServiceModel, ResponseStatus>(self@),
    {
        match self {
            Service::Route { .. } => write_route(out, self),
            Service::Nearest { .. } => write_nearest(out, self),
            Service::Table { .. } => write_table(out, self),
            Service::Match { .. } => write_match(out, self),
            Service::Trip { .. } => write_trip(out, self),
            Service::Tile { .. } => {},
        }
    }
}

/// Whether the envelope's keys hold the envelope of the request.
pub open spec fn holds_envelope(f: Seq<Field>, m: RequestModel) -> bool {
    &&& token_of(f, "service"@) == Ok::<Option<Seq<char>>, ResponseStatus>(
        Some(m.service.kind().token()),
    )
    &&& token_of(f, "version"@) == Ok::<Option<Seq<char>>, ResponseStatus>(m.version)
    &&& choice_of::<Profile>(f, "profile"@) == Ok::<Option<Profile>, ResponseStatus>(
        Some(m.profile),
    )
    &&& pairs_of(f, "coordinates"@) == Ok::<Option<Seq<(u64, u64)>>, ResponseStatus>(
        Some(m.coordinates),
    )
    &&& choice_of::<Format>(f, "format"@) == Ok::<Option<Format>, ResponseStatus>(Some(m.format))
}

impl Request {
    /// The envelope's fields, in their order.
    fn write_envelope(&self) -> (out: Vec<Field>)
        ensures
            holds_envelope(out@, self@),
            only_envelope(out@),
            forall|kind: ServiceKind| all_admitted(kind, out@),
    {
        let kind = self.service.kind();
        let mut out: Vec<Field> = Vec::new();
        proof {
            lemma_keys_differ();
            assert forall|kind: ServiceKind| all_admitted(kind, out@) by {}
            assert forall|k: Seq<char>| value_of(out@, k) is None by {
                lemma_value_is_a_field(out@, k);
            }
        }
        set(&mut out, "service", Some(Value::Token(kind.to_string())));
        let version = match &self.version {
            Some(v) => Some(Value::Token(v.clone())),
            None => None,
        };
        set(&mut out, "version", version);
        set(&mut out, "profile", choice_value(&Some(self.profile)));
        set(&mut out, "coordinates", Some(Value::Pairs(copy_items(&self.coordinates))));
        set(&mut out, "format", choice_value(&Some(self.format)));
        out
    }

    /// The wire form of the request: the envelope, then the options of the
    /// service. Reading the wire form gives the request back, with the
    /// coordinates in their order; an option that is absent is left out, and
    /// so is an absent version.
    pub fn to_fields(&self) -> (out: Vec<Field>)
        ensures
            request_of(out@) == Ok::<RequestModel, ResponseStatus>(self@),
            forall|key: Seq<char>| left_out(self@.service, key) ==> !has_key(out@, key),
            self.version is None ==> !has_key(out@, "version"@),
    {
        let mut out = self.write_envelope();
        let ghost envelope = out@;
        self.service.write_options(&mut out);
        proof {
            ServiceKind::lemma_token_round_trip(self@.service.kind());
            assert(envelope_key("service"@) && envelope_key("version"@) && envelope_key(
                "profile"@,
            ) && envelope_key("coordinates"@) && envelope_key("format"@));
            assert(value_of(out@, "service"@) == value_of(envelope, "service"@));
            assert(value_of(out@, "version"@) == value_of(envelope, "version"@));
            assert(value_of(out@, "profile"@) == value_of(envelope, "profile"@));
            assert(value_of(out@, "coordinates"@) == value_of(envelope, "coordinates"@));
            assert(value_of(out@, "format"@) == value_of(envelope, "format"@));
            assert(holds_envelope(out@, self@));
            assert forall|key: Seq<char>| left_out(self@.service, key) implies !has_key(
                out@,
                key,
            ) by {
                lemma_absence_is_kept(out@, key);
            }
            lemma_absence_is_kept(out@, "version"@);
        }
        out
    }
}

} // verus!

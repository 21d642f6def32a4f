//! Payload of the route service, and its wire form.

use crate::response::ResponseStatus;
use crate::text::same_text;
use crate::wire::{
    choice_of, copy_groups, groups, groups_of, lemma_first_is_value, need, or_default,
    read_choice, read_groups, reads_as, required, Field, Value, WireToken,
};
use vstd::prelude::*;
use vstd::string::*;

verus! {

/// Result of a route request: a status and, for each input coordinate in
/// order, the identifiers of the network elements matched to it. An empty
/// inner list stands for a coordinate that was not matched.
///
/// The waypoints mean something only under the status `Ok`.
#[derive(Clone, Debug, PartialEq)]
pub struct RouteResponse {
    pub code: ResponseStatus,
    pub waypoints: Vec<Vec<u32>>,
}

/// What a `RouteResponse` value stands for.
pub struct RouteResponseModel {
    pub code: ResponseStatus,
    pub waypoints: Seq<Seq<u32>>,
}

impl View for RouteResponse {
    type V = RouteResponseModel;

    open spec fn view(&self) -> RouteResponseModel {
        RouteResponseModel { code: self.code, waypoints: groups(self.waypoints@) }
    }
}

impl WireToken for ResponseStatus {
    open spec fn name(self) -> Seq<char> {
        self.token()
    }

    open spec fn named(t: Seq<char>) -> Option<ResponseStatus> {
        ResponseStatus::parse(t)
    }

    fn write(&self) -> (s: String) {
        self.to_string()
    }

    fn read(t: &str) -> (r: Option<ResponseStatus>) {
        match ResponseStatus::from_token(t) {
            Ok(v) => Some(v),
            Err(_) => None,
        }
    }

    proof fn lemma_name_is_read(v: ResponseStatus) {
        ResponseStatus::lemma_token_round_trip(v);
    }
}

/// Whether the key is one of a route response's.
pub open spec fn response_key(key: Seq<char>) -> bool {
    key == "code"@ || key == "waypoints"@
}

/// Whether every key of the fields is one of a route response's.
pub open spec fn all_response_keys(f: Seq<Field>) -> bool {
    forall|i: int| 0 <= i < f.len() ==> response_key((#[trigger] f[i]).key@)
}

/// The route response that the fields describe, or why there is none. Any
/// other key than `code` and `waypoints` is `InvalidOptions`; the code must
/// be there and name a status; waypoints that are left out are none.
pub open spec fn route_response_of(f: Seq<Field>) -> Result<RouteResponseModel, ResponseStatus> {
    let code = required(choice_of::<ResponseStatus>(f, "code"@));
    let waypoints = or_default(groups_of(f, "waypoints"@), Seq::<Seq<u32>>::empty());
    if !all_response_keys(f) {
        Err(ResponseStatus::InvalidOptions)
    } else if code is Err {
        Err(code->Err_0)
    } else if waypoints is Err {
        Err(waypoints->Err_0)
    } else {
        Ok(RouteResponseModel { code: code->Ok_0, waypoints: waypoints->Ok_0 })
    }
}

/// Whether every key is one of a route response's.
fn check_response_keys(fields: &Vec<Field>) -> (r: bool)
    ensures
        r == all_response_keys(fields@),
{
    let mut i: usize = 0;
    while i < fields.len()
        invariant
            i <= fields.len(),
            forall|j: int| 0 <= j < i ==> response_key((#[trigger] fields@[j]).key@),
        decreases fields.len() - i,
    {
        let key = fields[i].key.as_str();
        if !same_text(key, "code") && !same_text(key, "waypoints") {
            proof {
                assert(!response_key(fields@[i as int].key@));
            }
            return false;
        }
        i += 1;
    }
    true
}

impl RouteResponse {
    /// The waypoints, where the status says that they mean something.
    pub fn payload(&self) -> (r: Option<&Vec<Vec<u32>>>)
        ensures
            r == if self.code.carries_payload() {
                Some(&self.waypoints)
            } else {
                None
            },
    {
        if self.code.is_ok() {
            Some(&self.waypoints)
        } else {
            None
        }
    }

    /// The wire form of the response: the code as its token, then the
    /// waypoints, group by group. Reading it gives the response back.
    pub fn to_fields(&self) -> (out: Vec<Field>)
        ensures
            out@.len() == 2,
            out@[0].key@ == "code"@,
            out@[0].value matches Value::Token(t) && t@ == self.code.token(),
            out@[1].key@ == "waypoints"@,
            out@[1].value matches Value::Groups(g) && groups(g@) == groups(self.waypoints@),
            route_response_of(out@) == Ok::<RouteResponseModel, ResponseStatus>(self@),
    {
        let mut out: Vec<Field> = Vec::new();
        out.push(Field { key: "code".to_owned(), value: Value::Token(self.code.to_string()) });
        out.push(
            Field { key: "waypoints".to_owned(), value: Value::Groups(copy_groups(&self.waypoints)) },
        );
        proof {
            reveal_strlit("code");
            reveal_strlit("waypoints");
            assert("code"@.len() == 4 && "waypoints"@.len() == 9);
            ResponseStatus::lemma_token_round_trip(self.code);
            lemma_first_is_value(out@, "code"@, 0);
            lemma_first_is_value(out@, "waypoints"@, 1);
        }
        out
    }

    /// Reads a route response from its wire form.
    pub fn from_fields(fields: &Vec<Field>) -> (r: Result<RouteResponse, ResponseStatus>)
        ensures
            reads_as(r, route_response_of(fields@)),
    {
        if !check_response_keys(fields) {
            return Err(ResponseStatus::InvalidOptions);
        }
        let code = need(read_choice::<ResponseStatus>(fields, "code")?)?;
        let waypoints = match read_groups(fields, "waypoints")? {
            Some(v) => v,
            None => Vec::new(),
        };
        proof {
            assert(groups(waypoints@) =~= or_default(
                groups_of(fields@, "waypoints"@),
                Seq::<Seq<u32>>::empty(),
            )->Ok_0);
        }
        Ok(RouteResponse { code, waypoints })
    }
}

} // verus!

//! The five remote operations of the account-authentication protocol:
//! Authenticate, Refresh, Validate, SignOut and Invalidate.
//!
//! Each operation builds its JSON request payload and decodes (or discards)
//! the response body.  The HTTP exchange itself is the transport's business:
//! an operation receives the transport's outcome as a value and is verified
//! for every outcome.

use vstd::prelude::*;

use crate::error::{Error, TransportError};
use crate::json::{
    entries_view, json_of, json_text_of, json_to_string, lookup, obj_get, parse_json,
    spec_bool_field, spec_opt_str_field, Json, JsonView,
};

verus! {

/// A single username - UUID mapping.
#[derive(Debug)]
pub struct NameUUID {
    /// The uuid in hex without dashes.
    pub id: String,
    /// Name of the player at the present point in time.
    pub name: String,
    /// Whether the account predates migration; absent on the wire means false.
    pub legacy: bool,
    /// Whether the account is a demo account; absent on the wire means false.
    pub demo: bool,
}

/// The mathematical content of a [`NameUUID`].
pub ghost struct ProfileView {
    pub id: Seq<char>,
    pub name: Seq<char>,
    pub legacy: bool,
    pub demo: bool,
}

impl View for NameUUID {
    type V = ProfileView;

    open spec fn view(&self) -> ProfileView {
        ProfileView {
            id: self.id@,
            name: self.name@,
            legacy: self.legacy,
            demo: self.demo,
        }
    }
}

impl Clone for NameUUID {
    fn clone(&self) -> (r: Self)
        ensures
            r == *self,
    {
        NameUUID {
            id: self.id.clone(),
            name: self.name.clone(),
            legacy: self.legacy,
            demo: self.demo,
        }
    }
}

/// The profile a JSON document decodes to, if it matches the schema:
/// `id` and `name` are required strings, `legacy` and `demo` default to
/// false when absent.
pub open spec fn spec_profile(v: JsonView) -> Option<ProfileView> {
    match v {
        JsonView::Obj(es) => match (
            lookup(es, "id"@),
            lookup(es, "name"@),
            spec_bool_field(lookup(es, "legacy"@), false),
            spec_bool_field(lookup(es, "demo"@), false),
        ) {
            (Some(JsonView::Str(id)), Some(JsonView::Str(name)), Some(legacy), Some(demo)) => Some(
                ProfileView { id, name, legacy, demo },
            ),
            _ => None,
        },
        _ => None,
    }
}

/// Decodes one profile object.
fn decode_profile(j: &Json) -> (r: Result<NameUUID, Error>)
    ensures
        match r {
            Ok(p) => spec_profile(j@) == Some(p@),
            Err(e) => spec_profile(j@) is None && e == Error::Decode,
        },
{
    match j {
        Json::Obj(entries) => {
            let id = match obj_get(entries, &"id".to_owned()) {
                Some(v) => match v {
                    Json::Str(s) => s.clone(),
                    _ => return Err(Error::Decode),
                },
                None => return Err(Error::Decode),
            };
            let name = match obj_get(entries, &"name".to_owned()) {
                Some(v) => match v {
                    Json::Str(s) => s.clone(),
                    _ => return Err(Error::Decode),
                },
                None => return Err(Error::Decode),
            };
            let legacy = match obj_get(entries, &"legacy".to_owned()) {
                Some(v) => match v {
                    Json::Bool(b) => *b,
                    _ => return Err(Error::Decode),
                },
                None => false,
            };
            let demo = match obj_get(entries, &"demo".to_owned()) {
                Some(v) => match v {
                    Json::Bool(b) => *b,
                    _ => return Err(Error::Decode),
                },
                None => false,
            };
            Ok(NameUUID { id, name, legacy, demo })
        },
        _ => Err(Error::Decode),
    }
}

/// Represents a response to a successful authentication.
#[derive(Debug)]
pub struct AuthenticationResponse {
    /// Opaque bearer credential for subsequent authenticated calls.
    pub access_token: String,
    /// Session-binding token; absent when the service assigned none back.
    pub client_token: Option<String>,
    /// Present only when the account has several profiles.
    pub available_profiles: Option<Vec<NameUUID>>,
    /// The profile the session is bound to.
    pub selected_profile: NameUUID,
}

/// The mathematical content of an [`AuthenticationResponse`].
pub ghost struct AuthResponseView {
    pub access_token: Seq<char>,
    pub client_token: Option<Seq<char>>,
    pub available_profiles: Option<Seq<ProfileView>>,
    pub selected_profile: ProfileView,
}

/// The view of a profile list.
pub open spec fn profiles_seq_view(v: Vec<NameUUID>) -> Seq<ProfileView> {
    Seq::new(v@.len(), |i: int| v@[i]@)
}

impl View for AuthenticationResponse {
    type V = AuthResponseView;

    open spec fn view(&self) -> AuthResponseView {
        AuthResponseView {
            access_token: self.access_token@,
            client_token: match self.client_token {
                Some(t) => Some(t@),
                None => None,
            },
            available_profiles: match self.available_profiles {
                Some(ps) => Some(profiles_seq_view(ps)),
                None => None,
            },
            selected_profile: self.selected_profile@,
        }
    }
}

/// The profile list a JSON array decodes to, if every element matches the
/// profile schema; the source order is kept.
pub open spec fn spec_profiles_value(v: JsonView) -> Option<Seq<ProfileView>> {
    match v {
        JsonView::Arr(a) => if forall|i: int|
            0 <= i < a.len() ==> spec_profile(#[trigger] a[i]) is Some {
            Some(Seq::new(a.len(), |i: int| spec_profile(a[i]).unwrap()))
        } else {
            None
        },
        _ => None,
    }
}

/// The optional `availableProfiles` field: absent or null means none.
pub open spec fn spec_profiles_field(f: Option<JsonView>) -> Option<Option<Seq<ProfileView>>> {
    match f {
        None => Some(None),
        Some(JsonView::Null) => Some(None),
        Some(v) => match spec_profiles_value(v) {
            Some(ps) => Some(Some(ps)),
            None => None,
        },
    }
}

/// The authentication result a JSON document decodes to, if it matches the
/// schema: `accessToken` and `selectedProfile` are required, `clientToken`
/// and `availableProfiles` may be absent.
pub open spec fn spec_auth_response(v: JsonView) -> Option<AuthResponseView> {
    match v {
        JsonView::Obj(es) => match (
            lookup(es, "accessToken"@),
            spec_opt_str_field(lookup(es, "clientToken"@)),
            spec_profiles_field(lookup(es, "availableProfiles"@)),
            lookup(es, "selectedProfile"@),
        ) {
            (Some(JsonView::Str(at)), Some(ct), Some(ap), Some(sp)) => match spec_profile(sp) {
                Some(p) => Some(
                    AuthResponseView {
                        access_token: at,
                        client_token: ct,
                        available_profiles: ap,
                        selected_profile: p,
                    },
                ),
                None => None,
            },
            _ => None,
        },
        _ => None,
    }
}

/// Decodes a whole profile list, keeping the source order.
fn decode_profiles(arr: &Vec<Json>) -> (r: Result<Vec<NameUUID>, Error>)
    ensures
        match r {
            Ok(ps) => spec_profiles_value(JsonView::Arr(crate::json::arr_view(*arr))) == Some(
                profiles_seq_view(ps),
            ),
            Err(e) => spec_profiles_value(JsonView::Arr(crate::json::arr_view(*arr))) is None && e
                == Error::Decode,
        },
{
    let ghost av = crate::json::arr_view(*arr);
    let mut out: Vec<NameUUID> = Vec::new();
    let mut i: usize = 0;
    while i < arr.len()
        invariant
            i <= arr@.len(),
            out@.len() == i,
            av == crate::json::arr_view(*arr),
            forall|k: int|
                0 <= k < i ==> spec_profile(#[trigger] av[k]) is Some && out@[k]@ == spec_profile(
                    av[k],
                ).unwrap(),
        decreases arr@.len() - i,
    {
        match decode_profile(&arr[i]) {
            Ok(p) => out.push(p),
            Err(_) => {
                proof {
                    assert(av[i as int] == arr@[i as int]@);
                    assert(!(spec_profile(av[i as int]) is Some));
                }
                return Err(Error::Decode);
            },
        }
        i += 1;
    }
    proof {
        assert(Seq::new(av.len(), |k: int| spec_profile(av[k]).unwrap()) =~= profiles_seq_view(
            out,
        ));
    }
    Ok(out)
}

/// Decodes an authentication response document.
fn decode_auth_response(j: &Json) -> (r: Result<AuthenticationResponse, Error>)
    ensures
        match r {
            Ok(resp) => spec_auth_response(j@) == Some(resp@),
            Err(e) => spec_auth_response(j@) is None && e == Error::Decode,
        },
{
    match j {
        Json::Obj(entries) => {
            let access_token = match obj_get(entries, &"accessToken".to_owned()) {
                Some(v) => match v {
                    Json::Str(s) => s.clone(),
                    _ => return Err(Error::Decode),
                },
                None => return Err(Error::Decode),
            };
            let client_token = match obj_get(entries, &"clientToken".to_owned()) {
                Some(v) => match v {
                    Json::Null => None,
                    Json::Str(s) => Some(s.clone()),
                    _ => return Err(Error::Decode),
                },
                None => None,
            };
            let available_profiles = match obj_get(entries, &"availableProfiles".to_owned()) {
                Some(v) => match v {
                    Json::Null => None,
                    Json::Arr(a) => match decode_profiles(a) {
                        Ok(ps) => Some(ps),
                        Err(e) => return Err(e),
                    },
                    _ => return Err(Error::Decode),
                },
                None => None,
            };
            let selected_profile = match obj_get(entries, &"selectedProfile".to_owned()) {
                Some(v) => match decode_profile(v) {
                    Ok(p) => p,
                    Err(e) => return Err(e),
                },
                None => return Err(Error::Decode),
            };
            Ok(
                AuthenticationResponse {
                    access_token,
                    client_token,
                    available_profiles,
                    selected_profile,
                },
            )
        },
        _ => Err(Error::Decode),
    }
}

/// How the result of Authenticate or Refresh relates to the transport's
/// outcome: a transport failure is surfaced verbatim, a body that is not
/// JSON or does not match the response schema is a decode failure, and a
/// matching body yields exactly the decoded result.
pub open spec fn session_outcome_matches(
    outcome: Result<String, TransportError>,
    r: Result<AuthenticationResponse, Error>,
) -> bool {
    match outcome {
        Ok(body) => match json_of(body@) {
            Some(doc) => match r {
                Ok(resp) => spec_auth_response(doc) == Some(resp@),
                Err(e) => spec_auth_response(doc) is None && e == Error::Decode,
            },
            None => r == Err::<AuthenticationResponse, Error>(Error::Decode),
        },
        Err(t) => r == Err::<AuthenticationResponse, Error>(Error::Transport(t)),
    }
}

/// How the result of Validate, SignOut or Invalidate relates to the
/// transport's outcome: any successful exchange succeeds (the body is
/// discarded), and a transport failure is surfaced verbatim.
pub open spec fn empty_outcome_matches(
    outcome: Result<String, TransportError>,
    r: Result<(), Error>,
) -> bool {
    match outcome {
        Ok(_) => r == Ok::<(), Error>(()),
        Err(t) => r == Err::<(), Error>(Error::Transport(t)),
    }
}

/// Authenticate with the account-authentication service.
#[derive(Debug, Clone)]
pub struct Authenticate {
    username: String,
    password: String,
    client_token: Option<String>,
    request_user: bool,
}

/// The mathematical content of an [`Authenticate`] request.
pub ghost struct AuthenticateView {
    pub username: Seq<char>,
    pub password: Seq<char>,
    pub client_token: Option<Seq<char>>,
    pub request_user: bool,
}

impl View for Authenticate {
    type V = AuthenticateView;

    closed spec fn view(&self) -> AuthenticateView {
        AuthenticateView {
            username: self.username@,
            password: self.password@,
            client_token: match self.client_token {
                Some(t) => Some(t@),
                None => None,
            },
            request_user: self.request_user,
        }
    }
}

/// The constant agent identity block every Authenticate payload carries.
pub open spec fn spec_agent_block() -> JsonView {
    JsonView::Obj(
        Seq::<(Seq<char>, JsonView)>::empty().push(
            ("name"@, JsonView::Str("Minecraft"@)),
        ).push(("version"@, JsonView::UInt(1))),
    )
}

/// An optional token rendered on the wire: a string, or null when absent.
pub open spec fn spec_opt_token(t: Option<Seq<char>>) -> JsonView {
    match t {
        Some(s) => JsonView::Str(s),
        None => JsonView::Null,
    }
}

/// The payload Authenticate sends: a constant agent identity block and the
/// request's own fields, under the protocol's exact field names.
pub open spec fn spec_authenticate_payload(v: AuthenticateView) -> JsonView {
    JsonView::Obj(
        Seq::<(Seq<char>, JsonView)>::empty().push(("agent"@, spec_agent_block())).push(
            ("username"@, JsonView::Str(v.username)),
        ).push(("password"@, JsonView::Str(v.password))).push(
            ("clientToken"@, spec_opt_token(v.client_token)),
        ).push(("requestUser"@, JsonView::Bool(v.request_user))),
    )
}

impl Authenticate {
    /// The fixed endpoint of the Authenticate operation.
    pub fn get_endpoint() -> (r: String)
        ensures
            r@ == "https://authserver.mojang.com/authenticate"@,
    {
        "https://authserver.mojang.com/authenticate".to_owned()
    }

    pub fn new(username: &str, password: &str) -> (r: Self)
        ensures
            r@ == (AuthenticateView {
                username: username@,
                password: password@,
                client_token: None,
                request_user: false,
            }),
    {
        Authenticate {
            username: username.to_owned(),
            password: password.to_owned(),
            client_token: None,
            request_user: false,
        }
    }

    /// Builds the request payload document.
    pub fn payload(&self) -> (r: Json)
        ensures
            r@ == spec_authenticate_payload(self@),
    {
        let mut agent: Vec<(String, Json)> = Vec::new();
        agent.push(("name".to_owned(), Json::Str("Minecraft".to_owned())));
        agent.push(("version".to_owned(), Json::UInt(1)));
        let ghost agent_v = entries_view(agent);
        proof {
            assert(agent_v =~= Seq::<(Seq<char>, JsonView)>::empty().push(
                ("name"@, JsonView::Str("Minecraft"@)),
            ).push(("version"@, JsonView::UInt(1))));
        }
        let mut es: Vec<(String, Json)> = Vec::new();
        es.push(("agent".to_owned(), Json::Obj(agent)));
        es.push(("username".to_owned(), Json::Str(self.username.clone())));
        es.push(("password".to_owned(), Json::Str(self.password.clone())));
        es.push(
            (
                "clientToken".to_owned(),
                match &self.client_token {
                    Some(t) => Json::Str(t.clone()),
                    None => Json::Null,
                },
            ),
        );
        es.push(("requestUser".to_owned(), Json::Bool(self.request_user)));
        let r = Json::Obj(es);
        proof {
            assert(entries_view(es) =~= Seq::<(Seq<char>, JsonView)>::empty().push(
                ("agent"@, JsonView::Obj(agent_v)),
            ).push(("username"@, JsonView::Str(self@.username))).push(
                ("password"@, JsonView::Str(self@.password)),
            ).push(("clientToken"@, spec_opt_token(self@.client_token))).push(
                ("requestUser"@, JsonView::Bool(self@.request_user)),
            ));
            assert(r@ == spec_authenticate_payload(self@));
        }
        r
    }

    /// The serialized request body.
    pub fn request_body(&self) -> (r: String)
        ensures
            r@ == json_text_of(spec_authenticate_payload(self@)),
    {
        let p = self.payload();
        json_to_string(&p)
    }

    /// Turns the transport's outcome for this operation into the decoded
    /// authentication result.
    pub fn process_response(outcome: Result<String, TransportError>) -> (r: Result<
        AuthenticationResponse,
        Error,
    >)
        ensures
            session_outcome_matches(outcome, r),
    {
        match outcome {
            Ok(body) => match parse_json(body.as_str()) {
                Some(doc) => decode_auth_response(&doc),
                None => Err(Error::Decode),
            },
            Err(t) => Err(Error::Transport(t)),
        }
    }
}

/// Every Authenticate payload carries the constant agent identity block and
/// the request's own values, each under its protocol-mandated field name.
pub proof fn lemma_authenticate_payload_fields(v: AuthenticateView)
    ensures
        spec_authenticate_payload(v) matches JsonView::Obj(es) && lookup(es, "agent"@) == Some(
            spec_agent_block(),
        ) && lookup(es, "username"@) == Some(JsonView::Str(v.username)) && lookup(es, "password"@)
            == Some(JsonView::Str(v.password)) && lookup(es, "clientToken"@) == Some(
            spec_opt_token(v.client_token),
        ) && lookup(es, "requestUser"@) == Some(JsonView::Bool(v.request_user)),
{
    reveal_strlit("agent");
    reveal_strlit("username");
    reveal_strlit("password");
    reveal_strlit("clientToken");
    reveal_strlit("requestUser");
    assert("agent"@.len() == 5);
    assert("username"@.len() == 8);
    assert("password"@.len() == 8);
    assert("clientToken"@.len() == 11);
    assert("requestUser"@.len() == 11);
    assert("username"@[0] == 'u');
    assert("password"@[0] == 'p');
    assert("clientToken"@[0] == 'c');
    assert("requestUser"@[0] == 'r');
    let es = spec_authenticate_payload(v)->Obj_0;
    let s1 = es.drop_first();
    let s2 = s1.drop_first();
    let s3 = s2.drop_first();
    let s4 = s3.drop_first();
    crate::json::lemma_lookup_hit(es, "agent"@);
    crate::json::lemma_lookup_miss(es, "username"@);
    crate::json::lemma_lookup_hit(s1, "username"@);
    crate::json::lemma_lookup_miss(es, "password"@);
    crate::json::lemma_lookup_miss(s1, "password"@);
    crate::json::lemma_lookup_hit(s2, "password"@);
    crate::json::lemma_lookup_miss(es, "clientToken"@);
    crate::json::lemma_lookup_miss(s1, "clientToken"@);
    crate::json::lemma_lookup_miss(s2, "clientToken"@);
    crate::json::lemma_lookup_hit(s3, "clientToken"@);
    crate::json::lemma_lookup_miss(es, "requestUser"@);
    crate::json::lemma_lookup_miss(s1, "requestUser"@);
    crate::json::lemma_lookup_miss(s2, "requestUser"@);
    crate::json::lemma_lookup_miss(s3, "requestUser"@);
    crate::json::lemma_lookup_hit(s4, "requestUser"@);
}

/// A response that lacks `clientToken` and `availableProfiles` but carries
/// the required fields decodes, with both optional fields absent.
pub proof fn lemma_optional_fields_decode(
    es: Seq<(Seq<char>, JsonView)>,
    at: Seq<char>,
    sp: JsonView,
)
    requires
        lookup(es, "accessToken"@) == Some(JsonView::Str(at)),
        lookup(es, "selectedProfile"@) == Some(sp),
        spec_profile(sp) is Some,
        lookup(es, "clientToken"@) is None,
        lookup(es, "availableProfiles"@) is None,
    ensures
        spec_auth_response(JsonView::Obj(es)) == Some(
            AuthResponseView {
                access_token: at,
                client_token: None,
                available_profiles: None,
                selected_profile: spec_profile(sp).unwrap(),
            },
        ),
{
}

/// A response without `selectedProfile` never decodes.
pub proof fn lemma_missing_selected_profile(es: Seq<(Seq<char>, JsonView)>)
    requires
        lookup(es, "selectedProfile"@) is None,
    ensures
        spec_auth_response(JsonView::Obj(es)) is None,
{
}

/// A profile document without `legacy` or `demo` decodes with both flags
/// defaulted to false.
pub proof fn lemma_profile_flag_defaults(
    es: Seq<(Seq<char>, JsonView)>,
    id: Seq<char>,
    name: Seq<char>,
)
    requires
        lookup(es, "id"@) == Some(JsonView::Str(id)),
        lookup(es, "name"@) == Some(JsonView::Str(name)),
        lookup(es, "legacy"@) is None,
        lookup(es, "demo"@) is None,
    ensures
        spec_profile(JsonView::Obj(es)) == Some(
            ProfileView { id, name, legacy: false, demo: false },
        ),
{
}

/// Refresh a valid access token.
#[derive(Debug, Clone)]
pub struct Refresh {
    access_token: String,
    client_token: String,
    request_user: bool,
}

/// The mathematical content of a [`Refresh`] request.
pub ghost struct RefreshView {
    pub access_token: Seq<char>,
    pub client_token: Seq<char>,
    pub request_user: bool,
}

impl View for Refresh {
    type V = RefreshView;

    closed spec fn view(&self) -> RefreshView {
        RefreshView {
            access_token: self.access_token@,
            client_token: self.client_token@,
            request_user: self.request_user,
        }
    }
}

/// The payload Refresh sends; all three fields are required.
pub open spec fn spec_refresh_payload(v: RefreshView) -> JsonView {
    JsonView::Obj(
        Seq::<(Seq<char>, JsonView)>::empty().push(
            ("accessToken"@, JsonView::Str(v.access_token)),
        ).push(("clientToken"@, JsonView::Str(v.client_token))).push(
            ("requestUser"@, JsonView::Bool(v.request_user)),
        ),
    )
}

impl Refresh {
    /// The fixed endpoint of the Refresh operation.
    pub fn get_endpoint() -> (r: String)
        ensures
            r@ == "https://authserver.mojang.com/refresh"@,
    {
        "https://authserver.mojang.com/refresh".to_owned()
    }

    pub fn new(access_token: &str, client_token: &str, request_user: bool) -> (r: Self)
        ensures
            r@ == (RefreshView {
                access_token: access_token@,
                client_token: client_token@,
                request_user,
            }),
    {
        Refresh {
            access_token: access_token.to_owned(),
            client_token: client_token.to_owned(),
            request_user,
        }
    }

    /// Builds the request payload document.
    pub fn payload(&self) -> (r: Json)
        ensures
            r@ == spec_refresh_payload(self@),
    {
        let mut es: Vec<(String, Json)> = Vec::new();
        es.push(("accessToken".to_owned(), Json::Str(self.access_token.clone())));
        es.push(("clientToken".to_owned(), Json::Str(self.client_token.clone())));
        es.push(("requestUser".to_owned(), Json::Bool(self.request_user)));
        let r = Json::Obj(es);
        proof {
            assert(entries_view(es) =~= Seq::<(Seq<char>, JsonView)>::empty().push(
                ("accessToken"@, JsonView::Str(self@.access_token)),
            ).push(("clientToken"@, JsonView::Str(self@.client_token))).push(
                ("requestUser"@, JsonView::Bool(self@.request_user)),
            ));
            assert(r@ == spec_refresh_payload(self@));
        }
        r
    }

    /// The serialized request body.
    pub fn request_body(&self) -> (r: String)
        ensures
            r@ == json_text_of(spec_refresh_payload(self@)),
    {
        let p = self.payload();
        json_to_string(&p)
    }

    /// Turns the transport's outcome for this operation into the decoded
    /// authentication result.
    pub fn process_response(outcome: Result<String, TransportError>) -> (r: Result<
        AuthenticationResponse,
        Error,
    >)
        ensures
            session_outcome_matches(outcome, r),
    {
        match outcome {
            Ok(body) => match parse_json(body.as_str()) {
                Some(doc) => decode_auth_response(&doc),
                None => Err(Error::Decode),
            },
            Err(t) => Err(Error::Transport(t)),
        }
    }
}

/// Validate an existing access token.
#[derive(Debug, Clone)]
pub struct Validate {
    access_token: String,
    client_token: Option<String>,
}

/// The mathematical content of a [`Validate`] request.
pub ghost struct ValidateView {
    pub access_token: Seq<char>,
    pub client_token: Option<Seq<char>>,
}

impl View for Validate {
    type V = ValidateView;

    closed spec fn view(&self) -> ValidateView {
        ValidateView {
            access_token: self.access_token@,
            client_token: match self.client_token {
                Some(t) => Some(t@),
                None => None,
            },
        }
    }
}

/// The payload Validate sends; the client token may be absent (null).
pub open spec fn spec_validate_payload(v: ValidateView) -> JsonView {
    JsonView::Obj(
        Seq::<(Seq<char>, JsonView)>::empty().push(
            ("accessToken"@, JsonView::Str(v.access_token)),
        ).push(("clientToken"@, spec_opt_token(v.client_token))),
    )
}

impl Validate {
    /// The fixed endpoint of the Validate operation.
    pub fn get_endpoint() -> (r: String)
        ensures
            r@ == "https://authserver.mojang.com/validate"@,
    {
        "https://authserver.mojang.com/validate".to_owned()
    }

    pub fn new(access_token: &str, client_token: Option<String>) -> (r: Self)
        ensures
            r@ == (ValidateView {
                access_token: access_token@,
                client_token: match client_token {
                    Some(t) => Some(t@),
                    None => None,
                },
            }),
    {
        Validate { access_token: access_token.to_owned(), client_token }
    }

    /// Builds the request payload document.
    pub fn payload(&self) -> (r: Json)
        ensures
            r@ == spec_validate_payload(self@),
    {
        let mut es: Vec<(String, Json)> = Vec::new();
        es.push(("accessToken".to_owned(), Json::Str(self.access_token.clone())));
        es.push(
            (
                "clientToken".to_owned(),
                match &self.client_token {
                    Some(t) => Json::Str(t.clone()),
                    None => Json::Null,
                },
            ),
        );
        let r = Json::Obj(es);
        proof {
            assert(entries_view(es) =~= Seq::<(Seq<char>, JsonView)>::empty().push(
                ("accessToken"@, JsonView::Str(self@.access_token)),
            ).push(("clientToken"@, spec_opt_token(self@.client_token))));
            assert(r@ == spec_validate_payload(self@));
        }
        r
    }

    /// The serialized request body.
    pub fn request_body(&self) -> (r: String)
        ensures
            r@ == json_text_of(spec_validate_payload(self@)),
    {
        let p = self.payload();
        json_to_string(&p)
    }

    /// Turns the transport's outcome into the operation's result: success is
    /// exactly a successful exchange, and the body is discarded.
    pub fn process_response(outcome: Result<String, TransportError>) -> (r: Result<(), Error>)
        ensures
            empty_outcome_matches(outcome, r),
    {
        match outcome {
            Ok(_) => Ok(()),
            Err(t) => Err(Error::Transport(t)),
        }
    }
}

/// Revoke every session of an account, using its username and password.
#[derive(Debug, Clone)]
pub struct SignOut {
    username: String,
    password: String,
}

/// The mathematical content of a [`SignOut`] request.
pub ghost struct SignOutView {
    pub username: Seq<char>,
    pub password: Seq<char>,
}

impl View for SignOut {
    type V = SignOutView;

    closed spec fn view(&self) -> SignOutView {
        SignOutView { username: self.username@, password: self.password@ }
    }
}

/// The payload SignOut sends.
pub open spec fn spec_sign_out_payload(v: SignOutView) -> JsonView {
    JsonView::Obj(
        Seq::<(Seq<char>, JsonView)>::empty().push(("username"@, JsonView::Str(v.username))).push(
            ("password"@, JsonView::Str(v.password)),
        ),
    )
}

impl SignOut {
    /// The fixed endpoint of the SignOut operation.
    pub fn get_endpoint() -> (r: String)
        ensures
            r@ == "https://authserver.mojang.com/signout"@,
    {
        "https://authserver.mojang.com/signout".to_owned()
    }

    pub fn new(username: &str, password: &str) -> (r: Self)
        ensures
            r@ == (SignOutView { username: username@, password: password@ }),
    {
        SignOut { username: username.to_owned(), password: password.to_owned() }
    }

    /// Builds the request payload document.
    pub fn payload(&self) -> (r: Json)
        ensures
            r@ == spec_sign_out_payload(self@),
    {
        let mut es: Vec<(String, Json)> = Vec::new();
        es.push(("username".to_owned(), Json::Str(self.username.clone())));
        es.push(("password".to_owned(), Json::Str(self.password.clone())));
        let r = Json::Obj(es);
        proof {
            assert(entries_view(es) =~= Seq::<(Seq<char>, JsonView)>::empty().push(
                ("username"@, JsonView::Str(self@.username)),
            ).push(("password"@, JsonView::Str(self@.password))));
            assert(r@ == spec_sign_out_payload(self@));
        }
        r
    }

    /// The serialized request body.
    pub fn request_body(&self) -> (r: String)
        ensures
            r@ == json_text_of(spec_sign_out_payload(self@)),
    {
        let p = self.payload();
        json_to_string(&p)
    }

    /// Turns the transport's outcome into the operation's result: success is
    /// exactly a successful exchange, and the body is discarded.
    pub fn process_response(outcome: Result<String, TransportError>) -> (r: Result<(), Error>)
        ensures
            empty_outcome_matches(outcome, r),
    {
        match outcome {
            Ok(_) => Ok(()),
            Err(t) => Err(Error::Transport(t)),
        }
    }
}

/// Revoke one session, identified by its access and client token pair.
#[derive(Debug, Clone)]
pub struct Invalidate {
    access_token: String,
    client_token: String,
}

/// The mathematical content of an [`Invalidate`] request.
pub ghost struct InvalidateView {
    pub access_token: Seq<char>,
    pub client_token: Seq<char>,
}

impl View for Invalidate {
    type V = InvalidateView;

    closed spec fn view(&self) -> InvalidateView {
        InvalidateView {
            access_token: self.access_token@,
            client_token: self.client_token@,
        }
    }
}

/// The payload Invalidate sends; both tokens are required.
pub open spec fn spec_invalidate_payload(v: InvalidateView) -> JsonView {
    JsonView::Obj(
        Seq::<(Seq<char>, JsonView)>::empty().push(
            ("accessToken"@, JsonView::Str(v.access_token)),
        ).push(("clientToken"@, JsonView::Str(v.client_token))),
    )
}

impl Invalidate {
    /// The fixed endpoint of the Invalidate operation.
    pub fn get_endpoint() -> (r: String)
        ensures
            r@ == "https://authserver.mojang.com/invalidate"@,
    {
        "https://authserver.mojang.com/invalidate".to_owned()
    }

    pub fn new(access_token: &str, client_token: &str) -> (r: Self)
        ensures
            r@ == (InvalidateView {
                access_token: access_token@,
                client_token: client_token@,
            }),
    {
        Invalidate {
            access_token: access_token.to_owned(),
            client_token: client_token.to_owned(),
        }
    }

    /// Builds the request payload document.
    pub fn payload(&self) -> (r: Json)
        ensures
            r@ == spec_invalidate_payload(self@),
    {
        let mut es: Vec<(String, Json)> = Vec::new();
        es.push(("accessToken".to_owned(), Json::Str(self.access_token.clone())));
        es.push(("clientToken".to_owned(), Json::Str(self.client_token.clone())));
        let r = Json::Obj(es);
        proof {
            assert(entries_view(es) =~= Seq::<(Seq<char>, JsonView)>::empty().push(
                ("accessToken"@, JsonView::Str(self@.access_token)),
            ).push(("clientToken"@, JsonView::Str(self@.client_token))));
            assert(r@ == spec_invalidate_payload(self@));
        }
        r
    }

    /// The serialized request body.
    pub fn request_body(&self) -> (r: String)
        ensures
            r@ == json_text_of(spec_invalidate_payload(self@)),
    {
        let p = self.payload();
        json_to_string(&p)
    }

    /// Turns the transport's outcome into the operation's result: success is
    /// exactly a successful exchange, and the body is discarded.
    pub fn process_response(outcome: Result<String, TransportError>) -> (r: Result<(), Error>)
        ensures
            empty_outcome_matches(outcome, r),
    {
        match outcome {
            Ok(_) => Ok(()),
            Err(t) => Err(Error::Transport(t)),
        }
    }
}

} // verus!

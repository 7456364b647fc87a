use crate::config::ConfigData;
use crate::data::{
    AgentData, ApiResponse, ErrorResponse, Factions, LocationData, RegistrationData,
    spec_faction_name,
};
use crate::decode::{
    agent_from_obj, agent_shape, error_from_json, error_shape, is_agent_of, is_error_of,
    is_location_of, is_registration_of, location_from_json, location_shape, registration_from_obj,
    registration_shape,
};
use crate::json::{
    JsonSpec, JsonValue, chars_to_string, is_ws, is_ws_char, model_of, models_of_members,
    parse_json, push_quoted, push_str_chars, quoted, skip_ws, skip_ws_exec, sp_json, str_to_chars,
};
use vstd::prelude::*;

verus! {

/// Why an API operation failed: the transport broke, no token was at
/// hand, the server rejected the request, the response matched neither
/// envelope shape, or the waypoint argument was malformed.
#[derive(Clone, Debug)]
pub enum ApiError {
    /// The transport could not complete the exchange; carries its
    /// description.
    Network(String),
    /// No token was available at construction time.
    MissingToken,
    /// The server answered with a well-formed error envelope.
    BadRequest(ErrorResponse),
    /// The response body matched neither envelope shape.
    Decode,
    /// The waypoint has no dash-delimited system prefix.
    InvalidWaypoint,
}

/// The HTTP verbs the client uses.
#[derive(Clone, Copy, Debug, PartialEq, Eq, Structural)]
pub enum HttpMethod {
    Get,
    Post,
}

/// One fully-described HTTP exchange for a transport to carry out:
/// verb, URL, optional JSON body, and optional bearer credential.
#[derive(Clone, Debug)]
pub struct HttpRequest {
    pub method: HttpMethod,
    pub url: String,
    pub body: Option<String>,
    pub bearer_token: Option<String>,
}

/// Client interface for the trading API: it prepares each request and
/// interprets each response; a transport outside this crate carries
/// the bytes.
#[derive(Clone, Debug)]
pub struct ApiClient {
    /// API token for the user's player agent.
    pub token: String,
}

// ---------------------------------------------------------------------------
// Waypoints.
// ---------------------------------------------------------------------------

/// The first dash at or after `i`.
pub open spec fn spec_first_dash(s: Seq<char>, i: nat) -> Option<nat>
    decreases s.len() - i,
{
    if i >= s.len() {
        None
    } else if s[i as int] == '-' {
        Some(i)
    } else {
        spec_first_dash(s, i + 1)
    }
}

/// The system identifier a waypoint belongs to: its first two
/// dash-delimited segments. A waypoint without a dash has none.
pub open spec fn spec_system_of(w: Seq<char>) -> Option<Seq<char>> {
    match spec_first_dash(w, 0) {
        None => None,
        Some(i) => match spec_first_dash(w, i + 1) {
            None => Some(w),
            Some(j) => Some(w.take(j as int)),
        },
    }
}

fn first_dash(s: &Vec<char>, i: usize) -> (r: Option<usize>)
    requires
        i <= s@.len(),
    ensures
        match r {
            Some(j) => spec_first_dash(s@, i as nat) == Some(j as nat) && i <= j < s@.len(),
            None => spec_first_dash(s@, i as nat) is None,
        },
{
    let mut j = i;
    while j < s.len()
        invariant
            i <= j <= s@.len(),
            spec_first_dash(s@, i as nat) == spec_first_dash(s@, j as nat),
        decreases s@.len() - j,
    {
        if s[j] == '-' {
            return Some(j);
        }
        j = j + 1;
    }
    None
}

/// The system identifier derived from a waypoint, or nothing where the
/// waypoint holds no dash at all.
pub fn waypoint_system(waypoint: &str) -> (r: Option<String>)
    ensures
        match r {
            Some(sys) => spec_system_of(waypoint@) == Some(sys@),
            None => spec_system_of(waypoint@) is None,
        },
{
    let w = str_to_chars(waypoint);
    let i = match first_dash(&w, 0) {
        None => {
            return None;
        },
        Some(i) => i,
    };
    match first_dash(&w, i + 1) {
        None => Some(String::from_str(waypoint)),
        Some(j) => {
            let mut out: Vec<char> = Vec::new();
            let mut k: usize = 0;
            while k < j
                invariant
                    k <= j <= w@.len(),
                    w@ == waypoint@,
                    out@ == w@.take(k as int),
                decreases j - k,
            {
                out.push(w[k]);
                k = k + 1;
                proof {
                    assert(out@ =~= w@.take(k as int));
                }
            }
            Some(chars_to_string(&out))
        },
    }
}

// ---------------------------------------------------------------------------
// The envelope.
// ---------------------------------------------------------------------------

/// What a response body carries: its one payload and whether it came
/// under the error key. A body that is not a JSON object with a single
/// `data` or `error` member carries nothing.
pub open spec fn spec_envelope(s: Seq<char>) -> Option<(bool, JsonSpec)> {
    match sp_json(s) {
        Some(JsonSpec::Obj(m)) => if m.len() == 1 && m[0].0 == "data"@ {
            Some((false, m[0].1))
        } else if m.len() == 1 && m[0].0 == "error"@ {
            Some((true, m[0].1))
        } else {
            None
        },
        _ => None,
    }
}

fn envelope_from_body(body: &str) -> (r: Option<(bool, JsonValue)>)
    ensures
        match r {
            Some(p) => spec_envelope(body@) == Some((p.0, model_of(p.1))),
            None => spec_envelope(body@) is None,
        },
{
    let v = match parse_json(body) {
        Some(v) => v,
        None => {
            return None;
        },
    };
    match v {
        JsonValue::Obj(mut members) => {
            proof {
                crate::json::lemma_models_of_members_all(members@);
            }
            if members.len() == 1 {
                let (key, val) = match members.pop() {
                    Some(kv) => kv,
                    None => {
                        return None;
                    },
                };
                if key == String::from_str("data") {
                    Some((false, val))
                } else if key == String::from_str("error") {
                    Some((true, val))
                } else {
                    None
                }
            } else {
                None
            }
        },
        _ => None,
    }
}

/// The decoded envelope of a response body: the raw successful payload
/// or the typed error payload. A body that is not an envelope at all,
/// or whose error payload is malformed, is a decode failure.
pub fn decode_envelope(body: &str) -> (r: Result<ApiResponse<JsonValue>, ApiError>)
    ensures
        match spec_envelope(body@) {
            None => r matches Err(ApiError::Decode),
            Some((is_err, j)) => {
                if is_err {
                    if error_shape(j) {
                        r matches Ok(ApiResponse::Error(e)) && is_error_of(j, e)
                    } else {
                        r matches Err(ApiError::Decode)
                    }
                } else {
                    r matches Ok(ApiResponse::Data(v)) && model_of(v) == j
                }
            },
        },
{
    let (is_err, v) = match envelope_from_body(body) {
        Some(p) => p,
        None => {
            return Err(ApiError::Decode);
        },
    };
    if is_err {
        match error_from_json(&v) {
            Some(e) => Ok(ApiResponse::Error(e)),
            None => Err(ApiError::Decode),
        }
    } else {
        Ok(ApiResponse::Data(v))
    }
}

// ---------------------------------------------------------------------------
// The three operations: building the request, reading the response.
// ---------------------------------------------------------------------------

/// The body POSTed to register a new agent: a JSON object carrying the
/// desired callsign and the upper-case faction identifier.
pub open spec fn spec_register_body(name: Seq<char>, faction: Factions) -> Seq<char> {
    seq!['{', '"', 's', 'y', 'm', 'b', 'o', 'l', '"', ':'] + quoted(name) + seq![
        ',',
        '"',
        'f',
        'a',
        'c',
        't',
        'i',
        'o',
        'n',
        '"',
        ':',
    ] + quoted(spec_faction_name(faction)) + seq!['}']
}

impl ApiClient {
    /// A client for a token already at hand.
    pub fn with_token(token: String) -> (r: ApiClient)
        ensures
            r.token == token,
    {
        ApiClient { token }
    }

    /// A client built from persisted configuration; with no
    /// configuration at hand there is no token, and construction fails.
    pub fn init(config: Option<ConfigData>) -> (r: Result<ApiClient, ApiError>)
        ensures
            match config {
                None => r matches Err(ApiError::MissingToken),
                Some(c) => r matches Ok(client) && client.token == c.token,
            },
    {
        match config {
            None => Err(ApiError::MissingToken),
            Some(c) => Ok(ApiClient { token: c.token }),
        }
    }

    /// The request that registers a new agent. It carries no bearer
    /// credential: at registration time there is no token yet.
    pub fn register_request(agent_name: &str, faction: Factions) -> (r: HttpRequest)
        ensures
            r.method == HttpMethod::Post,
            r.url@ == "https://api.spacetraders.io/v2/register"@,
            r.body matches Some(b) && b@ == spec_register_body(agent_name@, faction),
            r.bearer_token is None,
    {
        let mut out: Vec<char> = Vec::new();
        push_str_chars(&mut out, "{\"symbol\":");
        push_quoted(&mut out, agent_name);
        push_str_chars(&mut out, ",\"faction\":");
        push_quoted(&mut out, Factions::name(&faction));
        push_str_chars(&mut out, "}");
        proof {
            reveal_strlit("{\"symbol\":");
            reveal_strlit(",\"faction\":");
            reveal_strlit("}");
            assert(out@ =~= spec_register_body(agent_name@, faction));
        }
        HttpRequest {
            method: HttpMethod::Post,
            url: String::from_str("https://api.spacetraders.io/v2/register"),
            body: Some(chars_to_string(&out)),
            bearer_token: None,
        }
    }

    /// What a registration response means: the registered agent's full
    /// payload, the server's rejection, or a decode failure for any
    /// body that matches neither shape.
    pub fn register_response(body: &str) -> (r: Result<RegistrationData, ApiError>)
        ensures
            match spec_envelope(body@) {
                None => r matches Err(ApiError::Decode),
                Some((is_err, j)) => {
                    if is_err {
                        if error_shape(j) {
                            r matches Err(ApiError::BadRequest(e)) && is_error_of(j, e)
                        } else {
                            r matches Err(ApiError::Decode)
                        }
                    } else {
                        if j matches JsonSpec::Obj(m) && registration_shape(m) {
                            r matches Ok(rd) && (j matches JsonSpec::Obj(m) && is_registration_of(
                                m,
                                rd,
                            ))
                        } else {
                            r matches Err(ApiError::Decode)
                        }
                    }
                },
            },
    {
        match decode_envelope(body) {
            Err(e) => Err(e),
            Ok(ApiResponse::Error(e)) => Err(ApiError::BadRequest(e)),
            Ok(ApiResponse::Data(v)) => match &v {
                JsonValue::Obj(members) => match registration_from_obj(members) {
                    Some(rd) => Ok(rd),
                    None => Err(ApiError::Decode),
                },
                _ => Err(ApiError::Decode),
            },
        }
    }

    /// The request that fetches the current agent's data.
    pub fn get_agent_request(&self) -> (r: HttpRequest)
        ensures
            r.method == HttpMethod::Get,
            r.url@ == "https://api.spacetraders.io/v2/my/agent"@,
            r.body is None,
            r.bearer_token matches Some(t) && t@ == self.token@,
    {
        HttpRequest {
            method: HttpMethod::Get,
            url: String::from_str("https://api.spacetraders.io/v2/my/agent"),
            body: None,
            bearer_token: Some(self.token.clone()),
        }
    }

    /// What an agent response means.
    pub fn get_agent_response(body: &str) -> (r: Result<AgentData, ApiError>)
        ensures
            match spec_envelope(body@) {
                None => r matches Err(ApiError::Decode),
                Some((is_err, j)) => {
                    if is_err {
                        if error_shape(j) {
                            r matches Err(ApiError::BadRequest(e)) && is_error_of(j, e)
                        } else {
                            r matches Err(ApiError::Decode)
                        }
                    } else {
                        if j matches JsonSpec::Obj(m) && agent_shape(m) {
                            r matches Ok(a) && (j matches JsonSpec::Obj(m) && is_agent_of(m, a))
                        } else {
                            r matches Err(ApiError::Decode)
                        }
                    }
                },
            },
    {
        match decode_envelope(body) {
            Err(e) => Err(e),
            Ok(ApiResponse::Error(e)) => Err(ApiError::BadRequest(e)),
            Ok(ApiResponse::Data(v)) => match &v {
                JsonValue::Obj(members) => match agent_from_obj(members) {
                    Some(a) => Ok(a),
                    None => Err(ApiError::Decode),
                },
                _ => Err(ApiError::Decode),
            },
        }
    }

    /// The request that fetches a waypoint's data. The system segment
    /// of the URL is derived from the waypoint itself; a waypoint with
    /// no dash is rejected before any request is made.
    pub fn get_waypoint_request(&self, waypoint: &str) -> (r: Result<HttpRequest, ApiError>)
        ensures
            match spec_system_of(waypoint@) {
                None => r matches Err(ApiError::InvalidWaypoint),
                Some(sys) => r matches Ok(req) && req.method == HttpMethod::Get && req.url@
                    == "https://api.spacetraders.io/v2/systems/"@ + sys + "/waypoints/"@
                    + waypoint@ && req.body is None && (req.bearer_token matches Some(t) && t@
                    == self.token@),
            },
    {
        let system = match waypoint_system(waypoint) {
            None => {
                return Err(ApiError::InvalidWaypoint);
            },
            Some(sys) => sys,
        };
        let url = String::from_str("https://api.spacetraders.io/v2/systems/").concat(
            system.as_str(),
        ).concat("/waypoints/").concat(waypoint);
        Ok(
            HttpRequest {
                method: HttpMethod::Get,
                url,
                body: None,
                bearer_token: Some(self.token.clone()),
            },
        )
    }

    /// What a waypoint response means.
    pub fn get_waypoint_response(body: &str) -> (r: Result<LocationData, ApiError>)
        ensures
            match spec_envelope(body@) {
                None => r matches Err(ApiError::Decode),
                Some((is_err, j)) => {
                    if is_err {
                        if error_shape(j) {
                            r matches Err(ApiError::BadRequest(e)) && is_error_of(j, e)
                        } else {
                            r matches Err(ApiError::Decode)
                        }
                    } else {
                        if location_shape(j) {
                            r matches Ok(l) && is_location_of(j, l)
                        } else {
                            r matches Err(ApiError::Decode)
                        }
                    }
                },
            },
    {
        match decode_envelope(body) {
            Err(e) => Err(e),
            Ok(ApiResponse::Error(e)) => Err(ApiError::BadRequest(e)),
            Ok(ApiResponse::Data(v)) => match location_from_json(&v) {
                Some(l) => Ok(l),
                None => Err(ApiError::Decode),
            },
        }
    }
}


/// What precedes the transport's own description in a network-failure
/// message.
pub open spec fn spec_network_prefix() -> Seq<char> {
    "There was a networking error when trying to access the SpaceTraders API: "@
}

/// What precedes the server's message in a rejection's description.
pub open spec fn spec_bad_request_prefix() -> Seq<char> {
    "The SpaceTraders API rejected the request: "@
}

impl ApiError {
    /// A human-readable description of the failure, for diagnostics.
    pub fn describe(&self) -> (r: String)
        ensures
            match self {
                ApiError::Network(e) => r@ == spec_network_prefix() + e@,
                ApiError::MissingToken => r@
                    == "Cannot access the SpaceTraders API: missing auth token."@,
                ApiError::BadRequest(e) => r@ == spec_bad_request_prefix() + e.message@,
                ApiError::Decode => r@
                    == "The SpaceTraders API response matched neither envelope shape."@,
                ApiError::InvalidWaypoint => r@
                    == "The waypoint has no dash-delimited system prefix."@,
            },
    {
        match self {
            ApiError::Network(e) => String::from_str(
                "There was a networking error when trying to access the SpaceTraders API: ",
            ).concat(e.as_str()),
            ApiError::MissingToken => String::from_str(
                "Cannot access the SpaceTraders API: missing auth token.",
            ),
            ApiError::BadRequest(e) => String::from_str(
                "The SpaceTraders API rejected the request: ",
            ).concat(e.message.as_str()),
            ApiError::Decode => String::from_str(
                "The SpaceTraders API response matched neither envelope shape.",
            ),
            ApiError::InvalidWaypoint => String::from_str(
                "The waypoint has no dash-delimited system prefix.",
            ),
        }
    }
}


/// The position before which every trailing whitespace character of
/// `s[.. j)` lies.
pub open spec fn end_ws(s: Seq<char>, j: nat) -> nat
    decreases j,
{
    if j > 0 && j <= s.len() && is_ws(s[j - 1int]) {
        end_ws(s, (j - 1) as nat)
    } else {
        j
    }
}

/// `s` without its surrounding whitespace.
pub open spec fn spec_trim(s: Seq<char>) -> Seq<char> {
    let a = skip_ws(s, 0);
    let b = end_ws(s, s.len());
    if a < b {
        s.subrange(a as int, b as int)
    } else {
        Seq::empty()
    }
}

impl ApiClient {
    /// A client from an out-of-band bootstrap credential: the raw text
    /// of the secret, as read at construction, with surrounding
    /// whitespace trimmed away. With no secret at hand construction
    /// fails, and this path has no fallback.
    pub fn from_bootstrap(raw_secret: Option<&str>) -> (r: Result<ApiClient, ApiError>)
        ensures
            match raw_secret {
                None => r matches Err(ApiError::MissingToken),
                Some(raw) => r matches Ok(client) && client.token@ == spec_trim(raw@),
            },
    {
        let raw = match raw_secret {
            None => {
                return Err(ApiError::MissingToken);
            },
            Some(raw) => raw,
        };
        let s = str_to_chars(raw);
        let a = skip_ws_exec(&s, 0);
        let mut b = s.len();
        while b > 0 && is_ws_char(s[b - 1])
            invariant
                b <= s@.len(),
                end_ws(s@, s@.len() as nat) == end_ws(s@, b as nat),
            decreases b,
        {
            b = b - 1;
        }
        let mut out: Vec<char> = Vec::new();
        let mut k = a;
        if a < b {
            while k < b
                invariant
                    a <= k <= b <= s@.len(),
                    out@ == s@.subrange(a as int, k as int),
                decreases b - k,
            {
                out.push(s[k]);
                k = k + 1;
                proof {
                    assert(out@ =~= s@.subrange(a as int, k as int));
                }
            }
        }
        proof {
            if a < b {
                assert(out@ == spec_trim(raw@));
            } else {
                assert(out@ =~= spec_trim(raw@));
            }
        }
        Ok(ApiClient { token: chars_to_string(&out) })
    }
}

} // verus!

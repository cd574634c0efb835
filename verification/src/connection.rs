//! The connection layer: the gateway's numeric error taxonomy, the
//! success/error response envelope, typed interpretation of HTTP
//! responses, and authenticated URL construction.

use vstd::prelude::*;

use crate::endpoints::configuration::ApiToken;

verus! {

/// The gateway's numeric error kinds. Firmware may introduce codes not in
/// this table, so an unmapped code is kept verbatim in `Unknown`.
#[derive(Debug, Clone, Copy, PartialEq, Eq)]
pub enum DeconzErrorType {
    UnauthorizedUser,
    InvalidJson,
    ResourceNotAvailable,
    MethodNotAvailable,
    MissingParameter,
    ParameterNotAvailable,
    InvalidValue,
    ParameterNotModifiable,
    TooManyItems,
    DuplicateExist,
    NotAllowedSensorType,
    SensorListFull,
    RuleEngineFull,
    ConditionError,
    ActionError,
    InternalError,
    NotConnected,
    BridgeBusy,
    LinkButtonNotPressed,
    DeviceOff,
    DeviceNotReachable,
    BridgeGroupTableFull,
    DeviceGroupTableFull,
    DeviceScenesTableFull,
    Unknown(u16),
}

/// The wire code of an error kind.
pub open spec fn code_of(e: DeconzErrorType) -> u16 {
    match e {
        DeconzErrorType::UnauthorizedUser => 1,
        DeconzErrorType::InvalidJson => 2,
        DeconzErrorType::ResourceNotAvailable => 3,
        DeconzErrorType::MethodNotAvailable => 4,
        DeconzErrorType::MissingParameter => 5,
        DeconzErrorType::ParameterNotAvailable => 6,
        DeconzErrorType::InvalidValue => 7,
        DeconzErrorType::ParameterNotModifiable => 8,
        DeconzErrorType::TooManyItems => 11,
        DeconzErrorType::DuplicateExist => 100,
        DeconzErrorType::LinkButtonNotPressed => 101,
        DeconzErrorType::DeviceOff => 201,
        DeconzErrorType::DeviceNotReachable => 202,
        DeconzErrorType::BridgeGroupTableFull => 301,
        DeconzErrorType::DeviceGroupTableFull => 302,
        DeconzErrorType::DeviceScenesTableFull => 402,
        DeconzErrorType::NotAllowedSensorType => 501,
        DeconzErrorType::SensorListFull => 502,
        DeconzErrorType::RuleEngineFull => 601,
        DeconzErrorType::ConditionError => 607,
        DeconzErrorType::ActionError => 608,
        DeconzErrorType::InternalError => 901,
        DeconzErrorType::NotConnected => 950,
        DeconzErrorType::BridgeBusy => 951,
        DeconzErrorType::Unknown(c) => c,
    }
}

/// The error kind a wire code stands for.
pub open spec fn kind_of_code(c: u16) -> DeconzErrorType {
    if c == 1 {
        DeconzErrorType::UnauthorizedUser
    } else if c == 2 {
        DeconzErrorType::InvalidJson
    } else if c == 3 {
        DeconzErrorType::ResourceNotAvailable
    } else if c == 4 {
        DeconzErrorType::MethodNotAvailable
    } else if c == 5 {
        DeconzErrorType::MissingParameter
    } else if c == 6 {
        DeconzErrorType::ParameterNotAvailable
    } else if c == 7 {
        DeconzErrorType::InvalidValue
    } else if c == 8 {
        DeconzErrorType::ParameterNotModifiable
    } else if c == 11 {
        DeconzErrorType::TooManyItems
    } else if c == 100 {
        DeconzErrorType::DuplicateExist
    } else if c == 101 {
        DeconzErrorType::LinkButtonNotPressed
    } else if c == 201 {
        DeconzErrorType::DeviceOff
    } else if c == 202 {
        DeconzErrorType::DeviceNotReachable
    } else if c == 301 {
        DeconzErrorType::BridgeGroupTableFull
    } else if c == 302 {
        DeconzErrorType::DeviceGroupTableFull
    } else if c == 402 {
        DeconzErrorType::DeviceScenesTableFull
    } else if c == 501 {
        DeconzErrorType::NotAllowedSensorType
    } else if c == 502 {
        DeconzErrorType::SensorListFull
    } else if c == 601 {
        DeconzErrorType::RuleEngineFull
    } else if c == 607 {
        DeconzErrorType::ConditionError
    } else if c == 608 {
        DeconzErrorType::ActionError
    } else if c == 901 {
        DeconzErrorType::InternalError
    } else if c == 950 {
        DeconzErrorType::NotConnected
    } else if c == 951 {
        DeconzErrorType::BridgeBusy
    } else {
        DeconzErrorType::Unknown(c)
    }
}

/// A code is known when the table maps it to a named kind.
pub open spec fn known_code(c: u16) -> bool {
    !(kind_of_code(c) is Unknown)
}

/// An error kind uses `Unknown` only for codes outside the table.
pub open spec fn wf_error_type(e: DeconzErrorType) -> bool {
    match e {
        DeconzErrorType::Unknown(c) => !known_code(c),
        _ => true,
    }
}

impl DeconzErrorType {
    /// The numeric code this kind serializes to.
    pub fn to_code(&self) -> (c: u16)
        ensures
            c == code_of(*self),
    {
        match *self {
            DeconzErrorType::UnauthorizedUser => 1,
            DeconzErrorType::InvalidJson => 2,
            DeconzErrorType::ResourceNotAvailable => 3,
            DeconzErrorType::MethodNotAvailable => 4,
            DeconzErrorType::MissingParameter => 5,
            DeconzErrorType::ParameterNotAvailable => 6,
            DeconzErrorType::InvalidValue => 7,
            DeconzErrorType::ParameterNotModifiable => 8,
            DeconzErrorType::TooManyItems => 11,
            DeconzErrorType::DuplicateExist => 100,
            DeconzErrorType::LinkButtonNotPressed => 101,
            DeconzErrorType::DeviceOff => 201,
            DeconzErrorType::DeviceNotReachable => 202,
            DeconzErrorType::BridgeGroupTableFull => 301,
            DeconzErrorType::DeviceGroupTableFull => 302,
            DeconzErrorType::DeviceScenesTableFull => 402,
            DeconzErrorType::NotAllowedSensorType => 501,
            DeconzErrorType::SensorListFull => 502,
            DeconzErrorType::RuleEngineFull => 601,
            DeconzErrorType::ConditionError => 607,
            DeconzErrorType::ActionError => 608,
            DeconzErrorType::InternalError => 901,
            DeconzErrorType::NotConnected => 950,
            DeconzErrorType::BridgeBusy => 951,
            DeconzErrorType::Unknown(c) => c,
        }
    }

    /// The error kind a numeric wire code stands for.
    pub fn from_code(c: u16) -> (e: DeconzErrorType)
        ensures
            e == kind_of_code(c),
            wf_error_type(e),
    {
        if c == 1 {
            DeconzErrorType::UnauthorizedUser
        } else if c == 2 {
            DeconzErrorType::InvalidJson
        } else if c == 3 {
            DeconzErrorType::ResourceNotAvailable
        } else if c == 4 {
            DeconzErrorType::MethodNotAvailable
        } else if c == 5 {
            DeconzErrorType::MissingParameter
        } else if c == 6 {
            DeconzErrorType::ParameterNotAvailable
        } else if c == 7 {
            DeconzErrorType::InvalidValue
        } else if c == 8 {
            DeconzErrorType::ParameterNotModifiable
        } else if c == 11 {
            DeconzErrorType::TooManyItems
        } else if c == 100 {
            DeconzErrorType::DuplicateExist
        } else if c == 101 {
            DeconzErrorType::LinkButtonNotPressed
        } else if c == 201 {
            DeconzErrorType::DeviceOff
        } else if c == 202 {
            DeconzErrorType::DeviceNotReachable
        } else if c == 301 {
            DeconzErrorType::BridgeGroupTableFull
        } else if c == 302 {
            DeconzErrorType::DeviceGroupTableFull
        } else if c == 402 {
            DeconzErrorType::DeviceScenesTableFull
        } else if c == 501 {
            DeconzErrorType::NotAllowedSensorType
        } else if c == 502 {
            DeconzErrorType::SensorListFull
        } else if c == 601 {
            DeconzErrorType::RuleEngineFull
        } else if c == 607 {
            DeconzErrorType::ConditionError
        } else if c == 608 {
            DeconzErrorType::ActionError
        } else if c == 901 {
            DeconzErrorType::InternalError
        } else if c == 950 {
            DeconzErrorType::NotConnected
        } else if c == 951 {
            DeconzErrorType::BridgeBusy
        } else {
            DeconzErrorType::Unknown(c)
        }
    }
}

/// Every numeric code round-trips exactly through the error-kind table.
pub proof fn lemma_error_code_round_trip(c: u16)
    ensures
        code_of(kind_of_code(c)) == c,
{
}

/// Every well-formed error kind round-trips exactly through its code.
pub proof fn lemma_error_kind_round_trip(e: DeconzErrorType)
    requires
        wf_error_type(e),
    ensures
        kind_of_code(code_of(e)) == e,
{
}

/// One element of a gateway response array: a per-attribute success
/// payload, or a per-attribute error. A single write can return several
/// elements, and some may be errors while others succeed. An error's
/// `kind` travels on the wire under the field name `type`.
#[derive(Debug, Clone, PartialEq)]
pub enum RequestResponse<SuccessType> {
    Error { kind: DeconzErrorType, address: String, description: String },
    Success(SuccessType),
}

/// The contents of one error envelope: the failing resource address, a
/// human-readable description, and the numeric kind.
#[derive(Debug, Clone, PartialEq)]
pub struct GatewayError {
    pub kind: DeconzErrorType,
    pub address: String,
    pub description: String,
}

/// Everything a request through the connection can fail with.
#[derive(Debug, Clone, PartialEq)]
pub enum DeconzError {
    /// A token request broke a length invariant; detected before any I/O.
    Validation,
    /// The base URL could not be joined with a resource path.
    UrlConstruction,
    /// A transport-level failure, with the transport's message.
    Network(String),
    /// The gateway answered an authenticated read with HTTP 403.
    Unauthorized,
    /// The gateway returned a well-formed error envelope (`None` when it
    /// returned no envelope at all where one was required).
    Protocol(Option<GatewayError>),
    /// The response body did not match the expected shape.
    Decode,
}

/// The success payloads of a response array, in order.
pub open spec fn successes_of<S>(rs: Seq<RequestResponse<S>>) -> Seq<S>
    decreases rs.len(),
{
    if rs.len() == 0 {
        Seq::empty()
    } else {
        let init = successes_of(rs.drop_last());
        match rs.last() {
            RequestResponse::Success(s) => init.push(s),
            RequestResponse::Error { .. } => init,
        }
    }
}

/// The error envelopes of a response array, in order.
pub open spec fn failures_of<S>(rs: Seq<RequestResponse<S>>) -> Seq<GatewayError>
    decreases rs.len(),
{
    if rs.len() == 0 {
        Seq::empty()
    } else {
        let init = failures_of(rs.drop_last());
        match rs.last() {
            RequestResponse::Error { kind, address, description } => init.push(
                GatewayError { kind, address, description },
            ),
            RequestResponse::Success(_) => init,
        }
    }
}

/// Every envelope lands in exactly one side of the partition: the
/// successes and the failures together account for the whole array.
pub proof fn lemma_partition_is_complete<S>(rs: Seq<RequestResponse<S>>)
    ensures
        successes_of(rs).len() + failures_of(rs).len() == rs.len(),
    decreases rs.len(),
{
    if rs.len() > 0 {
        lemma_partition_is_complete(rs.drop_last());
    }
}

/// There is no aggregate success flag: a write fully succeeded exactly
/// when no envelope of its response array is an error.
pub proof fn lemma_no_failures_means_all_success<S>(rs: Seq<RequestResponse<S>>)
    ensures
        failures_of(rs).len() == 0 <==> (forall|i: int| 0 <= i < rs.len() ==> rs[i] is Success),
    decreases rs.len(),
{
    if rs.len() > 0 {
        let init = rs.drop_last();
        lemma_no_failures_means_all_success(init);
        assert(forall|i: int| 0 <= i < init.len() ==> init[i] == rs[i]);
        if failures_of(rs).len() == 0 {
            assert(rs.last() is Success);
            assert(forall|i: int| 0 <= i < rs.len() ==> rs[i] is Success);
        } else {
            if failures_of(init).len() > 0 {
                let j = choose|i: int| 0 <= i < init.len() && !(init[i] is Success);
                assert(!(rs[j] is Success));
            } else {
                assert(!(rs.last() is Success));
                assert(!(rs[rs.len() - 1] is Success));
            }
        }
    }
}

/// Splits a response array into the accepted payloads and the
/// per-attribute failures, both in response order. The array has no
/// aggregate flag: a write fully succeeded exactly when the second vector
/// comes back empty.
pub fn partition_responses<S>(responses: Vec<RequestResponse<S>>) -> (r: (Vec<S>, Vec<GatewayError>))
    ensures
        r.0@ == successes_of(responses@),
        r.1@ == failures_of(responses@),
{
    let ghost all = responses@;
    let mut rest = responses;
    let mut oks: Vec<S> = Vec::new();
    let mut errs: Vec<GatewayError> = Vec::new();
    while rest.len() > 0
        invariant
            rest@.len() <= all.len(),
            rest@ == all.subrange(all.len() - rest@.len(), all.len() as int),
            oks@ == successes_of(all.take(all.len() - rest@.len())),
            errs@ == failures_of(all.take(all.len() - rest@.len())),
        decreases rest@.len(),
    {
        let ghost k = all.len() - rest@.len();
        let element = rest.remove(0);
        proof {
            assert(element == all[k]);
            assert(rest@ =~= all.subrange(all.len() - rest@.len(), all.len() as int));
            let t = all.take(k + 1);
            assert(t.drop_last() =~= all.take(k));
            assert(t.last() == all[k]);
        }
        match element {
            RequestResponse::Success(s) => oks.push(s),
            RequestResponse::Error { kind, address, description } => errs.push(
                GatewayError { kind, address, description },
            ),
        }
    }
    proof {
        assert(all.take(all.len() as int) =~= all);
    }
    (oks, errs)
}

/// What a token-provisioning response means: the first envelope decides.
/// An empty array is a protocol violation of its own.
pub open spec fn token_outcome(rs: Seq<RequestResponse<ApiToken>>) -> Result<
    ApiToken,
    DeconzError,
> {
    if rs.len() == 0 {
        Err(DeconzError::Protocol(None))
    } else {
        match rs[0] {
            RequestResponse::Success(token) => Ok(token),
            RequestResponse::Error { kind, address, description } => Err(
                DeconzError::Protocol(Some(GatewayError { kind, address, description })),
            ),
        }
    }
}

/// Reads a decoded token-provisioning response: the first envelope's
/// token on success, the first envelope's error as a `Protocol` failure,
/// and a `Protocol` failure without detail when the array is empty.
pub fn interpret_token_response(responses: Vec<RequestResponse<ApiToken>>) -> (r: Result<
    ApiToken,
    DeconzError,
>)
    ensures
        r == token_outcome(responses@),
{
    let mut responses = responses;
    if responses.len() == 0 {
        return Err(DeconzError::Protocol(None));
    }
    match responses.remove(0) {
        RequestResponse::Success(token) => Ok(token),
        RequestResponse::Error { kind, address, description } => Err(
            DeconzError::Protocol(Some(GatewayError { kind, address, description })),
        ),
    }
}

/// What an authenticated read returns, given the HTTP status and the
/// decoded body: 403 is `Unauthorized` whatever the body holds, any other
/// status yields the decoded value, and a body that did not decode is a
/// recoverable `Decode` failure.
pub open spec fn get_outcome<T>(status: u16, body: Option<T>) -> Result<T, DeconzError> {
    if status == 403 {
        Err(DeconzError::Unauthorized)
    } else {
        match body {
            Some(value) => Ok(value),
            None => Err(DeconzError::Decode),
        }
    }
}

/// Reads the outcome of an authenticated GET: the status and the decoded
/// body (`None` when decoding failed) in, the typed result out.
pub fn interpret_get_response<T>(status: u16, body: Option<T>) -> (r: Result<T, DeconzError>)
    ensures
        r == get_outcome(status, body),
{
    if status == 403 {
        return Err(DeconzError::Unauthorized);
    }
    match body {
        Some(value) => Ok(value),
        None => Err(DeconzError::Decode),
    }
}

/// What a PUT returns, given the decoded body: the decoded value, or a
/// recoverable `Decode` failure when the body did not decode.
pub open spec fn put_outcome<T>(body: Option<T>) -> Result<T, DeconzError> {
    match body {
        Some(value) => Ok(value),
        None => Err(DeconzError::Decode),
    }
}

/// Reads the outcome of a PUT: the decoded body (`None` when decoding
/// failed) in, the typed result out.
pub fn interpret_put_response<T>(body: Option<T>) -> (r: Result<T, DeconzError>)
    ensures
        r == put_outcome(body),
{
    match body {
        Some(value) => Ok(value),
        None => Err(DeconzError::Decode),
    }
}

#[verifier::external_type_specification]
#[verifier::external_body]
pub struct ExUrl(url::Url);

/// What `url::Url::join` returns on a base URL and a relative reference:
/// the resolved URL, or `None` where resolution fails. The result is a
/// function of the two arguments alone.
pub uninterp spec fn url_join_of(base: url::Url, rel: Seq<char>) -> Option<url::Url>;

/// Relies on url::Url::join: RFC 3986 resolution of a relative reference
/// against a base URL, deterministic in its two arguments.
#[verifier::external_body]
fn join_url(base: &url::Url, rel: &str) -> (r: Option<url::Url>)
    ensures
        r == url_join_of(*base, rel@),
{
    base.join(rel).ok()
}

/// The authenticated API root derived from a base URL and an API key:
/// the base joined with `api/`, then with `<key>/`.
pub open spec fn api_root_of(base: url::Url, key: Seq<char>) -> Option<url::Url> {
    match url_join_of(base, "api/"@) {
        Some(step) => url_join_of(step, key + "/"@),
        None => None,
    }
}

/// An authenticated handle on one gateway: the base URL, the API key,
/// and the derived API root all requests are resolved against. Immutable
/// after construction.
#[derive(Debug)]
pub struct DeconzConnection {
    pub url: url::Url,
    pub api_key: String,
    pub api_url: url::Url,
}

/// The URL of the whole lights collection: the API root joined with
/// `lights`.
pub open spec fn lights_url_of(c: DeconzConnection) -> Option<url::Url> {
    url_join_of(c.api_url, "lights"@)
}

/// The URL of one light: the API root joined with `lights/`, then with
/// the light's id.
pub open spec fn light_url_of(c: DeconzConnection, id: Seq<char>) -> Option<url::Url> {
    match url_join_of(c.api_url, "lights/"@) {
        Some(step) => url_join_of(step, id),
        None => None,
    }
}

/// The URL of one light's state resource: the API root joined with
/// `lights/`, then with `<id>/`, then with `state`.
pub open spec fn light_state_url_of(c: DeconzConnection, id: Seq<char>) -> Option<url::Url> {
    match url_join_of(c.api_url, "lights/"@) {
        Some(step) => match url_join_of(step, id + "/"@) {
            Some(with_id) => url_join_of(with_id, "state"@),
            None => None,
        },
        None => None,
    }
}

impl DeconzConnection {
    /// Builds a connection from a base URL and an existing API key. Never
    /// touches the network; fails exactly when the base URL cannot be
    /// joined with `api/<key>/`.
    pub fn new(url: url::Url, api_key: String) -> (r: Result<DeconzConnection, DeconzError>)
        ensures
            match r {
                Ok(c) => api_root_of(url, api_key@) == Some(c.api_url) && c.url == url
                    && c.api_key == api_key,
                Err(e) => api_root_of(url, api_key@) is None && e == DeconzError::UrlConstruction,
            },
    {
        let step = match join_url(&url, "api/") {
            Some(step) => step,
            None => {
                return Err(DeconzError::UrlConstruction);
            },
        };
        let mut key_segment = api_key.clone();
        key_segment.append("/");
        let api_url = match join_url(&step, key_segment.as_str()) {
            Some(api_url) => api_url,
            None => {
                return Err(DeconzError::UrlConstruction);
            },
        };
        Ok(DeconzConnection { url, api_key, api_url })
    }

    /// The API key all requests through this connection authenticate with.
    pub fn get_api_key(&self) -> (r: &String)
        ensures
            *r == self.api_key,
    {
        &self.api_key
    }

    /// The URL the whole lights collection is fetched from.
    pub fn all_lights_url(&self) -> (r: Result<url::Url, DeconzError>)
        ensures
            match r {
                Ok(u) => lights_url_of(*self) == Some(u),
                Err(e) => lights_url_of(*self) is None && e == DeconzError::UrlConstruction,
            },
    {
        match join_url(&self.api_url, "lights") {
            Some(u) => Ok(u),
            None => Err(DeconzError::UrlConstruction),
        }
    }

    /// The URL one light is fetched from or has its attributes written to.
    pub fn light_url(&self, id: &str) -> (r: Result<url::Url, DeconzError>)
        ensures
            match r {
                Ok(u) => light_url_of(*self, id@) == Some(u),
                Err(e) => light_url_of(*self, id@) is None && e == DeconzError::UrlConstruction,
            },
    {
        let step = match join_url(&self.api_url, "lights/") {
            Some(step) => step,
            None => {
                return Err(DeconzError::UrlConstruction);
            },
        };
        match join_url(&step, id) {
            Some(u) => Ok(u),
            None => Err(DeconzError::UrlConstruction),
        }
    }

    /// The URL one light's state is written to.
    pub fn light_state_url(&self, id: &str) -> (r: Result<url::Url, DeconzError>)
        ensures
            match r {
                Ok(u) => light_state_url_of(*self, id@) == Some(u),
                Err(e) => light_state_url_of(*self, id@) is None && e
                    == DeconzError::UrlConstruction,
            },
    {
        let step = match join_url(&self.api_url, "lights/") {
            Some(step) => step,
            None => {
                return Err(DeconzError::UrlConstruction);
            },
        };
        let mut id_segment = String::from_str(id);
        id_segment.append("/");
        let with_id = match join_url(&step, id_segment.as_str()) {
            Some(with_id) => with_id,
            None => {
                return Err(DeconzError::UrlConstruction);
            },
        };
        match join_url(&with_id, "state") {
            Some(u) => Ok(u),
            None => Err(DeconzError::UrlConstruction),
        }
    }
}

/// A partial update of a light's immutable attributes: only the display
/// name can be written.
#[derive(Debug, Clone, PartialEq)]
pub struct LightAttributes {
    pub name: String,
}

} // verus!

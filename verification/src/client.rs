//! The API client: query-string construction, the HTTP boundary, and one
//! fetch operation per endpoint.
//!
//! A fetch builds the request URL from the caller's ordered key/value pairs
//! exactly as given (no percent-encoding is applied; callers pre-encode
//! where needed), issues one blocking GET, and decodes the body. A
//! transport failure is returned at once and never retried; a body is
//! decoded whatever the HTTP status was, and the envelope is returned as
//! parsed, its status members left to the caller.

use vstd::prelude::*;

use crate::decode::{
    dec_course, dec_textbook, dec_exam, dec_eval, dec_food, dec_service, dec_building, dec_parking,
    course_envelope_from_json, textbook_envelope_from_json, exam_envelope_from_json, eval_envelope_from_json, food_envelope_from_json, service_envelope_from_json, building_envelope_from_json, parking_envelope_from_json,
    spec_envelope_from_json,
};
use crate::error::ClientError;
use crate::json::JsonV;
use crate::records::{
    Building, Course, Eval, Exam, Food, Parking, Response, ResponseView, Service, Textbook,
};
use crate::wire::{parse_json, spec_json_parse};

verus! {

/// The ordered key/value filter pairs of one request, forwarded verbatim.
pub type Parameters<'a> = Vec<(&'a str, &'a str)>;

/// What every fetch operation returns.
pub type NikelResult<T> = Result<Response<T>, ClientError>;

#[verifier::external_type_specification]
#[verifier::external_body]
pub struct ExClient(reqwest::blocking::Client);

/// Relies on reqwest::blocking::ClientBuilder::build: constructing the
/// pooled HTTP client can fail (for example when system configuration
/// cannot be loaded), and the failure is reported rather than raised.
#[verifier::external_body]
fn build_client() -> Option<reqwest::blocking::Client> {
    reqwest::blocking::Client::builder().build().ok()
}

/// Relies on reqwest::blocking::Client: one GET of `url`, yielding the body
/// text or the error's description. Nothing is promised of the outcome: it
/// depends on the network.
#[verifier::external_body]
fn http_get_text(client: &reqwest::blocking::Client, url: &str) -> Result<String, String> {
    match client.get(url).send().and_then(|resp| resp.text()) {
        Ok(body) => Ok(body),
        Err(e) => Err(format!("{:?}", e)),
    }
}

/// The query string of an ordered parameter sequence: `key=value` pairs in
/// the given order, joined with `&`, nothing escaped.
pub open spec fn spec_encode_params(ps: Seq<(Seq<char>, Seq<char>)>) -> Seq<char>
    decreases ps.len(),
{
    if ps.len() == 0 {
        Seq::empty()
    } else if ps.len() == 1 {
        ps[0].0 + "="@ + ps[0].1
    } else {
        ps[0].0 + "="@ + ps[0].1 + "&"@ + spec_encode_params(ps.drop_first())
    }
}

/// The URL of one request against `base`: the `/api/` path, the endpoint
/// name, and the encoded query.
pub open spec fn spec_url(base: Seq<char>, endpoint: Seq<char>, ps: Seq<(Seq<char>, Seq<char>)>) -> Seq<
    char,
> {
    base + "/api/"@ + endpoint + "?"@ + spec_encode_params(ps)
}

/// The body texts whose decoding yields `r`, for a decoder `f`: an `Ok`
/// envelope is the honest decoding of some body, a deserialization error
/// reports a body that decodes to nothing, and a transport error carries no
/// body at all.
pub open spec fn spec_fetch_result<T: DeepView>(
    r: Result<Response<T>, ClientError>,
    f: spec_fn(JsonV) -> Option<T::V>,
) -> bool {
    match r {
        Ok(env) => exists|b: Seq<char>|
            #![trigger spec_body_envelope(b, f)]
            spec_body_envelope(b, f) == Some(env@),
        Err(ClientError::DeserializationError(_)) => exists|b: Seq<char>|
            #![trigger spec_body_envelope(b, f)]
            spec_body_envelope(b, f) is None,
        Err(ClientError::TransportError(_)) => true,
    }
}

/// What a body text decodes to: parse, then read the envelope.
pub open spec fn spec_body_envelope<T>(s: Seq<char>, f: spec_fn(JsonV) -> Option<T>) -> Option<
    ResponseView<T>,
> {
    match spec_json_parse(s) {
        Some(j) => spec_envelope_from_json(j, f),
        None => None,
    }
}

fn encode_params_from(params: &Parameters<'_>, i: usize) -> (r: String)
    requires
        i <= params@.len(),
    ensures
        r@ == spec_encode_params(params.deep_view().skip(i as int)),
    decreases params@.len() - i,
{
    let ghost dv = params.deep_view();
    if i == params.len() {
        proof {
            assert(dv.skip(i as int) =~= Seq::<(Seq<char>, Seq<char>)>::empty());
        }
        String::new()
    } else {
        let mut s = String::new();
        let pair = &params[i];
        s.append(pair.0);
        s.append("=");
        s.append(pair.1);
        if i + 1 < params.len() {
            s.append("&");
        }
        let rest = encode_params_from(params, i + 1);
        let out = s.concat(rest.as_str());
        proof {
            assert(dv.skip(i as int)[0] == dv[i as int]);
            assert(dv.skip(i as int).drop_first() =~= dv.skip(i as int + 1));
            assert(out@ =~= spec_encode_params(dv.skip(i as int)));
        }
        out
    }
}

/// The client: a pooled HTTP handle and the host every request goes to.
///
/// The handle is built once and shared by all calls; each call is an
/// independent blocking GET.
pub struct NikelAPI {
    client: Option<reqwest::blocking::Client>,
    base_url: String,
}

impl NikelAPI {
    /// The host requests go to.
    pub closed spec fn base(&self) -> Seq<char> {
        self.base_url@
    }

    /// A client for the service's own host.
    pub fn new() -> (r: NikelAPI)
        ensures
            r.base() == "https://nikel.ml"@,
    {
        NikelAPI { client: build_client(), base_url: String::from_str("https://nikel.ml") }
    }

    /// A client that sends every request to `base_url` instead, for a test
    /// double or a proxy.
    pub fn with_base_url(base_url: String) -> (r: NikelAPI)
        ensures
            r.base() == base_url@,
    {
        NikelAPI { client: build_client(), base_url }
    }

    /// The query string of `params`: order-preserving, `&`-joined
    /// `key=value` pairs, nothing escaped.
    pub fn encode_params(params: &Parameters<'_>) -> (r: String)
        ensures
            r@ == spec_encode_params(params.deep_view()),
    {
        let r = encode_params_from(params, 0);
        proof {
            assert(params.deep_view().skip(0) =~= params.deep_view());
        }
        r
    }

    /// The URL of one request: the base host, the `/api/<endpoint>` path,
    /// and the query string of `params`, exactly in that shape.
    pub fn get_url(&self, endpoint: &str, params: &Parameters<'_>) -> (r: String)
        ensures
            r@ == spec_url(self.base(), endpoint@, params.deep_view()),
    {
        let mut url = String::new();
        url.append(self.base_url.as_str());
        url.append("/api/");
        url.append(endpoint);
        url.append("?");
        let query = NikelAPI::encode_params(params);
        url.append(query.as_str());
        url
    }

    /// Fetch the courses endpoint with the given filter parameters.
    pub fn courses(&self, params: Parameters<'_>) -> (r: NikelResult<Course>)
        ensures
            spec_fetch_result(r, dec_course()),
    {
        let url = self.get_url("courses", &params);
        match &self.client {
            None => Err(
                ClientError::TransportError(
                    String::from_str("the HTTP client could not be constructed"),
                ),
            ),
            Some(c) => match http_get_text(c, url.as_str()) {
                Err(e) => Err(ClientError::TransportError(e)),
                Ok(body) => {
                    let r = decode_courses_body(body.as_str());
                    proof {
                        match &r {
                            Ok(env) => {
                                assert(spec_body_envelope(body@, dec_course()) == Some(env@));
                            },
                            Err(_) => {
                                assert(spec_body_envelope(body@, dec_course()) is None);
                            },
                        }
                    }
                    r
                },
            },
        }
    }

    /// Fetch the textbooks endpoint with the given filter parameters.
    pub fn textbooks(&self, params: Parameters<'_>) -> (r: NikelResult<Textbook>)
        ensures
            spec_fetch_result(r, dec_textbook()),
    {
        let url = self.get_url("textbooks", &params);
        match &self.client {
            None => Err(
                ClientError::TransportError(
                    String::from_str("the HTTP client could not be constructed"),
                ),
            ),
            Some(c) => match http_get_text(c, url.as_str()) {
                Err(e) => Err(ClientError::TransportError(e)),
                Ok(body) => {
                    let r = decode_textbooks_body(body.as_str());
                    proof {
                        match &r {
                            Ok(env) => {
                                assert(spec_body_envelope(body@, dec_textbook()) == Some(env@));
                            },
                            Err(_) => {
                                assert(spec_body_envelope(body@, dec_textbook()) is None);
                            },
                        }
                    }
                    r
                },
            },
        }
    }

    /// Fetch the exams endpoint with the given filter parameters.
    pub fn exams(&self, params: Parameters<'_>) -> (r: NikelResult<Exam>)
        ensures
            spec_fetch_result(r, dec_exam()),
    {
        let url = self.get_url("exams", &params);
        match &self.client {
            None => Err(
                ClientError::TransportError(
                    String::from_str("the HTTP client could not be constructed"),
                ),
            ),
            Some(c) => match http_get_text(c, url.as_str()) {
                Err(e) => Err(ClientError::TransportError(e)),
                Ok(body) => {
                    let r = decode_exams_body(body.as_str());
                    proof {
                        match &r {
                            Ok(env) => {
                                assert(spec_body_envelope(body@, dec_exam()) == Some(env@));
                            },
                            Err(_) => {
                                assert(spec_body_envelope(body@, dec_exam()) is None);
                            },
                        }
                    }
                    r
                },
            },
        }
    }

    /// Fetch the evals endpoint with the given filter parameters.
    pub fn evals(&self, params: Parameters<'_>) -> (r: NikelResult<Eval>)
        ensures
            spec_fetch_result(r, dec_eval()),
    {
        let url = self.get_url("evals", &params);
        match &self.client {
            None => Err(
                ClientError::TransportError(
                    String::from_str("the HTTP client could not be constructed"),
                ),
            ),
            Some(c) => match http_get_text(c, url.as_str()) {
                Err(e) => Err(ClientError::TransportError(e)),
                Ok(body) => {
                    let r = decode_evals_body(body.as_str());
                    proof {
                        match &r {
                            Ok(env) => {
                                assert(spec_body_envelope(body@, dec_eval()) == Some(env@));
                            },
                            Err(_) => {
                                assert(spec_body_envelope(body@, dec_eval()) is None);
                            },
                        }
                    }
                    r
                },
            },
        }
    }

    /// Fetch the food endpoint with the given filter parameters.
    pub fn food(&self, params: Parameters<'_>) -> (r: NikelResult<Food>)
        ensures
            spec_fetch_result(r, dec_food()),
    {
        let url = self.get_url("food", &params);
        match &self.client {
            None => Err(
                ClientError::TransportError(
                    String::from_str("the HTTP client could not be constructed"),
                ),
            ),
            Some(c) => match http_get_text(c, url.as_str()) {
                Err(e) => Err(ClientError::TransportError(e)),
                Ok(body) => {
                    let r = decode_food_body(body.as_str());
                    proof {
                        match &r {
                            Ok(env) => {
                                assert(spec_body_envelope(body@, dec_food()) == Some(env@));
                            },
                            Err(_) => {
                                assert(spec_body_envelope(body@, dec_food()) is None);
                            },
                        }
                    }
                    r
                },
            },
        }
    }

    /// Fetch the services endpoint with the given filter parameters.
    pub fn services(&self, params: Parameters<'_>) -> (r: NikelResult<Service>)
        ensures
            spec_fetch_result(r, dec_service()),
    {
        let url = self.get_url("services", &params);
        match &self.client {
            None => Err(
                ClientError::TransportError(
                    String::from_str("the HTTP client could not be constructed"),
                ),
            ),
            Some(c) => match http_get_text(c, url.as_str()) {
                Err(e) => Err(ClientError::TransportError(e)),
                Ok(body) => {
                    let r = decode_services_body(body.as_str());
                    proof {
                        match &r {
                            Ok(env) => {
                                assert(spec_body_envelope(body@, dec_service()) == Some(env@));
                            },
                            Err(_) => {
                                assert(spec_body_envelope(body@, dec_service()) is None);
                            },
                        }
                    }
                    r
                },
            },
        }
    }

    /// Fetch the buildings endpoint with the given filter parameters.
    pub fn buildings(&self, params: Parameters<'_>) -> (r: NikelResult<Building>)
        ensures
            spec_fetch_result(r, dec_building()),
    {
        let url = self.get_url("buildings", &params);
        match &self.client {
            None => Err(
                ClientError::TransportError(
                    String::from_str("the HTTP client could not be constructed"),
                ),
            ),
            Some(c) => match http_get_text(c, url.as_str()) {
                Err(e) => Err(ClientError::TransportError(e)),
                Ok(body) => {
                    let r = decode_buildings_body(body.as_str());
                    proof {
                        match &r {
                            Ok(env) => {
                                assert(spec_body_envelope(body@, dec_building()) == Some(env@));
                            },
                            Err(_) => {
                                assert(spec_body_envelope(body@, dec_building()) is None);
                            },
                        }
                    }
                    r
                },
            },
        }
    }

    /// Fetch the parking endpoint with the given filter parameters.
    pub fn parking(&self, params: Parameters<'_>) -> (r: NikelResult<Parking>)
        ensures
            spec_fetch_result(r, dec_parking()),
    {
        let url = self.get_url("parking", &params);
        match &self.client {
            None => Err(
                ClientError::TransportError(
                    String::from_str("the HTTP client could not be constructed"),
                ),
            ),
            Some(c) => match http_get_text(c, url.as_str()) {
                Err(e) => Err(ClientError::TransportError(e)),
                Ok(body) => {
                    let r = decode_parking_body(body.as_str());
                    proof {
                        match &r {
                            Ok(env) => {
                                assert(spec_body_envelope(body@, dec_parking()) == Some(env@));
                            },
                            Err(_) => {
                                assert(spec_body_envelope(body@, dec_parking()) is None);
                            },
                        }
                    }
                    r
                },
            },
        }
    }

}

/// Decode one response body of the courses endpoint: parse the text,
/// then read the envelope; any mismatch is a deserialization error.
pub fn decode_courses_body(body: &str) -> (r: NikelResult<Course>)
    ensures
        match spec_body_envelope(body@, dec_course()) {
            Some(env) => r matches Ok(v) && v@ == env,
            None => r matches Err(ClientError::DeserializationError(_)),
        },
{
    match parse_json(body) {
        None => Err(
            ClientError::DeserializationError(
                String::from_str("the response body is not JSON"),
            ),
        ),
        Some(j) => match course_envelope_from_json(&j) {
            None => Err(
                ClientError::DeserializationError(
                    String::from_str("the response body does not match the expected envelope"),
                ),
            ),
            Some(env) => Ok(env),
        },
    }
}

/// Decode one response body of the textbooks endpoint: parse the text,
/// then read the envelope; any mismatch is a deserialization error.
pub fn decode_textbooks_body(body: &str) -> (r: NikelResult<Textbook>)
    ensures
        match spec_body_envelope(body@, dec_textbook()) {
            Some(env) => r matches Ok(v) && v@ == env,
            None => r matches Err(ClientError::DeserializationError(_)),
        },
{
    match parse_json(body) {
        None => Err(
            ClientError::DeserializationError(
                String::from_str("the response body is not JSON"),
            ),
        ),
        Some(j) => match textbook_envelope_from_json(&j) {
            None => Err(
                ClientError::DeserializationError(
                    String::from_str("the response body does not match the expected envelope"),
                ),
            ),
            Some(env) => Ok(env),
        },
    }
}

/// Decode one response body of the exams endpoint: parse the text,
/// then read the envelope; any mismatch is a deserialization error.
pub fn decode_exams_body(body: &str) -> (r: NikelResult<Exam>)
    ensures
        match spec_body_envelope(body@, dec_exam()) {
            Some(env) => r matches Ok(v) && v@ == env,
            None => r matches Err(ClientError::DeserializationError(_)),
        },
{
    match parse_json(body) {
        None => Err(
            ClientError::DeserializationError(
                String::from_str("the response body is not JSON"),
            ),
        ),
        Some(j) => match exam_envelope_from_json(&j) {
            None => Err(
                ClientError::DeserializationError(
                    String::from_str("the response body does not match the expected envelope"),
                ),
            ),
            Some(env) => Ok(env),
        },
    }
}

/// Decode one response body of the evals endpoint: parse the text,
/// then read the envelope; any mismatch is a deserialization error.
pub fn decode_evals_body(body: &str) -> (r: NikelResult<Eval>)
    ensures
        match spec_body_envelope(body@, dec_eval()) {
            Some(env) => r matches Ok(v) && v@ == env,
            None => r matches Err(ClientError::DeserializationError(_)),
        },
{
    match parse_json(body) {
        None => Err(
            ClientError::DeserializationError(
                String::from_str("the response body is not JSON"),
            ),
        ),
        Some(j) => match eval_envelope_from_json(&j) {
            None => Err(
                ClientError::DeserializationError(
                    String::from_str("the response body does not match the expected envelope"),
                ),
            ),
            Some(env) => Ok(env),
        },
    }
}

/// Decode one response body of the food endpoint: parse the text,
/// then read the envelope; any mismatch is a deserialization error.
pub fn decode_food_body(body: &str) -> (r: NikelResult<Food>)
    ensures
        match spec_body_envelope(body@, dec_food()) {
            Some(env) => r matches Ok(v) && v@ == env,
            None => r matches Err(ClientError::DeserializationError(_)),
        },
{
    match parse_json(body) {
        None => Err(
            ClientError::DeserializationError(
                String::from_str("the response body is not JSON"),
            ),
        ),
        Some(j) => match food_envelope_from_json(&j) {
            None => Err(
                ClientError::DeserializationError(
                    String::from_str("the response body does not match the expected envelope"),
                ),
            ),
            Some(env) => Ok(env),
        },
    }
}

/// Decode one response body of the services endpoint: parse the text,
/// then read the envelope; any mismatch is a deserialization error.
pub fn decode_services_body(body: &str) -> (r: NikelResult<Service>)
    ensures
        match spec_body_envelope(body@, dec_service()) {
            Some(env) => r matches Ok(v) && v@ == env,
            None => r matches Err(ClientError::DeserializationError(_)),
        },
{
    match parse_json(body) {
        None => Err(
            ClientError::DeserializationError(
                String::from_str("the response body is not JSON"),
            ),
        ),
        Some(j) => match service_envelope_from_json(&j) {
            None => Err(
                ClientError::DeserializationError(
                    String::from_str("the response body does not match the expected envelope"),
                ),
            ),
            Some(env) => Ok(env),
        },
    }
}

/// Decode one response body of the buildings endpoint: parse the text,
/// then read the envelope; any mismatch is a deserialization error.
pub fn decode_buildings_body(body: &str) -> (r: NikelResult<Building>)
    ensures
        match spec_body_envelope(body@, dec_building()) {
            Some(env) => r matches Ok(v) && v@ == env,
            None => r matches Err(ClientError::DeserializationError(_)),
        },
{
    match parse_json(body) {
        None => Err(
            ClientError::DeserializationError(
                String::from_str("the response body is not JSON"),
            ),
        ),
        Some(j) => match building_envelope_from_json(&j) {
            None => Err(
                ClientError::DeserializationError(
                    String::from_str("the response body does not match the expected envelope"),
                ),
            ),
            Some(env) => Ok(env),
        },
    }
}

/// Decode one response body of the parking endpoint: parse the text,
/// then read the envelope; any mismatch is a deserialization error.
pub fn decode_parking_body(body: &str) -> (r: NikelResult<Parking>)
    ensures
        match spec_body_envelope(body@, dec_parking()) {
            Some(env) => r matches Ok(v) && v@ == env,
            None => r matches Err(ClientError::DeserializationError(_)),
        },
{
    match parse_json(body) {
        None => Err(
            ClientError::DeserializationError(
                String::from_str("the response body is not JSON"),
            ),
        ),
        Some(j) => match parking_envelope_from_json(&j) {
            None => Err(
                ClientError::DeserializationError(
                    String::from_str("the response body does not match the expected envelope"),
                ),
            ),
            Some(env) => Ok(env),
        },
    }
}

/// Fetch the courses endpoint once, with a client made for the call.
pub fn courses(params: Parameters<'_>) -> (r: NikelResult<Course>)
    ensures
        spec_fetch_result(r, dec_course()),
{
    NikelAPI::new().courses(params)
}

/// Fetch the textbooks endpoint once, with a client made for the call.
pub fn textbooks(params: Parameters<'_>) -> (r: NikelResult<Textbook>)
    ensures
        spec_fetch_result(r, dec_textbook()),
{
    NikelAPI::new().textbooks(params)
}

/// Fetch the exams endpoint once, with a client made for the call.
pub fn exams(params: Parameters<'_>) -> (r: NikelResult<Exam>)
    ensures
        spec_fetch_result(r, dec_exam()),
{
    NikelAPI::new().exams(params)
}

/// Fetch the evals endpoint once, with a client made for the call.
pub fn evals(params: Parameters<'_>) -> (r: NikelResult<Eval>)
    ensures
        spec_fetch_result(r, dec_eval()),
{
    NikelAPI::new().evals(params)
}

/// Fetch the food endpoint once, with a client made for the call.
pub fn food(params: Parameters<'_>) -> (r: NikelResult<Food>)
    ensures
        spec_fetch_result(r, dec_food()),
{
    NikelAPI::new().food(params)
}

/// Fetch the services endpoint once, with a client made for the call.
pub fn services(params: Parameters<'_>) -> (r: NikelResult<Service>)
    ensures
        spec_fetch_result(r, dec_service()),
{
    NikelAPI::new().services(params)
}

/// Fetch the buildings endpoint once, with a client made for the call.
pub fn buildings(params: Parameters<'_>) -> (r: NikelResult<Building>)
    ensures
        spec_fetch_result(r, dec_building()),
{
    NikelAPI::new().buildings(params)
}

/// Fetch the parking endpoint once, with a client made for the call.
pub fn parking(params: Parameters<'_>) -> (r: NikelResult<Parking>)
    ensures
        spec_fetch_result(r, dec_parking()),
{
    NikelAPI::new().parking(params)
}

} // verus!

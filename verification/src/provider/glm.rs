use vstd::prelude::*;
use crate::preprocess::{prepare, prepared_jpeg, base64_std, decoded_rgb, encodable, PreprocessError};
use crate::provider::OcrError;
use crate::wire::{data_url, make_data_url, request_json, render_request_json};

verus! {

/// The GLM backend adapter: the configuration one exchange runs under.
pub struct GlmOcrProvider {
    api_key: String,
    endpoint: String,
    model: String,
    max_edge: u32,
    jpeg_quality: u8,
}

/// The provider-specific request envelope: a model identifier and the image
/// payload carried as a data URL.
pub struct GlmRequest {
    pub model: String,
    pub file: String,
}

impl GlmRequest {
    /// Serialize the envelope to its exact JSON wire body.
    pub fn to_json(&self) -> (r: String)
        ensures
            r@ == request_json(self.model@, self.file@),
    {
        render_request_json(self.model.as_str(), self.file.as_str())
    }
}

/// The fields read out of a response body: the optional text result and the
/// optional structured error.
struct GlmResponse {
    md_results: Option<String>,
    error: Option<GlmError>,
}

/// A structured backend rejection: a code and a message.
struct GlmError {
    code: String,
    message: String,
}

/// What parsing a response body by the envelope's rules yields: `None` when
/// the body is not JSON the envelope accepts, else the optional text field
/// and the optional error pair (code, message). A function of the body text
/// alone.
pub uninterp spec fn envelope_of(body: Seq<char>) -> Option<
    (Option<Seq<char>>, Option<(Seq<char>, Seq<char>)>),
>;

/// The optional text field as the envelope model sees it.
spec fn text_view(o: Option<String>) -> Option<Seq<char>> {
    match o {
        Some(s) => Some(s@),
        None => None,
    }
}

/// The optional error object as the envelope model sees it.
spec fn fault_view(o: Option<GlmError>) -> Option<(Seq<char>, Seq<char>)> {
    match o {
        Some(f) => Some((f.code@, f.message@)),
        None => None,
    }
}

/// Relies on serde_json::from_str parsing the body into a serde_json::Value
/// (an error exactly on malformed JSON) and on Value::{get, as_str} reading
/// the optional `md_results` string and the optional `error` object's
/// string `code` and `message`; the outcome is a function of the body text
/// alone. A present `error` whose `code` or `message` is not a string
/// counts as a body the envelope does not accept.
#[verifier::external_body]
fn parse_envelope(body: &str) -> (r: Result<GlmResponse, ()>)
    ensures
        r is Ok <==> envelope_of(body@) is Some,
        r matches Ok(env) ==> (Some((text_view(env.md_results), fault_view(env.error)))
            == envelope_of(body@)),
{
    let v: serde_json::Value = match serde_json::from_str(body) {
        Ok(v) => v,
        Err(_) => return Err(()),
    };
    let md_results = v.get("md_results").and_then(|t| t.as_str()).map(str::to_string);
    let error = match v.get("error") {
        None => None,
        Some(e) => match (e.get("code").and_then(|c| c.as_str()), e.get("message").and_then(|m| m.as_str())) {
            (Some(code), Some(message)) => Some(GlmError { code: code.to_string(), message: message.to_string() }),
            _ => return Err(()),
        },
    };
    Ok(GlmResponse { md_results, error })
}

/// The decision rule on a parsed envelope, in order: a present error takes
/// precedence (even beside a text field), then a present text field
/// succeeds verbatim, and a response with neither is a missing result.
pub open spec fn response_verdict(
    env: (Option<Seq<char>>, Option<(Seq<char>, Seq<char>)>),
    r: Result<String, OcrError>,
) -> bool {
    match env.1 {
        Some(f) => r matches Err(OcrError::ProviderError { code, message }) && code@ == f.0
            && message@ == f.1,
        None => match env.0 {
            Some(t) => r matches Ok(s) && s@ == t,
            None => r matches Err(OcrError::MissingResult),
        },
    }
}

/// Decide one response body: parse it as the provider envelope and apply
/// the precedence rule (error over text over nothing). A body the envelope
/// does not accept is a transport-level failure, distinct from a missing
/// result.
pub fn interpret_response(body: &str) -> (r: Result<String, OcrError>)
    ensures
        match envelope_of(body@) {
            Some(env) => response_verdict(env, r),
            None => r matches Err(OcrError::TransportFailure(c)) && c@
                == "unexpected response body"@,
        },
{
    match parse_envelope(body) {
        Err(_) => Err(OcrError::TransportFailure(String::from_str("unexpected response body"))),
        Ok(env) => match env.error {
            Some(f) => Err(OcrError::ProviderError { code: f.code, message: f.message }),
            None => match env.md_results {
                Some(t) => Ok(t),
                None => Err(OcrError::MissingResult),
            },
        },
    }
}

impl GlmOcrProvider {
    /// The configured API key.
    pub closed spec fn api_key_spec(&self) -> Seq<char> {
        self.api_key@
    }

    /// The configured endpoint URL.
    pub closed spec fn endpoint_spec(&self) -> Seq<char> {
        self.endpoint@
    }

    /// The configured model identifier.
    pub closed spec fn model_spec(&self) -> Seq<char> {
        self.model@
    }

    /// The configured longest-edge bound.
    pub closed spec fn max_edge_spec(&self) -> u32 {
        self.max_edge
    }

    /// The configured JPEG quality.
    pub closed spec fn jpeg_quality_spec(&self) -> u8 {
        self.jpeg_quality
    }

    /// A well-formed provider: the edge bound is a positive pixel count.
    pub open spec fn wf(&self) -> bool {
        1 <= self.max_edge_spec()
    }

    /// Build a provider from its configuration values.
    pub fn new(api_key: String, endpoint: String, model: String, max_edge: u32, jpeg_quality: u8) -> (r:
        Self)
        requires
            1 <= max_edge,
        ensures
            r.wf(),
            r.api_key_spec() == api_key@,
            r.endpoint_spec() == endpoint@,
            r.model_spec() == model@,
            r.max_edge_spec() == max_edge,
            r.jpeg_quality_spec() == jpeg_quality,
    {
        GlmOcrProvider { api_key, endpoint, model, max_edge, jpeg_quality }
    }

    /// The configured endpoint, for the caller that performs the exchange.
    pub fn endpoint(&self) -> (r: &String)
        ensures
            r@ == self.endpoint_spec(),
    {
        &self.endpoint
    }

    /// The configured API key; it travels as the bare authorization header
    /// value, with no scheme prefix.
    pub fn api_key(&self) -> (r: &String)
        ensures
            r@ == self.api_key_spec(),
    {
        &self.api_key
    }

    /// Prepare raw image bytes into the base64 JPEG payload under this
    /// provider's settings.
    pub fn process_image(&self, image_data: &Vec<u8>) -> (r: Result<String, PreprocessError>)
        requires
            self.wf(),
        ensures
            (r matches Err(PreprocessError::EmptyInput)) <==> image_data@.len() == 0,
            (r matches Err(PreprocessError::DecodeError)) <==> (image_data@.len() > 0
                && decoded_rgb(image_data@) is None),
            (r matches Err(PreprocessError::EncodeError)) <==> (image_data@.len() > 0
                && decoded_rgb(image_data@) is Some && !encodable(
                image_data@,
                self.max_edge_spec(),
                self.jpeg_quality_spec(),
            )),
            r matches Ok(s) ==> s@ == base64_std(
                prepared_jpeg(image_data@, self.max_edge_spec(), self.jpeg_quality_spec()),
            ),
    {
        prepare(image_data, self.max_edge, self.jpeg_quality)
    }

    /// Prepare the image under this provider's settings and wrap it in the
    /// request envelope: the configured model, and the payload as a data
    /// URL.
    pub fn build_request(&self, image_data: &Vec<u8>) -> (r: Result<GlmRequest, PreprocessError>)
        requires
            self.wf(),
        ensures
            r is Err <==> !(image_data@.len() > 0 && decoded_rgb(image_data@) is Some
                && encodable(image_data@, self.max_edge_spec(), self.jpeg_quality_spec())),
            (r matches Err(PreprocessError::EmptyInput)) <==> image_data@.len() == 0,
            (r matches Err(PreprocessError::DecodeError)) <==> (image_data@.len() > 0
                && decoded_rgb(image_data@) is None),
            r matches Ok(req) ==> {
                &&& req.model@ == self.model_spec()
                &&& req.file@ == data_url(
                    base64_std(
                        prepared_jpeg(image_data@, self.max_edge_spec(), self.jpeg_quality_spec()),
                    ),
                )
            },
    {
        let payload = match self.process_image(image_data) {
            Ok(p) => p,
            Err(e) => {
                return Err(e);
            },
        };
        let file = make_data_url(payload.as_str());
        Ok(GlmRequest { model: self.model.clone(), file })
    }
}

} // verus!

use vstd::prelude::*;

verus! {

/// Process-wide configuration: the API credential plus the image and
/// endpoint settings, passed as an immutable value into the provider
/// constructor rather than read from ambient state.
pub struct Config {
    pub api_key: String,
    pub image: ImageConfig,
    pub api: ApiConfig,
}

/// Image-preparation settings: the longest-edge bound for downscaling and
/// the JPEG quality used when re-encoding.
pub struct ImageConfig {
    pub max_edge: u32,
    pub jpeg_quality: u8,
}

/// Backend settings: where to send the request and which model to name in it.
pub struct ApiConfig {
    pub endpoint: String,
    pub model: String,
}

/// Default longest-edge bound for downscaling, in pixels.
pub fn default_max_edge() -> (r: u32)
    ensures
        r == 1920,
{
    1920
}

/// Default JPEG quality on the 0..=100 scale.
pub fn default_jpeg_quality() -> (r: u8)
    ensures
        r == 85,
{
    85
}

/// Default backend endpoint URL.
pub fn default_endpoint() -> (r: String)
    ensures
        r@ == "https://open.bigmodel.cn/api/paas/v4/layout_parsing"@,
{
    String::from_str("https://open.bigmodel.cn/api/paas/v4/layout_parsing")
}

/// Default model identifier named in the request envelope.
pub fn default_model() -> (r: String)
    ensures
        r@ == "glm-ocr"@,
{
    String::from_str("glm-ocr")
}

impl Default for ImageConfig {
    fn default() -> (r: Self)
        ensures
            r.max_edge == 1920,
            r.jpeg_quality == 85,
    {
        ImageConfig { max_edge: default_max_edge(), jpeg_quality: default_jpeg_quality() }
    }
}

impl Default for ApiConfig {
    fn default() -> (r: Self)
        ensures
            r.endpoint@ == "https://open.bigmodel.cn/api/paas/v4/layout_parsing"@,
            r.model@ == "glm-ocr"@,
    {
        ApiConfig { endpoint: default_endpoint(), model: default_model() }
    }
}

} // verus!

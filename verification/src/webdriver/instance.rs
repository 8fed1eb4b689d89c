//! WebDriver executables: screen resolutions, driver vendors and the launch configuration.

use crate::text::{
    append_decimal, ascii_lowercase, decimal, is_ascii_text, is_digit, law_decimal_parse_roundtrip, lemma_decimal_digits, lemma_split_at_char,
    parse_u16, spec_parse_u16, spec_split_once, split_into_two,
};
use core::time::Duration;
use crate::redis_log::{utf8_lossy, utf8_lossy_text};
use crate::json::{json_shape, json_text_shape, read_json, read_json_text, single_field, struct_fields, two_fields, JsonShape, JsonShapeView};
use vstd::prelude::*;
use vstd::string::*;

verus! {

/// Resolution of a graphical user interface, parsable from strings like "1920x1080"
#[derive(Debug, Clone, Copy, PartialEq, Eq, Structural)]
pub struct ScreenResolution(pub u16, pub u16);

/// Vendors for WebDriver executables
#[derive(Debug, Clone, Copy, PartialEq, Eq, Structural)]
pub enum WebDriverVariant {
    /// Google Chrome controlled through `chromedriver`
    Chrome,
    /// Safari controlled by the `safaridriver` executable available on macOS
    Safari,
    /// Mozilla Firefox controlled through `geckodriver`
    Firefox,
}

/// Error text for a resolution without `x`.
pub open spec fn resolution_separator_error() -> Seq<char> {
    "missing 'x' separator in resolution"@
}

/// Error text for a resolution whose components are not 16-bit unsigned integers.
pub open spec fn resolution_component_error() -> Seq<char> {
    "unable to convert width and height components to unsigned integers"@
}

/// A resolution `WIDTHxHEIGHT`, split at the first `x`, both parts parsed as `u16`.
pub open spec fn spec_parse_resolution(s: Seq<char>) -> Result<(u16, u16), Seq<char>> {
    match spec_split_once(s, seq!['x']) {
        Some((w, h)) => match (spec_parse_u16(w), spec_parse_u16(h)) {
            (Some(width), Some(height)) => Ok((width, height)),
            _ => Err(resolution_component_error()),
        },
        None => Err(resolution_separator_error()),
    }
}

/// A resolution written as `WIDTHxHEIGHT` in decimal parses back to itself.
pub proof fn law_resolution_roundtrip(width: u16, height: u16)
    ensures
        spec_parse_resolution(decimal(width as nat) + seq!['x'] + decimal(height as nat))
            == Ok::<(u16, u16), Seq<char>>((width, height)),
{
    let w = decimal(width as nat);
    lemma_decimal_digits(width as nat);
    assert forall|i: int| 0 <= i < w.len() implies w[i] != 'x' by {
        assert(is_digit(w[i]));
    }
    lemma_split_at_char(w, 'x', decimal(height as nat));
    law_decimal_parse_roundtrip(width);
    law_decimal_parse_roundtrip(height);
}

impl ScreenResolution {
    /// Parses a resolution like "1920x1080".
    pub fn from_str(s: &str) -> (r: Result<ScreenResolution, &'static str>)
        ensures
            match r {
                Ok(res) => spec_parse_resolution(s@) == Ok::<(u16, u16), Seq<char>>((res.0, res.1)),
                Err(e) => spec_parse_resolution(s@) == Err::<(u16, u16), Seq<char>>(e@),
            },
    {
        proof {
            reveal_strlit("x");
        }
        assert("x"@ =~= seq!['x']);
        match split_into_two(s, "x") {
            Some((raw_width, raw_height)) => {
                match (parse_u16(raw_width.as_str()), parse_u16(raw_height.as_str())) {
                    (Some(width), Some(height)) => Ok(ScreenResolution(width, height)),
                    _ => Err("unable to convert width and height components to unsigned integers"),
                }
            },
            None => Err("missing 'x' separator in resolution"),
        }
    }
}

impl std::str::FromStr for ScreenResolution {
    type Err = &'static str;

    fn from_str(s: &str) -> (r: Result<ScreenResolution, &'static str>)
        ensures
            match r {
                Ok(res) => spec_parse_resolution(s@) == Ok::<(u16, u16), Seq<char>>((res.0, res.1)),
                Err(e) => spec_parse_resolution(s@) == Err::<(u16, u16), Seq<char>>(e@),
            },
    {
        ScreenResolution::from_str(s)
    }
}

/// What `str::to_lowercase` gives back for a text (Unicode lowercase mapping).
pub uninterp spec fn lowercase_text(s: Seq<char>) -> Seq<char>;

/// Calls `str::to_lowercase`, which maps every character to its Unicode lowercase form.
/// The result is named; of ASCII text the contract states it: capitals become small
/// letters, everything else stays.
#[verifier::external_body]
fn to_lowercase(s: &str) -> (r: String)
    ensures
        r@ == lowercase_text(s@),
        is_ascii_text(s@) ==> r@ == ascii_lowercase(s@),
{
    s.to_lowercase()
}

/// Error text for an unknown driver name.
pub open spec fn unknown_variant_error() -> Seq<char> {
    "unknown webdriver variant"@
}

/// Driver vendor named by an already lowercased name.
pub open spec fn spec_variant_named(lower: Seq<char>) -> Result<WebDriverVariant, Seq<char>> {
    if lower == "chrome"@ {
        Ok(WebDriverVariant::Chrome)
    } else if lower == "safari"@ {
        Ok(WebDriverVariant::Safari)
    } else if lower == "firefox"@ {
        Ok(WebDriverVariant::Firefox)
    } else {
        Err(unknown_variant_error())
    }
}

/// Command line arguments each driver is launched with.
pub open spec fn variant_arguments(v: WebDriverVariant) -> Seq<Seq<char>> {
    match v {
        WebDriverVariant::Chrome => seq!["--port=4444"@],
        WebDriverVariant::Safari => seq!["--diagnose"@, "-p"@, "4444"@],
        WebDriverVariant::Firefox => seq!["-p"@, "4444"@],
    }
}

impl WebDriverVariant {
    /// Selects the vendor from a name that is already in lowercase.
    pub fn from_lowercase_name(lower: &str) -> (r: Result<WebDriverVariant, &'static str>)
        ensures
            match r {
                Ok(v) => spec_variant_named(lower@) == Ok::<WebDriverVariant, Seq<char>>(v),
                Err(e) => spec_variant_named(lower@) == Err::<WebDriverVariant, Seq<char>>(e@),
            },
    {
        let name = String::from_str(lower);
        if name.eq(&String::from_str("chrome")) {
            Ok(WebDriverVariant::Chrome)
        } else if name.eq(&String::from_str("safari")) {
            Ok(WebDriverVariant::Safari)
        } else if name.eq(&String::from_str("firefox")) {
            Ok(WebDriverVariant::Firefox)
        } else {
            Err("unknown webdriver variant")
        }
    }

    /// Parses the vendor name case-insensitively (by lowercasing it first).
    pub fn from_str(s: &str) -> (r: Result<WebDriverVariant, &'static str>)
        ensures
            match r {
                Ok(v) => spec_variant_named(lowercase_text(s@)) == Ok::<WebDriverVariant, Seq<char>>(v),
                Err(e) => spec_variant_named(lowercase_text(s@)) == Err::<WebDriverVariant, Seq<char>>(e@),
            },
            is_ascii_text(s@) ==> match r {
                Ok(v) => spec_variant_named(ascii_lowercase(s@)) == Ok::<WebDriverVariant, Seq<char>>(v),
                Err(e) => spec_variant_named(ascii_lowercase(s@)) == Err::<WebDriverVariant, Seq<char>>(e@),
            },
    {
        let lower = to_lowercase(s);
        WebDriverVariant::from_lowercase_name(lower.as_str())
    }

    /// Returns the port used by the driver.
    pub fn port(&self) -> (r: u16)
        ensures
            r == 4444,
    {
        match self {
            WebDriverVariant::Chrome => 4444,
            WebDriverVariant::Safari => 4444,
            WebDriverVariant::Firefox => 4444,
        }
    }

    /// Command line arguments passed to the driver executable.
    pub fn extra_arguments(&self) -> (r: Vec<&'static str>)
        ensures
            r@.map_values(|a: &str| a@) == variant_arguments(*self),
    {
        let r = match self {
            WebDriverVariant::Chrome => vec!["--port=4444"],
            WebDriverVariant::Safari => vec!["--diagnose", "-p", "4444"],
            WebDriverVariant::Firefox => vec!["-p", "4444"],
        };
        assert(r@.map_values(|a: &str| a@) =~= variant_arguments(*self));
        r
    }
}

impl std::str::FromStr for WebDriverVariant {
    type Err = &'static str;

    fn from_str(s: &str) -> (r: Result<WebDriverVariant, &'static str>)
        ensures
            match r {
                Ok(v) => spec_variant_named(lowercase_text(s@)) == Ok::<WebDriverVariant, Seq<char>>(v),
                Err(e) => spec_variant_named(lowercase_text(s@)) == Err::<WebDriverVariant, Seq<char>>(e@),
            },
            is_ascii_text(s@) ==> match r {
                Ok(v) => spec_variant_named(ascii_lowercase(s@)) == Ok::<WebDriverVariant, Seq<char>>(v),
                Err(e) => spec_variant_named(ascii_lowercase(s@)) == Err::<WebDriverVariant, Seq<char>>(e@),
            },
    {
        WebDriverVariant::from_str(s)
    }
}

/// The duration that `Duration::from_secs` builds for a number of seconds.
pub uninterp spec fn seconds(secs: u64) -> Duration;

/// Calls `Duration::from_secs`; the duration is only named.
#[verifier::external_body]
pub(crate) fn duration_from_secs(secs: u64) -> (d: Duration)
    ensures
        d == seconds(secs),
{
    Duration::from_secs(secs)
}

/// Builder for a webdriver instance
pub struct WebDriver<'a> {
    binary: &'a str,
    variant: WebDriverVariant,
    resolution: ScreenResolution,
    capabilities: &'a str,
    startup_timeout: Duration,
}

impl<'a> WebDriver<'a> {
    /// Location of the webdriver executable.
    pub closed spec fn spec_binary(&self) -> Seq<char> {
        self.binary@
    }

    /// Browser vendor of the driver.
    pub closed spec fn spec_variant(&self) -> WebDriverVariant {
        self.variant
    }

    /// Resolution the browser window is resized to.
    pub closed spec fn spec_resolution(&self) -> ScreenResolution {
        self.resolution
    }

    /// Capabilities used for the session created on launch.
    pub closed spec fn spec_capabilities(&self) -> Seq<char> {
        self.capabilities@
    }

    /// Maximum duration the driver may take to become ready.
    pub closed spec fn spec_startup_timeout(&self) -> Duration {
        self.startup_timeout
    }

    /// Sets the location of the webdriver executable
    pub fn binary(self, location: &'a str) -> (r: Self)
        ensures
            r.spec_binary() == location@,
            r.spec_variant() == self.spec_variant(),
            r.spec_resolution() == self.spec_resolution(),
            r.spec_capabilities() == self.spec_capabilities(),
            r.spec_startup_timeout() == self.spec_startup_timeout(),
    {
        let mut r = self;
        r.binary = location;
        r
    }

    /// Specifies the browser variant which may impact the commandline arguments passed to the driver
    pub fn variant(self, variant: WebDriverVariant) -> (r: Self)
        ensures
            r.spec_binary() == self.spec_binary(),
            r.spec_variant() == variant,
            r.spec_resolution() == self.spec_resolution(),
            r.spec_capabilities() == self.spec_capabilities(),
            r.spec_startup_timeout() == self.spec_startup_timeout(),
    {
        let mut r = self;
        r.variant = variant;
        r
    }

    /// Sets the resolution to which the browser window will be resized post-launch
    pub fn resolution(self, resolution: ScreenResolution) -> (r: Self)
        ensures
            r.spec_binary() == self.spec_binary(),
            r.spec_variant() == self.spec_variant(),
            r.spec_resolution() == resolution,
            r.spec_capabilities() == self.spec_capabilities(),
            r.spec_startup_timeout() == self.spec_startup_timeout(),
    {
        let mut r = self;
        r.resolution = resolution;
        r
    }

    /// Updates the maximum duration the driver may take to become ready
    pub fn startup_timeout(self, timeout: Duration) -> (r: Self)
        ensures
            r.spec_binary() == self.spec_binary(),
            r.spec_variant() == self.spec_variant(),
            r.spec_resolution() == self.spec_resolution(),
            r.spec_capabilities() == self.spec_capabilities(),
            r.spec_startup_timeout() == timeout,
    {
        let mut r = self;
        r.startup_timeout = timeout;
        r
    }

    /// Determines the capabilities that will be used to create the session upon launch
    pub fn capabilities(self, capabilities: &'a str) -> (r: Self)
        ensures
            r.spec_binary() == self.spec_binary(),
            r.spec_variant() == self.spec_variant(),
            r.spec_resolution() == self.spec_resolution(),
            r.spec_capabilities() == capabilities@,
            r.spec_startup_timeout() == self.spec_startup_timeout(),
    {
        let mut r = self;
        r.capabilities = capabilities;
        r
    }

    /// The location of the executable.
    pub fn binary_location(&self) -> (r: &'a str)
        ensures
            r@ == self.spec_binary(),
    {
        self.binary
    }

    /// The browser vendor.
    pub fn driver_variant(&self) -> (r: WebDriverVariant)
        ensures
            r == self.spec_variant(),
    {
        self.variant
    }

    /// The window resolution.
    pub fn window_resolution(&self) -> (r: ScreenResolution)
        ensures
            r == self.spec_resolution(),
    {
        self.resolution
    }

    /// The capabilities JSON text.
    pub fn session_capabilities(&self) -> (r: &'a str)
        ensures
            r@ == self.spec_capabilities(),
    {
        self.capabilities
    }

    /// The startup timeout.
    pub fn ready_timeout(&self) -> (r: Duration)
        ensures
            r == self.spec_startup_timeout(),
    {
        self.startup_timeout
    }

    /// Port the driver listens on.
    pub fn port(&self) -> (r: u16)
        ensures
            r == 4444,
    {
        self.variant.port()
    }
}

/// Base URL of a driver listening on the local port 4444.
pub open spec fn driver_base_url() -> Seq<char> {
    "http://127.0.0.1:4444"@
}

/// Errors thrown during creation of a webdriver instance
#[derive(Debug, Clone, PartialEq, Eq)]
pub enum WebDriverError {
    /// unable to spawn webdriver process
    IoError,
    /// timed out while waiting for webdriver startup
    StartupTimeout,
    /// creation of local webdriver session failed
    SessionCreationError,
    /// HTTP request composition failed
    RequestCompositionFailed,
    /// failed to parse webdriver response (the response, decoded lossily)
    ParseFailure(String),
}

/// Session the local driver created: its own identifier and the capabilities it reports.
#[derive(Debug, Clone, PartialEq, Eq)]
pub struct WebDriverState {
    /// Identifier of the session inside the driver
    pub internal_session_id: String,
    /// Capabilities reported by the driver, as compact JSON
    pub actual_capabilities: String,
}

/// The session a driver's answer to a session creation reports, as a derived reader takes
/// `{"value":{"sessionId":<string>,"capabilities":<any>}}` (see `struct_fields`): the
/// session id and the capabilities as compact JSON; `None` where the answer is no JSON, a
/// field is missing or the session id is no string.
pub open spec fn driver_session(body: Seq<u8>) -> Option<(Seq<char>, Seq<char>)> {
    match json_shape(body) {
        Some(top) => match struct_fields(top, seq!["value"@]) {
            Some(value) => match json_text_shape(value[0]) {
                Some(inner) => match struct_fields(inner, seq!["sessionId"@, "capabilities"@]) {
                    Some(fields) => match json_text_shape(fields[0]) {
                        Some(JsonShapeView::Str(id)) => Some((id, fields[1])),
                        _ => None,
                    },
                    None => None,
                },
                None => None,
            },
            None => None,
        },
        None => None,
    }
}

/// Reads the session a driver's answer reports (see `driver_session`).
fn parse_driver_session(body: &[u8]) -> (r: Option<(String, String)>)
    ensures
        match r {
            Some((i, c)) => driver_session(body@) == Some((i@, c@)),
            None => driver_session(body@) is None,
        },
{
    let top = match read_json(body) {
        Some(top) => top,
        None => return None,
    };
    let value = match single_field(top, "value") {
        Some(value) => value,
        None => return None,
    };
    let inner = match read_json_text(value.as_str()) {
        Some(inner) => inner,
        None => return None,
    };
    let (id_text, capabilities) = match two_fields(inner, "sessionId", "capabilities") {
        Some(fields) => fields,
        None => return None,
    };
    match read_json_text(id_text.as_str()) {
        Some(JsonShape::Str(id)) => Some((id, capabilities)),
        _ => None,
    }
}

/// The session state from the driver's answer to the session creation request, or a
/// `ParseFailure` carrying the answer (decoded lossily) where it cannot be read.
pub fn local_session_state(body: &[u8]) -> (r: Result<WebDriverState, WebDriverError>)
    ensures
        match driver_session(body@) {
            Some((i, c)) => r matches Ok(s) && s.internal_session_id@ == i && s.actual_capabilities@ == c,
            None => r matches Err(WebDriverError::ParseFailure(t)) && t@ == utf8_lossy_text(body@),
        },
{
    match parse_driver_session(body) {
        Some((internal_session_id, actual_capabilities)) => Ok(WebDriverState { internal_session_id, actual_capabilities }),
        None => Err(WebDriverError::ParseFailure(utf8_lossy(body))),
    }
}

impl<'a> WebDriver<'a> {
    /// URL of the driver's status endpoint, polled until the driver is ready.
    pub fn status_url(&self) -> (r: String)
        ensures
            r@ == driver_base_url() + "/status"@,
    {
        let mut r = String::from_str("http://127.0.0.1:4444");
        r.append("/status");
        r
    }

    /// URL at which the local session is created.
    pub fn session_url(&self) -> (r: String)
        ensures
            r@ == driver_base_url() + "/session"@,
    {
        let mut r = String::from_str("http://127.0.0.1:4444");
        r.append("/session");
        r
    }

    /// Body of the session creation request: the configured capabilities wrapped in an
    /// object under `capabilities`.
    pub fn session_request_body(&self) -> (r: String)
        ensures
            r@ == "{\"capabilities\": "@ + self.spec_capabilities() + " }"@,
    {
        let mut r = String::from_str("{\"capabilities\": ");
        r.append(self.capabilities);
        r.append(" }");
        r
    }

    /// URL of the window rectangle of a local session.
    pub fn window_rect_url(&self, session_id: &str) -> (r: String)
        ensures
            r@ == driver_base_url() + "/session/"@ + session_id@ + "/window/rect"@,
    {
        let mut r = String::from_str("http://127.0.0.1:4444");
        r.append("/session/");
        r.append(session_id);
        r.append("/window/rect");
        r
    }

    /// Body that moves the window to the origin and resizes it to the configured resolution.
    pub fn window_rect_body(&self) -> (r: String)
        ensures
            r@ == "{\"x\": 0, \"y\": 0, \"width\": "@ + decimal(self.spec_resolution().0 as nat) + ", \"height\": "@
                + decimal(self.spec_resolution().1 as nat) + "}"@,
    {
        let mut r = String::from_str("{\"x\": 0, \"y\": 0, \"width\": ");
        append_decimal(&mut r, self.resolution.0 as usize);
        r.append(", \"height\": ");
        append_decimal(&mut r, self.resolution.1 as usize);
        r.append("}");
        r
    }
}

impl<'a> Default for WebDriver<'a> {
    fn default() -> (r: WebDriver<'a>)
        ensures
            r.spec_binary() == "/"@,
            r.spec_variant() == WebDriverVariant::Firefox,
            r.spec_resolution() == ScreenResolution(1920, 1080),
            r.spec_capabilities() == "{}"@,
            r.spec_startup_timeout() == seconds(30),
    {
        WebDriver {
            binary: "/",
            variant: WebDriverVariant::Firefox,
            resolution: ScreenResolution(1920, 1080),
            capabilities: "{}",
            startup_timeout: duration_from_secs(30),
        }
    }
}

} // verus!

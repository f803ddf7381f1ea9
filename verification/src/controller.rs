use crate::bridge::base64_of;
use crate::bridge::url_encoded;
use crate::bridge::base64_encode;
use crate::bridge::url_encode;
use crate::prompts::PROMPT_COUNT;
use crate::prompts::example_prompt;
use crate::prompts::spec_example_prompt;
use crate::text::lemma_decimal_injective;
use crate::text::parse_u32;
use crate::text::push_decimal;
use crate::text::spec_decimal;
use crate::text::spec_parse_u32;
use crate::text::spec_trim;
use crate::text::str_eq;
use crate::text::trim_str;
use crate::theme::Theme;
use crate::theme::spec_theme_of;
use vstd::prelude::*;

verus! {

/// Everything the page shows or edits: the form fields, the cosmetic theme,
/// and the status of the one generation request that may be under way.
#[derive(Clone)]
pub struct AppState {
    /// The free-form image description; any text is accepted while typing.
    pub prompt: String,
    /// Requested image width in pixels.
    pub width: u32,
    /// Requested image height in pixels.
    pub height: u32,
    /// Which backend model the service should use.
    pub model: String,
    /// The cosmetic display theme.
    pub theme: Theme,
    /// The short human-readable state line.
    pub status: String,
    /// A more detailed error description, when the last action failed.
    pub error: Option<String>,
    /// True exactly while one generation request is outstanding.
    pub in_flight: bool,
    /// The most recently generated image as a base64 data URI.
    pub preview_image: Option<String>,
}

/// The parameters of one generation request, captured when it starts, so a
/// late response is described with the values it was asked for.
#[derive(Clone)]
pub struct GenRequest {
    /// The full request URL.
    pub url: String,
    pub width: u32,
    pub height: u32,
    pub model: String,
}

/// How one generation request ended.
pub enum GenOutcome {
    /// A success response arrived and its body was read as these bytes.
    Success(Vec<u8>),
    /// The request could not be sent or no response arrived; the text
    /// describes the underlying error.
    TransportError(String),
    /// A response arrived with this non-success status code.
    HttpError(u16),
    /// A response arrived but its body could not be read; the text
    /// describes the underlying error.
    DecodeError(String),
}

/// The URL that a generation request uses: the fixed endpoint, the
/// percent-encoded prompt as the path, then width, height, model and the
/// cache-busting value as query parameters.
pub open spec fn spec_request_url(
    prompt: Seq<char>,
    width: u32,
    height: u32,
    model: Seq<char>,
    cache_bust: u64,
) -> Seq<char> {
    "https://image.pollinations.ai/prompt/"@ + url_encoded(prompt) + "?width="@ + spec_decimal(
        width as nat,
    ) + "&height="@ + spec_decimal(height as nat) + "&model="@ + model + "&cacheBust="@
        + spec_decimal(cache_bust as nat)
}

/// Builds the request URL for one generation call.
pub fn build_request_url(
    prompt: &str,
    width: u32,
    height: u32,
    model: &str,
    cache_bust: u64,
) -> (r: String)
    ensures
        r@ == spec_request_url(prompt@, width, height, model@, cache_bust),
{
    let mut url = String::from_str("https://image.pollinations.ai/prompt/");
    let enc = url_encode(prompt);
    url.append(enc.as_str());
    url.append("?width=");
    push_decimal(&mut url, width as u64);
    url.append("&height=");
    push_decimal(&mut url, height as u64);
    url.append("&model=");
    url.append(model);
    url.append("&cacheBust=");
    push_decimal(&mut url, cache_bust);
    proof {
        assert(url@ =~= spec_request_url(prompt@, width, height, model@, cache_bust));
    }
    url
}

/// Two requests that agree on prompt, size and model but carry different
/// cache-busting values never share a URL, so repeated identical requests
/// are not served from a cache.
pub proof fn lemma_cache_bust_distinguishes(
    prompt: Seq<char>,
    width: u32,
    height: u32,
    model: Seq<char>,
    c1: u64,
    c2: u64,
)
    requires
        c1 != c2,
    ensures
        spec_request_url(prompt, width, height, model, c1) != spec_request_url(
            prompt,
            width,
            height,
            model,
            c2,
        ),
{
    let pre = "https://image.pollinations.ai/prompt/"@ + url_encoded(prompt) + "?width="@
        + spec_decimal(width as nat) + "&height="@ + spec_decimal(height as nat) + "&model="@
        + model + "&cacheBust="@;
    let u1 = spec_request_url(prompt, width, height, model, c1);
    let u2 = spec_request_url(prompt, width, height, model, c2);
    assert(u1 =~= pre + spec_decimal(c1 as nat));
    assert(u2 =~= pre + spec_decimal(c2 as nat));
    if u1 == u2 {
        assert(spec_decimal(c1 as nat) =~= u1.subrange(pre.len() as int, u1.len() as int));
        assert(spec_decimal(c2 as nat) =~= u2.subrange(pre.len() as int, u2.len() as int));
        lemma_decimal_injective(c1 as nat, c2 as nat);
        assert(false);
    }
}

/// Whatever bytes a success response carried, the preview value stored for
/// them begins with the `data:image/` scheme prefix.
pub proof fn lemma_preview_is_data_uri(bytes: Seq<u8>)
    ensures
        ("data:image/jpeg;base64,"@ + base64_of(bytes)).subrange(0, 11) =~= "data:image/"@,
{
    reveal_strlit("data:image/jpeg;base64,");
    reveal_strlit("data:image/");
}

impl AppState {
    /// The state at application start: the fixed defaults, nothing in
    /// flight, nothing generated yet.
    pub fn new() -> (r: AppState)
        ensures
            r.prompt@ == "A serene mountain landscape at sunrise"@,
            r.width == 1280,
            r.height == 720,
            r.model@ == "flux"@,
            r.theme == Theme::Teal,
            r.status@ == "Ready."@,
            r.error is None,
            r.in_flight == false,
            r.preview_image is None,
    {
        AppState {
            prompt: String::from_str("A serene mountain landscape at sunrise"),
            width: 1280,
            height: 720,
            model: String::from_str("flux"),
            theme: Theme::Teal,
            status: String::from_str("Ready."),
            error: None,
            in_flight: false,
            preview_image: None,
        }
    }

    /// Replaces the prompt verbatim; nothing else moves.
    pub fn set_prompt(&mut self, text: String)
        ensures
            *final(self) == (AppState { prompt: text, ..*old(self) }),
    {
        self.prompt = text;
    }

    /// Replaces the width when `text` parses as a `u32`; otherwise the edit
    /// is a no-op and the whole state is unchanged.
    pub fn set_width(&mut self, text: &str)
        ensures
            *final(self) == (match spec_parse_u32(text@) {
                Some(n) => AppState { width: n, ..*old(self) },
                None => *old(self),
            }),
    {
        match parse_u32(text) {
            Some(n) => self.width = n,
            None => (),
        }
    }

    /// Replaces the height when `text` parses as a `u32`; otherwise the
    /// edit is a no-op and the whole state is unchanged.
    pub fn set_height(&mut self, text: &str)
        ensures
            *final(self) == (match spec_parse_u32(text@) {
                Some(n) => AppState { height: n, ..*old(self) },
                None => *old(self),
            }),
    {
        match parse_u32(text) {
            Some(n) => self.height = n,
            None => (),
        }
    }

    /// Replaces the model verbatim; nothing else moves.
    pub fn set_model(&mut self, value: String)
        ensures
            *final(self) == (AppState { model: value, ..*old(self) }),
    {
        self.model = value;
    }

    /// Maps the selection string to a theme, defaulting to teal for any
    /// unrecognized value; nothing else moves.
    pub fn set_theme(&mut self, value: &str)
        ensures
            *final(self) == (AppState { theme: spec_theme_of(value@), ..*old(self) }),
    {
        let t = if str_eq(value, "Lilac") {
            Theme::Lilac
        } else if str_eq(value, "Dark") {
            Theme::Dark
        } else {
            Theme::Teal
        };
        self.theme = t;
    }

    /// Takes an externally drawn selection, reduces it into the fixed
    /// example table, and assigns that entry as the prompt, with an
    /// informational status and no error; the rest of the state is kept.
    pub fn pick_random_prompt(&mut self, sel: usize)
        ensures
            final(self).prompt@ == spec_example_prompt((sel % PROMPT_COUNT) as int),
            final(self).status@ == "Random prompt suggested. Ready to generate! 🎲"@,
            final(self).error is None,
            final(self).width == old(self).width,
            final(self).height == old(self).height,
            final(self).model == old(self).model,
            final(self).theme == old(self).theme,
            final(self).in_flight == old(self).in_flight,
            final(self).preview_image == old(self).preview_image,
    {
        let p = example_prompt(sel % PROMPT_COUNT);
        self.prompt = String::from_str(p);
        self.status = String::from_str("Random prompt suggested. Ready to generate! 🎲");
        self.error = None;
    }

    /// Starts one generation cycle. With an empty or whitespace-only
    /// prompt nothing is sent: the status explains, the error is set, and
    /// no request comes back. Otherwise the state synchronously enters the
    /// in-flight form — status in progress, no error, the previous preview
    /// cleared — and the returned request carries the URL to fetch along
    /// with the width, height and model it was built from.
    pub fn begin_generate(&mut self, cache_bust: u64) -> (r: Option<GenRequest>)
        ensures
            spec_trim(old(self).prompt@).len() == 0 ==> {
                &&& r is None
                &&& final(self).status@ == "Please enter a description for your image."@
                &&& final(self).error is Some
                &&& final(self).error->0@ == "Missing prompt"@
                &&& final(self).prompt == old(self).prompt
                &&& final(self).width == old(self).width
                &&& final(self).height == old(self).height
                &&& final(self).model == old(self).model
                &&& final(self).theme == old(self).theme
                &&& final(self).in_flight == old(self).in_flight
                &&& final(self).preview_image == old(self).preview_image
            },
            spec_trim(old(self).prompt@).len() != 0 ==> {
                &&& r is Some
                &&& final(self).in_flight == true
                &&& final(self).status@ == "Generating image... please wait."@
                &&& final(self).error is None
                &&& final(self).preview_image is None
                &&& final(self).prompt == old(self).prompt
                &&& final(self).width == old(self).width
                &&& final(self).height == old(self).height
                &&& final(self).model == old(self).model
                &&& final(self).theme == old(self).theme
                &&& r->0.width == old(self).width
                &&& r->0.height == old(self).height
                &&& r->0.model == old(self).model
                &&& r->0.url@ == spec_request_url(
                    spec_trim(old(self).prompt@),
                    old(self).width,
                    old(self).height,
                    old(self).model@,
                    cache_bust,
                )
            },
    {
        let trimmed = String::from_str(trim_str(self.prompt.as_str()));
        if trimmed.as_str().unicode_len() == 0 {
            self.status = String::from_str("Please enter a description for your image.");
            self.error = Some(String::from_str("Missing prompt"));
            return None;
        }
        self.status = String::from_str("Generating image... please wait.");
        self.error = None;
        self.in_flight = true;
        self.preview_image = None;
        let url = build_request_url(
            trimmed.as_str(),
            self.width,
            self.height,
            self.model.as_str(),
            cache_bust,
        );
        Some(
            GenRequest {
                url,
                width: self.width,
                height: self.height,
                model: self.model.clone(),
            },
        )
    }

    /// Applies the outcome of the request described by `req`. Whatever
    /// arrived, the cycle ends: the in-flight flag is cleared on every
    /// branch, and the form fields are untouched. Success stores the body
    /// as a base64 data URI and reports the size and model it was asked
    /// for; each failure keeps the preview as it was and pairs a generic
    /// status with a detailed error.
    pub fn apply_outcome(&mut self, req: &GenRequest, outcome: GenOutcome)
        requires
            outcome matches GenOutcome::Success(bytes) ==> bytes@.len() < 0x4000_0000_0000_0000,
        ensures
            final(self).in_flight == false,
            final(self).prompt == old(self).prompt,
            final(self).width == old(self).width,
            final(self).height == old(self).height,
            final(self).model == old(self).model,
            final(self).theme == old(self).theme,
            outcome matches GenOutcome::Success(bytes) ==> {
                &&& final(self).preview_image is Some
                &&& final(self).preview_image->0@ == "data:image/jpeg;base64,"@ + base64_of(bytes@)
                &&& final(self).status@ == "Image generated at "@ + spec_decimal(req.width as nat)
                    + "x"@ + spec_decimal(req.height as nat) + " using model '"@ + req.model@
                    + "'."@
                &&& final(self).error == old(self).error
            },
            outcome matches GenOutcome::TransportError(e) ==> {
                &&& final(self).status@ == "Error while generating image."@
                &&& final(self).error is Some
                &&& final(self).error->0@ == "Network error: "@ + e@
                &&& final(self).preview_image == old(self).preview_image
            },
            outcome matches GenOutcome::HttpError(code) ==> {
                &&& final(self).status@ == "Error while generating image."@
                &&& final(self).error is Some
                &&& final(self).error->0@ == "Error from server: HTTP "@ + spec_decimal(
                    code as nat,
                )
                &&& final(self).preview_image == old(self).preview_image
            },
            outcome matches GenOutcome::DecodeError(e) ==> {
                &&& final(self).status@ == "Error while generating image."@
                &&& final(self).error is Some
                &&& final(self).error->0@ == "Failed to read image bytes: "@ + e@
                &&& final(self).preview_image == old(self).preview_image
            },
    {
        match outcome {
            GenOutcome::Success(bytes) => {
                let b64 = base64_encode(&bytes);
                let mut data_url = String::from_str("data:image/jpeg;base64,");
                data_url.append(b64.as_str());
                self.preview_image = Some(data_url);
                let mut msg = String::from_str("Image generated at ");
                push_decimal(&mut msg, req.width as u64);
                msg.append("x");
                push_decimal(&mut msg, req.height as u64);
                msg.append(" using model '");
                msg.append(req.model.as_str());
                msg.append("'.");
                self.status = msg;
                self.in_flight = false;
            },
            GenOutcome::TransportError(e) => {
                let mut msg = String::from_str("Network error: ");
                msg.append(e.as_str());
                self.status = String::from_str("Error while generating image.");
                self.error = Some(msg);
                self.in_flight = false;
            },
            GenOutcome::HttpError(code) => {
                let mut msg = String::from_str("Error from server: HTTP ");
                push_decimal(&mut msg, code as u64);
                self.status = String::from_str("Error while generating image.");
                self.error = Some(msg);
                self.in_flight = false;
            },
            GenOutcome::DecodeError(e) => {
                let mut msg = String::from_str("Failed to read image bytes: ");
                msg.append(e.as_str());
                self.status = String::from_str("Error while generating image.");
                self.error = Some(msg);
                self.in_flight = false;
            },
        }
    }
}

/// The informational text behind the conversion button: the feature lives
/// only in the desktop counterpart, and the browser's own save action is
/// the way out here. Showing it is the whole effect of the click.
pub fn convert_info_message() -> (r: String)
    ensures
        r@
            == "JPG → PNG/ICO conversion is available in the desktop Python version.\n\nIn this web version, right-click the generated image and choose “Save image as…”"@,
{
    String::from_str(
        "JPG → PNG/ICO conversion is available in the desktop Python version.\n\nIn this web version, right-click the generated image and choose “Save image as…”",
    )
}

} // verus!

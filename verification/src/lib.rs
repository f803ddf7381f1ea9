mod bridge;
mod controller;
mod prompts;
mod text;
mod theme;

pub use bridge::base64_of;
pub use bridge::is_unicode_ws;
pub use bridge::url_encoded;
pub use bridge::url_safe_char;
pub use controller::AppState;
pub use controller::GenOutcome;
pub use controller::GenRequest;
pub use controller::build_request_url;
pub use controller::convert_info_message;
pub use controller::lemma_cache_bust_distinguishes;
pub use controller::lemma_preview_is_data_uri;
pub use controller::spec_request_url;
pub use prompts::PROMPT_COUNT;
pub use prompts::example_prompt;
pub use prompts::spec_example_prompt;
pub use text::lemma_decimal_injective;
pub use text::lemma_trim_empty_iff_ws;
pub use text::parse_u32;
pub use text::spec_decimal;
pub use text::spec_parse_u32;
pub use text::spec_trim;
pub use text::str_eq;
pub use text::trim_str;
pub use text::u64_to_string;
pub use theme::Theme;
pub use theme::spec_theme_class;
pub use theme::spec_theme_of;

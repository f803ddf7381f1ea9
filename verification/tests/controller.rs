use base64::Engine;
use image_lab::AppState;
use image_lab::GenOutcome;
use image_lab::Theme;
use image_lab::PROMPT_COUNT;

fn fresh() -> AppState {
    AppState::new()
}

#[test]
fn initial_defaults() {
    let st = fresh();
    assert_eq!(st.prompt, "A serene mountain landscape at sunrise");
    assert_eq!(st.width, 1280);
    assert_eq!(st.height, 720);
    assert_eq!(st.model, "flux");
    assert_eq!(st.theme, Theme::Teal);
    assert_eq!(st.status, "Ready.");
    assert!(st.error.is_none());
    assert!(!st.in_flight);
    assert!(st.preview_image.is_none());
}

#[test]
fn set_prompt_is_verbatim() {
    let mut st = fresh();
    st.set_prompt("  anything at all  ".to_string());
    assert_eq!(st.prompt, "  anything at all  ");
    assert_eq!(st.width, 1280);
}

#[test]
fn set_width_parses_or_keeps() {
    let mut st = fresh();
    st.set_width("abc");
    assert_eq!(st.width, 1280);
    st.set_width("800");
    assert_eq!(st.width, 800);
    st.set_width("12.5");
    assert_eq!(st.width, 800);
    st.set_width("");
    assert_eq!(st.width, 800);
    st.set_width("-64");
    assert_eq!(st.width, 800);
    st.set_width("+64");
    assert_eq!(st.width, 64);
    st.set_width("99999999999");
    assert_eq!(st.width, 64);
    st.set_width(" 5");
    assert_eq!(st.width, 64);
    st.set_width("4294967295");
    assert_eq!(st.width, u32::MAX);
    st.set_width("4294967296");
    assert_eq!(st.width, u32::MAX);
}

#[test]
fn set_height_parses_or_keeps() {
    let mut st = fresh();
    st.set_height("notanumber");
    assert_eq!(st.height, 720);
    st.set_height("1080");
    assert_eq!(st.height, 1080);
}

#[test]
fn set_model_is_verbatim() {
    let mut st = fresh();
    st.set_model("turbo".to_string());
    assert_eq!(st.model, "turbo");
}

#[test]
fn set_theme_maps_with_default() {
    let mut st = fresh();
    st.set_theme("Lilac");
    assert_eq!(st.theme, Theme::Lilac);
    st.set_theme("Dark");
    assert_eq!(st.theme, Theme::Dark);
    st.set_theme("anything else");
    assert_eq!(st.theme, Theme::Teal);
}

#[test]
fn theme_classes() {
    assert_eq!(Theme::Teal.as_class(), "theme-teal");
    assert_eq!(Theme::Lilac.as_class(), "theme-lilac");
    assert_eq!(Theme::Dark.as_class(), "theme-dark");
}

#[test]
fn random_prompt_comes_from_table() {
    for sel in 0..PROMPT_COUNT {
        let mut st = fresh();
        st.pick_random_prompt(sel);
        let mut found = false;
        for i in 0..PROMPT_COUNT {
            if st.prompt == image_lab::example_prompt(i) {
                found = true;
            }
        }
        assert!(found);
        assert_eq!(st.status, "Random prompt suggested. Ready to generate! 🎲");
        assert!(st.error.is_none());
    }
}

#[test]
fn random_prompt_reduces_selection() {
    let mut a = fresh();
    let mut b = fresh();
    a.pick_random_prompt(3);
    b.pick_random_prompt(3 + PROMPT_COUNT);
    assert_eq!(a.prompt, b.prompt);
    assert_eq!(a.prompt, image_lab::example_prompt(3));
}

#[test]
fn first_example_prompt_text() {
    assert_eq!(
        image_lab::example_prompt(0),
        "A serene mountain landscape at sunrise with low mist and golden light"
    );
}

#[test]
fn generate_with_empty_prompt_is_rejected() {
    let mut st = fresh();
    st.set_prompt(String::new());
    let req = st.begin_generate(1);
    assert!(req.is_none());
    assert!(!st.in_flight);
    assert_eq!(st.status, "Please enter a description for your image.");
    assert_eq!(st.error.as_deref(), Some("Missing prompt"));
}

#[test]
fn generate_with_whitespace_prompt_is_rejected() {
    let mut st = fresh();
    st.set_prompt("   \t\n  ".to_string());
    let req = st.begin_generate(1);
    assert!(req.is_none());
    assert!(!st.in_flight);
    assert!(st.error.is_some());
    assert!(!st.error.unwrap().is_empty());
}

#[test]
fn generate_sets_in_flight_before_request() {
    let mut st = fresh();
    st.set_prompt("a castle".to_string());
    assert!(!st.in_flight);
    let req = st.begin_generate(7);
    assert!(req.is_some());
    assert!(st.in_flight);
    assert_eq!(st.status, "Generating image... please wait.");
    assert!(st.error.is_none());
    assert!(st.preview_image.is_none());
}

#[test]
fn generate_clears_previous_preview() {
    let mut st = fresh();
    st.set_prompt("first".to_string());
    let req = st.begin_generate(1).unwrap();
    st.apply_outcome(&req, GenOutcome::Success(vec![1, 2, 3]));
    assert!(st.preview_image.is_some());
    let _second = st.begin_generate(2).unwrap();
    assert!(st.preview_image.is_none());
}

#[test]
fn request_url_holds_all_parameters() {
    let mut st = fresh();
    st.set_prompt("a red fox".to_string());
    st.set_width("512");
    st.set_height("512");
    st.set_model("turbo".to_string());
    let req = st.begin_generate(1234567).unwrap();
    assert!(req.url.starts_with("https://image.pollinations.ai/prompt/"));
    assert!(req.url.contains("prompt/a%20red%20fox"));
    assert!(req.url.contains("width=512"));
    assert!(req.url.contains("height=512"));
    assert!(req.url.contains("model=turbo"));
    assert!(req.url.contains("cacheBust=1234567"));
    assert_eq!(req.width, 512);
    assert_eq!(req.height, 512);
    assert_eq!(req.model, "turbo");
}

#[test]
fn cache_bust_values_give_different_urls() {
    let mut a = fresh();
    a.set_prompt("a red fox".to_string());
    let mut b = fresh();
    b.set_prompt("a red fox".to_string());
    let ra = a.begin_generate(1000).unwrap();
    let rb = b.begin_generate(2000).unwrap();
    assert_ne!(ra.url, rb.url);
}

#[test]
fn prompt_is_trimmed_for_the_url() {
    let mut st = fresh();
    st.set_prompt("  a red fox  ".to_string());
    let req = st.begin_generate(1).unwrap();
    assert!(req.url.contains("prompt/a%20red%20fox?"));
    assert_eq!(st.prompt, "  a red fox  ");
}

#[test]
fn success_outcome_builds_data_uri() {
    let mut st = fresh();
    st.set_prompt("a castle".to_string());
    let req = st.begin_generate(1).unwrap();
    let bytes: Vec<u8> = vec![0xFF, 0xD8, 0xFF, 0xE0, 0x00, 0x10];
    st.apply_outcome(&req, GenOutcome::Success(bytes.clone()));
    assert!(!st.in_flight);
    let preview = st.preview_image.clone().unwrap();
    assert!(preview.starts_with("data:image/"));
    assert!(preview.starts_with("data:image/jpeg;base64,"));
    let payload = &preview["data:image/jpeg;base64,".len()..];
    let decoded = base64::engine::general_purpose::STANDARD
        .decode(payload)
        .unwrap();
    assert_eq!(decoded, bytes);
    assert_eq!(
        st.status,
        "Image generated at 1280x720 using model 'flux'."
    );
    assert!(st.error.is_none());
}

#[test]
fn base64_payload_is_really_encoded() {
    let mut st = fresh();
    st.set_prompt("x".to_string());
    let req = st.begin_generate(1).unwrap();
    st.apply_outcome(&req, GenOutcome::Success(vec![0, 0, 0]));
    let preview = st.preview_image.unwrap();
    let payload = &preview["data:image/jpeg;base64,".len()..];
    assert_eq!(payload, "AAAA");
}

#[test]
fn success_message_uses_captured_parameters() {
    let mut st = fresh();
    st.set_prompt("a castle".to_string());
    st.set_width("512");
    st.set_model("anime".to_string());
    let req = st.begin_generate(1).unwrap();
    st.set_width("1024");
    st.set_model("flux".to_string());
    st.apply_outcome(&req, GenOutcome::Success(vec![9]));
    assert_eq!(
        st.status,
        "Image generated at 512x720 using model 'anime'."
    );
}

#[test]
fn http_error_outcome() {
    let mut st = fresh();
    st.set_prompt("a castle".to_string());
    let req = st.begin_generate(1).unwrap();
    st.apply_outcome(&req, GenOutcome::HttpError(503));
    assert!(!st.in_flight);
    assert_eq!(st.status, "Error while generating image.");
    let err = st.error.clone().unwrap();
    assert!(err.contains("503"));
    assert_eq!(err, "Error from server: HTTP 503");
    assert!(st.preview_image.is_none());
}

#[test]
fn transport_error_outcome() {
    let mut st = fresh();
    st.set_prompt("a castle".to_string());
    let req = st.begin_generate(1).unwrap();
    st.apply_outcome(&req, GenOutcome::TransportError("connection refused".to_string()));
    assert!(!st.in_flight);
    assert_eq!(st.status, "Error while generating image.");
    assert_eq!(st.error.as_deref(), Some("Network error: connection refused"));
    assert!(st.preview_image.is_none());
}

#[test]
fn decode_error_outcome() {
    let mut st = fresh();
    st.set_prompt("a castle".to_string());
    let req = st.begin_generate(1).unwrap();
    st.apply_outcome(&req, GenOutcome::DecodeError("stream ended".to_string()));
    assert!(!st.in_flight);
    assert_eq!(st.status, "Error while generating image.");
    assert_eq!(
        st.error.as_deref(),
        Some("Failed to read image bytes: stream ended")
    );
    assert!(st.preview_image.is_none());
}

#[test]
fn every_outcome_clears_in_flight() {
    let outcomes = || {
        vec![
            GenOutcome::Success(vec![1]),
            GenOutcome::TransportError("x".to_string()),
            GenOutcome::HttpError(500),
            GenOutcome::DecodeError("y".to_string()),
        ]
    };
    for outcome in outcomes() {
        let mut st = fresh();
        st.set_prompt("a castle".to_string());
        let req = st.begin_generate(1).unwrap();
        assert!(st.in_flight);
        st.apply_outcome(&req, outcome);
        assert!(!st.in_flight);
    }
}

#[test]
fn convert_message_points_to_desktop() {
    let msg = image_lab::convert_info_message();
    assert!(msg.contains("desktop Python version"));
    assert!(msg.contains("Save image as"));
}

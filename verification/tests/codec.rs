//! The wire codec, exercised end to end: exact spellings, alias decoding,
//! tolerant forms, and round trips.

use winatep_client::Axis;
use winatep_client::BoundingRectangle;
use winatep_client::Button;
use winatep_client::Coordinate;
use winatep_client::Direction;
use winatep_client::FindImageFilter;
use winatep_client::FindImageQuality;
use winatep_client::ImageBuffer;
use winatep_client::InputMessage;
use winatep_client::Key;
use winatep_client::OutputMessage;
use winatep_client::Point;
use winatep_client::ScaleFactor;
use winatep_client::Screen;
use winatep_client::Token;
use winatep_client::decode_input;
use winatep_client::decode_output;
use winatep_client::encode_input;
use winatep_client::encode_output;

fn chars(s: &str) -> Vec<char> {
    s.chars().collect()
}

fn text(v: Vec<char>) -> String {
    v.iter().collect()
}

fn roundtrip_input(m: InputMessage) {
    let encoded = encode_input(&m);
    let decoded = decode_input(encoded.as_slice()).expect("an encoded request must decode");
    assert_eq!(decoded, m);
}

fn roundtrip_output(m: OutputMessage) {
    let encoded = encode_output(&m);
    let decoded = decode_output(encoded.as_slice()).expect("an encoded response must decode");
    assert_eq!(decoded, m);
}

fn sample_screen() -> Screen {
    Screen {
        name: "Built-in Display".to_string(),
        x: 100,
        y: 200,
        width: 1920,
        height: 1080,
        scale_factor: ScaleFactor { millis: 1500 },
    }
}

#[test]
fn unit_requests_spell_as_bare_strings() {
    assert_eq!(text(encode_input(&InputMessage::GetScreens)), "\"GetScreens\"");
    assert_eq!(text(encode_input(&InputMessage::GetMainScreen)), "\"GetMainScreen\"");
    assert_eq!(text(encode_input(&InputMessage::GetMouseLocation)), "\"GetMouseLocation\"");
    assert_eq!(text(encode_input(&InputMessage::GetClipboardText)), "\"GetClipboardText\"");
}

#[test]
fn capture_screen_spells_as_object() {
    let m = InputMessage::CaptureScreen { name: "main".to_string() };
    assert_eq!(text(encode_input(&m)), "{\"CaptureScreen\":{\"name\":\"main\"}}");
}

#[test]
fn find_text_spells_timeout_as_decimal_seconds() {
    let m = InputMessage::FindText {
        text: "OK".to_string(),
        screen_name: "main".to_string(),
        timeout_millis: 1500,
    };
    assert_eq!(
        text(encode_input(&m)),
        "{\"FindText\":{\"text\":\"OK\",\"screen_name\":\"main\",\"timeout_in_seconds\":1.5}}"
    );
}

#[test]
fn token_spells_with_canonical_names() {
    let m = InputMessage::DoInput(Token::Key(Key::Control, Direction::Press));
    assert_eq!(text(encode_input(&m)), "{\"DoInput\":{\"Key\":[\"Control\",\"Press\"]}}");
}

#[test]
fn every_request_round_trips() {
    roundtrip_input(InputMessage::GetScreens);
    roundtrip_input(InputMessage::GetMainScreen);
    roundtrip_input(InputMessage::GetMouseLocation);
    roundtrip_input(InputMessage::GetClipboardText);
    roundtrip_input(InputMessage::CaptureScreen { name: "a \"quoted\" name\n".to_string() });
    roundtrip_input(InputMessage::DoTypeText("hello, wörld".to_string()));
    roundtrip_input(InputMessage::SetClipboardText("clip\tboard".to_string()));
    roundtrip_input(InputMessage::FindText {
        text: "Next".to_string(),
        screen_name: "main".to_string(),
        timeout_millis: 15000,
    });
    let image = ImageBuffer::new(2, 1, vec![1, 2, 3, 250, 251, 252]).unwrap();
    roundtrip_input(InputMessage::FindImage {
        screen_name: "main".to_string(),
        image,
        quality: FindImageQuality::Specific(3),
        filter: FindImageFilter::Specific { level: 2, minimum_similarity: 750 },
    });
}

#[test]
fn every_token_kind_round_trips() {
    let tokens = vec![
        Token::Text("type me".to_string()),
        Token::Key(Key::Alt, Direction::Press),
        Token::Key(Key::Unicode('é'), Direction::Click),
        Token::Key(Key::Other(4097), Direction::Release),
        Token::Raw(513, Direction::Release),
        Token::Button(Button::ScrollLeft, Direction::Click),
        Token::MoveMouse(-15, 42, Coordinate::Rel),
        Token::Scroll(-3, Axis::Horizontal),
        Token::Location(10, 20),
        Token::MainDisplay(2560, 1440),
    ];
    for t in tokens {
        roundtrip_input(InputMessage::DoInput(t));
    }
}

#[test]
fn every_response_round_trips() {
    roundtrip_output(OutputMessage::GotScreens(vec![]));
    roundtrip_output(OutputMessage::GotScreens(vec![sample_screen()]));
    roundtrip_output(OutputMessage::GotMainScreen(sample_screen()));
    let image = ImageBuffer::new(1, 1, vec![9, 8, 7]).unwrap();
    roundtrip_output(OutputMessage::CapturedScreen { image_buffer: image });
    roundtrip_output(OutputMessage::GotMouseLocation(Point { x: -5, y: 900 }));
    roundtrip_output(OutputMessage::DidInput);
    roundtrip_output(OutputMessage::DidTypeText);
    roundtrip_output(OutputMessage::FoundText {
        locations: vec![
            BoundingRectangle { min: Point { x: 0, y: 0 }, max: Point { x: 10, y: 10 } },
            BoundingRectangle { min: Point { x: 5, y: 6 }, max: Point { x: 7, y: 8 } },
        ],
    });
    roundtrip_output(OutputMessage::FoundImage { locations: vec![] });
    roundtrip_output(OutputMessage::GotClipboardText("copied".to_string()));
    roundtrip_output(OutputMessage::DidSetClipboardText);
    roundtrip_output(OutputMessage::Error("driver exploded".to_string()));
}

#[test]
fn key_alias_ctrl_decodes_like_control() {
    let canonical = decode_input(chars("{\"DoInput\":{\"Key\":[\"Control\",\"Press\"]}}").as_slice());
    let alias = decode_input(chars("{\"DoInput\":{\"Key\":[\"ctrl\",\"Press\"]}}").as_slice());
    assert_eq!(canonical, alias);
    assert_eq!(
        canonical.unwrap(),
        InputMessage::DoInput(Token::Key(Key::Control, Direction::Press))
    );
}

#[test]
fn direction_aliases_decode_like_press() {
    let expected = InputMessage::DoInput(Token::Key(Key::Shift, Direction::Press));
    for alias in ["P", "p", "Pressed", "pressed", "Press"] {
        let doc = format!("{{\"DoInput\":{{\"Key\":[\"Shift\",\"{alias}\"]}}}}");
        let decoded = decode_input(chars(&doc).as_slice()).expect("alias must decode");
        assert_eq!(decoded, expected);
    }
}

#[test]
fn missing_direction_defaults_to_click() {
    let decoded = decode_input(chars("{\"DoInput\":{\"Key\":[\"Return\"]}}").as_slice());
    assert_eq!(
        decoded.unwrap(),
        InputMessage::DoInput(Token::Key(Key::Return, Direction::Click))
    );
}

#[test]
fn short_token_and_button_aliases_decode() {
    let decoded = decode_input(chars("{\"DoInput\":{\"B\":[\"l\",\"c\"]}}").as_slice());
    assert_eq!(
        decoded.unwrap(),
        InputMessage::DoInput(Token::Button(Button::Left, Direction::Click))
    );
    let decoded = decode_input(chars("{\"DoInput\":{\"M\":[3,4,\"a\"]}}").as_slice());
    assert_eq!(
        decoded.unwrap(),
        InputMessage::DoInput(Token::MoveMouse(3, 4, Coordinate::Abs))
    );
}

#[test]
fn coordinates_with_fractions_round_toward_zero() {
    let decoded = decode_output(chars("{\"GotMouseLocation\":[512.9,-12.7]}").as_slice());
    assert_eq!(decoded.unwrap(), OutputMessage::GotMouseLocation(Point { x: 512, y: -12 }));
}

#[test]
fn scale_factor_decodes_in_thousandths() {
    let doc = "{\"GotMainScreen\":{\"name\":\"m\",\"x\":0,\"y\":0,\"width\":10,\"height\":10,\"scale_factor\":1.25}}";
    let decoded = decode_output(chars(doc).as_slice()).unwrap();
    match decoded {
        OutputMessage::GotMainScreen(s) => assert_eq!(s.scale_factor, ScaleFactor { millis: 1250 }),
        other => panic!("wrong shape: {other:?}"),
    }
}

#[test]
fn whitespace_around_a_document_is_accepted() {
    let decoded = decode_output(chars("  \t\n\"DidInput\" \r\n").as_slice());
    assert_eq!(decoded.unwrap(), OutputMessage::DidInput);
}

#[test]
fn malformed_documents_are_rejected() {
    for doc in [
        "",
        "\"NoSuchMessage\"",
        "{\"DoInput\":}",
        "{\"GotMouseLocation\":[1,2] trailing",
        "{\"FindText\":{\"text\":\"a\"}}",
        "{\"DoInput\":{\"Key\":[\"NotAKey\"]}}",
        "{\"GotMainScreen\":{\"name\":\"m\",\"x\":0,\"y\":0,\"width\":10,\"height\":10,\"scale_factor\":0}}",
        "{\"CapturedScreen\":{\"image_buffer\":{\"width\":2,\"height\":2,\"buffer\":[1,2,3]}}}",
    ] {
        assert_eq!(decode_output(chars(doc).as_slice()), None, "should reject: {doc}");
        assert_eq!(decode_input(chars(doc).as_slice()), None, "should reject: {doc}");
    }
}

#[test]
fn rejected_rectangles_never_reach_the_client() {
    let crossed = "{\"FoundText\":{\"locations\":[{\"min\":[10,10],\"max\":[0,0]}]}}";
    assert_eq!(decode_output(chars(crossed).as_slice()), None);
}

#[test]
fn encoder_output_is_valid_json_for_serde() {
    let m = InputMessage::FindText {
        text: "a \"b\" c\\d\u{7}".to_string(),
        screen_name: "scr".to_string(),
        timeout_millis: 2750,
    };
    let doc = text(encode_input(&m));
    let value: serde_json::Value = serde_json::from_str(&doc).expect("must be valid JSON");
    assert_eq!(value["FindText"]["text"], serde_json::Value::String("a \"b\" c\\d\u{7}".to_string()));
    assert_eq!(value["FindText"]["timeout_in_seconds"].as_f64(), Some(2.75));
}

#[test]
fn image_buffer_checks_three_bytes_per_pixel() {
    assert!(ImageBuffer::new(2, 2, vec![0; 12]).is_some());
    assert!(ImageBuffer::new(2, 2, vec![0; 11]).is_none());
    assert!(ImageBuffer::new(0, 0, vec![]).is_some());
}

#[test]
fn string_escapes_decode_in_both_directions() {
    // the encoder escapes quotes, backslashes and control characters
    let m = InputMessage::DoTypeText("a\"b\\c\nd".to_string());
    assert_eq!(
        text(encode_input(&m)),
        "{\"DoTypeText\":\"a\\\"b\\\\c\\u000ad\"}"
    );
    // the decoder also accepts the short escapes and \u forms
    let decoded = decode_input(chars("{\"DoTypeText\":\"a\\\"b\\\\c\\nd\\u0041\\t\"}").as_slice());
    assert_eq!(decoded.unwrap(), InputMessage::DoTypeText("a\"b\\c\ndA\t".to_string()));
    // a lone surrogate escape names no scalar value
    assert_eq!(decode_input(chars("{\"DoTypeText\":\"\\ud800\"}").as_slice()), None);
}

#[test]
fn unicode_key_aliases_decode() {
    let expected = InputMessage::DoInput(Token::Key(Key::Unicode('é'), Direction::Click));
    for tag in ["Unicode", "uni", "Uni", "Char", "char"] {
        let doc = format!("{{\"DoInput\":{{\"Key\":[{{\"{tag}\":\"é\"}}]}}}}");
        assert_eq!(decode_input(chars(&doc).as_slice()).unwrap(), expected, "tag {tag}");
    }
    let other = decode_input(chars("{\"DoInput\":{\"Key\":[{\"Other\":4097},\"R\"]}}").as_slice());
    assert_eq!(
        other.unwrap(),
        InputMessage::DoInput(Token::Key(Key::Other(4097), Direction::Release))
    );
}

#[test]
fn filter_similarity_spells_in_trimmed_thousandths() {
    let m = InputMessage::FindImage {
        screen_name: "s".to_string(),
        image: ImageBuffer::new(1, 1, vec![0, 0, 0]).unwrap(),
        quality: FindImageQuality::Standard,
        filter: FindImageFilter::Specific { level: 1, minimum_similarity: 50 },
    };
    let doc = text(encode_input(&m));
    assert!(doc.contains("\"minimum_similarity\":0.05}"), "got: {doc}");
    // a similarity above one is rejected on the way in
    let bad = doc.replace("0.05", "1.5");
    assert_eq!(decode_input(chars(&bad).as_slice()), None);
}

#[test]
fn similarity_fraction_digits_past_the_third_are_dropped() {
    let doc = "{\"FindImage\":{\"screen_name\":\"s\",\"image\":{\"width\":1,\"height\":1,\"buffer\":[0,0,0]},\"quality\":\"Standard\",\"filter\":{\"Specific\":{\"level\":1,\"minimum_similarity\":0.7501}}}}";
    match decode_input(chars(doc).as_slice()).unwrap() {
        InputMessage::FindImage { filter: FindImageFilter::Specific { minimum_similarity, .. }, .. } => {
            assert_eq!(minimum_similarity, 750);
        },
        other => panic!("wrong shape: {other:?}"),
    }
}

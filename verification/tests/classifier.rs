use fabrica::classifier::{
    classify, guess_language, settle, weigh, Classification, ClassificationResult, Detection,
    CONFIDENCE_THRESHOLD_BITS,
};
use fabrica::translator::BackendError;

fn detection(code: &str, confidence: f64) -> Option<Detection> {
    Some(Detection { code: code.to_string(), confidence_bits: confidence.to_bits() })
}

fn settled(c: Classification) -> Option<String> {
    match c {
        Classification::Settled(result) => Some(result.code),
        _ => None,
    }
}

fn settled_as(outcome: Result<String, BackendError>) -> String {
    let ClassificationResult { code, confidence_bits } = settle(outcome);
    assert_eq!(confidence_bits, None);
    code
}

#[test]
fn threshold_is_four_fifths() {
    assert_eq!(CONFIDENCE_THRESHOLD_BITS, 0.8_f64.to_bits());
}

#[test]
fn confident_detection_settles_the_language() {
    assert_eq!(settled(weigh(detection("fra", 0.8))), Some("fr".to_string()));
    assert_eq!(settled(weigh(detection("fra", 1.0))), Some("fr".to_string()));
    assert_eq!(settled(weigh(detection("eng", 0.93))), Some("en".to_string()));
    assert_eq!(settled(weigh(detection("epo", 0.99))), Some("epo".to_string()));
}

#[test]
fn settled_language_comes_with_its_confidence() {
    match weigh(detection("fra", 0.875)) {
        Classification::Settled(result) => {
            assert_eq!(result.code, "fr");
            assert_eq!(result.confidence_bits.map(f64::from_bits), Some(0.875));
        }
        other => panic!("the language should be settled, not {:?}", other),
    }
}

#[test]
fn unsure_detection_leaves_the_language_open() {
    assert!(matches!(weigh(detection("fra", 0.7999999999)), Classification::Unsure));
    assert!(matches!(weigh(detection("fra", 0.0)), Classification::Unsure));
    assert!(matches!(weigh(detection("fra", -1.0)), Classification::Unsure));
    assert!(matches!(weigh(detection("fra", f64::NAN)), Classification::Unsure));
    assert!(matches!(weigh(None), Classification::Unsure));
}

#[test]
fn confidence_is_compared_as_a_number() {
    let below = f64::from_bits(0.8_f64.to_bits() - 1);
    assert!(below < 0.8);
    assert!(matches!(weigh(detection("deu", below)), Classification::Unsure));
    assert!(matches!(weigh(detection("deu", f64::INFINITY)), Classification::Settled(_)));
    assert!(matches!(weigh(detection("deu", f64::NEG_INFINITY)), Classification::Unsure));
}

#[test]
fn blank_text_is_not_classified() {
    assert!(matches!(classify(""), Classification::Blank));
    assert!(matches!(classify("  \n\t"), Classification::Blank));
    assert!(!matches!(classify(" a "), Classification::Blank));
}

#[test]
fn long_english_text_is_english() {
    let text = "There is no reason not to learn another language, and this sentence is long enough for the detector to be sure about what it is reading.";
    assert_eq!(settled(classify(text)), Some("en".to_string()));
    assert_eq!(guess_language(text), "en");
}

#[test]
fn long_spanish_text_is_spanish() {
    let text = "Además de todo lo anteriormente dicho, también encontramos que los niños aprenden más rápido cuando están contentos y tranquilos en la escuela.";
    assert_eq!(settled(classify(text)), Some("es".to_string()));
    assert_eq!(guess_language(text), "es");
}

#[test]
fn script_alone_settles_some_languages() {
    assert_eq!(settled(classify("안녕하세요 여러분 반갑습니다")), Some("ko".to_string()));
    assert_eq!(guess_language("안녕하세요 여러분 반갑습니다"), "ko");
}

#[test]
fn guess_without_detection_is_english() {
    assert_eq!(guess_language("12345 67890"), "en");
}

#[test]
fn fallback_settles_on_english_when_backend_fails() {
    assert_eq!(settled_as(Ok("fr".to_string())), "fr");
    assert_eq!(settled_as(Err(BackendError::Transport)), "en");
    assert_eq!(settled_as(Err(BackendError::Empty)), "en");
    assert_eq!(settled_as(Err(BackendError::Malformed)), "en");
    assert_eq!(settled_as(Err(BackendError::Status { status: 401, body: String::new() })), "en");
}

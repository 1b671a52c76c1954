use gradio_macro::ident::{to_camel_case, to_snake_case};
use gradio_macro::naming::{check_identifier, guard_identifier, snake_name, WordRule};

#[test]
fn test_to_camel_case() {
    assert_eq!(to_camel_case("hello_world"), "HelloWorld");
    assert_eq!(to_camel_case("hello-world"), "HelloWorld");
    assert_eq!(to_snake_case("/predict_1"), "predict_1"); // api endpoint example
}

#[test]
fn snake_form_lowers_and_joins_with_one_underscore() {
    assert_eq!(to_snake_case("Hello World"), "hello_world");
    assert_eq!(to_snake_case("hello---world"), "hello_world");
    assert_eq!(to_snake_case("  hello / world  "), "hello_world");
    assert_eq!(to_snake_case("HELLO"), "hello");
    assert_eq!(to_snake_case("a.b.c"), "a_b_c");
}

#[test]
fn snake_form_does_not_cut_at_case_changes() {
    assert_eq!(to_snake_case("helloWorld"), "helloworld");
    assert_eq!(to_snake_case("XMLHttpRequest"), "xmlhttprequest");
}

#[test]
fn pascal_form_capitalises_each_word() {
    assert_eq!(to_camel_case("hf-audio/whisper-large-v3"), "HfAudioWhisperLargeV3");
    assert_eq!(to_camel_case("JacobLinCool/vocal-separation"), "JacoblincoolVocalSeparation");
    assert_eq!(to_camel_case("HELLO world"), "HelloWorld");
    assert_eq!(to_camel_case("x"), "X");
}

#[test]
fn names_without_words_have_empty_forms() {
    assert_eq!(to_snake_case(""), "");
    assert_eq!(to_camel_case(""), "");
    assert_eq!(to_snake_case("/-_ !"), "");
    assert_eq!(to_camel_case("/-_ !"), "");
}

#[test]
fn leading_digits_are_kept() {
    assert_eq!(to_snake_case("1st place"), "1st_place");
    assert_eq!(to_camel_case("1st place"), "1stPlace");
    assert_eq!(to_camel_case("predict_1"), "Predict1");
}

#[test]
fn characters_outside_ascii_separate_words() {
    assert_eq!(to_snake_case("héllo"), "h_llo");
    assert_eq!(to_camel_case("héllo"), "HLlo");
    assert_eq!(to_snake_case("日本語"), "");
}

#[test]
fn snake_form_is_idempotent_on_examples() {
    for name in ["/predict_1", "Hello World", "a--b__c", "", "1x 2y", "ÀB c"] {
        let once = to_snake_case(name);
        assert_eq!(to_snake_case(&once), once);
    }
}

#[test]
fn separator_style_does_not_change_the_forms() {
    assert_eq!(to_snake_case("hello_world"), to_snake_case("hello-world"));
    assert_eq!(to_snake_case("hello_world"), to_snake_case("hello world"));
    assert_eq!(to_snake_case("hello_world"), to_snake_case("/hello///world/"));
    assert_eq!(to_camel_case("hello_world"), to_camel_case("hello.world"));
}

#[test]
fn pascal_form_is_idempotent_where_later_words_begin_with_digits() {
    for name in ["predict", "predict_1", "v 2 3", "", "Hello"] {
        let once = to_camel_case(name);
        assert_eq!(to_camel_case(&once), once);
    }
}

#[test]
fn pascal_form_lowers_the_capital_of_a_later_word() {
    let once = to_camel_case("hello_world");
    assert_eq!(once, "HelloWorld");
    assert_eq!(to_camel_case(&once), "Helloworld");
}

fn split_by_pattern(input: &str) -> Vec<String> {
    let re = regex::Regex::new(r"[^a-zA-Z0-9]+").unwrap();
    re.split(input).filter(|part| !part.is_empty()).map(|part| part.to_lowercase()).collect()
}

#[test]
fn snake_form_agrees_with_splitting_by_pattern() {
    for name in [
        "hello_world",
        "/predict_1",
        "--a--",
        "",
        "A1 b2\tC3",
        "héllo wörld",
        "x",
        "___",
        "Mixed/UP.case-Name",
    ] {
        assert_eq!(to_snake_case(name), split_by_pattern(name).join("_"), "{:?}", name);
    }
}

#[test]
fn pascal_form_agrees_with_splitting_by_pattern() {
    for name in ["hello_world", "hf-audio/whisper-large-v3", "", "9 lives", "a.B.c", "ÉCOLE x"] {
        let expected: String = split_by_pattern(name)
            .into_iter()
            .map(|mut part| {
                part[..1].make_ascii_uppercase();
                part
            })
            .collect();
        assert_eq!(to_camel_case(name), expected, "{:?}", name);
    }
}

#[test]
fn separator_rule_is_the_snake_form() {
    assert_eq!(snake_name(WordRule::Separators, "/predict_1"), "predict_1");
    assert_eq!(snake_name(WordRule::Separators, "helloWorld"), "helloworld");
}

#[test]
fn case_aware_rule_cuts_at_case_changes() {
    assert_eq!(snake_name(WordRule::CaseAware, "helloWorld"), "hello_world");
    assert_eq!(snake_name(WordRule::CaseAware, "XMLHttpRequest"), "xml_http_request");
    assert_eq!(snake_name(WordRule::CaseAware, "/predict"), "predict");
    assert_eq!(snake_name(WordRule::CaseAware, "???"), "");
}

#[test]
fn guard_refuses_the_empty_name() {
    assert_eq!(guard_identifier(String::new()), None);
}

#[test]
fn guard_puts_a_letter_before_a_digit() {
    assert_eq!(guard_identifier("1st_place".to_string()), Some("n1st_place".to_string()));
    assert_eq!(guard_identifier("0".to_string()), Some("n0".to_string()));
}

#[test]
fn guard_keeps_other_names() {
    assert_eq!(guard_identifier("predict_1".to_string()), Some("predict_1".to_string()));
    assert_eq!(guard_identifier("_x".to_string()), Some("_x".to_string()));
}

#[test]
fn identifiers_are_recognised() {
    assert!(check_identifier("VocalSeparation"));
    assert!(check_identifier("_private1"));
    assert!(check_identifier("x"));
    assert!(!check_identifier(""));
    assert!(!check_identifier("1x"));
    assert!(!check_identifier("a-b"));
    assert!(!check_identifier("a b"));
    assert!(!check_identifier("é"));
}

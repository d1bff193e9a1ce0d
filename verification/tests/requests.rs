use sudachi_front::request::{plan_analysis, SplitMode, TokenizeRequest};

#[test]
fn a_request_is_analysed_whole_in_the_longest_units() {
    let call = plan_analysis(TokenizeRequest { text: "東京都".to_string() });
    assert_eq!(call.text, "東京都");
    assert_eq!(call.mode, SplitMode::C);
    assert!(!call.debug);
}

#[test]
fn the_empty_text_is_accepted() {
    let call = plan_analysis(TokenizeRequest { text: String::new() });
    assert_eq!(call.text, "");
    assert_eq!(call.mode, SplitMode::C);
    assert!(!call.debug);
}

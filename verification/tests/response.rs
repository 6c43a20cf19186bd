use ez_doom::response::{tokenize, ResponseError, ResponseRequest, ResponseScan};
use ez_doom::state::State;

fn state_of(args: &[&str]) -> State {
    let mut state = State::default();
    state.args = args.iter().map(|a| a.to_string()).collect();
    state
}

fn list(state: &State) -> Vec<&str> {
    state.args.iter().map(|a| a.as_str()).collect()
}

/// Runs the expansion to its end, reading each file from `files`.
fn expand(state: &mut State, files: &[(&str, &str)]) -> Result<Vec<String>, ResponseError> {
    let mut asked = Vec::new();
    let mut scan = state.start_response_scan();
    while let Some(request) = state.find_response_file(&mut scan) {
        let text = files
            .iter()
            .find(|(path, _)| *path == request.path)
            .map(|(_, text)| *text)
            .unwrap_or("");
        asked.push(request.path.clone());
        state.load_response_file(request.index, text)?;
    }
    Ok(asked)
}

#[test]
fn tokens_are_what_stands_between_quotes() {
    assert_eq!(tokenize("\"-skill\" \"3\""), Ok(vec!["-skill".to_string(), "3".to_string()]));
    assert_eq!(tokenize(""), Ok(vec![]));
    assert_eq!(tokenize(" \t\r\n  "), Ok(vec![]));
    assert_eq!(tokenize("\"\""), Ok(vec!["".to_string()]));
    assert_eq!(tokenize("\"a b\"\n\"c\""), Ok(vec!["a b".to_string(), "c".to_string()]));
    assert_eq!(tokenize("\"a\"\"b\""), Ok(vec!["a".to_string(), "b".to_string()]));
    assert_eq!(tokenize("\u{3000}\"x\"\u{a0}"), Ok(vec!["x".to_string()]));
}

#[test]
fn tokens_keep_backslashes_and_carriage_returns() {
    assert_eq!(tokenize("\"c:\\\\x\\\\n\""), Ok(vec!["c:\\\\x\\\\n".to_string()]));
    assert_eq!(tokenize("\"a\\\""), Ok(vec!["a\\".to_string()]));
    assert_eq!(tokenize("\"a\rb\"\r\n"), Ok(vec!["a\rb".to_string()]));
    assert_eq!(tokenize("\"\u{e9}t\u{e9}\""), Ok(vec!["\u{e9}t\u{e9}".to_string()]));
}

#[test]
fn an_open_quote_is_an_error() {
    assert_eq!(tokenize("\"abc"), Err(ResponseError::UnclosedQuote));
    assert_eq!(tokenize("\""), Err(ResponseError::UnclosedQuote));
    assert_eq!(tokenize("\"abc\n\""), Err(ResponseError::UnclosedQuote));
    assert_eq!(tokenize("\"ok\" \"abc\ndef\""), Err(ResponseError::UnclosedQuote));
    assert_eq!(tokenize("\"a\" \""), Err(ResponseError::UnclosedQuote));
}

#[test]
fn text_outside_quotes_is_an_error() {
    assert_eq!(tokenize("-skill 3"), Err(ResponseError::StrayText));
    assert_eq!(tokenize("\"a\" b \"c\""), Err(ResponseError::StrayText));
    assert_eq!(tokenize("\"a\"b"), Err(ResponseError::StrayText));
}

#[test]
fn the_first_error_of_a_text_counts() {
    assert_eq!(tokenize("x \"open"), Err(ResponseError::StrayText));
    assert_eq!(tokenize("\"open\n x"), Err(ResponseError::UnclosedQuote));
}

#[test]
fn response_file_example() {
    let mut state = state_of(&["prog", "@resp.txt", "extra"]);
    let asked = expand(&mut state, &[("resp.txt", "\"-skill\" \"3\"")]).unwrap();
    assert_eq!(asked, vec!["resp.txt".to_string()]);
    assert_eq!(list(&state), vec!["prog", "-skill", "3", "extra"]);
}

#[test]
fn load_response_file_replaces_one_argument() {
    let mut state = state_of(&["prog", "a", "@f", "b"]);
    assert_eq!(state.load_response_file(2, "\"x\" \"y\" \"z\""), Ok(()));
    assert_eq!(list(&state), vec!["prog", "a", "x", "y", "z", "b"]);
    assert_eq!(state.load_response_file(0, "\"first\""), Ok(()));
    assert_eq!(list(&state), vec!["first", "a", "x", "y", "z", "b"]);
    assert_eq!(state.load_response_file(5, ""), Ok(()));
    assert_eq!(list(&state), vec!["first", "a", "x", "y", "z"]);
}

#[test]
fn load_response_file_behind_the_end_appends() {
    let mut state = state_of(&["prog", "a"]);
    assert_eq!(state.load_response_file(2, "\"x\""), Ok(()));
    assert_eq!(list(&state), vec!["prog", "a", "x"]);
    assert_eq!(state.load_response_file(usize::MAX, "\"y\""), Ok(()));
    assert_eq!(list(&state), vec!["prog", "a", "x", "y"]);
}

#[test]
fn a_bad_response_file_leaves_the_arguments() {
    let mut state = state_of(&["prog", "@f", "b"]);
    assert_eq!(state.load_response_file(1, "\"x"), Err(ResponseError::UnclosedQuote));
    assert_eq!(list(&state), vec!["prog", "@f", "b"]);
    assert_eq!(state.load_response_file(1, "x"), Err(ResponseError::StrayText));
    assert_eq!(list(&state), vec!["prog", "@f", "b"]);
}

#[test]
fn an_empty_response_file_removes_its_argument() {
    let mut state = state_of(&["prog", "@empty", "x", "@more"]);
    let asked = expand(&mut state, &[("empty", "  \n"), ("more", "\"y\"")]).unwrap();
    assert_eq!(asked, vec!["empty".to_string(), "more".to_string()]);
    assert_eq!(list(&state), vec!["prog", "x", "y"]);
}

#[test]
fn every_at_argument_is_expanded_once_from_the_front() {
    let mut state = state_of(&["prog", "@one", "mid", "@two"]);
    let asked = expand(&mut state, &[("one", "\"a\" \"b\""), ("two", "\"c\"")]).unwrap();
    assert_eq!(asked, vec!["one".to_string(), "two".to_string()]);
    assert_eq!(list(&state), vec!["prog", "a", "b", "mid", "c"]);
}

#[test]
fn what_a_response_file_puts_in_is_not_expanded_again() {
    let mut state = state_of(&["prog", "@outer", "tail"]);
    let asked = expand(
        &mut state,
        &[("outer", "\"x\" \"@inner\" \"@again\""), ("inner", "\"never\"")],
    )
    .unwrap();
    assert_eq!(asked, vec!["outer".to_string()]);
    assert_eq!(list(&state), vec!["prog", "x", "@inner", "@again", "tail"]);
}

#[test]
fn the_program_name_is_never_a_response_file() {
    let mut state = state_of(&["@prog", "x"]);
    let asked = expand(&mut state, &[("prog", "\"y\"")]).unwrap();
    assert!(asked.is_empty());
    assert_eq!(list(&state), vec!["@prog", "x"]);
}

#[test]
fn an_empty_argument_is_no_response_file() {
    let mut state = state_of(&["prog", "", "@f"]);
    let asked = expand(&mut state, &[("f", "\"y\"")]).unwrap();
    assert_eq!(asked, vec!["f".to_string()]);
    assert_eq!(list(&state), vec!["prog", "", "y"]);
}

#[test]
fn a_bare_at_sign_names_the_empty_path() {
    let mut state = state_of(&["prog", "@"]);
    let mut scan = state.start_response_scan();
    assert_eq!(
        state.find_response_file(&mut scan),
        Some(ResponseRequest { index: 1, path: "".to_string() })
    );
}

#[test]
fn the_response_flag_is_made_harmless_and_its_file_expanded() {
    let mut state = state_of(&["prog", "--response", "r.txt", "end"]);
    let mut scan = state.start_response_scan();
    assert_eq!(scan, ResponseScan { unread: 3 });
    let request = state.find_response_file(&mut scan).unwrap();
    assert_eq!(request, ResponseRequest { index: 2, path: "r.txt".to_string() });
    assert_eq!(list(&state), vec!["prog", "-_", "r.txt", "end"]);
    assert_eq!(scan.unread, 0);
    state.load_response_file(request.index, "\"-fast\"").unwrap();
    assert_eq!(list(&state), vec!["prog", "-_", "-fast", "end"]);
    assert_eq!(state.find_response_file(&mut scan), None);
    assert_eq!(list(&state), vec!["prog", "-_", "-fast", "end"]);
}

#[test]
fn response_flags_are_taken_until_none_is_left() {
    let mut state = state_of(&["prog", "--response", "a", "--response", "b"]);
    let asked = expand(&mut state, &[("a", "\"1\" \"2\""), ("b", "\"3\"")]).unwrap();
    assert_eq!(asked, vec!["a".to_string(), "b".to_string()]);
    assert_eq!(list(&state), vec!["prog", "-_", "1", "2", "-_", "3"]);
}

#[test]
fn a_response_flag_from_a_response_file_is_taken_too() {
    let mut state = state_of(&["prog", "--response", "a"]);
    let asked = expand(
        &mut state,
        &[("a", "\"--response\" \"b\" \"x\""), ("b", "\"y\"")],
    )
    .unwrap();
    assert_eq!(asked, vec!["a".to_string(), "b".to_string()]);
    assert_eq!(list(&state), vec!["prog", "-_", "-_", "y", "x"]);
}

#[test]
fn at_arguments_come_before_response_flags() {
    let mut state = state_of(&["prog", "--response", "r", "@f"]);
    let asked = expand(&mut state, &[("r", "\"@late\""), ("f", "\"x\"")]).unwrap();
    assert_eq!(asked, vec!["f".to_string(), "r".to_string()]);
    assert_eq!(list(&state), vec!["prog", "-_", "@late", "x"]);
}

#[test]
fn a_response_flag_without_a_file_is_left_alone() {
    let mut state = state_of(&["prog", "x", "--response"]);
    let asked = expand(&mut state, &[]).unwrap();
    assert!(asked.is_empty());
    assert_eq!(list(&state), vec!["prog", "x", "--response"]);
}

#[test]
fn expansion_of_its_own_output_changes_nothing() {
    let mut state = state_of(&["prog", "--response", "a", "mid", "--response", "b"]);
    expand(&mut state, &[("a", "\"1\""), ("b", "\"2\" \"3\"")]).unwrap();
    let once: Vec<String> = state.args.clone();
    assert_eq!(list(&state), vec!["prog", "-_", "1", "mid", "-_", "2", "3"]);
    let asked = expand(&mut state, &[("a", "\"1\""), ("b", "\"2\" \"3\"")]).unwrap();
    assert!(asked.is_empty());
    assert_eq!(state.args, once);
    let mut scan = ResponseScan { unread: 0 };
    assert_eq!(state.find_response_file(&mut scan), None);
    assert_eq!(state.args, once);
    assert_eq!(scan.unread, 0);
}

#[test]
fn the_scan_counts_the_arguments_behind_the_one_it_found() {
    let mut state = state_of(&["prog", "a", "@f", "b", "c"]);
    let mut scan = state.start_response_scan();
    assert_eq!(scan.unread, 4);
    let request = state.find_response_file(&mut scan).unwrap();
    assert_eq!(request.index, 2);
    assert_eq!(request.path, "f");
    assert_eq!(scan.unread, 2);
    assert_eq!(list(&state), vec!["prog", "a", "@f", "b", "c"]);
    state.load_response_file(2, "\"@x\" \"y\" \"z\"").unwrap();
    assert_eq!(state.find_response_file(&mut scan), None);
    assert_eq!(scan.unread, 0);
}

#[test]
fn a_scan_that_claims_too_much_starts_behind_the_program_name() {
    let mut state = state_of(&["@prog", "@f"]);
    let mut scan = ResponseScan { unread: 100 };
    let request = state.find_response_file(&mut scan).unwrap();
    assert_eq!(request.index, 1);
    assert_eq!(scan.unread, 0);
}

#[test]
fn no_arguments_need_no_expansion() {
    let mut state = state_of(&[]);
    let mut scan = state.start_response_scan();
    assert_eq!(scan.unread, 0);
    assert_eq!(state.find_response_file(&mut scan), None);
    assert!(state.args.is_empty());
}

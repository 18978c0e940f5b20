use bar_input::frame::extract_object;

#[test]
fn object_between_comma_and_comma_is_cut_out() {
    let line = "  ,{\"name\":\"foo\",\"instance\":null,\"x\":100,\"y\":200,\"button\":1},";
    assert_eq!(
        extract_object(line),
        "{\"name\":\"foo\",\"instance\":null,\"x\":100,\"y\":200,\"button\":1}"
    );
}

#[test]
fn line_that_is_only_an_object_is_its_own_frame() {
    assert_eq!(extract_object("{\"x\":1}"), "{\"x\":1}");
    assert_eq!(extract_object("{}"), "{}");
}

#[test]
fn line_terminator_is_trimmed() {
    assert_eq!(extract_object(",{\"x\":1}\n"), "{\"x\":1}");
    assert_eq!(extract_object(",{\"x\":1},\r\n"), "{\"x\":1}");
}

#[test]
fn array_opening_before_the_object_is_trimmed() {
    assert_eq!(extract_object("[{\"x\":1}"), "{\"x\":1}");
    assert_eq!(extract_object("[\n"), "");
    assert_eq!(extract_object("]"), "");
}

#[test]
fn line_without_opening_brace_has_no_frame() {
    assert_eq!(extract_object("\"x\":1},"), "");
    assert_eq!(extract_object("}"), "");
    assert_eq!(extract_object("}}}"), "");
}

#[test]
fn line_without_closing_brace_has_no_frame() {
    assert_eq!(extract_object(",{\"x\":1"), "");
    assert_eq!(extract_object("{"), "");
    assert_eq!(extract_object("{{{"), "");
}

#[test]
fn line_without_any_brace_has_no_frame() {
    assert_eq!(extract_object(""), "");
    assert_eq!(extract_object("\n"), "");
    assert_eq!(extract_object("   , \t"), "");
    assert_eq!(extract_object("plain text"), "");
}

#[test]
fn closing_brace_before_the_opening_one_gives_no_frame() {
    assert_eq!(extract_object("}{"), "");
    assert_eq!(extract_object("} , {"), "");
    assert_eq!(extract_object("}}x{{"), "");
}

#[test]
fn frame_runs_from_first_opening_to_last_closing_brace() {
    assert_eq!(extract_object("a{b{c}d}e"), "{b{c}d}");
    assert_eq!(extract_object("}a{b}c{d}e{"), "{b}c{d}");
    assert_eq!(extract_object("{\"a\":{\"b\":2}} trailing"), "{\"a\":{\"b\":2}}");
    assert_eq!(extract_object("}{}"), "{}");
    assert_eq!(extract_object("{}{"), "{}");
}

#[test]
fn characters_of_several_bytes_are_counted_once() {
    assert_eq!(extract_object("\u{e9}\u{4e16},{\"n\":\"\u{1f600}\u{df}\"}\u{754c}\u{e4}"), "{\"n\":\"\u{1f600}\u{df}\"}");
    assert_eq!(extract_object("\u{1f600}{\u{1f600}}\u{1f600}"), "{\u{1f600}}");
    assert_eq!(extract_object("\u{1f600}}{\u{1f600}"), "");
}

#[test]
fn extracting_twice_changes_nothing() {
    let lines = ["  ,{\"a\":1},", "}{", "", "a{b{c}d}e", "{", "no braces"];
    for line in lines {
        let once = extract_object(line);
        assert_eq!(extract_object(once), once);
    }
}

#[test]
fn frame_equals_two_successive_trims() {
    let lines = ["  ,{\"a\":1},", "}{", "", "a{b{c}d}e", "{", "}", "}a{b}c{d}e{", "no braces", "[{\"x\":1}"];
    for line in lines {
        let trimmed = line
            .trim_start_matches(|c| c != '{')
            .trim_end_matches(|c| c != '}');
        assert_eq!(extract_object(line), trimmed, "line {:?}", line);
    }
}

use gifer::options::{get_options, OptionsError, RunOptions};

fn text(s: &str) -> Option<String> {
    Some(s.to_string())
}

#[test]
fn both_paths_and_a_regular_file_make_options() {
    let opts = get_options(text("clip.mp4"), true, text("clip.gif"));
    assert_eq!(
        opts,
        Ok(RunOptions { input: "clip.mp4".to_string(), output: "clip.gif".to_string() })
    );
}

#[test]
fn paths_are_kept_as_given() {
    let opts = get_options(text("my videos/a b.mov"), true, text("../out dir/é.gif")).unwrap();
    assert_eq!(opts.input, "my videos/a b.mov");
    assert_eq!(opts.output, "../out dir/é.gif");
}

#[test]
fn an_input_that_is_no_file_is_refused() {
    assert_eq!(get_options(text("missing.mp4"), false, text("out.gif")), Err(OptionsError::InvalidInput));
}

#[test]
fn a_missing_input_is_reported_first() {
    assert_eq!(get_options(None, true, text("out.gif")), Err(OptionsError::MissingInput));
    assert_eq!(get_options(None, false, None), Err(OptionsError::MissingInput));
    assert_eq!(get_options(None, true, None), Err(OptionsError::MissingInput));
}

#[test]
fn an_invalid_input_is_reported_before_a_missing_output() {
    assert_eq!(get_options(text("dir/"), false, None), Err(OptionsError::InvalidInput));
}

#[test]
fn a_missing_output_is_refused() {
    assert_eq!(get_options(text("clip.mp4"), true, None), Err(OptionsError::MissingOutput));
}

#[test]
fn the_output_need_not_exist_or_differ() {
    let opts = get_options(text("clip.mp4"), true, text("clip.mp4")).unwrap();
    assert_eq!(opts.output, "clip.mp4");
}

#[test]
fn option_error_messages() {
    assert_eq!(OptionsError::MissingInput.message(), "Failed to parse input arg");
    assert_eq!(OptionsError::InvalidInput.message(), "Input is not a valid file");
    assert_eq!(OptionsError::MissingOutput.message(), "Failed to parse output value");
}

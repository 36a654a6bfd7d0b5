use gifer::command::Stage;
use gifer::error::RunError;
use gifer::options::OptionsError;
use gifer::process::ProcessError;

#[test]
fn option_errors_are_reported_under_their_context() {
    assert_eq!(
        RunError::Options { error: OptionsError::InvalidInput }.messages(),
        vec!["Failed to interpret options".to_string(), "Input is not a valid file".to_string()]
    );
    assert_eq!(
        RunError::Options { error: OptionsError::MissingInput }.messages(),
        vec!["Failed to interpret options".to_string(), "Failed to parse input arg".to_string()]
    );
    assert_eq!(
        RunError::Options { error: OptionsError::MissingOutput }.messages(),
        vec![
            "Failed to interpret options".to_string(),
            "Failed to parse output value".to_string(),
        ]
    );
}

#[test]
fn a_workspace_error_is_reported_with_its_reason() {
    assert_eq!(
        RunError::Workspace { reason: "Permission denied (os error 13)".to_string() }.messages(),
        vec![
            "Failed to create temporary directory for palette output".to_string(),
            "Permission denied (os error 13)".to_string(),
        ]
    );
}

#[test]
fn an_encoder_error_names_its_stage() {
    let palette = RunError::Encoder { stage: Stage::Palette, cause: ProcessError::StatusUnavailable };
    assert_eq!(
        palette.messages(),
        vec![
            "Error using FFmpeg (palette stage)".to_string(),
            "Unable to interpret status code".to_string(),
        ]
    );
    let encode = RunError::Encoder { stage: Stage::Encode, cause: ProcessError::StatusUnavailable };
    assert_eq!(
        encode.messages(),
        vec![
            "Error using FFmpeg (encode stage)".to_string(),
            "Unable to interpret status code".to_string(),
        ]
    );
}

#[test]
fn an_encoder_error_ends_with_the_encoder_s_own_words() {
    let stderr = "in.mp4: Invalid data found when processing input\n";
    let error = RunError::Encoder {
        stage: Stage::Palette,
        cause: ProcessError::SubprocessFailed { code: 1, stderr: stderr.to_string() },
    };
    let chain = error.messages();
    assert_eq!(chain.len(), 2);
    assert_eq!(
        chain[1],
        "Bad status code of 1\nin.mp4: Invalid data found when processing input\n"
    );
    assert!(chain[1].ends_with(stderr));
}

#[test]
fn an_encoder_that_could_not_start_is_reported_with_the_reason() {
    let error = RunError::Encoder {
        stage: Stage::Encode,
        cause: ProcessError::Unavailable { reason: "No such file or directory".to_string() },
    };
    assert_eq!(
        error.messages(),
        vec![
            "Error using FFmpeg (encode stage)".to_string(),
            "No such file or directory".to_string(),
        ]
    );
}

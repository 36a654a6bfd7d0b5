use gifer::command::{
    encode_command, palette_command, stage_command, Command, Stage, ENCODER, ENCODE_FILTER,
    PALETTE_DIR, PALETTE_FILE, PALETTE_FILTER,
};
use gifer::options::RunOptions;

fn opts(input: &str, output: &str) -> RunOptions {
    RunOptions { input: input.to_string(), output: output.to_string() }
}

fn strings(items: &[&str]) -> Vec<String> {
    items.iter().map(|s| s.to_string()).collect()
}

#[test]
fn fixed_names() {
    assert_eq!(ENCODER, "ffmpeg");
    assert_eq!(PALETTE_DIR, "/tmp/gifer/");
    assert_eq!(PALETTE_FILE, "/tmp/gifer/palette.png");
    assert_eq!(PALETTE_FILTER, "fps=30,scale=320:-1:flags=lanczos,palettegen=stats_mode=diff");
    assert_eq!(
        ENCODE_FILTER,
        "fps=30,scale=320:-1:flags=lanczos [x]; [x][1:v] paletteuse=dither=bayer:bayer_scale=5:diff_mode=rectangle"
    );
}

#[test]
fn the_palette_file_lies_in_the_palette_directory() {
    assert!(PALETTE_FILE.starts_with(PALETTE_DIR));
}

#[test]
fn palette_command_reads_the_input_and_writes_the_palette() {
    let command = palette_command(&opts("in.mp4", "out.gif"));
    assert_eq!(
        command,
        Command {
            program: "ffmpeg".to_string(),
            args: strings(&[
                "-y",
                "-i",
                "in.mp4",
                "-vf",
                "fps=30,scale=320:-1:flags=lanczos,palettegen=stats_mode=diff",
                "/tmp/gifer/palette.png",
            ]),
        }
    );
}

#[test]
fn encode_command_reads_input_and_palette_and_writes_the_output() {
    let command = encode_command(&opts("in.mp4", "out.gif"));
    assert_eq!(
        command,
        Command {
            program: "ffmpeg".to_string(),
            args: strings(&[
                "-y",
                "-i",
                "in.mp4",
                "-i",
                "/tmp/gifer/palette.png",
                "-lavfi",
                "fps=30,scale=320:-1:flags=lanczos [x]; [x][1:v] paletteuse=dither=bayer:bayer_scale=5:diff_mode=rectangle",
                "out.gif",
            ]),
        }
    );
}

#[test]
fn the_palette_command_does_not_name_the_output() {
    let command = palette_command(&opts("in.mp4", "somewhere/else.gif"));
    assert!(!command.args.contains(&"somewhere/else.gif".to_string()));
}

#[test]
fn both_commands_overwrite_without_asking() {
    let o = opts("a", "b");
    assert_eq!(palette_command(&o).args[0], "-y");
    assert_eq!(encode_command(&o).args[0], "-y");
}

#[test]
fn paths_are_single_arguments_whatever_they_hold() {
    let o = opts("my clip -vf.mp4", "out dir/ü ñ.gif");
    let palette = palette_command(&o);
    assert_eq!(palette.args.len(), 6);
    assert_eq!(palette.args[2], "my clip -vf.mp4");
    let encode = encode_command(&o);
    assert_eq!(encode.args.len(), 8);
    assert_eq!(encode.args[2], "my clip -vf.mp4");
    assert_eq!(encode.args[7], "out dir/ü ñ.gif");
}

#[test]
fn stage_command_picks_the_command_of_the_stage() {
    let o = opts("in.mp4", "out.gif");
    assert_eq!(stage_command(Stage::Palette, &o), palette_command(&o));
    assert_eq!(stage_command(Stage::Encode, &o), encode_command(&o));
    assert_ne!(stage_command(Stage::Palette, &o), stage_command(Stage::Encode, &o));
}

#[test]
fn the_encode_stage_follows_the_palette_stage_and_is_last() {
    assert_eq!(Stage::Palette.next(), Some(Stage::Encode));
    assert_eq!(Stage::Encode.next(), None);
}

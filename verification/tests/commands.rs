use wallfetch::command::{build_apply_command, split_spaces};

#[test]
fn split_spaces_splits_on_single_spaces() {
    assert_eq!(split_spaces("swww img {path}"), vec!["swww", "img", "{path}"]);
}

#[test]
fn split_spaces_keeps_empty_tokens() {
    assert_eq!(split_spaces("a  b"), vec!["a", "", "b"]);
    assert_eq!(split_spaces(""), vec![""]);
    assert_eq!(split_spaces(" x"), vec!["", "x"]);
}

#[test]
fn build_command_substitutes_placeholder_token() {
    let cmd = build_apply_command("swww img {path}", "/tmp/wall/abc.png");
    assert_eq!(cmd.program, "swww");
    assert_eq!(cmd.args, vec!["img", "/tmp/wall/abc.png"]);
}

#[test]
fn build_command_without_arguments() {
    let cmd = build_apply_command("refresh-wallpaper", "/tmp/x.png");
    assert_eq!(cmd.program, "refresh-wallpaper");
    assert!(cmd.args.is_empty());
}

#[test]
fn build_command_substitutes_every_placeholder_token() {
    let cmd = build_apply_command("setter {path} --log {path}", "/p.png");
    assert_eq!(cmd.program, "setter");
    assert_eq!(cmd.args, vec!["/p.png", "--log", "/p.png"]);
}

#[test]
fn placeholder_embedded_in_a_token_is_left_alone() {
    // Substitution is token-wise: only an argument that is exactly `{path}`
    // is replaced.
    let cmd = build_apply_command("feh --bg={path}", "/p.png");
    assert_eq!(cmd.args, vec!["--bg={path}"]);
}

#[test]
fn placeholder_as_program_is_not_substituted() {
    let cmd = build_apply_command("{path} arg", "/p.png");
    assert_eq!(cmd.program, "{path}");
    assert_eq!(cmd.args, vec!["arg"]);
}

use commune_vault::cli::{choose_mode, classify_words, parse_command_line, parse_line, LineCommand, Mode};

fn strings(v: &[&str]) -> Vec<String> {
    v.iter().map(|s| s.to_string()).collect()
}

#[test]
fn parses_name_and_command() {
    let c = parse_command_line(&strings(&["alice", "balance", "show"]));
    assert!(!c.regen_key);
    assert_eq!(c.key_name, "alice");
    assert_eq!(c.command_args, strings(&["balance", "show"]));
}

#[test]
fn regen_flag_anywhere() {
    let c = parse_command_line(&strings(&["alice", "--regen_key", "decrypt"]));
    assert!(c.regen_key);
    assert_eq!(c.key_name, "alice");
    assert_eq!(c.command_args, strings(&["decrypt"]));
    let c = parse_command_line(&strings(&["--regen_key"]));
    assert!(c.regen_key);
    assert_eq!(c.key_name, "");
    assert!(c.command_args.is_empty());
}

#[test]
fn no_arguments() {
    let c = parse_command_line(&Vec::new());
    assert!(!c.regen_key);
    assert_eq!(c.key_name, "");
    assert!(c.command_args.is_empty());
}

#[test]
fn modes() {
    assert_eq!(choose_mode(&Vec::new()), Mode::Interactive);
    assert_eq!(choose_mode(&strings(&["decrypt"])), Mode::Decrypt);
    assert_eq!(choose_mode(&strings(&["encrypt", "x"])), Mode::Encrypt);
    assert_eq!(choose_mode(&strings(&["balance", "decrypt"])), Mode::Run);
    assert_eq!(choose_mode(&strings(&["Decrypt"])), Mode::Run);
}

#[test]
fn line_runs_comx_command() {
    match parse_line("  comx balance   show ") {
        LineCommand::Run(args) => assert_eq!(args, strings(&["balance", "show"])),
        other => panic!("unexpected {:?}", other),
    }
}

#[test]
fn line_exit_in_any_case() {
    assert!(matches!(parse_line("exit"), LineCommand::Exit));
    assert!(matches!(parse_line("  EXIT \t"), LineCommand::Exit));
    assert!(matches!(parse_line("Exit"), LineCommand::Exit));
}

#[test]
fn line_invalid() {
    assert!(matches!(parse_line(""), LineCommand::Invalid));
    assert!(matches!(parse_line("comx"), LineCommand::Invalid));
    assert!(matches!(parse_line("exit now"), LineCommand::Invalid));
    assert!(matches!(parse_line("ls -la"), LineCommand::Invalid));
    assert!(matches!(parse_line("COMX balance"), LineCommand::Invalid));
}

#[test]
fn words_classified() {
    assert!(matches!(classify_words(&strings(&["ExIt"])), LineCommand::Exit));
    match classify_words(&strings(&["comx", "a", "b", "c"])) {
        LineCommand::Run(args) => assert_eq!(args, strings(&["a", "b", "c"])),
        other => panic!("unexpected {:?}", other),
    }
}

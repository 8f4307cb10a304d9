use ule_net::console::{parse_command, Command};

#[test]
fn stop_is_recognised() {
    assert_eq!(parse_command("stop"), Command::Stop);
    assert_eq!(parse_command("stop\n"), Command::Stop);
    assert_eq!(parse_command("stop now\n"), Command::Stop);
    assert_eq!(parse_command("stopped"), Command::Stop);
    assert_eq!(parse_command("\nstop"), Command::Stop);
    assert_eq!(parse_command("st\nop"), Command::Stop);
}

#[test]
fn other_lines_are_not_commands() {
    assert_eq!(parse_command(""), Command::Other);
    assert_eq!(parse_command("\n"), Command::Other);
    assert_eq!(parse_command("sto"), Command::Other);
    assert_eq!(parse_command(" stop"), Command::Other);
    assert_eq!(parse_command("Stop"), Command::Other);
    assert_eq!(parse_command("help\n"), Command::Other);
    assert_eq!(parse_command("\u{e22}\u{e07}stop"), Command::Other);
}

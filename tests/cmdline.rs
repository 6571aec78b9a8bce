use nixos_init::{extract_init, InitError};

#[test]
fn init_value_among_other_parameters() {
    let line = "console=ttyS0 init=/nix/store/abc-system/init quiet";
    assert_eq!(extract_init(line), Ok("/nix/store/abc-system/init".to_string()));
}

#[test]
fn missing_init_is_malformed() {
    let line = "console=ttyS0 quiet";
    assert_eq!(extract_init(line), Err(InitError::MalformedBootParameters(line.to_string())));
}

#[test]
fn empty_cmdline_is_malformed() {
    assert_eq!(extract_init(""), Err(InitError::MalformedBootParameters(String::new())));
}

#[test]
fn two_inits_are_malformed() {
    let line = "init=/a init=/b";
    assert_eq!(extract_init(line), Err(InitError::MalformedBootParameters(line.to_string())));
}

#[test]
fn three_inits_are_malformed() {
    let line = "init=/a quiet init=/b init=/c";
    assert_eq!(extract_init(line), Err(InitError::MalformedBootParameters(line.to_string())));
}

#[test]
fn value_is_returned_unchanged() {
    assert_eq!(extract_init("init=/x/../y=z//w"), Ok("/x/../y=z//w".to_string()));
}

#[test]
fn only_words_that_start_with_init_count() {
    let line = "rd.init=/a noinit=/b init=/c initrd=/d";
    assert_eq!(extract_init(line), Ok("/c".to_string()));
}

#[test]
fn any_ascii_whitespace_separates() {
    let line = "\tquiet\r\ninit=/sbin/init\x0cloglevel=4\n";
    assert_eq!(extract_init(line), Ok("/sbin/init".to_string()));
}

#[test]
fn empty_init_value() {
    assert_eq!(extract_init("quiet init= splash"), Ok(String::new()));
}

#[test]
fn init_key_without_equals_does_not_count() {
    let line = "init /sbin/init";
    assert_eq!(extract_init(line), Err(InitError::MalformedBootParameters(line.to_string())));
}

use alfrusco::shell::{escape_command, escape_token};

/// Reads one shell word made of plain characters and single- or
/// double-quoted parts, as a POSIX shell does.
fn read_word(s: &str) -> String {
    let mut out = String::new();
    let mut mode = ' ';
    for c in s.chars() {
        match mode {
            '\'' => {
                if c == '\'' {
                    mode = ' ';
                } else {
                    out.push(c);
                }
            }
            '"' => {
                if c == '"' {
                    mode = ' ';
                } else {
                    out.push(c);
                }
            }
            _ => {
                if c == '\'' || c == '"' {
                    mode = c;
                } else {
                    assert!(c.is_ascii_alphanumeric() || "-_./".contains(c), "bare {c}");
                    out.push(c);
                }
            }
        }
    }
    assert_eq!(mode, ' ');
    out
}

#[test]
fn plain_tokens_are_kept() {
    assert_eq!(escape_token("abc-1_2./x"), "abc-1_2./x");
}

#[test]
fn empty_token_is_two_quotes() {
    assert_eq!(escape_token(""), "''");
    assert_eq!(escape_command("echo", &vec![String::new()]), "echo ''");
}

#[test]
fn special_tokens_are_quoted() {
    assert_eq!(escape_token("a b"), "'a b'");
    assert_eq!(escape_token("$HOME"), "'$HOME'");
    assert_eq!(escape_token("`id`"), "'`id`'");
    assert_eq!(escape_token("it's"), "'it'\"'\"'s'");
}

#[test]
fn escaped_tokens_read_back() {
    for t in ["it's", "a b", "$HOME", "`id`", "''", "x'y'z", "", "plain", "tab\there", "semi;colon"] {
        assert_eq!(read_word(&escape_token(t)), t);
    }
}

#[test]
fn command_line_joins_tokens() {
    let args = vec!["Hello World".to_string(), "it's".to_string(), "x".to_string()];
    assert_eq!(
        escape_command("/bin/echo", &args),
        "/bin/echo 'Hello World' 'it'\"'\"'s' x"
    );
    assert_eq!(escape_command("ls", &vec![]), "ls");
}

use starship::command::{decode_output, execute, split_command, Execution};

fn ran(binary: &str, arg: &str, stdout: Option<&[u8]>) -> Execution {
    Execution {
        binary: binary.to_string(),
        arg: arg.to_string(),
        stdout: stdout.map(|bytes| bytes.to_vec()),
    }
}

fn parts(binary: &str, arg: &str) -> (String, String) {
    (binary.to_string(), arg.to_string())
}

#[test]
fn split_at_the_first_space() {
    assert_eq!(split_command("python --version"), parts("python", "--version"));
    assert_eq!(split_command("pyenv version-name"), parts("pyenv", "version-name"));
    assert_eq!(split_command("a b c"), parts("a", "b c"));
    assert_eq!(split_command(" x"), parts("", "x"));
    assert_eq!(split_command("x "), parts("x", ""));
    assert_eq!(split_command("tool  -v"), parts("tool", " -v"));
    assert_eq!(split_command("nœud --ver"), parts("nœud", "--ver"));
}

#[test]
fn execute_gives_what_the_run_printed() {
    let runs = vec![
        ran("ruby", "-v", Some(b"ruby 2.6.3p456")),
        ran("python", "--version", Some(b"Python 3.7.4")),
    ];
    assert_eq!(execute("python --version", &runs), Some("Python 3.7.4".to_string()));
    assert_eq!(execute("ruby -v", &runs), Some("ruby 2.6.3p456".to_string()));
}

#[test]
fn execute_tells_runs_apart_by_binary_and_argument() {
    let runs = vec![
        ran("python", "-V", Some(b"other")),
        ran("python3", "--version", Some(b"other")),
        ran("python", "--version", Some(b"first")),
        ran("python", "--version", Some(b"second")),
    ];
    assert_eq!(execute("python --version", &runs), Some("first".to_string()));
}

#[test]
fn execute_of_a_command_that_was_not_run_is_none() {
    assert_eq!(execute("go version", &Vec::new()), None);
    assert_eq!(execute("go version", &vec![ran("node", "--version", Some(b"v12.0.0"))]), None);
}

#[test]
fn execute_of_a_command_that_could_not_start_is_none() {
    let runs = vec![ran("go", "version", None), ran("go", "version", Some(b"go1.12"))];
    assert_eq!(execute("go version", &runs), None);
}

#[test]
fn execute_of_output_that_is_not_utf8_is_none() {
    let runs = vec![ran("tool", "-v", Some(&[0x76, 0xff, 0x31]))];
    assert_eq!(execute("tool -v", &runs), None);
    let runs = vec![ran("tool", "-v", Some(&[0xc3]))];
    assert_eq!(execute("tool -v", &runs), None);
}

#[test]
fn execute_keeps_empty_output() {
    let runs = vec![ran("tool", "-v", Some(b""))];
    assert_eq!(execute("tool -v", &runs), Some(String::new()));
}

#[test]
fn decode_reads_utf8() {
    assert_eq!(decode_output(&None), None);
    assert_eq!(decode_output(&Some(Vec::new())), Some(String::new()));
    assert_eq!(decode_output(&Some(vec![0xc3, 0xa9, 0x21])), Some("é!".to_string()));
    assert_eq!(decode_output(&Some("🐍 3.7".as_bytes().to_vec())), Some("🐍 3.7".to_string()));
    // An encoded surrogate and an overlong form are no UTF-8.
    assert_eq!(decode_output(&Some(vec![0xed, 0xa0, 0x80])), None);
    assert_eq!(decode_output(&Some(vec![0xc0, 0xaf])), None);
}

use tailf::decimal_string;
use tailf::Options;

#[test]
fn args_with_count_only() {
    let opts = Options::builder().num_lines(Some(3)).build();
    let args = opts.tail_args("file.log");
    assert_eq!(args, vec!["-n".to_string(), "3".to_string(), "file.log".to_string()]);
}

#[test]
fn args_follow_only() {
    let opts = Options::builder().follow(true).build();
    let args = opts.tail_args("/var/log/messages");
    assert_eq!(args, vec!["-f".to_string(), "/var/log/messages".to_string()]);
}

#[test]
fn args_follow_and_count() {
    let opts = Options::builder().follow(true).num_lines(Some(10)).build();
    let args = opts.tail_args("notes.txt");
    assert_eq!(
        args,
        vec!["-f".to_string(), "-n".to_string(), "10".to_string(), "notes.txt".to_string()]
    );
}

#[test]
fn args_path_alone_by_default() {
    let opts = Options::builder().build();
    let args = opts.tail_args("just-the-path");
    assert_eq!(args, vec!["just-the-path".to_string()]);
}

#[test]
fn decimal_zero() {
    assert_eq!(decimal_string(0), "0");
}

#[test]
fn decimal_default_chunk_bound() {
    assert_eq!(decimal_string(8192), "8192");
}

#[test]
fn decimal_largest_value() {
    assert_eq!(decimal_string(usize::MAX), "18446744073709551615");
}

#[test]
fn decimal_no_leading_zero() {
    assert_eq!(decimal_string(105), "105");
    assert_eq!(decimal_string(10), "10");
}

use hellorust::run;
use hellorust::Message;

#[test]
fn stdout_is_exact_greeting_line() {
    let e = run(1);
    assert_eq!(e.stdout, b"Hello Rust!\n".to_vec());
}

#[test]
fn stderr_is_empty() {
    let e = run(1);
    assert!(e.stderr.is_empty());
}

#[test]
fn exit_status_is_zero() {
    assert_eq!(run(1).status, 0);
    assert_eq!(run(0).status, 0);
}

#[test]
fn arguments_do_not_change_anything() {
    let none = run(0);
    let one = run(1);
    let many = run(57);
    assert_eq!(none.stdout, one.stdout);
    assert_eq!(one.stdout, many.stdout);
    assert_eq!(none.stderr, one.stderr);
    assert_eq!(one.stderr, many.stderr);
    assert_eq!(none.status, one.status);
    assert_eq!(one.status, many.status);
}

#[test]
fn message_is_null_terminated() {
    let m = Message::greeting();
    let bytes = m.as_bytes();
    assert_eq!(bytes, b"Hello Rust!\0");
    assert_eq!(m.len(), bytes.len());
    assert_eq!(*bytes.last().unwrap(), 0u8);
    for &b in &bytes[..bytes.len() - 1] {
        assert_ne!(b, 0u8);
    }
}

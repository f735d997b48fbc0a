use madsim::greeter::{
    bidi_hello, decimal, greeting, lots_of_greetings, lots_of_replies, plain_greeting, say_hello,
    Code,
};

#[test]
fn say_hello_greets_the_caller() {
    assert_eq!(say_hello("Tonic", "10.0.0.2").unwrap(), "Hello Tonic! (10.0.0.2)");
    assert_eq!(say_hello("", "::1").unwrap(), "Hello ! (::1)");
    assert_eq!(say_hello("errors", "x").unwrap(), "Hello errors! (x)");
    assert_eq!(say_hello("Error", "x").unwrap(), "Hello Error! (x)");
    assert_eq!(greeting("Tonic", "10.0.0.2"), "Hello Tonic! (10.0.0.2)");
}

#[test]
fn say_hello_refuses_the_name_error() {
    let status = say_hello("error", "10.0.0.2").unwrap_err();
    assert_eq!(status.code, Code::InvalidArgument);
    assert_eq!(status.message, "error!");
}

#[test]
fn plain_greeting_leaves_the_caller_out() {
    assert_eq!(plain_greeting("Tonic"), "Hi Tonic!");
    assert_eq!(plain_greeting("error"), "Hi error!");
}

#[test]
fn lots_of_replies_numbers_three_and_ends() {
    for i in 0..3u32 {
        assert_eq!(
            lots_of_replies(i, "Tonic", "10.0.0.4").unwrap(),
            format!("{i}: Hello Tonic! (10.0.0.4)")
        );
    }
    for i in [3, 4, u32::MAX] {
        let status = lots_of_replies(i, "Tonic", "10.0.0.4").unwrap_err();
        assert_eq!(status.code, Code::Unknown);
        assert_eq!(status.message, "EOF");
    }
}

#[test]
fn lots_of_greetings_joins_the_names() {
    let names = vec!["Tonic0".to_string(), "Tonic1".to_string(), "Tonic2".to_string()];
    assert_eq!(
        lots_of_greetings(&names, "10.0.0.5"),
        "Hello Tonic0 Tonic1 Tonic2! (10.0.0.5)"
    );
    assert_eq!(lots_of_greetings(&Vec::new(), "10.0.0.5"), "Hello! (10.0.0.5)");
}

#[test]
fn bidi_hello_greets_each_name() {
    for i in 0..3 {
        assert_eq!(
            bidi_hello(&format!("Tonic{i}"), "10.0.0.6"),
            format!("Hello Tonic{i}! (10.0.0.6)")
        );
    }
}

#[test]
fn decimal_writes_the_digits() {
    for n in [0, 1, 9, 10, 11, 99, 100, 101, 4096, 1_000_000, u32::MAX] {
        assert_eq!(decimal(n), n.to_string());
    }
}

use remote_desktop::{HandleToken, ObjectPath, WindowIdentifier};

#[test]
fn handle_token_accepts_name_characters() {
    assert_eq!(HandleToken::new("token").unwrap().as_str(), "token");
    assert_eq!(HandleToken::new("s1").unwrap().as_str(), "s1");
    assert_eq!(HandleToken::new("A_z_09").unwrap().as_str(), "A_z_09");
    assert_eq!(HandleToken::new("_").unwrap().as_str(), "_");
}

#[test]
fn handle_token_refuses_other_strings() {
    assert_eq!(HandleToken::new(""), None);
    assert_eq!(HandleToken::new("a-b"), None);
    assert_eq!(HandleToken::new("a/b"), None);
    assert_eq!(HandleToken::new("a b"), None);
    assert_eq!(HandleToken::new("a.b"), None);
    assert_eq!(HandleToken::new("caf\u{e9}"), None);
    assert_eq!(HandleToken::new("\u{0}"), None);
    assert_eq!(HandleToken::new("@"), None);
    assert_eq!(HandleToken::new("["), None);
    assert_eq!(HandleToken::new("`"), None);
    assert_eq!(HandleToken::new("{"), None);
    assert_eq!(HandleToken::new(":"), None);
}

#[test]
fn handle_token_equality_is_that_of_the_strings() {
    let a = HandleToken::new("one").unwrap();
    let b = HandleToken::new("one").unwrap();
    let c = HandleToken::new("two").unwrap();
    assert!(a.same_as(&b));
    assert!(!a.same_as(&c));
    assert_eq!(a.clone(), a);
    assert_ne!(a, c);
}

#[test]
fn object_path_accepts_valid_paths() {
    assert_eq!(ObjectPath::new("/").unwrap().as_str(), "/");
    assert_eq!(ObjectPath::new("/session/s1").unwrap().as_str(), "/session/s1");
    assert_eq!(ObjectPath::new("/Path/t0/0bject").unwrap().as_str(), "/Path/t0/0bject");
    assert_eq!(
        ObjectPath::new("/org/freedesktop/portal/desktop/request/1_42/t").unwrap().as_str(),
        "/org/freedesktop/portal/desktop/request/1_42/t"
    );
}

#[test]
fn object_path_refuses_invalid_paths() {
    assert_eq!(ObjectPath::new(""), None);
    assert_eq!(ObjectPath::new("."), None);
    assert_eq!(ObjectPath::new("session"), None);
    assert_eq!(ObjectPath::new("//"), None);
    assert_eq!(ObjectPath::new("/double//slashes"), None);
    assert_eq!(ObjectPath::new("/end/with/slash/"), None);
    assert_eq!(ObjectPath::new("/ha.d"), None);
    assert_eq!(ObjectPath::new("/a b"), None);
    assert_eq!(ObjectPath::new("/caf\u{e9}"), None);
}

#[test]
fn object_path_equality_is_that_of_the_strings() {
    let a = ObjectPath::new("/a/b").unwrap();
    let b = ObjectPath::new("/a/b").unwrap();
    let c = ObjectPath::new("/a/c").unwrap();
    assert!(a.same_as(&b));
    assert!(!a.same_as(&c));
    assert_eq!(a.clone(), a);
}

#[test]
fn window_identifier_defaults_to_no_parent() {
    assert_eq!(WindowIdentifier::default().as_str(), "");
    assert_eq!(WindowIdentifier::new("x11:2a").as_str(), "x11:2a");
}

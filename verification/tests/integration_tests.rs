use hotkeys::domain::integration::{join_path, parse_bool, parse_u64, Param, Params, PathString};
use hotkeys::input::keys::vkey::{find_vkey, VirtualKey, VK_F1, VK_NUMLOCK, VK_P};

#[test]
fn test_get_param_as() {
    let params = vec![
        Param::new("key1".to_string(), "42".to_string()),
        Param::new("key2".to_string(), "true".to_string()),
        Param::new("key3".to_string(), "3.14".to_string()),
        Param::new("key4".to_string(), "hello".to_string()),
    ];

    let v: Option<u64> = params.get_param_as_u64("key1");
    assert_eq!(v, Some(42));

    let v: Option<bool> = params.get_param_as_bool("key2");
    assert_eq!(v, Some(true));

    let v: Option<f64> = params.get_param_as_string("key3").map(|s| s.parse::<f64>().unwrap());
    assert_eq!(v, Some(3.14));

    let v: Option<String> = params.get_param_as_string("key4");
    assert_eq!(v, Some("hello".to_string()));

    let v: Option<u64> = params.get_param_as_u64("nonexistent");
    assert_eq!(v, None);
}

#[test]
fn test_virtual_keys() {
    assert_eq!(VirtualKey::new(VK_F1, "f1"), find_vkey("f1".to_owned()).unwrap());
    assert_eq!(VirtualKey::new(VK_NUMLOCK, "numlock"), find_vkey("numlock".to_owned()).unwrap());
    assert_eq!(VirtualKey::new(VK_P, "p"), find_vkey("p".to_owned()).unwrap());
}

#[test]
fn unknown_key_title_is_not_found() {
    assert_eq!(find_vkey("nosuchkey".to_owned()), None);
}

#[test]
fn numbers_and_booleans_are_read() {
    assert_eq!(parse_u64("+17"), Some(17));
    assert_eq!(parse_u64("18446744073709551615"), Some(u64::MAX));
    assert_eq!(parse_u64("18446744073709551616"), None);
    assert_eq!(parse_u64(""), None);
    assert_eq!(parse_u64("1x"), None);
    assert_eq!(parse_bool("true"), Some(true));
    assert_eq!(parse_bool("false"), Some(false));
    assert_eq!(parse_bool("yes"), None);
}

#[test]
fn first_param_of_a_name_wins() {
    let params = vec![
        Param::new("k".to_string(), "1".to_string()),
        Param::new("k".to_string(), "2".to_string()),
    ];
    assert_eq!(params.get_param_as_u64("k"), Some(1));
}

#[test]
fn merged_params_override_and_append() {
    let params = vec![
        Param::new("a".to_string(), "1".to_string()),
        Param::new("b".to_string(), "2".to_string()),
    ];
    let merged = params.merge_params(vec![
        Param::new("b".to_string(), "20".to_string()),
        Param::new("c".to_string(), "30".to_string()),
    ]);
    assert_eq!(merged.get_param_as_string("a"), Some("1".to_string()));
    assert_eq!(merged.get_param_as_string("b"), Some("20".to_string()));
    assert_eq!(merged.get_param_as_string("c"), Some("30".to_string()));
}

#[test]
fn paths_are_joined_with_the_separator() {
    let joined = join_path(vec!["a".to_string(), "b".to_string()]);
    assert_eq!(joined, "a/b");
    assert_eq!("a/b".to_string().path(), vec!["a".to_string(), "b".to_string()]);
}

#[test]
fn joining_the_parts_of_a_path_gives_the_trimmed_path() {
    for s in ["  boards/home/main ", "a", "", "/x//y/", " \t a / b \n"] {
        let text = s.to_string();
        assert_eq!(join_path(text.path()), s.trim().to_string(), "{:?}", s);
    }
    assert_eq!(join_path(vec![]), "");
}

use ngydv::export::rc;

#[test]
fn test_rc() {
    assert_eq!(
        rc(
            vec![("ABC", "aaa".to_string()), ("XYZ", "bbb".to_string())],
            vec!["FOO", "BAR"],
            vec!["text", "message"],
        ),
        r#"export ABC=aaa
export XYZ=bbb
unset FOO
unset BAR
echo 'text'
echo 'message'
"#,
    );
}

#[test]
fn rc_with_nothing_is_empty() {
    assert_eq!(rc(vec![], vec![], vec![]), "");
}

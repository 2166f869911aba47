use github_actions_models::decode::{Decode, DecodeError, Shape};
use github_actions_models::text::{
    char_is_space, chars_of, cut, ends_with, find_first, find_last, starts_with, trim_bounds,
};
use github_actions_models::value::Value;

#[test]
fn whitespace_is_the_unicode_property() {
    for code in 0..=0x10FFFFu32 {
        if let Some(c) = char::from_u32(code) {
            assert_eq!(char_is_space(c), c.is_whitespace(), "U+{code:04X}");
        }
    }
}

#[test]
fn trim_bounds_match_trim() {
    for text in ["", " ", "a", "  a b \t", "\u{a0}x\u{2003}", "\n\n", "x  ", "  x", "é \u{3000}"] {
        let chars = chars_of(text);
        let (from, to) = trim_bounds(&chars, 0, chars.len());
        assert_eq!(cut(text, from, to), text.trim());
    }
    let chars = chars_of("ab  cd  ef");
    assert_eq!(trim_bounds(&chars, 2, 8), (4, 6));
    assert_eq!(trim_bounds(&chars, 2, 4), (4, 4));
}

#[test]
fn cut_counts_characters() {
    assert_eq!(cut("héllo", 1, 3), "él");
    assert_eq!(cut("héllo", 0, 5), "héllo");
    assert_eq!(cut("héllo", 2, 2), "");
    assert_eq!(chars_of("héllo"), vec!['h', 'é', 'l', 'l', 'o']);
}

#[test]
fn prefixes_and_suffixes() {
    let chars = chars_of("docker://alpine");
    let n = chars.len();
    assert!(starts_with(&chars, 0, n, &chars_of("docker://")));
    assert!(!starts_with(&chars, 1, n, &chars_of("docker://")));
    assert!(starts_with(&chars, 9, n, &chars_of("alp")));
    assert!(!starts_with(&chars, 0, 5, &chars_of("docker")));
    assert!(starts_with(&chars, 0, n, &chars_of("")));
    assert!(ends_with(&chars, 0, n, &chars_of("pine")));
    assert!(!ends_with(&chars, 0, n - 1, &chars_of("pine")));
    assert!(!ends_with(&chars, n - 2, n, &chars_of("pine")));
    assert!(ends_with(&chars, 0, 0, &chars_of("")));
}

#[test]
fn first_and_last_occurrence() {
    let chars = chars_of("a@b@c");
    assert_eq!(find_first(&chars, 0, 5, '@'), Some(1));
    assert_eq!(find_last(&chars, 0, 5, '@'), Some(3));
    assert_eq!(find_first(&chars, 2, 5, '@'), Some(3));
    assert_eq!(find_last(&chars, 0, 3, '@'), Some(1));
    assert_eq!(find_first(&chars, 4, 5, '@'), None);
    assert_eq!(find_last(&chars, 0, 1, '@'), None);
    assert_eq!(find_first(&chars, 0, 5, 'x'), None);
}

#[test]
fn scalars_decode_from_their_own_shape() {
    assert_eq!(String::decode(&Value::String("a".into())), Ok("a".to_owned()));
    assert_eq!(String::decode(&Value::Bool(true)), Err(DecodeError::Expected(Shape::String)));
    assert_eq!(String::decode(&Value::Integer(1)), Err(DecodeError::Expected(Shape::String)));
    assert_eq!(bool::decode(&Value::Bool(true)), Ok(true));
    assert_eq!(
        bool::decode(&Value::String("true".into())),
        Err(DecodeError::Expected(Shape::Bool))
    );
    assert_eq!(u64::decode(&Value::Integer(0)), Ok(0));
    assert_eq!(u64::decode(&Value::Integer(u64::MAX as i128)), Ok(u64::MAX));
    assert_eq!(
        u64::decode(&Value::Integer(u64::MAX as i128 + 1)),
        Err(DecodeError::Expected(Shape::Unsigned))
    );
    assert_eq!(u64::decode(&Value::Integer(-1)), Err(DecodeError::Expected(Shape::Unsigned)));
    assert_eq!(
        u64::decode(&Value::Real("1.5".into())),
        Err(DecodeError::Expected(Shape::Unsigned))
    );
    assert_eq!(
        DecodeError::Expected(Shape::Unsigned).message(),
        "invalid type: expected an unsigned integer"
    );
}

#[test]
fn options_and_lists() {
    assert_eq!(Option::<String>::decode(&Value::Null), Ok(None));
    assert_eq!(Option::<String>::decode(&Value::String("a".into())), Ok(Some("a".to_owned())));
    assert_eq!(
        Option::<String>::decode(&Value::Bool(true)),
        Err(DecodeError::Expected(Shape::String))
    );

    let list = Value::Sequence(vec![Value::Integer(2), Value::Integer(1)]);
    assert_eq!(Vec::<u64>::decode(&list), Ok(vec![2, 1]));
    assert_eq!(Vec::<u64>::decode(&Value::Integer(1)), Err(DecodeError::Expected(Shape::Sequence)));
    // The first item that does not decode says why.
    let mixed = Value::Sequence(vec![Value::Integer(2), Value::Null, Value::Bool(true)]);
    assert_eq!(Vec::<u64>::decode(&mixed), Err(DecodeError::Expected(Shape::Unsigned)));
    assert_eq!(Vec::<Option<u64>>::decode(&mixed), Err(DecodeError::Expected(Shape::Unsigned)));
}

#[test]
fn lookup_takes_the_first_entry_of_that_name() {
    let mapping = Value::Mapping(vec![
        (Value::Integer(1), Value::Bool(false)),
        (Value::String("a".into()), Value::Integer(1)),
        (Value::String("b".into()), Value::Integer(2)),
        (Value::String("a".into()), Value::Integer(3)),
    ]);
    assert_eq!(mapping.get("a"), Some(&Value::Integer(1)));
    assert_eq!(mapping.get("b"), Some(&Value::Integer(2)));
    assert_eq!(mapping.get("c"), None);
    assert_eq!(mapping.get("1"), None);
    assert_eq!(Value::Sequence(vec![]).get("a"), None);
}

#[test]
fn duplicate_is_equal() {
    let value = Value::Mapping(vec![(
        Value::String("k".into()),
        Value::Sequence(vec![
            Value::Null,
            Value::Real("1.5".into()),
            Value::Tagged("!t".into(), Box::new(Value::Integer(-3))),
        ]),
    )]);
    assert_eq!(value.duplicate(), value);
    assert_eq!(Value::decode(&value), Ok(value.duplicate()));
}

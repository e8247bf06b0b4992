use nobject_rs::cursor::{is_keyword, is_slash, read_int, read_number, read_word, read_words};
use nobject_rs::decimal::{int_to_string, nat_to_string};
use nobject_rs::names::NameMap;
use nobject_rs::number::{copy_opt_number, Number};
use nobject_rs::text::{
    chars_of, is_digit_char, is_sign_char, is_space_char, lower_char, scan, spells, Run,
};
use nobject_rs::tokenizer::{
    next_token, parse_obj, scan_float, scan_int, Dialect, Keyword, Token, TokenizeError,
};
use nobject_rs::views::copy_strings;
use nobject_rs::{
    get_on_off_from_str, get_opt_token_float_opt, get_token_float, get_token_int,
    get_token_string, ObjError,
};

fn word(text: &str) -> Token<String> {
    Token::String(text.to_string())
}

#[test]
fn whole_numbers_written_out() {
    assert_eq!(int_to_string(0), "0");
    assert_eq!(int_to_string(7), "7");
    assert_eq!(int_to_string(-7), "-7");
    assert_eq!(int_to_string(12345), "12345");
    assert_eq!(int_to_string(1000), "1000");
    assert_eq!(int_to_string(i32::MAX), "2147483647");
    assert_eq!(int_to_string(i32::MIN), "-2147483648");
    assert_eq!(nat_to_string(0), "0");
    assert_eq!(nat_to_string(u64::MAX), "18446744073709551615");
}

#[test]
fn a_number_token_gives_its_number() {
    assert_eq!(get_token_float(&Token::Int(3)).unwrap(), Number::Int(3));
    assert_eq!(
        get_token_float(&Token::Float("1.5".to_string())).unwrap(),
        Number::Float("1.5".to_string())
    );
    assert_eq!(get_token_int(&Token::Int(-3)).unwrap(), -3);
    assert_eq!(get_opt_token_float_opt(&None).unwrap(), None);
    assert_eq!(get_opt_token_float_opt(&Some(Token::Int(1))).unwrap(), Some(Number::Int(1)));
}

#[test]
fn another_token_is_unexpected() {
    for token in [word("x"), Token::Slash, Token::Keyword(Keyword::Face), Token::Ignore] {
        match get_token_float(&token) {
            Err(ObjError::UnexpectedToken(found)) => assert_eq!(found, token),
            other => panic!("expected an error: {:?}", other),
        }
        match get_opt_token_float_opt(&Some(token.duplicate())) {
            Err(ObjError::UnexpectedToken(found)) => assert_eq!(found, token),
            other => panic!("expected an error: {:?}", other),
        }
        match get_token_int(&token) {
            Err(ObjError::UnexpectedToken(found)) => assert_eq!(found, token),
            other => panic!("expected an error: {:?}", other),
        }
    }
    match get_token_int(&Token::Float("1.0".to_string())) {
        Err(ObjError::UnexpectedToken(found)) => assert_eq!(found, Token::Float("1.0".to_string())),
        other => panic!("expected an error: {:?}", other),
    }
    match get_token_string(&Token::Slash) {
        Err(ObjError::UnexpectedToken(found)) => assert_eq!(found, Token::Slash),
        other => panic!("expected an error: {:?}", other),
    }
}

#[test]
fn the_text_of_a_token() {
    assert_eq!(get_token_string(&word("name")).unwrap(), "name");
    assert_eq!(get_token_string(&Token::Int(-12)).unwrap(), "-12");
    assert_eq!(get_token_string(&Token::Float("1.50".to_string())).unwrap(), "1.50");
}

#[test]
fn on_and_off() {
    assert_eq!(get_on_off_from_str(&word("on")).unwrap(), true);
    assert_eq!(get_on_off_from_str(&word("off")).unwrap(), false);
    for other in ["On", "OFF", "", "yes", "1"] {
        match get_on_off_from_str(&word(other)) {
            Err(ObjError::InvalidOnOffValue(found)) => assert_eq!(found, other),
            result => panic!("expected an error: {:?}", result),
        }
    }
    match get_on_off_from_str(&Token::Int(1)) {
        Err(ObjError::InvalidOnOffValue(found)) => assert_eq!(found, "1"),
        result => panic!("expected an error: {:?}", result),
    }
    match get_on_off_from_str(&Token::Slash) {
        Err(ObjError::UnexpectedToken(found)) => assert_eq!(found, Token::Slash),
        result => panic!("expected an error: {:?}", result),
    }
}

#[test]
fn tokenize_error_text() {
    let error = TokenizeError::Parse("somewhere".to_string());
    assert_eq!(error.message(), "Parse Error: `somewhere`");
}

#[test]
fn a_table_keeps_one_value_for_each_name() {
    let mut table: NameMap<i32> = NameMap::new();
    assert_eq!(table.len(), 0);
    assert_eq!(table.get("a"), None);
    table.insert("a".to_string(), 1);
    table.insert("b".to_string(), 2);
    table.insert("a".to_string(), 3);
    assert_eq!(table.len(), 2);
    assert_eq!(table.get("a"), Some(&3));
    assert_eq!(table.get("b"), Some(&2));
    assert_eq!(table.get("c"), None);
    assert!(table.contains_key("b"));
    assert!(!table.contains_key(""));
    assert_eq!(table.position(&"b".to_string()), Some(1));
    assert_eq!(table.position(&"z".to_string()), None);
    assert_eq!(table.names, vec!["a", "b"]);
    assert_eq!(table.values, vec![3, 2]);
}

#[test]
fn character_classes() {
    for c in [' ', '\t', '\r', '\n'] {
        assert!(is_space_char(c));
    }
    for c in ['a', '0', '\u{a0}', '\u{b}', '\u{c}'] {
        assert!(!is_space_char(c));
    }
    assert!(is_digit_char('0') && is_digit_char('9'));
    assert!(!is_digit_char('/') && !is_digit_char(':') && !is_digit_char('\u{663}'));
    assert!(is_sign_char('+') && is_sign_char('-') && !is_sign_char('*'));
    assert_eq!(lower_char('A'), 'a');
    assert_eq!(lower_char('Z'), 'z');
    assert_eq!(lower_char('a'), 'a');
    assert_eq!(lower_char('@'), '@');
    assert_eq!(lower_char('['), '[');
    assert_eq!(lower_char('\u{c4}'), '\u{c4}');
    assert_eq!(lower_char('\u{212a}'), '\u{212a}');
}

#[test]
fn runs() {
    let text = chars_of("123 \t ab#c\nd");
    assert_eq!(text.len(), 12);
    assert_eq!(scan(&text, 0, Run::Digits), 3);
    assert_eq!(scan(&text, 3, Run::Digits), 3);
    assert_eq!(scan(&text, 3, Run::Spaces), 6);
    assert_eq!(scan(&text, 6, Run::Word), 10);
    assert_eq!(scan(&text, 0, Run::Line), 10);
    assert_eq!(scan(&text, 11, Run::Line), 12);
    assert_eq!(scan(&text, 12, Run::Word), 12);
}

#[test]
fn spelling_ignores_letter_case() {
    let text = chars_of("Map_KD x");
    assert!(spells(&text, 0, 6, "map_kd"));
    assert!(!spells(&text, 0, 5, "map_kd"));
    assert!(!spells(&text, 0, 6, "map_ka"));
    assert!(!spells(&text, 0, 6, "map_Kd"));
    assert!(spells(&text, 3, 3, ""));
    assert!(spells(&text, 7, 8, "x"));
}

#[test]
fn characters_beyond_ascii() {
    assert_eq!(chars_of("h\u{f6}l\u{1f600}"), vec!['h', '\u{f6}', 'l', '\u{1f600}']);
    assert_eq!(chars_of(""), Vec::<char>::new());
}

#[test]
fn scanning_numbers() {
    let text = chars_of("x-1.5e3 +42 . -");
    assert_eq!(scan_float(&text, 1), Some(7));
    assert_eq!(scan_float(&text, 2), Some(7));
    assert_eq!(scan_float(&text, 0), None);
    assert_eq!(scan_float(&text, 8), None);
    assert_eq!(scan_float(&text, 12), Some(13));
    assert_eq!(scan_float(&text, 15), None);
    assert_eq!(scan_int(&text, 8), Some(11));
    assert_eq!(scan_int(&text, 1), Some(3));
    assert_eq!(scan_int(&text, 14), None);
    assert_eq!(scan_int(&text, 15), None);
}

#[test]
fn one_token_at_a_time() {
    let text = chars_of("vn 1/x #c\n");
    assert_eq!(next_token(Dialect::Obj, &text, 0), (Token::Keyword(Keyword::VertexNormal), 2));
    assert_eq!(next_token(Dialect::Obj, &text, 2), (Token::Ignore, 3));
    assert_eq!(next_token(Dialect::Obj, &text, 3), (Token::Int(1), 4));
    assert_eq!(next_token(Dialect::Obj, &text, 4), (Token::Slash, 5));
    assert_eq!(next_token(Dialect::Mtl, &text, 4), (word("/x"), 6));
    assert_eq!(next_token(Dialect::Obj, &text, 5), (word("x"), 6));
    assert_eq!(next_token(Dialect::Obj, &text, 7), (Token::Ignore, 9));
    assert_eq!(next_token(Dialect::Obj, &text, 9), (Token::Ignore, 10));
    assert_eq!(next_token(Dialect::Obj, &text, 1), (word("n"), 2));
}

#[test]
fn reading_at_a_position() {
    let tokens = parse_obj("f 1/2.5 a b c 3").unwrap();
    assert!(is_keyword(&tokens, 0, Keyword::Face));
    assert!(!is_keyword(&tokens, 0, Keyword::Line));
    assert!(!is_keyword(&tokens, 1, Keyword::Face));
    assert!(!is_keyword(&tokens, 8, Keyword::Face));
    assert!(is_slash(&tokens, 2));
    assert!(!is_slash(&tokens, 1));
    assert!(!is_slash(&tokens, 8));
    assert_eq!(read_int(&tokens, 1), Some(1));
    assert_eq!(read_int(&tokens, 3), None);
    assert_eq!(read_int(&tokens, 8), None);
    assert_eq!(read_number(&tokens, 1), Some(Number::Int(1)));
    assert_eq!(read_number(&tokens, 3), Some(Number::Float("2.5".to_string())));
    assert_eq!(read_number(&tokens, 4), None);
    assert_eq!(read_word(&tokens, 4), Some("a".to_string()));
    assert_eq!(read_word(&tokens, 7), None);
    assert_eq!(read_words(&tokens, 4), vec!["a", "b", "c"]);
    assert_eq!(read_words(&tokens, 6), vec!["c"]);
    assert_eq!(read_words(&tokens, 7), Vec::<String>::new());
    assert_eq!(read_words(&tokens, 80), Vec::<String>::new());
}

#[test]
fn copies_are_equal() {
    let names = vec!["a".to_string(), "".to_string(), "c".to_string()];
    assert_eq!(copy_strings(&names), names);
    assert_eq!(copy_strings(&vec![]), Vec::<String>::new());
    let number = Number::Float("-1.5".to_string());
    assert_eq!(number.duplicate(), number);
    assert_eq!(copy_opt_number(&Some(Number::Int(4))), Some(Number::Int(4)));
    assert_eq!(copy_opt_number(&None), None);
}

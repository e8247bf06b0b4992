use nobject_rs::tokenizer::{parse, parse_digit, parse_float, Dialect, Keyword, Token};

fn literal(text: &str) -> f32 {
    let negative = text.starts_with('-');
    let digits = text.trim_start_matches(|c| c == '+' || c == '-');
    let value = digits.parse::<f32>().unwrap_or_default();
    if negative {
        value * -1.0
    } else {
        value
    }
}

fn float(token: &Token<String>) -> f32 {
    match token {
        Token::Float(text) => literal(text),
        other => panic!("not a float: {:?}", other),
    }
}

#[test]
fn parse_digit_test() {
    let val = "123";
    let res = parse_digit(val);
    assert!(res.is_some());
    let (token, _) = res.unwrap();
    assert_eq!(token, Token::Int(123));
}

#[test]
fn positive_test() {
    let val = "+123";
    let res = parse_digit(val);
    assert!(res.is_some());
    let (token, _) = res.unwrap();
    assert_eq!(token, Token::Int(123));
}

#[test]
fn negative_test() {
    let val = "-123";
    let res = parse_digit(val);
    assert!(res.is_some());
    let (token, _) = res.unwrap();
    assert_eq!(token, Token::Int(-123));
}

#[test]
fn float_test() {
    let val = "1.1";
    let res = parse_float(val);
    assert!(res.is_some());
    let (token, _) = res.unwrap();
    assert_eq!(float(&token), 1.1);
}

#[test]
fn float_test_1() {
    let val = ".1";
    let res = parse_float(val);
    assert!(res.is_some());
    let (token, _) = res.unwrap();
    assert_eq!(float(&token), 0.1);
}

#[test]
fn float_test_2() {
    let val = "1.";
    let res = parse_float(val);
    assert!(res.is_some());
    let (token, _) = res.unwrap();
    assert_eq!(float(&token), 1.0);
}

#[test]
fn float_test_pos() {
    let val = "+1.1";
    let res = parse_float(val);
    assert!(res.is_some());
    let (token, _) = res.unwrap();
    assert_eq!(float(&token), 1.1);
}

#[test]
fn float_test_1_pos() {
    let val = "+.1";
    let res = parse_float(val);
    assert!(res.is_some());
    let (token, _) = res.unwrap();
    assert_eq!(float(&token), 0.1);
}

#[test]
fn float_test_2_pos() {
    let val = "+1.";
    let res = parse_float(val);
    assert!(res.is_some());
    let (token, _) = res.unwrap();
    assert_eq!(float(&token), 1.0);
}

#[test]
fn float_test_neg() {
    let val = "-1.1";
    let res = parse_float(val);
    assert!(res.is_some());
    let (token, _) = res.unwrap();
    assert_eq!(float(&token), -1.1);
}

#[test]
fn float_test_1_neg() {
    let val = "-.1";
    let res = parse_float(val);
    assert!(res.is_some());
    let (token, _) = res.unwrap();
    assert_eq!(float(&token), -0.1);
}

#[test]
fn float_test_2_neg() {
    let val = "-1.";
    let res = parse_float(val);
    assert!(res.is_some());
    let (token, _) = res.unwrap();
    assert_eq!(float(&token), -1.0);
}

#[test]
fn tokenizer_parse_simple_comment() {
    let vert = "# whatever this is a comment";
    let tokens = parse(vert, Dialect::Obj);
    assert_eq!(tokens.len(), 0);
}

#[test]
fn tokenizer_parse_simple_comment_2() {
    let vert = "#whatever this is a comment";
    let tokens = parse(vert, Dialect::Obj);
    assert_eq!(tokens.len(), 0);
}

#[test]
fn tokenizer_parse_line_token_with_comment() {
    let vert = "l # blah blah blah";
    let tokens = parse(vert, Dialect::Obj);
    assert_eq!(tokens.len(), 1);
    assert_eq!(tokens[0], Token::Keyword(Keyword::Line));
}

#[test]
fn tokenizer_parse_vertex() {
    let vert = "v 0.123 0.234 0.345 1.0";
    let tokens = parse(vert, Dialect::Obj);
    assert_eq!(tokens.len(), 5);
    assert_eq!(tokens[0], Token::Keyword(Keyword::Vertex));
    assert_eq!(float(&tokens[1]), 0.123);
    assert_eq!(float(&tokens[2]), 0.234);
    assert_eq!(float(&tokens[3]), 0.345);
    assert_eq!(float(&tokens[4]), 1.0);
}

#[test]
fn tokenizer_parse_vertex_multiline_test() {
    let vert = "v 0.123 0.234 0.345 1.0\nv 1.123 1.234 1.345 1.0";
    let tokens = parse(vert, Dialect::Obj);
    assert_eq!(tokens.len(), 10);
    assert_eq!(tokens[0], Token::Keyword(Keyword::Vertex));
    assert_eq!(float(&tokens[1]), 0.123);
    assert_eq!(float(&tokens[2]), 0.234);
    assert_eq!(float(&tokens[3]), 0.345);
    assert_eq!(float(&tokens[4]), 1.0);

    assert_eq!(tokens[5], Token::Keyword(Keyword::Vertex));
    assert_eq!(float(&tokens[6]), 1.123);
    assert_eq!(float(&tokens[7]), 1.234);
    assert_eq!(float(&tokens[8]), 1.345);
    assert_eq!(float(&tokens[9]), 1.0);
}

#[test]
fn tokenizer_parse_vertex_normal() {
    let vert = "vn 0.123 0.234 0.345";
    let tokens = parse(vert, Dialect::Obj);
    assert_eq!(tokens.len(), 4);
    assert_eq!(tokens[0], Token::Keyword(Keyword::VertexNormal));
    assert_eq!(float(&tokens[1]), 0.123);
    assert_eq!(float(&tokens[2]), 0.234);
    assert_eq!(float(&tokens[3]), 0.345);
}

#[test]
fn tokenizer_parse_vertex_texture() {
    let vert = "vt 0.500 1";
    let tokens = parse(vert, Dialect::Obj);
    assert_eq!(tokens.len(), 3);
    assert_eq!(tokens[0], Token::Keyword(Keyword::VertexTexture));
    assert_eq!(float(&tokens[1]), 0.500);
    assert_eq!(tokens[2], Token::Int(1));
}

#[test]
fn tokenizer_parse_face() {
    let vert = "f 1 2 3";
    let tokens = parse(vert, Dialect::Obj);
    assert_eq!(tokens.len(), 4);
    assert_eq!(tokens[0], Token::Keyword(Keyword::Face));
    assert_eq!(tokens[1], Token::Int(1));
    assert_eq!(tokens[2], Token::Int(2));
    assert_eq!(tokens[3], Token::Int(3));
}

#[test]
fn tokenizer_parse_face_1() {
    let vert = "f 1/2 2/3 3/4";
    let tokens = parse(vert, Dialect::Obj);
    assert_eq!(tokens.len(), 10);
    assert_eq!(tokens[0], Token::Keyword(Keyword::Face));
    assert_eq!(tokens[1], Token::Int(1));
    assert_eq!(tokens[2], Token::Slash);
    assert_eq!(tokens[3], Token::Int(2));
    assert_eq!(tokens[4], Token::Int(2));
    assert_eq!(tokens[5], Token::Slash);
    assert_eq!(tokens[6], Token::Int(3));
    assert_eq!(tokens[7], Token::Int(3));
    assert_eq!(tokens[8], Token::Slash);
    assert_eq!(tokens[9], Token::Int(4));
}

#[test]
fn tokenizer_parse_face_2() {
    let vert = "f 1/2/3 2/3/4 3/4/5";
    let tokens = parse(vert, Dialect::Obj);
    assert_eq!(tokens.len(), 16);
    assert_eq!(tokens[0], Token::Keyword(Keyword::Face));
    assert_eq!(tokens[1], Token::Int(1));
    assert_eq!(tokens[2], Token::Slash);
    assert_eq!(tokens[3], Token::Int(2));
    assert_eq!(tokens[4], Token::Slash);
    assert_eq!(tokens[5], Token::Int(3));
    assert_eq!(tokens[6], Token::Int(2));
    assert_eq!(tokens[7], Token::Slash);
    assert_eq!(tokens[8], Token::Int(3));
    assert_eq!(tokens[9], Token::Slash);
    assert_eq!(tokens[10], Token::Int(4));
    assert_eq!(tokens[11], Token::Int(3));
    assert_eq!(tokens[12], Token::Slash);
    assert_eq!(tokens[13], Token::Int(4));
    assert_eq!(tokens[14], Token::Slash);
    assert_eq!(tokens[15], Token::Int(5));
}

#[test]
fn tokenizer_parse_face_3() {
    let vert = "f 1//2 2//3 3//4";
    let tokens = parse(vert, Dialect::Obj);
    assert_eq!(tokens.len(), 13);
    assert_eq!(tokens[0], Token::Keyword(Keyword::Face));
    assert_eq!(tokens[1], Token::Int(1));
    assert_eq!(tokens[2], Token::Slash);
    assert_eq!(tokens[3], Token::Slash);
    assert_eq!(tokens[4], Token::Int(2));
    assert_eq!(tokens[5], Token::Int(2));
    assert_eq!(tokens[6], Token::Slash);
    assert_eq!(tokens[7], Token::Slash);
    assert_eq!(tokens[8], Token::Int(3));
    assert_eq!(tokens[9], Token::Int(3));
    assert_eq!(tokens[10], Token::Slash);
    assert_eq!(tokens[11], Token::Slash);
    assert_eq!(tokens[12], Token::Int(4));
}

#[test]
fn tokenizer_parse_line() {
    let vert = "l 1 2 3";
    let tokens = parse(vert, Dialect::Obj);
    assert_eq!(tokens.len(), 4);
    assert_eq!(tokens[0], Token::Keyword(Keyword::Line));
    assert_eq!(tokens[1], Token::Int(1));
    assert_eq!(tokens[2], Token::Int(2));
    assert_eq!(tokens[3], Token::Int(3));
}

#[test]
fn tokenizer_simple_material() {
    let vert = "mtllib some_mtl_file.mtl";
    let tokens = parse(vert, Dialect::Obj);
    assert_eq!(tokens.len(), 2);
    assert_eq!(tokens[0], Token::Keyword(Keyword::MaterialLib));
    assert_eq!(tokens[1], Token::String("some_mtl_file.mtl".to_string()));
}

#[test]
fn tokenizer_simple_group() {
    let vert = "g some_group";
    let tokens = parse(vert, Dialect::Obj);
    assert_eq!(tokens.len(), 2);
    assert_eq!(tokens[0], Token::Keyword(Keyword::Group));
    assert_eq!(tokens[1], Token::String("some_group".to_string()));
}

#[test]
fn tokenizer_simple_object() {
    let vert = "o some_object";
    let tokens = parse(vert, Dialect::Obj);
    assert_eq!(tokens.len(), 2);
    assert_eq!(tokens[0], Token::Keyword(Keyword::Object));
    assert_eq!(tokens[1], Token::String("some_object".to_string()));
}

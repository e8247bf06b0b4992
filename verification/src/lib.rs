//! A parser for Wavefront geometry (`.obj`) and material (`.mtl`) text.
//!
//! The text is first split into tokens, and the tokens are then folded into a
//! [`Model`] or a list of [`Material`]s. The library opens no file: names of
//! files that the text mentions are handed back as they are written.

pub mod cursor;
pub mod decimal;
pub mod laws;
pub mod material;
pub mod model;
pub mod names;
pub mod number;
pub mod text;
pub mod tokenizer;
pub mod views;

use crate::decimal::{decimal, int_text, int_to_string};
use crate::material::{elements_of, materials_of, starts_named, Material, MaterialError};
use crate::model::{reduce, Model, ModelError};
use crate::number::Number;
use crate::tokenizer::{parse_mtl, parse_obj, tokens_of, Dialect, Token, TokenizeError};
use crate::views::{each_view, opt_view};
use vstd::prelude::*;

verus! {

/// What can go wrong while a text is parsed.
#[derive(Debug)]
pub enum ObjError {
    /// The text could not be split into tokens.
    Tokenize(TokenizeError),
    /// The tokens are no geometry scene.
    ModelParse(ModelError),
    /// The tokens are no list of materials.
    MaterialParse(MaterialError),
    /// A token of another kind was expected.
    UnexpectedToken(Token<String>),
    /// A word other than `on` and `off` stands where one of them was expected.
    InvalidOnOffValue(String),
}

/// Parses a geometry text: the scene that its directives describe, or the
/// error of the first token that fits no directive.
pub fn load_obj(input: &str) -> (out: Result<Model, ObjError>)
    ensures
        match out {
            Ok(model) => model.wf() && reduce(tokens_of(Dialect::Obj, input@)) == Some(model@),
            Err(ObjError::ModelParse(ModelError::Parse(detail))) => reduce(
                tokens_of(Dialect::Obj, input@),
            ) is None && detail@ == "no directive at token "@ + decimal(
                model::stop_from(tokens_of(Dialect::Obj, input@), 0) as nat,
            ),
            Err(_) => false,
        },
{
    match parse_obj(input) {
        Ok(tokens) => match model::parse(&tokens) {
            Ok(model) => Ok(model),
            Err(error) => Err(ObjError::ModelParse(error)),
        },
        Err(error) => Err(ObjError::Tokenize(error)),
    }
}

/// Parses a material text: the materials that its directives describe. The
/// parse fails where the text holds no directive at all, where some token
/// fits no directive, and where a directive comes before the first
/// `newmtl`.
pub fn load_mtl(input: &str) -> (out: Result<Vec<Material<String>>, ObjError>)
    ensures
        match out {
            Ok(materials) => {
                let elements = elements_of(tokens_of(Dialect::Mtl, input@));
                elements is Some && starts_named(elements->0) && each_view(materials@)
                    == materials_of(elements->0)
            },
            Err(ObjError::MaterialParse(MaterialError::Parse(detail))) => elements_of(
                tokens_of(Dialect::Mtl, input@),
            ) is None && detail@ == "no directive at token "@ + decimal(
                material::stop_from(tokens_of(Dialect::Mtl, input@), 0) as nat,
            ),
            Err(ObjError::MaterialParse(MaterialError::NewMaterial)) => {
                let elements = elements_of(tokens_of(Dialect::Mtl, input@));
                elements is Some && !starts_named(elements->0)
            },
            Err(_) => false,
        },
{
    match parse_mtl(input) {
        Ok(tokens) => match material::parse(&tokens) {
            Ok(materials) => Ok(materials),
            Err(error) => Err(ObjError::MaterialParse(error)),
        },
        Err(error) => Err(ObjError::Tokenize(error)),
    }
}

/// The number that a token stands for, if it is a number.
pub open spec fn number_of(token: Token<Seq<char>>) -> Option<Number<Seq<char>>> {
    match token {
        Token::Float(text) => Some(Number::Float(text)),
        Token::Int(value) => Some(Number::Int(value)),
        _ => None,
    }
}

/// The whole number that a token stands for, if it is one.
pub open spec fn int_of(token: Token<Seq<char>>) -> Option<i32> {
    match token {
        Token::Int(value) => Some(value),
        _ => None,
    }
}

/// The text that a token stands for: a word as it is, a number written out.
pub open spec fn text_of(token: Token<Seq<char>>) -> Option<Seq<char>> {
    match token {
        Token::String(text) => Some(text),
        Token::Int(value) => Some(int_text(value)),
        Token::Float(text) => Some(text),
        _ => None,
    }
}

/// What a word says as a switch.
pub open spec fn on_off(word: Seq<char>) -> Option<bool> {
    if word == "on"@ {
        Some(true)
    } else if word == "off"@ {
        Some(false)
    } else {
        None
    }
}

/// The number in a numeric token.
pub fn get_token_float(token: &Token<String>) -> (out: Result<Number<String>, ObjError>)
    ensures
        match number_of(token@) {
            Some(number) => out is Ok && out->Ok_0@ == number,
            None => out matches Err(ObjError::UnexpectedToken(found)) && found@ == token@,
        },
{
    match token {
        Token::Float(text) => Ok(Number::Float(text.clone())),
        Token::Int(value) => Ok(Number::Int(*value)),
        _ => Err(ObjError::UnexpectedToken(token.duplicate())),
    }
}

/// The number in a numeric token that may be absent.
pub fn get_opt_token_float_opt(token: &Option<Token<String>>) -> (out: Result<
    Option<Number<String>>,
    ObjError,
>)
    ensures
        match *token {
            None => out is Ok && out->Ok_0 is None,
            Some(inner) => match number_of(inner@) {
                Some(number) => out is Ok && opt_view(out->Ok_0) == Some(number),
                None => out matches Err(ObjError::UnexpectedToken(found)) && found@ == inner@,
            },
        },
{
    match token {
        Some(inner) => match get_token_float(inner) {
            Ok(number) => Ok(Some(number)),
            Err(error) => Err(error),
        },
        None => Ok(None),
    }
}

/// The value of a whole-number token.
pub fn get_token_int(token: &Token<String>) -> (out: Result<i32, ObjError>)
    ensures
        match int_of(token@) {
            Some(value) => out == Ok::<i32, ObjError>(value),
            None => out matches Err(ObjError::UnexpectedToken(found)) && found@ == token@,
        },
{
    match token {
        Token::Int(value) => Ok(*value),
        _ => Err(ObjError::UnexpectedToken(token.duplicate())),
    }
}

/// The text of a word or number token.
pub fn get_token_string(token: &Token<String>) -> (out: Result<String, ObjError>)
    ensures
        match text_of(token@) {
            Some(text) => out is Ok && out->Ok_0@ == text,
            None => out matches Err(ObjError::UnexpectedToken(found)) && found@ == token@,
        },
{
    match token {
        Token::String(text) => Ok(text.clone()),
        Token::Int(value) => Ok(int_to_string(*value)),
        Token::Float(text) => Ok(text.clone()),
        _ => Err(ObjError::UnexpectedToken(token.duplicate())),
    }
}

/// Reads `on` as `true` and `off` as `false`.
pub fn get_on_off_from_str(token: &Token<String>) -> (out: Result<bool, ObjError>)
    ensures
        match text_of(token@) {
            Some(text) => match on_off(text) {
                Some(flag) => out == Ok::<bool, ObjError>(flag),
                None => out matches Err(ObjError::InvalidOnOffValue(word)) && word@ == text,
            },
            None => out matches Err(ObjError::UnexpectedToken(found)) && found@ == token@,
        },
{
    match get_token_string(token) {
        Ok(text) => {
            if text == String::from_str("on") {
                Ok(true)
            } else if text == String::from_str("off") {
                Ok(false)
            } else {
                Err(ObjError::InvalidOnOffValue(text))
            }
        },
        Err(error) => Err(error),
    }
}

} // verus!

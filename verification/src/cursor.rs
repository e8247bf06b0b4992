//! Reading single tokens at a position of a token sequence.

use crate::number::Number;
use crate::tokenizer::{Keyword, Token, TokenSet};
use crate::views::opt_view;
use crate::{get_token_float, get_token_int, int_of, number_of};
use vstd::prelude::*;

verus! {

/// Whether the token at `at` is the given keyword.
pub open spec fn keyword_at(toks: Seq<Token<Seq<char>>>, at: int, keyword: Keyword) -> bool {
    0 <= at < toks.len() && toks[at] == Token::<Seq<char>>::Keyword(keyword)
}

/// Whether the token at `at` is a `/`.
pub open spec fn slash_at(toks: Seq<Token<Seq<char>>>, at: int) -> bool {
    0 <= at < toks.len() && toks[at] is Slash
}

/// The number at `at`, if a numeric token stands there.
pub open spec fn number_at(toks: Seq<Token<Seq<char>>>, at: int) -> Option<Number<Seq<char>>> {
    if 0 <= at < toks.len() {
        number_of(toks[at])
    } else {
        None
    }
}

/// The whole number at `at`, if one stands there.
pub open spec fn int_at(toks: Seq<Token<Seq<char>>>, at: int) -> Option<i32> {
    if 0 <= at < toks.len() {
        int_of(toks[at])
    } else {
        None
    }
}

/// The word at `at`, if a word that is neither keyword nor number stands
/// there.
pub open spec fn word_at(toks: Seq<Token<Seq<char>>>, at: int) -> Option<Seq<char>> {
    if 0 <= at < toks.len() {
        match toks[at] {
            Token::String(text) => Some(text),
            _ => None,
        }
    } else {
        None
    }
}

/// The words that stand at `at` and after it, up to the first token that is
/// no word.
pub open spec fn words_from(toks: Seq<Token<Seq<char>>>, at: int) -> Seq<Seq<char>>
    decreases toks.len() - at,
{
    match word_at(toks, at) {
        Some(word) => seq![word] + words_from(toks, at + 1),
        None => Seq::empty(),
    }
}

/// The word that follows the keyword at `at`.
pub open spec fn word_after(toks: Seq<Token<Seq<char>>>, at: int, keyword: Keyword) -> Option<
    Seq<char>,
> {
    if keyword_at(toks, at, keyword) {
        word_at(toks, at + 1)
    } else {
        None
    }
}

/// The words that follow the keyword at `at`, if there is at least one.
pub open spec fn words_after(toks: Seq<Token<Seq<char>>>, at: int, keyword: Keyword) -> Option<
    Seq<Seq<char>>,
> {
    if keyword_at(toks, at, keyword) && words_from(toks, at + 1).len() > 0 {
        Some(words_from(toks, at + 1))
    } else {
        None
    }
}

/// The whole number that follows the keyword at `at`.
pub open spec fn int_after(toks: Seq<Token<Seq<char>>>, at: int, keyword: Keyword) -> Option<i32> {
    if keyword_at(toks, at, keyword) {
        int_at(toks, at + 1)
    } else {
        None
    }
}

/// The view of the token at `at` is the view of the sequence at `at`.
pub proof fn lemma_token_view(tokens: &TokenSet, at: int)
    requires
        0 <= at < tokens.tokens@.len(),
    ensures
        tokens@.len() == tokens.tokens@.len(),
        tokens@[at] == tokens.tokens@[at]@,
{
}

/// Whether the token at `at` is the given keyword.
pub fn is_keyword(tokens: &TokenSet, at: usize, keyword: Keyword) -> (b: bool)
    ensures
        b == keyword_at(tokens@, at as int, keyword),
{
    if at < tokens.tokens.len() {
        proof {
            lemma_token_view(tokens, at as int);
        }
        match &tokens.tokens[at] {
            Token::Keyword(found) => *found == keyword,
            _ => false,
        }
    } else {
        false
    }
}

/// Whether the token at `at` is a `/`.
pub fn is_slash(tokens: &TokenSet, at: usize) -> (b: bool)
    ensures
        b == slash_at(tokens@, at as int),
{
    if at < tokens.tokens.len() {
        proof {
            lemma_token_view(tokens, at as int);
        }
        match &tokens.tokens[at] {
            Token::Slash => true,
            _ => false,
        }
    } else {
        false
    }
}

/// Reads the number at `at`.
pub fn read_number(tokens: &TokenSet, at: usize) -> (out: Option<Number<String>>)
    ensures
        opt_view(out) == number_at(tokens@, at as int),
{
    if at < tokens.tokens.len() {
        proof {
            lemma_token_view(tokens, at as int);
        }
        match get_token_float(&tokens.tokens[at]) {
            Ok(number) => Some(number),
            Err(_) => None,
        }
    } else {
        None
    }
}

/// Reads the whole number at `at`.
pub fn read_int(tokens: &TokenSet, at: usize) -> (out: Option<i32>)
    ensures
        out == int_at(tokens@, at as int),
{
    if at < tokens.tokens.len() {
        proof {
            lemma_token_view(tokens, at as int);
        }
        match get_token_int(&tokens.tokens[at]) {
            Ok(value) => Some(value),
            Err(_) => None,
        }
    } else {
        None
    }
}

/// Reads the word at `at`.
pub fn read_word(tokens: &TokenSet, at: usize) -> (out: Option<String>)
    ensures
        opt_view(out) == word_at(tokens@, at as int),
{
    if at < tokens.tokens.len() {
        proof {
            lemma_token_view(tokens, at as int);
        }
        match &tokens.tokens[at] {
            Token::String(text) => Some(text.clone()),
            _ => None,
        }
    } else {
        None
    }
}

/// Reads the words that stand at `at` and after it.
pub fn read_words(tokens: &TokenSet, at: usize) -> (out: Vec<String>)
    ensures
        crate::views::each_view(out@) == words_from(tokens@, at as int),
        at + out@.len() <= usize::MAX,
        out@.len() > 0 ==> at + out@.len() <= tokens@.len(),
{
    let mut out: Vec<String> = Vec::new();
    let mut next: usize = at;
    let ghost toks = tokens@;
    assert(crate::views::each_view(out@) + words_from(toks, at as int) =~= words_from(
        toks,
        at as int,
    ));
    loop
        invariant
            toks == tokens@,
            next == at + out@.len(),
            out@.len() > 0 ==> next <= toks.len(),
            words_from(toks, at as int) == crate::views::each_view(out@) + words_from(
                toks,
                next as int,
            ),
        decreases toks.len() - next,
    {
        match read_word(tokens, next) {
            Some(word) => {
                proof {
                    assert(word_at(toks, next as int) == Some(word@));
                    assert(next < toks.len());
                    crate::views::lemma_each_view_push(out@, word);
                    let rest = words_from(toks, next + 1);
                    assert(crate::views::each_view(out@).push(word@) + rest
                        =~= crate::views::each_view(out@) + (seq![word@] + rest));
                }
                out.push(word);
                let length = tokens.len();
                assert(next < length);
                next += 1;
            },
            None => {
                assert(crate::views::each_view(out@) + Seq::<Seq<char>>::empty()
                    =~= crate::views::each_view(out@));
                return out;
            },
        }
    }
}

} // verus!

//! Turns source text into a sequence of tokens.
//!
//! Both dialects share one loop and one numeric lexer; they differ in their
//! keyword table and in whether `/` is a token of its own.

pub mod mtl;
pub mod obj;

use crate::text::{
    chars_of, collect_string, is_digit, is_digit_char, is_sign, is_sign_char, is_space,
    is_space_char, lemma_run_end, run_end, scan, Run,
};
use crate::views::{each_view, lemma_each_view_push};
use vstd::prelude::*;

verus! {

/// The words that introduce a directive or an option.
#[derive(Clone, Copy, Debug, PartialEq, Eq, Structural)]
pub enum Keyword {
    /// `v x y z [w]`
    Vertex,
    /// `vn x y z`
    VertexNormal,
    /// `vt u [v [w]]`
    VertexTexture,
    /// `vp u [v [w]]`
    VertexParam,
    /// `f v[/vt[/vn]] ...`
    Face,
    /// `p v ...`
    Point,
    /// `l v[/vt] ...`
    Line,
    /// `mtllib name ...`
    MaterialLib,
    /// `usemtl name`
    UseMaterial,
    /// `o name`
    Object,
    /// `g name ...`
    Group,
    /// `s id` or `s off`
    Smoothing,
    /// `bevel flag`
    Bevel,
    /// `c_interp flag`
    CInterp,
    /// `d_interp flag`
    DInterp,
    /// `lod level`
    Lod,
    /// `shadow_obj name`
    ShadowObj,
    /// `trace_obj name`
    TraceObj,
    /// `maplib name ...`
    TextureMapLib,
    /// `usemap name`
    UseTextureMap,
    /// `spectral`, inside a colour
    Spectral,
    /// `xyz`, inside a colour
    Xyz,
    /// `newmtl name`
    NewMaterial,
    /// `Ka`
    AmbientColor,
    /// `Kd`
    DiffuseColor,
    /// `Ks`
    SpecularColor,
    /// `Ke`
    EmissiveCoefficient,
    /// `Ns`
    SpecularExponent,
    /// `d`
    Disolved,
    /// `-halo`, inside a dissolve
    Halo,
    /// `Tr`
    Transparancy,
    /// `Tf`
    TransmissionFactor,
    /// `sharpness`
    Sharpness,
    /// `Ni`
    IndexOfRefraction,
    /// `illum`
    IlluminationModel,
    /// `map_Ka`
    TextureMapAmbient,
    /// `map_Kd`
    TextureMapDiffuse,
    /// `map_Ks`
    TextureMapSpecular,
    /// `map_Ns`
    TextureMapShininess,
    /// `map_d`
    TextureMapDisolved,
    /// `map_aat`
    AntiAliasMap,
    /// `disp` or `map_disp`
    DisplacementMap,
    /// `decal`
    Decal,
    /// `bump`
    BumpMap,
    /// `refl`
    ReflectionMap,
    /// `-type`
    ReflectionType,
    /// `-blendu`
    OptionBlendU,
    /// `-blendv`
    OptionBlendV,
    /// `-bm`
    OptionBumpMultiplier,
    /// `-boost`
    OptionBoost,
    /// `-cc`
    OptionColorCorrect,
    /// `-clamp`
    OptionClamp,
    /// `-imfchan`
    OptionIMFChan,
    /// `-mm`
    OptionRange,
    /// `-o`
    OptionOffset,
    /// `-s`
    OptionScale,
    /// `-t`
    OptionTurbulence,
    /// `-texres`
    OptionTextureResolution,
}

/// One lexical unit. `S` is the type that holds text: `String` in a token
/// that the lexer hands out, `Seq<char>` in its view.
#[derive(Clone, Debug, PartialEq)]
pub enum Token<S> {
    /// Stands for a comment or a run of separators; never part of a
    /// finished token sequence.
    Ignore,
    /// A word that is neither a keyword nor a number.
    String(S),
    /// A number with a decimal point, held as it was written.
    Float(S),
    /// A whole number.
    Int(i32),
    /// The `/` between the indices of a face or line element.
    Slash,
    /// A keyword.
    Keyword(Keyword),
}

impl View for Token<String> {
    type V = Token<Seq<char>>;

    open spec fn view(&self) -> Token<Seq<char>> {
        match *self {
            Token::Ignore => Token::Ignore,
            Token::String(s) => Token::String(s@),
            Token::Float(s) => Token::Float(s@),
            Token::Int(i) => Token::Int(i),
            Token::Slash => Token::Slash,
            Token::Keyword(k) => Token::Keyword(k),
        }
    }
}

impl Token<String> {
    /// A token equal to this one.
    pub fn duplicate(&self) -> (out: Self)
        ensures
            out@ == self@,
    {
        match self {
            Token::Ignore => Token::Ignore,
            Token::String(s) => Token::String(s.clone()),
            Token::Float(s) => Token::Float(s.clone()),
            Token::Int(i) => Token::Int(*i),
            Token::Slash => Token::Slash,
            Token::Keyword(k) => Token::Keyword(*k),
        }
    }
}

/// Why a text could not be split into tokens.
#[derive(Debug)]
pub enum TokenizeError {
    Parse(String),
}

impl TokenizeError {
    /// The error as a line of text.
    pub fn message(&self) -> (out: String)
        ensures
            out@ == "Parse Error: `"@ + self->Parse_0@ + "`"@,
    {
        match self {
            TokenizeError::Parse(detail) => String::from_str("Parse Error: `").concat(
                detail.as_str(),
            ).concat("`"),
        }
    }
}

/// An ordered sequence of tokens.
#[derive(Debug)]
pub struct TokenSet {
    pub tokens: Vec<Token<String>>,
}

impl View for TokenSet {
    type V = Seq<Token<Seq<char>>>;

    open spec fn view(&self) -> Seq<Token<Seq<char>>> {
        each_view(self.tokens@)
    }
}

impl TokenSet {
    /// Whether there is no token.
    pub fn is_empty(&self) -> (b: bool)
        ensures
            b == (self@.len() == 0),
    {
        self.tokens.len() == 0
    }

    /// The number of tokens.
    pub fn len(&self) -> (n: usize)
        ensures
            n == self@.len(),
    {
        self.tokens.len()
    }

    /// The tokens before `index`, and those from `index` on.
    pub fn split_at(&self, index: usize) -> (parts: (Self, Self))
        requires
            index <= self@.len(),
        ensures
            parts.0@ == self@.take(index as int),
            parts.1@ == self@.skip(index as int),
    {
        let mut head: Vec<Token<String>> = Vec::new();
        let mut i: usize = 0;
        while i < index
            invariant
                i <= index <= self.tokens@.len(),
                each_view(head@) =~= self@.take(i as int),
            decreases index - i,
        {
            let token = self.tokens[i].duplicate();
            proof {
                lemma_each_view_push(head@, token);
                assert(self@.take(i + 1) =~= self@.take(i as int).push(self@[i as int]));
            }
            head.push(token);
            i += 1;
        }
        let mut tail: Vec<Token<String>> = Vec::new();
        while i < self.tokens.len()
            invariant
                index <= i <= self.tokens@.len(),
                each_view(tail@) =~= self@.subrange(index as int, i as int),
            decreases self.tokens@.len() - i,
        {
            let token = self.tokens[i].duplicate();
            proof {
                lemma_each_view_push(tail@, token);
                assert(self@.subrange(index as int, i + 1) =~= self@.subrange(
                    index as int,
                    i as int,
                ).push(self@[i as int]));
            }
            tail.push(token);
            i += 1;
        }
        (TokenSet { tokens: head }, TokenSet { tokens: tail })
    }
}

/// Which of the two formats a text is written in.
#[derive(Clone, Copy, Debug, PartialEq, Eq, Structural)]
pub enum Dialect {
    /// The geometry format.
    Obj,
    /// The material format.
    Mtl,
}

/// The keyword that `word` spells in the given dialect, letter case aside.
pub open spec fn keyword_of(dialect: Dialect, word: Seq<char>) -> Option<Keyword> {
    match dialect {
        Dialect::Obj => obj::keyword(word),
        Dialect::Mtl => mtl::keyword(word),
    }
}

/// The position after an optional sign at `at`.
pub open spec fn after_sign(text: Seq<char>, at: int) -> int {
    if 0 <= at < text.len() && is_sign(text[at]) {
        at + 1
    } else {
        at
    }
}

/// Where an exponent that starts at `at` ends: after `e` or `E`, an
/// optional sign and at least one digit. Without such an exponent, `at`.
pub open spec fn exponent_end(text: Seq<char>, at: int) -> int {
    if 0 <= at < text.len() && (text[at] == 'e' || text[at] == 'E') {
        let digits = after_sign(text, at + 1);
        let end = run_end(text, digits, Run::Digits);
        if end > digits {
            end
        } else {
            at
        }
    } else {
        at
    }
}

/// Where the number with a decimal point that starts at `at` ends, if there
/// is one: an optional sign, digits, the point, digits, and an optional
/// exponent. Either run of digits may be empty.
pub open spec fn float_end(text: Seq<char>, at: int) -> Option<int> {
    let point = run_end(text, after_sign(text, at), Run::Digits);
    if 0 <= point < text.len() && text[point] == '.' {
        Some(exponent_end(text, run_end(text, point + 1, Run::Digits)))
    } else {
        None
    }
}

/// Where the whole number that starts at `at` ends, if there is one: an
/// optional sign and at least one digit.
pub open spec fn int_end(text: Seq<char>, at: int) -> Option<int> {
    let digits = after_sign(text, at);
    let end = run_end(text, digits, Run::Digits);
    if end > digits {
        Some(end)
    } else {
        None
    }
}

/// The number that a run of decimal digits denotes.
pub open spec fn digits_value(digits: Seq<char>) -> nat
    decreases digits.len(),
{
    if digits.len() == 0 {
        0
    } else {
        digits_value(digits.drop_last()) * 10 + (digits.last() as nat - '0' as nat) as nat
    }
}

/// The value of the whole number written in `text[at..end]`. Digits that
/// denote more than `i32::MAX` count as zero; the sign is applied after that.
pub open spec fn int_value(text: Seq<char>, at: int, end: int) -> i32 {
    let magnitude = digits_value(text.subrange(after_sign(text, at), end));
    if magnitude > i32::MAX {
        0
    } else if text[at] == '-' {
        (-(magnitude as int)) as i32
    } else {
        magnitude as i32
    }
}

/// The token that starts at `at`, and where the next one starts. In order
/// of precedence: separators, a keyword followed by a separator, `/` (in
/// the geometry format), a number with a point, a whole number, a comment,
/// and any other word.
pub open spec fn lex_step(dialect: Dialect, text: Seq<char>, at: int) -> (Token<Seq<char>>, int) {
    let word = run_end(text, at, Run::Word);
    if is_space(text[at]) {
        (Token::Ignore, run_end(text, at, Run::Spaces))
    } else if word < text.len() && keyword_of(dialect, text.subrange(at, word)) is Some {
        (Token::Keyword(keyword_of(dialect, text.subrange(at, word))->0), word)
    } else if dialect == Dialect::Obj && text[at] == '/' {
        (Token::Slash, at + 1)
    } else if float_end(text, at) is Some {
        (Token::Float(text.subrange(at, float_end(text, at)->0)), float_end(text, at)->0)
    } else if int_end(text, at) is Some {
        (Token::Int(int_value(text, at, int_end(text, at)->0)), int_end(text, at)->0)
    } else if text[at] == '#' {
        (Token::Ignore, run_end(text, at + 1, Run::Line))
    } else {
        (Token::String(text.subrange(at, word)), word)
    }
}

/// The tokens of `text[at..]`, comments and separators left out.
pub open spec fn tokens_from(dialect: Dialect, text: Seq<char>, at: int) -> Seq<Token<Seq<char>>>
    decreases text.len() - at,
{
    if 0 <= at < text.len() {
        let step = lex_step(dialect, text, at);
        if !(at < step.1 <= text.len()) {
            Seq::empty()
        } else if step.0 is Ignore {
            tokens_from(dialect, text, step.1)
        } else {
            seq![step.0] + tokens_from(dialect, text, step.1)
        }
    } else {
        Seq::empty()
    }
}

/// The tokens of a whole text.
pub open spec fn tokens_of(dialect: Dialect, text: Seq<char>) -> Seq<Token<Seq<char>>> {
    tokens_from(dialect, text, 0)
}

/// Steps over a sign at `at`, if there is one.
fn skip_sign(text: &[char], at: usize) -> (next: usize)
    requires
        at <= text@.len(),
    ensures
        next == after_sign(text@, at as int),
        at <= next <= text@.len(),
{
    if at < text.len() && is_sign_char(text[at]) {
        at + 1
    } else {
        at
    }
}

/// Scans an exponent at `at`; without one, stays at `at`.
fn scan_exponent(text: &[char], at: usize) -> (end: usize)
    requires
        at <= text@.len(),
    ensures
        end == exponent_end(text@, at as int),
        at <= end <= text@.len(),
{
    if at < text.len() && (text[at] == 'e' || text[at] == 'E') {
        let digits = skip_sign(text, at + 1);
        let end = scan(text, digits, Run::Digits);
        if end > digits {
            end
        } else {
            at
        }
    } else {
        at
    }
}

/// Scans a number with a decimal point at `at`.
pub fn scan_float(text: &[char], at: usize) -> (end: Option<usize>)
    requires
        at <= text@.len(),
    ensures
        end is Some <==> float_end(text@, at as int) is Some,
        end matches Some(e) ==> float_end(text@, at as int) == Some(e as int) && at < e
            <= text@.len(),
{
    let point = scan(text, skip_sign(text, at), Run::Digits);
    if point < text.len() && text[point] == '.' {
        let fraction = scan(text, point + 1, Run::Digits);
        Some(scan_exponent(text, fraction))
    } else {
        None
    }
}

/// Scans a whole number at `at`.
pub fn scan_int(text: &[char], at: usize) -> (end: Option<usize>)
    requires
        at <= text@.len(),
    ensures
        end is Some <==> int_end(text@, at as int) is Some,
        end matches Some(e) ==> int_end(text@, at as int) == Some(e as int) && at < e
            <= text@.len(),
{
    let digits = skip_sign(text, at);
    let end = scan(text, digits, Run::Digits);
    if end > digits {
        Some(end)
    } else {
        None
    }
}

/// The value of the digits `text[from..to]`, unless it is above `i32::MAX`.
fn digits_to_int(text: &[char], from: usize, to: usize) -> (value: Option<i32>)
    requires
        from <= to <= text@.len(),
        forall|i: int| from <= i < to ==> is_digit(#[trigger] text@[i]),
    ensures
        match value {
            Some(v) => v == digits_value(text@.subrange(from as int, to as int)),
            None => digits_value(text@.subrange(from as int, to as int)) > i32::MAX,
        },
{
    let mut acc: i64 = 0;
    let mut over = false;
    let mut i: usize = from;
    assert(text@.subrange(from as int, from as int) =~= Seq::<char>::empty());
    while i < to
        invariant
            from <= i <= to <= text@.len(),
            forall|k: int| from <= k < to ==> is_digit(#[trigger] text@[k]),
            over ==> digits_value(text@.subrange(from as int, i as int)) > i32::MAX,
            !over ==> 0 <= acc <= i32::MAX && acc == digits_value(
                text@.subrange(from as int, i as int),
            ),
        decreases to - i,
    {
        let digit: i64 = (text[i] as u32 - '0' as u32) as i64;
        proof {
            let next = text@.subrange(from as int, i + 1);
            assert(next.drop_last() =~= text@.subrange(from as int, i as int));
            assert(next.last() == text@[i as int]);
            assert(digits_value(next) == digits_value(next.drop_last()) * 10 + digit);
        }
        if !over {
            acc = acc * 10 + digit;
            if acc > 2147483647 {
                over = true;
            }
        }
        i += 1;
    }
    if over {
        None
    } else {
        Some(acc as i32)
    }
}

/// Reads the whole number `text[at..end]`.
fn read_int(text: &[char], at: usize, end: usize) -> (value: i32)
    requires
        int_end(text@, at as int) == Some(end as int),
        at < end <= text@.len(),
    ensures
        value == int_value(text@, at as int, end as int),
{
    let digits = skip_sign(text, at);
    proof {
        lemma_run_end(text@, digits as int, Run::Digits);
    }
    match digits_to_int(text, digits, end) {
        None => 0,
        Some(magnitude) => if text[at] == '-' {
            -magnitude
        } else {
            magnitude
        },
    }
}

/// Reads one token at `at`; the second component is where the next one
/// starts.
pub fn next_token(dialect: Dialect, text: &[char], at: usize) -> (out: (Token<String>, usize))
    requires
        at < text@.len(),
    ensures
        out.0@ == lex_step(dialect, text@, at as int).0,
        out.1 == lex_step(dialect, text@, at as int).1,
        at < out.1 <= text@.len(),
{
    let c = text[at];
    if is_space_char(c) {
        return (Token::Ignore, scan(text, at, Run::Spaces));
    }
    let word = scan(text, at, Run::Word);
    if word < text.len() {
        let found = match dialect {
            Dialect::Obj => obj::kw_map(text, at, word),
            Dialect::Mtl => mtl::kw_map(text, at, word),
        };
        if let Some(keyword) = found {
            return (Token::Keyword(keyword), word);
        }
    }
    if dialect == Dialect::Obj && c == '/' {
        return (Token::Slash, at + 1);
    }
    if let Some(end) = scan_float(text, at) {
        return (Token::Float(collect_string(text, at, end)), end);
    }
    if let Some(end) = scan_int(text, at) {
        return (Token::Int(read_int(text, at, end)), end);
    }
    if c == '#' {
        return (Token::Ignore, scan(text, at + 1, Run::Line));
    }
    (Token::String(collect_string(text, at, word)), word)
}

/// Splits `input` into the tokens of the given dialect.
pub fn parse(input: &str, dialect: Dialect) -> (tokens: Vec<Token<String>>)
    ensures
        each_view(tokens@) == tokens_of(dialect, input@),
{
    let text = chars_of(input);
    let mut tokens: Vec<Token<String>> = Vec::new();
    let mut at: usize = 0;
    assert(each_view(tokens@) + tokens_from(dialect, text@, 0) =~= tokens_of(dialect, text@));
    while at < text.len()
        invariant
            at <= text@.len(),
            tokens_of(dialect, text@) == each_view(tokens@) + tokens_from(dialect, text@, at as int),
        decreases text@.len() - at,
    {
        let (token, next) = next_token(dialect, text.as_slice(), at);
        let ghost rest = tokens_from(dialect, text@, next as int);
        match token {
            Token::Ignore => {},
            _ => {
                proof {
                    lemma_each_view_push(tokens@, token);
                    assert(each_view(tokens@).push(token@) + rest =~= each_view(tokens@) + (seq![token@]
                        + rest));
                }
                tokens.push(token);
            },
        }
        at = next;
    }
    assert(each_view(tokens@) + Seq::<Token<Seq<char>>>::empty() =~= each_view(tokens@));
    tokens
}

/// Splits a geometry text into tokens. Every text has a token sequence.
pub fn parse_obj(input: &str) -> (out: Result<TokenSet, TokenizeError>)
    ensures
        out is Ok,
        out->Ok_0@ == tokens_of(Dialect::Obj, input@),
{
    Ok(TokenSet { tokens: parse(input, Dialect::Obj) })
}

/// Splits a material text into tokens. Every text has a token sequence.
pub fn parse_mtl(input: &str) -> (out: Result<TokenSet, TokenizeError>)
    ensures
        out is Ok,
        out->Ok_0@ == tokens_of(Dialect::Mtl, input@),
{
    Ok(TokenSet { tokens: parse(input, Dialect::Mtl) })
}

/// Reads a whole number at the start of `input`: the token, and how many
/// characters it takes. `None` when `input` does not start with one.
pub fn parse_digit(input: &str) -> (out: Option<(Token<String>, usize)>)
    ensures
        out is Some <==> int_end(input@, 0) is Some,
        out matches Some(found) ==> {
            &&& int_end(input@, 0) == Some(found.1 as int)
            &&& found.0@ == Token::<Seq<char>>::Int(int_value(input@, 0, found.1 as int))
        },
{
    let text = chars_of(input);
    match scan_int(text.as_slice(), 0) {
        Some(end) => Some((Token::Int(read_int(text.as_slice(), 0, end)), end)),
        None => None,
    }
}

/// Reads a number with a decimal point at the start of `input`: the token,
/// which holds the number as written, and how many characters it takes.
/// `None` when `input` does not start with one.
pub fn parse_float(input: &str) -> (out: Option<(Token<String>, usize)>)
    ensures
        out is Some <==> float_end(input@, 0) is Some,
        out matches Some(found) ==> {
            &&& float_end(input@, 0) == Some(found.1 as int)
            &&& found.0@ == Token::<Seq<char>>::Float(input@.subrange(0, found.1 as int))
        },
{
    let text = chars_of(input);
    match scan_float(text.as_slice(), 0) {
        Some(end) => Some((Token::Float(collect_string(text.as_slice(), 0, end)), end)),
        None => None,
    }
}

} // verus!

//! Materials and the reducer that builds them from tokens.

use crate::cursor::{
    int_at, is_keyword, keyword_at, number_at, read_int, read_number, read_word, word_at,
};
use crate::number::{copy_opt_number, Number};
use crate::cursor::lemma_token_view;
use crate::{get_on_off_from_str, on_off};
use crate::tokenizer::{Keyword, Token, TokenSet};
use crate::decimal::{decimal, nat_to_string};
use crate::views::{each_view, lemma_each_view_push, opt_view};
use vstd::prelude::*;

verus! {

/// Why a token sequence is no list of materials.
#[derive(Debug)]
pub enum MaterialError {
    /// Some token fits no directive; the text names its index.
    Parse(String),
    /// A directive comes before the first `newmtl`.
    NewMaterial,
}

impl MaterialError {
    /// The error as a line of text.
    pub fn message(&self) -> (out: String)
        ensures
            out@ == match *self {
                MaterialError::Parse(detail) => "Parse Error: `"@ + detail@ + "`"@,
                MaterialError::NewMaterial => "New Material expected, but not found."@,
            },
    {
        match self {
            MaterialError::Parse(detail) => String::from_str("Parse Error: `").concat(
                detail.as_str(),
            ).concat("`"),
            MaterialError::NewMaterial => String::from_str("New Material expected, but not found."),
        }
    }
}

/// The ways in which a colour can be given.
#[derive(Clone, Debug, PartialEq)]
pub enum ColorType<S> {
    /// Red, green and blue.
    Rgb(Number<S>, Number<S>, Number<S>),
    /// A file that holds a spectral curve, and a factor for its values.
    Spectral(S, Number<S>),
    /// CIE XYZ coordinates.
    CieXyz(Number<S>, Number<S>, Number<S>),
}

impl View for ColorType<String> {
    type V = ColorType<Seq<char>>;

    open spec fn view(&self) -> ColorType<Seq<char>> {
        match *self {
            ColorType::Rgb(r, g, b) => ColorType::Rgb(r@, g@, b@),
            ColorType::Spectral(file, factor) => ColorType::Spectral(file@, factor@),
            ColorType::CieXyz(x, y, z) => ColorType::CieXyz(x@, y@, z@),
        }
    }
}

/// The ways in which a dissolve can be given.
#[derive(Clone, Debug, PartialEq)]
pub enum DisolveType<S> {
    /// How much of the material is kept; 1.0 is opaque.
    Alpha(Number<S>),
    /// A dissolve that depends on the surface's angle to the viewer.
    Halo(Number<S>),
}

impl View for DisolveType<String> {
    type V = DisolveType<Seq<char>>;

    open spec fn view(&self) -> DisolveType<Seq<char>> {
        match *self {
            DisolveType::Alpha(value) => DisolveType::Alpha(value@),
            DisolveType::Halo(value) => DisolveType::Halo(value@),
        }
    }
}

/// The view of a pair of numbers.
pub open spec fn pair_view(pair: (Number<String>, Number<String>)) -> (
    Number<Seq<char>>,
    Number<Seq<char>>,
) {
    (pair.0@, pair.1@)
}

/// The view of one to three numbers.
pub open spec fn triple_view(
    triple: (Number<String>, Option<Number<String>>, Option<Number<String>>),
) -> (Number<Seq<char>>, Option<Number<Seq<char>>>, Option<Number<Seq<char>>>) {
    (triple.0@, opt_view(triple.1), opt_view(triple.2))
}

/// The view of an optional pair of numbers.
pub open spec fn opt_pair_view(pair: Option<(Number<String>, Number<String>)>) -> Option<
    (Number<Seq<char>>, Number<Seq<char>>),
> {
    match pair {
        Some(inner) => Some(pair_view(inner)),
        None => None,
    }
}

/// The view of an optional run of one to three numbers.
pub open spec fn opt_triple_view(
    triple: Option<(Number<String>, Option<Number<String>>, Option<Number<String>>)>,
) -> Option<(Number<Seq<char>>, Option<Number<Seq<char>>>, Option<Number<Seq<char>>>)> {
    match triple {
        Some(inner) => Some(triple_view(inner)),
        None => None,
    }
}

/// One option of a map directive, or its file name.
#[derive(Debug, PartialEq)]
pub enum OptionElement<S> {
    FileName(S),
    BlendU(bool),
    BlendV(bool),
    Cc(bool),
    Clamp(bool),
    TextureRange((Number<S>, Number<S>)),
    Offset((Number<S>, Option<Number<S>>, Option<Number<S>>)),
    Scale((Number<S>, Option<Number<S>>, Option<Number<S>>)),
    Turbulance((Number<S>, Option<Number<S>>, Option<Number<S>>)),
    TextureRes(i32),
    ImfChan(S),
    BumpMultiplier(Number<S>),
    ReflectionType(S),
}

impl View for OptionElement<String> {
    type V = OptionElement<Seq<char>>;

    open spec fn view(&self) -> OptionElement<Seq<char>> {
        match *self {
            OptionElement::FileName(name) => OptionElement::FileName(name@),
            OptionElement::BlendU(flag) => OptionElement::BlendU(flag),
            OptionElement::BlendV(flag) => OptionElement::BlendV(flag),
            OptionElement::Cc(flag) => OptionElement::Cc(flag),
            OptionElement::Clamp(flag) => OptionElement::Clamp(flag),
            OptionElement::TextureRange(range) => OptionElement::TextureRange(pair_view(range)),
            OptionElement::Offset(triple) => OptionElement::Offset(triple_view(triple)),
            OptionElement::Scale(triple) => OptionElement::Scale(triple_view(triple)),
            OptionElement::Turbulance(triple) => OptionElement::Turbulance(triple_view(triple)),
            OptionElement::TextureRes(resolution) => OptionElement::TextureRes(resolution),
            OptionElement::ImfChan(channel) => OptionElement::ImfChan(channel@),
            OptionElement::BumpMultiplier(factor) => OptionElement::BumpMultiplier(factor@),
            OptionElement::ReflectionType(kind) => OptionElement::ReflectionType(kind@),
        }
    }
}

/// A copy of one to three numbers.
fn copy_triple(triple: &(Number<String>, Option<Number<String>>, Option<Number<String>>)) -> (out: (
    Number<String>,
    Option<Number<String>>,
    Option<Number<String>>,
))
    ensures
        triple_view(out) == triple_view(*triple),
{
    (triple.0.duplicate(), copy_opt_number(&triple.1), copy_opt_number(&triple.2))
}

/// The settings of a texture map whose colours can be corrected.
#[derive(Debug, PartialEq)]
pub struct ColorCorrectedMap<S> {
    /// The file that holds the texture.
    pub file_name: S,
    pub blend_u: Option<bool>,
    pub blend_v: Option<bool>,
    pub color_correct: Option<bool>,
    pub clamp: Option<bool>,
    /// Base and gain of the texture's values (`-mm`).
    pub texture_range: Option<(Number<S>, Number<S>)>,
    pub offset: Option<(Number<S>, Option<Number<S>>, Option<Number<S>>)>,
    pub scale: Option<(Number<S>, Option<Number<S>>, Option<Number<S>>)>,
    pub turbulance: Option<(Number<S>, Option<Number<S>>, Option<Number<S>>)>,
    pub texture_res: Option<i32>,
}

impl View for ColorCorrectedMap<String> {
    type V = ColorCorrectedMap<Seq<char>>;

    open spec fn view(&self) -> ColorCorrectedMap<Seq<char>> {
        ColorCorrectedMap {
            file_name: self.file_name@,
            blend_u: self.blend_u,
            blend_v: self.blend_v,
            color_correct: self.color_correct,
            clamp: self.clamp,
            texture_range: opt_pair_view(self.texture_range),
            offset: opt_triple_view(self.offset),
            scale: opt_triple_view(self.scale),
            turbulance: opt_triple_view(self.turbulance),
            texture_res: self.texture_res,
        }
    }
}

/// The settings of a texture map whose colours cannot be corrected.
#[derive(Debug, PartialEq)]
pub struct NonColorCorrectedMap<S> {
    /// The file that holds the texture.
    pub file_name: S,
    pub blend_u: Option<bool>,
    pub blend_v: Option<bool>,
    pub clamp: Option<bool>,
    /// The channel that the values are taken from (`-imfchan`).
    pub imf_chan: Option<S>,
    /// Base and gain of the texture's values (`-mm`).
    pub texture_range: Option<(Number<S>, Number<S>)>,
    pub offset: Option<(Number<S>, Option<Number<S>>, Option<Number<S>>)>,
    pub scale: Option<(Number<S>, Option<Number<S>>, Option<Number<S>>)>,
    pub turbulance: Option<(Number<S>, Option<Number<S>>, Option<Number<S>>)>,
    pub texture_res: Option<i32>,
}

impl View for NonColorCorrectedMap<String> {
    type V = NonColorCorrectedMap<Seq<char>>;

    open spec fn view(&self) -> NonColorCorrectedMap<Seq<char>> {
        NonColorCorrectedMap {
            file_name: self.file_name@,
            blend_u: self.blend_u,
            blend_v: self.blend_v,
            clamp: self.clamp,
            imf_chan: opt_view(self.imf_chan),
            texture_range: opt_pair_view(self.texture_range),
            offset: opt_triple_view(self.offset),
            scale: opt_triple_view(self.scale),
            turbulance: opt_triple_view(self.turbulance),
            texture_res: self.texture_res,
        }
    }
}

/// A bump map.
#[derive(Debug, PartialEq)]
pub struct BumpMap<S> {
    pub bump_multiplier: Option<Number<S>>,
    pub map_settings: Option<NonColorCorrectedMap<S>>,
}

impl View for BumpMap<String> {
    type V = BumpMap<Seq<char>>;

    open spec fn view(&self) -> BumpMap<Seq<char>> {
        BumpMap {
            bump_multiplier: opt_view(self.bump_multiplier),
            map_settings: opt_view(self.map_settings),
        }
    }
}

/// A reflection map.
#[derive(Debug, PartialEq)]
pub struct ReflectionMap<S> {
    /// The kind of reflection (`-type`).
    pub reflection_type: S,
    pub map_settings: Option<ColorCorrectedMap<S>>,
}

impl View for ReflectionMap<String> {
    type V = ReflectionMap<Seq<char>>;

    open spec fn view(&self) -> ReflectionMap<Seq<char>> {
        ReflectionMap {
            reflection_type: self.reflection_type@,
            map_settings: opt_view(self.map_settings),
        }
    }
}

/// One material.
#[derive(Debug, PartialEq)]
pub struct Material<S> {
    /// `newmtl`
    pub name: S,
    /// `Ka`
    pub ambient: Option<ColorType<S>>,
    /// `Kd`
    pub diffuse: Option<ColorType<S>>,
    /// `Ks`
    pub specular: Option<ColorType<S>>,
    /// `Ke`
    pub emissive_coefficient: Option<ColorType<S>>,
    /// `Ns`
    pub specular_exponent: Option<Number<S>>,
    /// `d`
    pub disolve: Option<DisolveType<S>>,
    /// `Tr`
    pub transparancy: Option<Number<S>>,
    /// `Tf`
    pub transmission_factor: Option<ColorType<S>>,
    /// `sharpness`
    pub sharpness: Option<Number<S>>,
    /// `Ni`
    pub index_of_refraction: Option<Number<S>>,
    /// `illum`
    pub illumination_mode: Option<u32>,
    /// `map_Ka`
    pub texture_map_ambient: Option<ColorCorrectedMap<S>>,
    /// `map_Kd`
    pub texture_map_diffuse: Option<ColorCorrectedMap<S>>,
    /// `map_Ks`
    pub texture_map_specular: Option<ColorCorrectedMap<S>>,
    /// `map_Ns`
    pub shininess_map: Option<NonColorCorrectedMap<S>>,
    /// `map_d`
    pub disolve_map: Option<NonColorCorrectedMap<S>>,
    /// `disp`
    pub displacement_map: Option<NonColorCorrectedMap<S>>,
    /// `decal`
    pub decal: Option<NonColorCorrectedMap<S>>,
    /// `bump`
    pub bump_map: Option<BumpMap<S>>,
    /// `refl`
    pub reflection_map: Option<ReflectionMap<S>>,
    /// `map_aat`
    pub anti_alias_map: Option<bool>,
}

impl View for Material<String> {
    type V = Material<Seq<char>>;

    open spec fn view(&self) -> Material<Seq<char>> {
        Material {
            name: self.name@,
            ambient: opt_view(self.ambient),
            diffuse: opt_view(self.diffuse),
            specular: opt_view(self.specular),
            emissive_coefficient: opt_view(self.emissive_coefficient),
            specular_exponent: opt_view(self.specular_exponent),
            disolve: opt_view(self.disolve),
            transparancy: opt_view(self.transparancy),
            transmission_factor: opt_view(self.transmission_factor),
            sharpness: opt_view(self.sharpness),
            index_of_refraction: opt_view(self.index_of_refraction),
            illumination_mode: self.illumination_mode,
            texture_map_ambient: opt_view(self.texture_map_ambient),
            texture_map_diffuse: opt_view(self.texture_map_diffuse),
            texture_map_specular: opt_view(self.texture_map_specular),
            shininess_map: opt_view(self.shininess_map),
            disolve_map: opt_view(self.disolve_map),
            displacement_map: opt_view(self.displacement_map),
            decal: opt_view(self.decal),
            bump_map: opt_view(self.bump_map),
            reflection_map: opt_view(self.reflection_map),
            anti_alias_map: self.anti_alias_map,
        }
    }
}

/// One directive of a material text.
#[derive(Debug, PartialEq)]
pub enum MaterialElement<S> {
    Name(S),
    Ambient(ColorType<S>),
    Diffuse(ColorType<S>),
    Specular(ColorType<S>),
    EmissiveCoefficient(ColorType<S>),
    SpecularExponent(Number<S>),
    Disolve(DisolveType<S>),
    Transparency(Number<S>),
    TransmissionFactor(ColorType<S>),
    Sharpness(Number<S>),
    IndexOfRefraction(Number<S>),
    IlluminationModel(u32),
    TexMapAmbient(ColorCorrectedMap<S>),
    TexMapDiffuse(ColorCorrectedMap<S>),
    TexMapSpecular(ColorCorrectedMap<S>),
    ShininessMap(NonColorCorrectedMap<S>),
    DisolveMap(NonColorCorrectedMap<S>),
    DisplacementMap(NonColorCorrectedMap<S>),
    Decal(NonColorCorrectedMap<S>),
    BumpMap(BumpMap<S>),
    ReflectionMap(ReflectionMap<S>),
    AntiAliasMap(bool),
}

impl View for MaterialElement<String> {
    type V = MaterialElement<Seq<char>>;

    open spec fn view(&self) -> MaterialElement<Seq<char>> {
        match *self {
            MaterialElement::Name(name) => MaterialElement::Name(name@),
            MaterialElement::Ambient(color) => MaterialElement::Ambient(color@),
            MaterialElement::Diffuse(color) => MaterialElement::Diffuse(color@),
            MaterialElement::Specular(color) => MaterialElement::Specular(color@),
            MaterialElement::EmissiveCoefficient(color) => MaterialElement::EmissiveCoefficient(
                color@,
            ),
            MaterialElement::SpecularExponent(value) => MaterialElement::SpecularExponent(value@),
            MaterialElement::Disolve(value) => MaterialElement::Disolve(value@),
            MaterialElement::Transparency(value) => MaterialElement::Transparency(value@),
            MaterialElement::TransmissionFactor(color) => MaterialElement::TransmissionFactor(
                color@,
            ),
            MaterialElement::Sharpness(value) => MaterialElement::Sharpness(value@),
            MaterialElement::IndexOfRefraction(value) => MaterialElement::IndexOfRefraction(value@),
            MaterialElement::IlluminationModel(id) => MaterialElement::IlluminationModel(id),
            MaterialElement::TexMapAmbient(map) => MaterialElement::TexMapAmbient(map@),
            MaterialElement::TexMapDiffuse(map) => MaterialElement::TexMapDiffuse(map@),
            MaterialElement::TexMapSpecular(map) => MaterialElement::TexMapSpecular(map@),
            MaterialElement::ShininessMap(map) => MaterialElement::ShininessMap(map@),
            MaterialElement::DisolveMap(map) => MaterialElement::DisolveMap(map@),
            MaterialElement::DisplacementMap(map) => MaterialElement::DisplacementMap(map@),
            MaterialElement::Decal(map) => MaterialElement::Decal(map@),
            MaterialElement::BumpMap(map) => MaterialElement::BumpMap(map@),
            MaterialElement::ReflectionMap(map) => MaterialElement::ReflectionMap(map@),
            MaterialElement::AntiAliasMap(flag) => MaterialElement::AntiAliasMap(flag),
        }
    }
}

/// A map of which nothing is known yet.
pub open spec fn empty_cc_map() -> ColorCorrectedMap<Seq<char>> {
    ColorCorrectedMap {
        file_name: Seq::empty(),
        blend_u: None,
        blend_v: None,
        color_correct: None,
        clamp: None,
        texture_range: None,
        offset: None,
        scale: None,
        turbulance: None,
        texture_res: None,
    }
}

/// A map of which nothing is known yet.
pub open spec fn empty_ncc_map() -> NonColorCorrectedMap<Seq<char>> {
    NonColorCorrectedMap {
        file_name: Seq::empty(),
        blend_u: None,
        blend_v: None,
        clamp: None,
        imf_chan: None,
        texture_range: None,
        offset: None,
        scale: None,
        turbulance: None,
        texture_res: None,
    }
}

/// The map after one more option. An option that this kind of map does not
/// have leaves it as it is.
pub open spec fn cc_set(
    map: ColorCorrectedMap<Seq<char>>,
    option: OptionElement<Seq<char>>,
) -> ColorCorrectedMap<Seq<char>> {
    match option {
        OptionElement::FileName(name) => ColorCorrectedMap { file_name: name, ..map },
        OptionElement::BlendU(flag) => ColorCorrectedMap { blend_u: Some(flag), ..map },
        OptionElement::BlendV(flag) => ColorCorrectedMap { blend_v: Some(flag), ..map },
        OptionElement::Cc(flag) => ColorCorrectedMap { color_correct: Some(flag), ..map },
        OptionElement::Clamp(flag) => ColorCorrectedMap { clamp: Some(flag), ..map },
        OptionElement::TextureRange(range) => ColorCorrectedMap {
            texture_range: Some(range),
            ..map
        },
        OptionElement::Offset(triple) => ColorCorrectedMap { offset: Some(triple), ..map },
        OptionElement::Scale(triple) => ColorCorrectedMap { scale: Some(triple), ..map },
        OptionElement::Turbulance(triple) => ColorCorrectedMap { turbulance: Some(triple), ..map },
        OptionElement::TextureRes(resolution) => ColorCorrectedMap {
            texture_res: Some(resolution),
            ..map
        },
        _ => map,
    }
}

/// The map after one more option. An option that this kind of map does not
/// have leaves it as it is.
pub open spec fn ncc_set(
    map: NonColorCorrectedMap<Seq<char>>,
    option: OptionElement<Seq<char>>,
) -> NonColorCorrectedMap<Seq<char>> {
    match option {
        OptionElement::FileName(name) => NonColorCorrectedMap { file_name: name, ..map },
        OptionElement::BlendU(flag) => NonColorCorrectedMap { blend_u: Some(flag), ..map },
        OptionElement::BlendV(flag) => NonColorCorrectedMap { blend_v: Some(flag), ..map },
        OptionElement::Clamp(flag) => NonColorCorrectedMap { clamp: Some(flag), ..map },
        OptionElement::ImfChan(channel) => NonColorCorrectedMap { imf_chan: Some(channel), ..map },
        OptionElement::TextureRange(range) => NonColorCorrectedMap {
            texture_range: Some(range),
            ..map
        },
        OptionElement::Offset(triple) => NonColorCorrectedMap { offset: Some(triple), ..map },
        OptionElement::Scale(triple) => NonColorCorrectedMap { scale: Some(triple), ..map },
        OptionElement::Turbulance(triple) => NonColorCorrectedMap {
            turbulance: Some(triple),
            ..map
        },
        OptionElement::TextureRes(resolution) => NonColorCorrectedMap {
            texture_res: Some(resolution),
            ..map
        },
        _ => map,
    }
}

/// The map that a run of options describes: each option sets its field, a
/// later one over an earlier one.
pub open spec fn cc_map(options: Seq<OptionElement<Seq<char>>>) -> ColorCorrectedMap<Seq<char>>
    decreases options.len(),
{
    if options.len() == 0 {
        empty_cc_map()
    } else {
        cc_set(cc_map(options.drop_last()), options.last())
    }
}

/// The map that a run of options describes: each option sets its field, a
/// later one over an earlier one.
pub open spec fn ncc_map(options: Seq<OptionElement<Seq<char>>>) -> NonColorCorrectedMap<
    Seq<char>,
>
    decreases options.len(),
{
    if options.len() == 0 {
        empty_ncc_map()
    } else {
        ncc_set(ncc_map(options.drop_last()), options.last())
    }
}

/// The first bump multiplier among the options.
pub open spec fn first_bump_multiplier(options: Seq<OptionElement<Seq<char>>>) -> Option<
    Number<Seq<char>>,
>
    decreases options.len(),
{
    if options.len() == 0 {
        None
    } else {
        match options[0] {
            OptionElement::BumpMultiplier(factor) => Some(factor),
            _ => first_bump_multiplier(options.drop_first()),
        }
    }
}

/// The first reflection type among the options.
pub open spec fn first_reflection_type(options: Seq<OptionElement<Seq<char>>>) -> Option<
    Seq<char>,
>
    decreases options.len(),
{
    if options.len() == 0 {
        None
    } else {
        match options[0] {
            OptionElement::ReflectionType(kind) => Some(kind),
            _ => first_reflection_type(options.drop_first()),
        }
    }
}

/// The bump map that a run of options describes.
pub open spec fn bump_map(options: Seq<OptionElement<Seq<char>>>) -> BumpMap<Seq<char>> {
    BumpMap {
        bump_multiplier: first_bump_multiplier(options),
        map_settings: Some(ncc_map(options)),
    }
}

/// The reflection map that a run of options describes. Without a `-type`
/// its type is empty.
pub open spec fn reflection_map(options: Seq<OptionElement<Seq<char>>>) -> ReflectionMap<
    Seq<char>,
> {
    ReflectionMap {
        reflection_type: match first_reflection_type(options) {
            Some(kind) => kind,
            None => Seq::empty(),
        },
        map_settings: Some(cc_map(options)),
    }
}

/// What a word says as a switch: `on` switches on, `off` and every other
/// word switch off.
pub open spec fn switch(word: Seq<char>) -> bool {
    on_off(word) == Some(true)
}

/// One to three numbers at `at`, and where they end. A third number counts
/// only after a second.
pub open spec fn triple_at(toks: Seq<Token<Seq<char>>>, at: int) -> Option<
    ((Number<Seq<char>>, Option<Number<Seq<char>>>, Option<Number<Seq<char>>>), int),
> {
    if number_at(toks, at) is Some {
        let first = number_at(toks, at)->0;
        if number_at(toks, at + 1) is None {
            Some(((first, None, None), at + 1))
        } else if number_at(toks, at + 2) is None {
            Some(((first, number_at(toks, at + 1), None), at + 2))
        } else {
            Some(((first, number_at(toks, at + 1), number_at(toks, at + 2)), at + 3))
        }
    } else {
        None
    }
}

/// The option that starts at `at`, and where the next one may start.
pub open spec fn option_at(toks: Seq<Token<Seq<char>>>, at: int) -> Option<
    (OptionElement<Seq<char>>, int),
> {
    if !(0 <= at < toks.len()) {
        None
    } else {
        match toks[at] {
            Token::Keyword(Keyword::OptionBlendU) => match word_at(toks, at + 1) {
                Some(word) => Some((OptionElement::BlendU(switch(word)), at + 2)),
                None => None,
            },
            Token::Keyword(Keyword::OptionBlendV) => match word_at(toks, at + 1) {
                Some(word) => Some((OptionElement::BlendV(switch(word)), at + 2)),
                None => None,
            },
            Token::Keyword(Keyword::OptionColorCorrect) => match word_at(toks, at + 1) {
                Some(word) => Some((OptionElement::Cc(switch(word)), at + 2)),
                None => None,
            },
            Token::Keyword(Keyword::OptionClamp) => match word_at(toks, at + 1) {
                Some(word) => Some((OptionElement::Clamp(switch(word)), at + 2)),
                None => None,
            },
            Token::Keyword(Keyword::OptionBumpMultiplier) => match number_at(toks, at + 1) {
                Some(factor) => Some((OptionElement::BumpMultiplier(factor), at + 2)),
                None => None,
            },
            Token::Keyword(Keyword::OptionRange) => if number_at(toks, at + 1) is Some
                && number_at(toks, at + 2) is Some {
                Some(
                    (
                        OptionElement::TextureRange(
                            (number_at(toks, at + 1)->0, number_at(toks, at + 2)->0),
                        ),
                        at + 3,
                    ),
                )
            } else {
                None
            },
            Token::Keyword(Keyword::OptionOffset) => match triple_at(toks, at + 1) {
                Some(found) => Some((OptionElement::Offset(found.0), found.1)),
                None => None,
            },
            Token::Keyword(Keyword::OptionScale) => match triple_at(toks, at + 1) {
                Some(found) => Some((OptionElement::Scale(found.0), found.1)),
                None => None,
            },
            Token::Keyword(Keyword::OptionTurbulence) => match triple_at(toks, at + 1) {
                Some(found) => Some((OptionElement::Turbulance(found.0), found.1)),
                None => None,
            },
            Token::Keyword(Keyword::OptionTextureResolution) => match int_at(toks, at + 1) {
                Some(resolution) => Some((OptionElement::TextureRes(resolution), at + 2)),
                None => None,
            },
            Token::Keyword(Keyword::OptionIMFChan) => match word_at(toks, at + 1) {
                Some(channel) => Some((OptionElement::ImfChan(channel), at + 2)),
                None => None,
            },
            Token::Keyword(Keyword::ReflectionType) => match word_at(toks, at + 1) {
                Some(kind) => Some((OptionElement::ReflectionType(kind), at + 2)),
                None => None,
            },
            _ => None,
        }
    }
}

/// The options that stand at `at` and after it, and where they end.
pub open spec fn options_from(toks: Seq<Token<Seq<char>>>, at: int) -> (
    Seq<OptionElement<Seq<char>>>,
    int,
)
    decreases toks.len() - at,
{
    match option_at(toks, at) {
        Some(found) => if at < found.1 <= toks.len() {
            let rest = options_from(toks, found.1);
            (seq![found.0] + rest.0, rest.1)
        } else {
            (Seq::empty(), at)
        },
        None => (Seq::empty(), at),
    }
}

/// What follows the keyword of a map directive: any options, and then the
/// file name, which ends the run and stands last in the result.
pub open spec fn map_options_at(toks: Seq<Token<Seq<char>>>, at: int) -> Option<
    (Seq<OptionElement<Seq<char>>>, int),
> {
    let found = options_from(toks, at);
    match word_at(toks, found.1) {
        Some(file) => Some((found.0.push(OptionElement::FileName(file)), found.1 + 1)),
        None => None,
    }
}

/// The colour that starts at `at`, and where it ends: `spectral file
/// [factor]` with 1 for a missing factor, `xyz x [y [z]]` with `x` for a
/// missing `y` or `z`, or three numbers.
pub open spec fn color_at(toks: Seq<Token<Seq<char>>>, at: int) -> Option<
    (ColorType<Seq<char>>, int),
> {
    if keyword_at(toks, at, Keyword::Spectral) {
        match word_at(toks, at + 1) {
            Some(file) => match number_at(toks, at + 2) {
                Some(factor) => Some((ColorType::Spectral(file, factor), at + 3)),
                None => Some((ColorType::Spectral(file, Number::Int(1)), at + 2)),
            },
            None => None,
        }
    } else if keyword_at(toks, at, Keyword::Xyz) {
        match triple_at(toks, at + 1) {
            Some(found) => {
                let x = found.0.0;
                let y = match found.0.1 {
                    Some(y) => y,
                    None => x,
                };
                let z = match found.0.2 {
                    Some(z) => z,
                    None => x,
                };
                Some((ColorType::CieXyz(x, y, z), found.1))
            },
            None => None,
        }
    } else if number_at(toks, at) is Some && number_at(toks, at + 1) is Some && number_at(
        toks,
        at + 2,
    ) is Some {
        Some(
            (
                ColorType::Rgb(
                    number_at(toks, at)->0,
                    number_at(toks, at + 1)->0,
                    number_at(toks, at + 2)->0,
                ),
                at + 3,
            ),
        )
    } else {
        None
    }
}

/// The dissolve that starts at `at`: `-halo` and a number, or a number.
pub open spec fn disolve_at(toks: Seq<Token<Seq<char>>>, at: int) -> Option<
    (DisolveType<Seq<char>>, int),
> {
    if keyword_at(toks, at, Keyword::Halo) {
        match number_at(toks, at + 1) {
            Some(value) => Some((DisolveType::Halo(value), at + 2)),
            None => None,
        }
    } else {
        match number_at(toks, at) {
            Some(value) => Some((DisolveType::Alpha(value), at + 1)),
            None => None,
        }
    }
}

/// A whole number as an illumination model: a negative number wraps round.
pub open spec fn model_id(value: i32) -> u32 {
    if value >= 0 {
        value as u32
    } else {
        (value + 0x1_0000_0000) as u32
    }
}

/// The directive that starts at `at`, and where the next one starts. `None`
/// where the tokens at `at` fit no directive.
pub open spec fn element_at(toks: Seq<Token<Seq<char>>>, at: int) -> Option<
    (MaterialElement<Seq<char>>, int),
> {
    if !(0 <= at < toks.len()) {
        None
    } else {
        match toks[at] {
            Token::Keyword(Keyword::NewMaterial) => match word_at(toks, at + 1) {
                Some(name) => Some((MaterialElement::Name(name), at + 2)),
                None => None,
            },
            Token::Keyword(Keyword::AmbientColor) => match color_at(toks, at + 1) {
                Some(found) => Some((MaterialElement::Ambient(found.0), found.1)),
                None => None,
            },
            Token::Keyword(Keyword::DiffuseColor) => match color_at(toks, at + 1) {
                Some(found) => Some((MaterialElement::Diffuse(found.0), found.1)),
                None => None,
            },
            Token::Keyword(Keyword::SpecularColor) => match color_at(toks, at + 1) {
                Some(found) => Some((MaterialElement::Specular(found.0), found.1)),
                None => None,
            },
            Token::Keyword(Keyword::EmissiveCoefficient) => match color_at(toks, at + 1) {
                Some(found) => Some((MaterialElement::EmissiveCoefficient(found.0), found.1)),
                None => None,
            },
            Token::Keyword(Keyword::TransmissionFactor) => match color_at(toks, at + 1) {
                Some(found) => Some((MaterialElement::TransmissionFactor(found.0), found.1)),
                None => None,
            },
            Token::Keyword(Keyword::SpecularExponent) => match number_at(toks, at + 1) {
                Some(value) => Some((MaterialElement::SpecularExponent(value), at + 2)),
                None => None,
            },
            Token::Keyword(Keyword::Transparancy) => match number_at(toks, at + 1) {
                Some(value) => Some((MaterialElement::Transparency(value), at + 2)),
                None => None,
            },
            Token::Keyword(Keyword::Sharpness) => match number_at(toks, at + 1) {
                Some(value) => Some((MaterialElement::Sharpness(value), at + 2)),
                None => None,
            },
            Token::Keyword(Keyword::IndexOfRefraction) => match number_at(toks, at + 1) {
                Some(value) => Some((MaterialElement::IndexOfRefraction(value), at + 2)),
                None => None,
            },
            Token::Keyword(Keyword::Disolved) => match disolve_at(toks, at + 1) {
                Some(found) => Some((MaterialElement::Disolve(found.0), found.1)),
                None => None,
            },
            Token::Keyword(Keyword::IlluminationModel) => match int_at(toks, at + 1) {
                Some(value) => Some((MaterialElement::IlluminationModel(model_id(value)), at + 2)),
                None => None,
            },
            Token::Keyword(Keyword::TextureMapAmbient) => match map_options_at(toks, at + 1) {
                Some(found) => Some((MaterialElement::TexMapAmbient(cc_map(found.0)), found.1)),
                None => None,
            },
            Token::Keyword(Keyword::TextureMapDiffuse) => match map_options_at(toks, at + 1) {
                Some(found) => Some((MaterialElement::TexMapDiffuse(cc_map(found.0)), found.1)),
                None => None,
            },
            Token::Keyword(Keyword::TextureMapSpecular) => match map_options_at(toks, at + 1) {
                Some(found) => Some((MaterialElement::TexMapSpecular(cc_map(found.0)), found.1)),
                None => None,
            },
            Token::Keyword(Keyword::TextureMapShininess) => match map_options_at(toks, at + 1) {
                Some(found) => Some((MaterialElement::ShininessMap(ncc_map(found.0)), found.1)),
                None => None,
            },
            Token::Keyword(Keyword::TextureMapDisolved) => match map_options_at(toks, at + 1) {
                Some(found) => Some((MaterialElement::DisolveMap(ncc_map(found.0)), found.1)),
                None => None,
            },
            Token::Keyword(Keyword::DisplacementMap) => match map_options_at(toks, at + 1) {
                Some(found) => Some((MaterialElement::DisplacementMap(ncc_map(found.0)), found.1)),
                None => None,
            },
            Token::Keyword(Keyword::Decal) => match map_options_at(toks, at + 1) {
                Some(found) => Some((MaterialElement::Decal(ncc_map(found.0)), found.1)),
                None => None,
            },
            Token::Keyword(Keyword::BumpMap) => match map_options_at(toks, at + 1) {
                Some(found) => Some((MaterialElement::BumpMap(bump_map(found.0)), found.1)),
                None => None,
            },
            Token::Keyword(Keyword::ReflectionMap) => match map_options_at(toks, at + 1) {
                Some(found) => Some(
                    (MaterialElement::ReflectionMap(reflection_map(found.0)), found.1),
                ),
                None => None,
            },
            Token::Keyword(Keyword::AntiAliasMap) => match word_at(toks, at + 1) {
                Some(word) => Some((MaterialElement::AntiAliasMap(switch(word)), at + 2)),
                None => None,
            },
            _ => None,
        }
    }
}

/// The directives of `toks[at..]`; `None` where some token fits none.
pub open spec fn elements_from(toks: Seq<Token<Seq<char>>>, at: int) -> Option<
    Seq<MaterialElement<Seq<char>>>,
>
    decreases toks.len() - at,
{
    if at >= toks.len() {
        Some(Seq::empty())
    } else {
        match element_at(toks, at) {
            Some(found) => if at < found.1 <= toks.len() {
                match elements_from(toks, found.1) {
                    Some(rest) => Some(seq![found.0] + rest),
                    None => None,
                }
            } else {
                None
            },
            None => None,
        }
    }
}

/// The directives of a whole token sequence. There is at least one.
pub open spec fn elements_of(toks: Seq<Token<Seq<char>>>) -> Option<
    Seq<MaterialElement<Seq<char>>>,
> {
    if toks.len() == 0 {
        None
    } else {
        elements_from(toks, 0)
    }
}

/// Where the reading of directives from `at` on stops: at the end, or at the
/// first token that fits no directive.
pub open spec fn stop_from(toks: Seq<Token<Seq<char>>>, at: int) -> int
    decreases toks.len() - at,
{
    if at >= toks.len() {
        at
    } else {
        match element_at(toks, at) {
            Some(found) => if at < found.1 <= toks.len() {
                stop_from(toks, found.1)
            } else {
                at
            },
            None => at,
        }
    }
}

/// A material of which only the name is known.
pub open spec fn named(name: Seq<char>) -> Material<Seq<char>> {
    Material {
        name,
        ambient: None,
        diffuse: None,
        specular: None,
        emissive_coefficient: None,
        specular_exponent: None,
        disolve: None,
        transparancy: None,
        transmission_factor: None,
        sharpness: None,
        index_of_refraction: None,
        illumination_mode: None,
        texture_map_ambient: None,
        texture_map_diffuse: None,
        texture_map_specular: None,
        shininess_map: None,
        disolve_map: None,
        displacement_map: None,
        decal: None,
        bump_map: None,
        reflection_map: None,
        anti_alias_map: None,
    }
}

/// The material after one more directive: the directive's field is set,
/// whatever it held.
pub open spec fn set_from(
    material: Material<Seq<char>>,
    element: MaterialElement<Seq<char>>,
) -> Material<Seq<char>> {
    match element {
        MaterialElement::Name(name) => Material { name, ..material },
        MaterialElement::Ambient(color) => Material { ambient: Some(color), ..material },
        MaterialElement::Diffuse(color) => Material { diffuse: Some(color), ..material },
        MaterialElement::Specular(color) => Material { specular: Some(color), ..material },
        MaterialElement::EmissiveCoefficient(color) => Material {
            emissive_coefficient: Some(color),
            ..material
        },
        MaterialElement::SpecularExponent(value) => Material {
            specular_exponent: Some(value),
            ..material
        },
        MaterialElement::Disolve(value) => Material { disolve: Some(value), ..material },
        MaterialElement::Transparency(value) => Material { transparancy: Some(value), ..material },
        MaterialElement::TransmissionFactor(color) => Material {
            transmission_factor: Some(color),
            ..material
        },
        MaterialElement::Sharpness(value) => Material { sharpness: Some(value), ..material },
        MaterialElement::IndexOfRefraction(value) => Material {
            index_of_refraction: Some(value),
            ..material
        },
        MaterialElement::IlluminationModel(id) => Material {
            illumination_mode: Some(id),
            ..material
        },
        MaterialElement::TexMapAmbient(map) => Material {
            texture_map_ambient: Some(map),
            ..material
        },
        MaterialElement::TexMapDiffuse(map) => Material {
            texture_map_diffuse: Some(map),
            ..material
        },
        MaterialElement::TexMapSpecular(map) => Material {
            texture_map_specular: Some(map),
            ..material
        },
        MaterialElement::ShininessMap(map) => Material { shininess_map: Some(map), ..material },
        MaterialElement::DisolveMap(map) => Material { disolve_map: Some(map), ..material },
        MaterialElement::DisplacementMap(map) => Material {
            displacement_map: Some(map),
            ..material
        },
        MaterialElement::Decal(map) => Material { decal: Some(map), ..material },
        MaterialElement::BumpMap(map) => Material { bump_map: Some(map), ..material },
        MaterialElement::ReflectionMap(map) => Material { reflection_map: Some(map), ..material },
        MaterialElement::AntiAliasMap(flag) => Material { anti_alias_map: Some(flag), ..material },
    }
}

/// The materials that a run of directives describes: a name starts a new
/// material, and every other directive sets its field of the material that
/// was started last.
pub open spec fn materials_of(elements: Seq<MaterialElement<Seq<char>>>) -> Seq<
    Material<Seq<char>>,
>
    decreases elements.len(),
{
    if elements.len() == 0 {
        Seq::empty()
    } else {
        let before = materials_of(elements.drop_last());
        match elements.last() {
            MaterialElement::Name(name) => before.push(named(name)),
            other => if before.len() > 0 {
                before.update(before.len() - 1, set_from(before.last(), other))
            } else {
                before
            },
        }
    }
}

impl Default for ColorCorrectedMap<String> {
    fn default() -> (out: Self)
        ensures
            out@ == empty_cc_map(),
    {
        ColorCorrectedMap {
            file_name: String::new(),
            blend_u: None,
            blend_v: None,
            color_correct: None,
            clamp: None,
            texture_range: None,
            offset: None,
            scale: None,
            turbulance: None,
            texture_res: None,
        }
    }
}

impl ColorCorrectedMap<String> {
    /// Sets the field that `option` speaks of.
    pub fn set(&mut self, option: &OptionElement<String>)
        ensures
            final(self)@ == cc_set(old(self)@, option@),
    {
        match option {
            OptionElement::FileName(name) => {
                self.file_name = name.clone();
            },
            OptionElement::BlendU(flag) => {
                self.blend_u = Some(*flag);
            },
            OptionElement::BlendV(flag) => {
                self.blend_v = Some(*flag);
            },
            OptionElement::Cc(flag) => {
                self.color_correct = Some(*flag);
            },
            OptionElement::Clamp(flag) => {
                self.clamp = Some(*flag);
            },
            OptionElement::TextureRange(range) => {
                self.texture_range = Some((range.0.duplicate(), range.1.duplicate()));
            },
            OptionElement::Offset(triple) => {
                self.offset = Some(copy_triple(triple));
            },
            OptionElement::Scale(triple) => {
                self.scale = Some(copy_triple(triple));
            },
            OptionElement::Turbulance(triple) => {
                self.turbulance = Some(copy_triple(triple));
            },
            OptionElement::TextureRes(resolution) => {
                self.texture_res = Some(*resolution);
            },
            _ => {},
        }
    }

    /// The map that the options describe.
    pub fn new(options: &Vec<OptionElement<String>>) -> (out: Self)
        ensures
            out@ == cc_map(each_view(options@)),
    {
        let mut out = ColorCorrectedMap::default();
        let mut i: usize = 0;
        assert(each_view(options@.take(0)) =~= Seq::<OptionElement<Seq<char>>>::empty());
        while i < options.len()
            invariant
                i <= options@.len(),
                out@ == cc_map(each_view(options@.take(i as int))),
            decreases options@.len() - i,
        {
            proof {
                lemma_each_view_push(options@.take(i as int), options@[i as int]);
                assert(options@.take(i + 1) =~= options@.take(i as int).push(options@[i as int]));
                assert(each_view(options@.take(i + 1)).drop_last() =~= each_view(
                    options@.take(i as int),
                ));
            }
            out.set(&options[i]);
            i += 1;
        }
        assert(options@.take(options@.len() as int) =~= options@);
        out
    }
}

impl Default for NonColorCorrectedMap<String> {
    fn default() -> (out: Self)
        ensures
            out@ == empty_ncc_map(),
    {
        NonColorCorrectedMap {
            file_name: String::new(),
            blend_u: None,
            blend_v: None,
            clamp: None,
            imf_chan: None,
            texture_range: None,
            offset: None,
            scale: None,
            turbulance: None,
            texture_res: None,
        }
    }
}

impl NonColorCorrectedMap<String> {
    /// Sets the field that `option` speaks of.
    pub fn set(&mut self, option: &OptionElement<String>)
        ensures
            final(self)@ == ncc_set(old(self)@, option@),
    {
        match option {
            OptionElement::FileName(name) => {
                self.file_name = name.clone();
            },
            OptionElement::BlendU(flag) => {
                self.blend_u = Some(*flag);
            },
            OptionElement::BlendV(flag) => {
                self.blend_v = Some(*flag);
            },
            OptionElement::Clamp(flag) => {
                self.clamp = Some(*flag);
            },
            OptionElement::ImfChan(channel) => {
                self.imf_chan = Some(channel.clone());
            },
            OptionElement::TextureRange(range) => {
                self.texture_range = Some((range.0.duplicate(), range.1.duplicate()));
            },
            OptionElement::Offset(triple) => {
                self.offset = Some(copy_triple(triple));
            },
            OptionElement::Scale(triple) => {
                self.scale = Some(copy_triple(triple));
            },
            OptionElement::Turbulance(triple) => {
                self.turbulance = Some(copy_triple(triple));
            },
            OptionElement::TextureRes(resolution) => {
                self.texture_res = Some(*resolution);
            },
            _ => {},
        }
    }

    /// The map that the options describe.
    pub fn new(options: &Vec<OptionElement<String>>) -> (out: Self)
        ensures
            out@ == ncc_map(each_view(options@)),
    {
        let mut out = NonColorCorrectedMap::default();
        let mut i: usize = 0;
        assert(each_view(options@.take(0)) =~= Seq::<OptionElement<Seq<char>>>::empty());
        while i < options.len()
            invariant
                i <= options@.len(),
                out@ == ncc_map(each_view(options@.take(i as int))),
            decreases options@.len() - i,
        {
            proof {
                lemma_each_view_push(options@.take(i as int), options@[i as int]);
                assert(options@.take(i + 1) =~= options@.take(i as int).push(options@[i as int]));
                assert(each_view(options@.take(i + 1)).drop_last() =~= each_view(
                    options@.take(i as int),
                ));
            }
            out.set(&options[i]);
            i += 1;
        }
        assert(options@.take(options@.len() as int) =~= options@);
        out
    }
}

impl BumpMap<String> {
    /// The bump map that the options describe.
    pub fn new(options: &Vec<OptionElement<String>>) -> (out: Self)
        ensures
            out@ == bump_map(each_view(options@)),
    {
        let map_settings = Some(NonColorCorrectedMap::new(options));
        let mut bump_multiplier: Option<Number<String>> = None;
        let ghost all = each_view(options@);
        let mut i: usize = 0;
        assert(all.skip(0) =~= all);
        while i < options.len() && bump_multiplier.is_none()
            invariant
                i <= options@.len(),
                all == each_view(options@),
                match bump_multiplier {
                    Some(factor) => first_bump_multiplier(all) == Some(factor@),
                    None => first_bump_multiplier(all) == first_bump_multiplier(
                        all.skip(i as int),
                    ),
                },
            decreases options@.len() - i + (if bump_multiplier is None { 1int } else { 0int }),
        {
            proof {
                assert(all.skip(i as int).drop_first() =~= all.skip(i + 1));
                assert(all.skip(i as int)[0] == options@[i as int]@);
            }
            match &options[i] {
                OptionElement::BumpMultiplier(factor) => {
                    bump_multiplier = Some(factor.duplicate());
                },
                _ => {
                    i += 1;
                },
            }
        }
        BumpMap { bump_multiplier, map_settings }
    }
}

impl ReflectionMap<String> {
    /// The reflection map that the options describe.
    pub fn new(options: &Vec<OptionElement<String>>) -> (out: Self)
        ensures
            out@ == reflection_map(each_view(options@)),
    {
        let map_settings = Some(ColorCorrectedMap::new(options));
        let mut found: Option<String> = None;
        let ghost all = each_view(options@);
        let mut i: usize = 0;
        assert(all.skip(0) =~= all);
        while i < options.len() && found.is_none()
            invariant
                i <= options@.len(),
                all == each_view(options@),
                match found {
                    Some(kind) => first_reflection_type(all) == Some(kind@),
                    None => first_reflection_type(all) == first_reflection_type(
                        all.skip(i as int),
                    ),
                },
            decreases options@.len() - i + (if found is None { 1int } else { 0int }),
        {
            proof {
                assert(all.skip(i as int).drop_first() =~= all.skip(i + 1));
                assert(all.skip(i as int)[0] == options@[i as int]@);
            }
            match &options[i] {
                OptionElement::ReflectionType(kind) => {
                    found = Some(kind.clone());
                },
                _ => {
                    i += 1;
                },
            }
        }
        let reflection_type = match found {
            Some(kind) => kind,
            None => String::new(),
        };
        ReflectionMap { reflection_type, map_settings }
    }
}

/// Reads the word at `at` as a switch. A word other than `on` and `off`
/// does not stop the parse: it switches off.
fn read_switch(tokens: &TokenSet, at: usize) -> (out: Option<bool>)
    ensures
        out == match word_at(tokens@, at as int) {
            Some(word) => Some(switch(word)),
            None => None,
        },
{
    if at < tokens.tokens.len() {
        proof {
            lemma_token_view(tokens, at as int);
        }
        match &tokens.tokens[at] {
            Token::String(_) => match get_on_off_from_str(&tokens.tokens[at]) {
                Ok(flag) => Some(flag),
                Err(_) => Some(false),
            },
            _ => None,
        }
    } else {
        None
    }
}

/// Reads one to three numbers at `at`.
fn read_triple(tokens: &TokenSet, at: usize) -> (out: Option<
    ((Number<String>, Option<Number<String>>, Option<Number<String>>), usize),
>)
    ensures
        out is Some <==> triple_at(tokens@, at as int) is Some,
        out matches Some(found) ==> triple_at(tokens@, at as int) == Some(
            (triple_view(found.0), found.1 as int),
        ) && at < found.1 <= tokens@.len(),
{
    let length = tokens.len();
    let first = match read_number(tokens, at) {
        Some(number) => number,
        None => return None,
    };
    let second = read_number(tokens, at + 1);
    if second.is_none() {
        return Some(((first, None, None), at + 1));
    }
    let third = read_number(tokens, at + 2);
    if third.is_none() {
        return Some(((first, second, None), at + 2));
    }
    Some(((first, second, third), at + 3))
}

/// Reads the option at `at`.
pub fn parse_option(tokens: &TokenSet, at: usize) -> (out: Option<(OptionElement<String>, usize)>)
    ensures
        out is Some <==> option_at(tokens@, at as int) is Some,
        out matches Some(found) ==> option_at(tokens@, at as int) == Some(
            (found.0@, found.1 as int),
        ) && at < found.1 <= tokens@.len(),
{
    let length = tokens.len();
    if at >= length {
        return None;
    }
    proof {
        lemma_token_view(tokens, at as int);
    }
    match &tokens.tokens[at] {
        Token::Keyword(keyword) => match keyword {
            Keyword::OptionBlendU => match read_switch(tokens, at + 1) {
                Some(flag) => Some((OptionElement::BlendU(flag), at + 2)),
                None => None,
            },
            Keyword::OptionBlendV => match read_switch(tokens, at + 1) {
                Some(flag) => Some((OptionElement::BlendV(flag), at + 2)),
                None => None,
            },
            Keyword::OptionColorCorrect => match read_switch(tokens, at + 1) {
                Some(flag) => Some((OptionElement::Cc(flag), at + 2)),
                None => None,
            },
            Keyword::OptionClamp => match read_switch(tokens, at + 1) {
                Some(flag) => Some((OptionElement::Clamp(flag), at + 2)),
                None => None,
            },
            Keyword::OptionBumpMultiplier => match read_number(tokens, at + 1) {
                Some(factor) => Some((OptionElement::BumpMultiplier(factor), at + 2)),
                None => None,
            },
            Keyword::OptionRange => {
                let base = match read_number(tokens, at + 1) {
                    Some(number) => number,
                    None => return None,
                };
                match read_number(tokens, at + 2) {
                    Some(gain) => Some((OptionElement::TextureRange((base, gain)), at + 3)),
                    None => None,
                }
            },
            Keyword::OptionOffset => match read_triple(tokens, at + 1) {
                Some((triple, next)) => Some((OptionElement::Offset(triple), next)),
                None => None,
            },
            Keyword::OptionScale => match read_triple(tokens, at + 1) {
                Some((triple, next)) => Some((OptionElement::Scale(triple), next)),
                None => None,
            },
            Keyword::OptionTurbulence => match read_triple(tokens, at + 1) {
                Some((triple, next)) => Some((OptionElement::Turbulance(triple), next)),
                None => None,
            },
            Keyword::OptionTextureResolution => match read_int(tokens, at + 1) {
                Some(resolution) => Some((OptionElement::TextureRes(resolution), at + 2)),
                None => None,
            },
            Keyword::OptionIMFChan => match read_word(tokens, at + 1) {
                Some(channel) => Some((OptionElement::ImfChan(channel), at + 2)),
                None => None,
            },
            Keyword::ReflectionType => match read_word(tokens, at + 1) {
                Some(kind) => Some((OptionElement::ReflectionType(kind), at + 2)),
                None => None,
            },
            _ => None,
        },
        _ => None,
    }
}

/// Reads what follows the keyword of a map directive: any options, and
/// then the file name, which stands last in the result.
pub fn parse_options(tokens: &TokenSet, at: usize) -> (out: Option<
    (Vec<OptionElement<String>>, usize),
>)
    ensures
        out is Some <==> map_options_at(tokens@, at as int) is Some,
        out matches Some(found) ==> map_options_at(tokens@, at as int) == Some(
            (each_view(found.0@), found.1 as int),
        ) && at < found.1 <= tokens@.len(),
{
    let length = tokens.len();
    if at > length {
        return None;
    }
    let ghost toks = tokens@;
    let mut options: Vec<OptionElement<String>> = Vec::new();
    let mut next: usize = at;
    let mut done = false;
    assert(each_view(options@) + options_from(toks, next as int).0 =~= options_from(
        toks,
        next as int,
    ).0);
    while !done
        invariant
            toks == tokens@,
            length == toks.len(),
            at <= next <= toks.len(),
            options_from(toks, at as int).0 == each_view(options@) + options_from(
                toks,
                next as int,
            ).0,
            options_from(toks, at as int).1 == options_from(toks, next as int).1,
            done ==> option_at(toks, next as int) is None,
        decreases toks.len() - next + (if done { 0int } else { 1int }),
    {
        match parse_option(tokens, next) {
            Some(found) => {
                proof {
                    lemma_each_view_push(options@, found.0);
                    let rest = options_from(toks, found.1 as int).0;
                    assert(each_view(options@).push(found.0@) + rest =~= each_view(options@) + (
                    seq![found.0@] + rest));
                }
                options.push(found.0);
                next = found.1;
            },
            None => {
                done = true;
            },
        }
    }
    assert(each_view(options@) + Seq::<OptionElement<Seq<char>>>::empty() =~= each_view(
        options@,
    ));
    match read_word(tokens, next) {
        Some(file) => {
            let name = OptionElement::FileName(file);
            proof {
                lemma_each_view_push(options@, name);
            }
            options.push(name);
            Some((options, next + 1))
        },
        None => None,
    }
}

/// Reads the colour at `at`.
pub fn parse_color_type(tokens: &TokenSet, at: usize) -> (out: Option<(ColorType<String>, usize)>)
    ensures
        out is Some <==> color_at(tokens@, at as int) is Some,
        out matches Some(found) ==> color_at(tokens@, at as int) == Some(
            (found.0@, found.1 as int),
        ) && at < found.1 <= tokens@.len(),
{
    let length = tokens.len();
    if is_keyword(tokens, at, Keyword::Spectral) {
        let file = match read_word(tokens, at + 1) {
            Some(word) => word,
            None => return None,
        };
        match read_number(tokens, at + 2) {
            Some(factor) => Some((ColorType::Spectral(file, factor), at + 3)),
            None => Some((ColorType::Spectral(file, Number::Int(1)), at + 2)),
        }
    } else if is_keyword(tokens, at, Keyword::Xyz) {
        match read_triple(tokens, at + 1) {
            Some((triple, next)) => {
                let y = match &triple.1 {
                    Some(y) => y.duplicate(),
                    None => triple.0.duplicate(),
                };
                let z = match &triple.2 {
                    Some(z) => z.duplicate(),
                    None => triple.0.duplicate(),
                };
                Some((ColorType::CieXyz(triple.0, y, z), next))
            },
            None => None,
        }
    } else {
        let r = match read_number(tokens, at) {
            Some(number) => number,
            None => return None,
        };
        let g = match read_number(tokens, at + 1) {
            Some(number) => number,
            None => return None,
        };
        match read_number(tokens, at + 2) {
            Some(b) => Some((ColorType::Rgb(r, g, b), at + 3)),
            None => None,
        }
    }
}

/// Reads the dissolve at `at`.
pub fn parse_disolve(tokens: &TokenSet, at: usize) -> (out: Option<(DisolveType<String>, usize)>)
    ensures
        out is Some <==> disolve_at(tokens@, at as int) is Some,
        out matches Some(found) ==> disolve_at(tokens@, at as int) == Some(
            (found.0@, found.1 as int),
        ) && at < found.1 <= tokens@.len(),
{
    let length = tokens.len();
    if is_keyword(tokens, at, Keyword::Halo) {
        match read_number(tokens, at + 1) {
            Some(value) => Some((DisolveType::Halo(value), at + 2)),
            None => None,
        }
    } else {
        match read_number(tokens, at) {
            Some(value) => Some((DisolveType::Alpha(value), at + 1)),
            None => None,
        }
    }
}

/// Reads a map directive's options at `at` and makes a map of them.
fn read_cc_map(tokens: &TokenSet, at: usize) -> (out: Option<(ColorCorrectedMap<String>, usize)>)
    ensures
        out is Some <==> map_options_at(tokens@, at as int) is Some,
        out matches Some(found) ==> found.0@ == cc_map((map_options_at(tokens@, at as int)->0).0)
            && found.1 == (map_options_at(tokens@, at as int)->0).1 && at < found.1
            <= tokens@.len(),
{
    match parse_options(tokens, at) {
        Some((options, next)) => Some((ColorCorrectedMap::new(&options), next)),
        None => None,
    }
}

/// Reads a map directive's options at `at` and makes a map of them.
fn read_ncc_map(tokens: &TokenSet, at: usize) -> (out: Option<
    (NonColorCorrectedMap<String>, usize),
>)
    ensures
        out is Some <==> map_options_at(tokens@, at as int) is Some,
        out matches Some(found) ==> found.0@ == ncc_map((map_options_at(tokens@, at as int)->0).0)
            && found.1 == (map_options_at(tokens@, at as int)->0).1 && at < found.1
            <= tokens@.len(),
{
    match parse_options(tokens, at) {
        Some((options, next)) => Some((NonColorCorrectedMap::new(&options), next)),
        None => None,
    }
}

/// Reads the number behind a keyword.
fn read_value(tokens: &TokenSet, at: usize) -> (out: Option<(Number<String>, usize)>)
    requires
        at < tokens@.len(),
    ensures
        out is Some <==> number_at(tokens@, at + 1) is Some,
        out matches Some(found) ==> number_at(tokens@, at + 1) == Some(found.0@) && found.1 == at
            + 2 && found.1 <= tokens@.len(),
{
    let length = tokens.len();
    match read_number(tokens, at + 1) {
        Some(value) => Some((value, at + 2)),
        None => None,
    }
}

/// A whole number as an illumination model.
fn to_model_id(value: i32) -> (out: u32)
    ensures
        out == model_id(value),
{
    if value >= 0 {
        value as u32
    } else {
        (value as i64 + 0x1_0000_0000) as u32
    }
}

/// Reads the directive at `at`, whichever it is.
pub fn parse_material_element(tokens: &TokenSet, at: usize) -> (out: Option<
    (MaterialElement<String>, usize),
>)
    ensures
        out is Some <==> element_at(tokens@, at as int) is Some,
        out matches Some(found) ==> element_at(tokens@, at as int) == Some(
            (found.0@, found.1 as int),
        ) && at < found.1 <= tokens@.len(),
{
    let length = tokens.len();
    if at >= length {
        return None;
    }
    proof {
        lemma_token_view(tokens, at as int);
    }
    match &tokens.tokens[at] {
        Token::Keyword(keyword) => match keyword {
            Keyword::NewMaterial => match read_word(tokens, at + 1) {
                Some(name) => Some((MaterialElement::Name(name), at + 2)),
                None => None,
            },
            Keyword::AmbientColor => match parse_color_type(tokens, at + 1) {
                Some((color, next)) => Some((MaterialElement::Ambient(color), next)),
                None => None,
            },
            Keyword::DiffuseColor => match parse_color_type(tokens, at + 1) {
                Some((color, next)) => Some((MaterialElement::Diffuse(color), next)),
                None => None,
            },
            Keyword::SpecularColor => match parse_color_type(tokens, at + 1) {
                Some((color, next)) => Some((MaterialElement::Specular(color), next)),
                None => None,
            },
            Keyword::EmissiveCoefficient => match parse_color_type(tokens, at + 1) {
                Some((color, next)) => Some((MaterialElement::EmissiveCoefficient(color), next)),
                None => None,
            },
            Keyword::TransmissionFactor => match parse_color_type(tokens, at + 1) {
                Some((color, next)) => Some((MaterialElement::TransmissionFactor(color), next)),
                None => None,
            },
            Keyword::SpecularExponent => match read_value(tokens, at) {
                Some((value, next)) => Some((MaterialElement::SpecularExponent(value), next)),
                None => None,
            },
            Keyword::Transparancy => match read_value(tokens, at) {
                Some((value, next)) => Some((MaterialElement::Transparency(value), next)),
                None => None,
            },
            Keyword::Sharpness => match read_value(tokens, at) {
                Some((value, next)) => Some((MaterialElement::Sharpness(value), next)),
                None => None,
            },
            Keyword::IndexOfRefraction => match read_value(tokens, at) {
                Some((value, next)) => Some((MaterialElement::IndexOfRefraction(value), next)),
                None => None,
            },
            Keyword::Disolved => match parse_disolve(tokens, at + 1) {
                Some((value, next)) => Some((MaterialElement::Disolve(value), next)),
                None => None,
            },
            Keyword::IlluminationModel => match read_int(tokens, at + 1) {
                Some(value) => Some(
                    (MaterialElement::IlluminationModel(to_model_id(value)), at + 2),
                ),
                None => None,
            },
            Keyword::TextureMapAmbient => match read_cc_map(tokens, at + 1) {
                Some((map, next)) => Some((MaterialElement::TexMapAmbient(map), next)),
                None => None,
            },
            Keyword::TextureMapDiffuse => match read_cc_map(tokens, at + 1) {
                Some((map, next)) => Some((MaterialElement::TexMapDiffuse(map), next)),
                None => None,
            },
            Keyword::TextureMapSpecular => match read_cc_map(tokens, at + 1) {
                Some((map, next)) => Some((MaterialElement::TexMapSpecular(map), next)),
                None => None,
            },
            Keyword::TextureMapShininess => match read_ncc_map(tokens, at + 1) {
                Some((map, next)) => Some((MaterialElement::ShininessMap(map), next)),
                None => None,
            },
            Keyword::TextureMapDisolved => match read_ncc_map(tokens, at + 1) {
                Some((map, next)) => Some((MaterialElement::DisolveMap(map), next)),
                None => None,
            },
            Keyword::DisplacementMap => match read_ncc_map(tokens, at + 1) {
                Some((map, next)) => Some((MaterialElement::DisplacementMap(map), next)),
                None => None,
            },
            Keyword::Decal => match read_ncc_map(tokens, at + 1) {
                Some((map, next)) => Some((MaterialElement::Decal(map), next)),
                None => None,
            },
            Keyword::BumpMap => match parse_options(tokens, at + 1) {
                Some((options, next)) => Some(
                    (MaterialElement::BumpMap(BumpMap::new(&options)), next),
                ),
                None => None,
            },
            Keyword::ReflectionMap => match parse_options(tokens, at + 1) {
                Some((options, next)) => Some(
                    (MaterialElement::ReflectionMap(ReflectionMap::new(&options)), next),
                ),
                None => None,
            },
            Keyword::AntiAliasMap => match read_switch(tokens, at + 1) {
                Some(flag) => Some((MaterialElement::AntiAliasMap(flag), at + 2)),
                None => None,
            },
            _ => None,
        },
        _ => None,
    }
}

impl Material<String> {
    /// A material of which only the name is known.
    pub fn new(name: String) -> (out: Self)
        ensures
            out@ == named(name@),
    {
        Material {
            name,
            ambient: None,
            diffuse: None,
            specular: None,
            emissive_coefficient: None,
            specular_exponent: None,
            disolve: None,
            transparancy: None,
            transmission_factor: None,
            sharpness: None,
            index_of_refraction: None,
            illumination_mode: None,
            texture_map_ambient: None,
            texture_map_diffuse: None,
            texture_map_specular: None,
            shininess_map: None,
            disolve_map: None,
            displacement_map: None,
            decal: None,
            bump_map: None,
            reflection_map: None,
            anti_alias_map: None,
        }
    }

    /// Sets the field that `element` speaks of, whatever it held.
    pub fn set_from_material_element(&mut self, element: MaterialElement<String>)
        ensures
            final(self)@ == set_from(old(self)@, element@),
    {
        match element {
            MaterialElement::Name(name) => {
                self.name = name;
            },
            MaterialElement::Ambient(color) => {
                self.ambient = Some(color);
            },
            MaterialElement::Diffuse(color) => {
                self.diffuse = Some(color);
            },
            MaterialElement::Specular(color) => {
                self.specular = Some(color);
            },
            MaterialElement::EmissiveCoefficient(color) => {
                self.emissive_coefficient = Some(color);
            },
            MaterialElement::SpecularExponent(value) => {
                self.specular_exponent = Some(value);
            },
            MaterialElement::Disolve(value) => {
                self.disolve = Some(value);
            },
            MaterialElement::Transparency(value) => {
                self.transparancy = Some(value);
            },
            MaterialElement::TransmissionFactor(color) => {
                self.transmission_factor = Some(color);
            },
            MaterialElement::Sharpness(value) => {
                self.sharpness = Some(value);
            },
            MaterialElement::IndexOfRefraction(value) => {
                self.index_of_refraction = Some(value);
            },
            MaterialElement::IlluminationModel(id) => {
                self.illumination_mode = Some(id);
            },
            MaterialElement::TexMapAmbient(map) => {
                self.texture_map_ambient = Some(map);
            },
            MaterialElement::TexMapDiffuse(map) => {
                self.texture_map_diffuse = Some(map);
            },
            MaterialElement::TexMapSpecular(map) => {
                self.texture_map_specular = Some(map);
            },
            MaterialElement::ShininessMap(map) => {
                self.shininess_map = Some(map);
            },
            MaterialElement::DisolveMap(map) => {
                self.disolve_map = Some(map);
            },
            MaterialElement::DisplacementMap(map) => {
                self.displacement_map = Some(map);
            },
            MaterialElement::Decal(map) => {
                self.decal = Some(map);
            },
            MaterialElement::BumpMap(map) => {
                self.bump_map = Some(map);
            },
            MaterialElement::ReflectionMap(map) => {
                self.reflection_map = Some(map);
            },
            MaterialElement::AntiAliasMap(flag) => {
                self.anti_alias_map = Some(flag);
            },
        }
    }
}

/// Whether the run of directives starts a material before it sets a field.
pub open spec fn starts_named(elements: Seq<MaterialElement<Seq<char>>>) -> bool {
    elements.len() == 0 || elements[0] is Name
}

/// Folds a token sequence into materials. Fails with `Parse` where there is
/// no token at all or some token fits no directive, the error then names
/// the index of that token; and with `NewMaterial` where the directives are
/// in order but the first of them is no `newmtl`.
pub fn parse(tokens: &TokenSet) -> (out: Result<Vec<Material<String>>, MaterialError>)
    ensures
        match out {
            Ok(materials) => elements_of(tokens@) is Some && starts_named(elements_of(tokens@)->0)
                && each_view(materials@) == materials_of(elements_of(tokens@)->0),
            Err(MaterialError::Parse(detail)) => elements_of(tokens@) is None && detail@
                == "no directive at token "@ + decimal(stop_from(tokens@, 0) as nat),
            Err(MaterialError::NewMaterial) => elements_of(tokens@) is Some && !starts_named(
                elements_of(tokens@)->0,
            ),
        },
{
    let length = tokens.len();
    let ghost toks = tokens@;
    if length == 0 {
        let detail = String::from_str("no directive at token ").concat(
            nat_to_string(0).as_str(),
        );
        return Err(MaterialError::Parse(detail));
    }
    let mut materials: Vec<Material<String>> = Vec::new();
    let mut orphan = false;
    let mut at: usize = 0;
    let ghost mut seen: Seq<MaterialElement<Seq<char>>> = Seq::empty();
    while at < length
        invariant
            toks == tokens@,
            length == toks.len(),
            at <= length,
            at == 0 ==> seen.len() == 0,
            elements_from(toks, 0) == match elements_from(toks, at as int) {
                Some(rest) => Some(seen + rest),
                None => None,
            },
            stop_from(toks, 0) == stop_from(toks, at as int),
            orphan == !starts_named(seen),
            !orphan ==> each_view(materials@) == materials_of(seen),
            !orphan ==> (materials@.len() > 0 <==> seen.len() > 0),
        decreases length - at,
    {
        match parse_material_element(tokens, at) {
            Some((element, next)) => {
                proof {
                    let rest = elements_from(toks, next as int);
                    if rest is Some {
                        assert(seen.push(element@) + rest->0 =~= seen + (seq![element@] + rest->0));
                    }
                    assert(seen.push(element@).drop_last() =~= seen);
                    assert(seen.push(element@)[0] == if seen.len() == 0 {
                        element@
                    } else {
                        seen[0]
                    });
                }
                if !orphan {
                    match element {
                        MaterialElement::Name(name) => {
                            let material = Material::new(name);
                            proof {
                                lemma_each_view_push(materials@, material);
                            }
                            materials.push(material);
                        },
                        other => {
                            let count = materials.len();
                            if count > 0 {
                                let ghost before = materials@;
                                materials[count - 1].set_from_material_element(other);
                                proof {
                                    assert(each_view(materials@) =~= each_view(before).update(
                                        count - 1,
                                        set_from(each_view(before).last(), other@),
                                    ));
                                }
                            } else {
                                orphan = true;
                            }
                        },
                    }
                }
                proof {
                    seen = seen.push(element@);
                }
                at = next;
            },
            None => {
                let detail = String::from_str("no directive at token ").concat(
                    nat_to_string(at as u64).as_str(),
                );
                return Err(MaterialError::Parse(detail));
            },
        }
    }
    proof {
        assert(seen + Seq::<MaterialElement<Seq<char>>>::empty() =~= seen);
    }
    if orphan {
        Err(MaterialError::NewMaterial)
    } else {
        Ok(materials)
    }
}

} // verus!

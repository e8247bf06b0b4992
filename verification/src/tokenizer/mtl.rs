//! The material format's keywords.

use crate::text::{lower_seq, spells};
use crate::tokenizer::Keyword;
use vstd::prelude::*;

verus! {

/// The material keyword that `word` spells, letter case aside.
pub open spec fn keyword(word: Seq<char>) -> Option<Keyword> {
    let w = lower_seq(word);
    if w == "newmtl"@ {
        Some(Keyword::NewMaterial)
    } else if w == "spectral"@ {
        Some(Keyword::Spectral)
    } else if w == "xyz"@ {
        Some(Keyword::Xyz)
    } else if w == "sharpness"@ {
        Some(Keyword::Sharpness)
    } else if w == "illum"@ {
        Some(Keyword::IlluminationModel)
    } else if w == "map_disp"@ {
        Some(Keyword::DisplacementMap)
    } else if w == "map_ka"@ {
        Some(Keyword::TextureMapAmbient)
    } else if w == "map_kd"@ {
        Some(Keyword::TextureMapDiffuse)
    } else if w == "map_ks"@ {
        Some(Keyword::TextureMapSpecular)
    } else if w == "map_ns"@ {
        Some(Keyword::TextureMapShininess)
    } else if w == "map_aat"@ {
        Some(Keyword::AntiAliasMap)
    } else if w == "map_d"@ {
        Some(Keyword::TextureMapDisolved)
    } else if w == "disp"@ {
        Some(Keyword::DisplacementMap)
    } else if w == "decal"@ {
        Some(Keyword::Decal)
    } else if w == "bump"@ {
        Some(Keyword::BumpMap)
    } else if w == "refl"@ {
        Some(Keyword::ReflectionMap)
    } else if w == "-halo"@ {
        Some(Keyword::Halo)
    } else if w == "-type"@ {
        Some(Keyword::ReflectionType)
    } else if w == "-texres"@ {
        Some(Keyword::OptionTextureResolution)
    } else if w == "-blendu"@ {
        Some(Keyword::OptionBlendU)
    } else if w == "-blendv"@ {
        Some(Keyword::OptionBlendV)
    } else if w == "-boost"@ {
        Some(Keyword::OptionBoost)
    } else if w == "-clamp"@ {
        Some(Keyword::OptionClamp)
    } else if w == "-imfchan"@ {
        Some(Keyword::OptionIMFChan)
    } else if w == "-bm"@ {
        Some(Keyword::OptionBumpMultiplier)
    } else if w == "-cc"@ {
        Some(Keyword::OptionColorCorrect)
    } else if w == "-mm"@ {
        Some(Keyword::OptionRange)
    } else if w == "-o"@ {
        Some(Keyword::OptionOffset)
    } else if w == "-s"@ {
        Some(Keyword::OptionScale)
    } else if w == "-t"@ {
        Some(Keyword::OptionTurbulence)
    } else if w == "ka"@ {
        Some(Keyword::AmbientColor)
    } else if w == "kd"@ {
        Some(Keyword::DiffuseColor)
    } else if w == "ks"@ {
        Some(Keyword::SpecularColor)
    } else if w == "ke"@ {
        Some(Keyword::EmissiveCoefficient)
    } else if w == "ns"@ {
        Some(Keyword::SpecularExponent)
    } else if w == "tr"@ {
        Some(Keyword::Transparancy)
    } else if w == "tf"@ {
        Some(Keyword::TransmissionFactor)
    } else if w == "ni"@ {
        Some(Keyword::IndexOfRefraction)
    } else if w == "d"@ {
        Some(Keyword::Disolved)
    } else {
        None
    }
}

/// Looks `text[from..to]` up in the material keyword table.
pub fn kw_map(text: &[char], from: usize, to: usize) -> (found: Option<Keyword>)
    requires
        from <= to <= text@.len(),
    ensures
        found == keyword(text@.subrange(from as int, to as int)),
{
    if spells(text, from, to, "newmtl") {
        Some(Keyword::NewMaterial)
    } else if spells(text, from, to, "spectral") {
        Some(Keyword::Spectral)
    } else if spells(text, from, to, "xyz") {
        Some(Keyword::Xyz)
    } else if spells(text, from, to, "sharpness") {
        Some(Keyword::Sharpness)
    } else if spells(text, from, to, "illum") {
        Some(Keyword::IlluminationModel)
    } else if spells(text, from, to, "map_disp") {
        Some(Keyword::DisplacementMap)
    } else if spells(text, from, to, "map_ka") {
        Some(Keyword::TextureMapAmbient)
    } else if spells(text, from, to, "map_kd") {
        Some(Keyword::TextureMapDiffuse)
    } else if spells(text, from, to, "map_ks") {
        Some(Keyword::TextureMapSpecular)
    } else if spells(text, from, to, "map_ns") {
        Some(Keyword::TextureMapShininess)
    } else if spells(text, from, to, "map_aat") {
        Some(Keyword::AntiAliasMap)
    } else if spells(text, from, to, "map_d") {
        Some(Keyword::TextureMapDisolved)
    } else if spells(text, from, to, "disp") {
        Some(Keyword::DisplacementMap)
    } else if spells(text, from, to, "decal") {
        Some(Keyword::Decal)
    } else if spells(text, from, to, "bump") {
        Some(Keyword::BumpMap)
    } else if spells(text, from, to, "refl") {
        Some(Keyword::ReflectionMap)
    } else if spells(text, from, to, "-halo") {
        Some(Keyword::Halo)
    } else if spells(text, from, to, "-type") {
        Some(Keyword::ReflectionType)
    } else if spells(text, from, to, "-texres") {
        Some(Keyword::OptionTextureResolution)
    } else if spells(text, from, to, "-blendu") {
        Some(Keyword::OptionBlendU)
    } else if spells(text, from, to, "-blendv") {
        Some(Keyword::OptionBlendV)
    } else if spells(text, from, to, "-boost") {
        Some(Keyword::OptionBoost)
    } else if spells(text, from, to, "-clamp") {
        Some(Keyword::OptionClamp)
    } else if spells(text, from, to, "-imfchan") {
        Some(Keyword::OptionIMFChan)
    } else if spells(text, from, to, "-bm") {
        Some(Keyword::OptionBumpMultiplier)
    } else if spells(text, from, to, "-cc") {
        Some(Keyword::OptionColorCorrect)
    } else if spells(text, from, to, "-mm") {
        Some(Keyword::OptionRange)
    } else if spells(text, from, to, "-o") {
        Some(Keyword::OptionOffset)
    } else if spells(text, from, to, "-s") {
        Some(Keyword::OptionScale)
    } else if spells(text, from, to, "-t") {
        Some(Keyword::OptionTurbulence)
    } else if spells(text, from, to, "ka") {
        Some(Keyword::AmbientColor)
    } else if spells(text, from, to, "kd") {
        Some(Keyword::DiffuseColor)
    } else if spells(text, from, to, "ks") {
        Some(Keyword::SpecularColor)
    } else if spells(text, from, to, "ke") {
        Some(Keyword::EmissiveCoefficient)
    } else if spells(text, from, to, "ns") {
        Some(Keyword::SpecularExponent)
    } else if spells(text, from, to, "tr") {
        Some(Keyword::Transparancy)
    } else if spells(text, from, to, "tf") {
        Some(Keyword::TransmissionFactor)
    } else if spells(text, from, to, "ni") {
        Some(Keyword::IndexOfRefraction)
    } else if spells(text, from, to, "d") {
        Some(Keyword::Disolved)
    } else {
        None
    }
}

/// No keyword starts with `#`.
pub proof fn lemma_keyword_start(word: Seq<char>)
    requires
        keyword(word) is Some,
    ensures
        word.len() > 0,
        word[0] != '#',
{
    let w = lower_seq(word);
    assert(w.len() == word.len());
    if word.len() > 0 {
        assert(w[0] == crate::text::lower(word[0]));
    }
    reveal_strlit("newmtl");
    reveal_strlit("spectral");
    reveal_strlit("xyz");
    reveal_strlit("sharpness");
    reveal_strlit("illum");
    reveal_strlit("map_disp");
    reveal_strlit("map_ka");
    reveal_strlit("map_kd");
    reveal_strlit("map_ks");
    reveal_strlit("map_ns");
    reveal_strlit("map_aat");
    reveal_strlit("map_d");
    reveal_strlit("disp");
    reveal_strlit("decal");
    reveal_strlit("bump");
    reveal_strlit("refl");
    reveal_strlit("-halo");
    reveal_strlit("-type");
    reveal_strlit("-texres");
    reveal_strlit("-blendu");
    reveal_strlit("-blendv");
    reveal_strlit("-boost");
    reveal_strlit("-clamp");
    reveal_strlit("-imfchan");
    reveal_strlit("-bm");
    reveal_strlit("-cc");
    reveal_strlit("-mm");
    reveal_strlit("-o");
    reveal_strlit("-s");
    reveal_strlit("-t");
    reveal_strlit("ka");
    reveal_strlit("kd");
    reveal_strlit("ks");
    reveal_strlit("ke");
    reveal_strlit("ns");
    reveal_strlit("tr");
    reveal_strlit("tf");
    reveal_strlit("ni");
    reveal_strlit("d");
}

} // verus!

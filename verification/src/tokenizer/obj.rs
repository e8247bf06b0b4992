//! The geometry format's keywords.

use crate::text::{lower_seq, spells};
use crate::tokenizer::Keyword;
use vstd::prelude::*;

verus! {

/// The geometry keyword that `word` spells, letter case aside.
pub open spec fn keyword(word: Seq<char>) -> Option<Keyword> {
    let w = lower_seq(word);
    if w == "mtllib"@ {
        Some(Keyword::MaterialLib)
    } else if w == "usemtl"@ {
        Some(Keyword::UseMaterial)
    } else if w == "bevel"@ {
        Some(Keyword::Bevel)
    } else if w == "c_interp"@ {
        Some(Keyword::CInterp)
    } else if w == "d_interp"@ {
        Some(Keyword::DInterp)
    } else if w == "lod"@ {
        Some(Keyword::Lod)
    } else if w == "shadow_obj"@ {
        Some(Keyword::ShadowObj)
    } else if w == "trace_obj"@ {
        Some(Keyword::TraceObj)
    } else if w == "maplib"@ {
        Some(Keyword::TextureMapLib)
    } else if w == "usemap"@ {
        Some(Keyword::UseTextureMap)
    } else if w == "vt"@ {
        Some(Keyword::VertexTexture)
    } else if w == "vn"@ {
        Some(Keyword::VertexNormal)
    } else if w == "vp"@ {
        Some(Keyword::VertexParam)
    } else if w == "v"@ {
        Some(Keyword::Vertex)
    } else if w == "f"@ {
        Some(Keyword::Face)
    } else if w == "l"@ {
        Some(Keyword::Line)
    } else if w == "p"@ {
        Some(Keyword::Point)
    } else if w == "o"@ {
        Some(Keyword::Object)
    } else if w == "g"@ {
        Some(Keyword::Group)
    } else if w == "s"@ {
        Some(Keyword::Smoothing)
    } else {
        None
    }
}

/// Looks `text[from..to]` up in the geometry keyword table.
pub fn kw_map(text: &[char], from: usize, to: usize) -> (found: Option<Keyword>)
    requires
        from <= to <= text@.len(),
    ensures
        found == keyword(text@.subrange(from as int, to as int)),
{
    if spells(text, from, to, "mtllib") {
        Some(Keyword::MaterialLib)
    } else if spells(text, from, to, "usemtl") {
        Some(Keyword::UseMaterial)
    } else if spells(text, from, to, "bevel") {
        Some(Keyword::Bevel)
    } else if spells(text, from, to, "c_interp") {
        Some(Keyword::CInterp)
    } else if spells(text, from, to, "d_interp") {
        Some(Keyword::DInterp)
    } else if spells(text, from, to, "lod") {
        Some(Keyword::Lod)
    } else if spells(text, from, to, "shadow_obj") {
        Some(Keyword::ShadowObj)
    } else if spells(text, from, to, "trace_obj") {
        Some(Keyword::TraceObj)
    } else if spells(text, from, to, "maplib") {
        Some(Keyword::TextureMapLib)
    } else if spells(text, from, to, "usemap") {
        Some(Keyword::UseTextureMap)
    } else if spells(text, from, to, "vt") {
        Some(Keyword::VertexTexture)
    } else if spells(text, from, to, "vn") {
        Some(Keyword::VertexNormal)
    } else if spells(text, from, to, "vp") {
        Some(Keyword::VertexParam)
    } else if spells(text, from, to, "v") {
        Some(Keyword::Vertex)
    } else if spells(text, from, to, "f") {
        Some(Keyword::Face)
    } else if spells(text, from, to, "l") {
        Some(Keyword::Line)
    } else if spells(text, from, to, "p") {
        Some(Keyword::Point)
    } else if spells(text, from, to, "o") {
        Some(Keyword::Object)
    } else if spells(text, from, to, "g") {
        Some(Keyword::Group)
    } else if spells(text, from, to, "s") {
        Some(Keyword::Smoothing)
    } else {
        None
    }
}

/// No keyword starts with `#`.
pub proof fn lemma_keyword_start(word: Seq<char>)
    requires
        keyword(word) is Some,
    ensures
        word.len() > 0,
        word[0] != '#',
{
    let w = lower_seq(word);
    assert(w.len() == word.len());
    if word.len() > 0 {
        assert(w[0] == crate::text::lower(word[0]));
    }
    reveal_strlit("mtllib");
    reveal_strlit("usemtl");
    reveal_strlit("bevel");
    reveal_strlit("c_interp");
    reveal_strlit("d_interp");
    reveal_strlit("lod");
    reveal_strlit("shadow_obj");
    reveal_strlit("trace_obj");
    reveal_strlit("maplib");
    reveal_strlit("usemap");
    reveal_strlit("vt");
    reveal_strlit("vn");
    reveal_strlit("vp");
    reveal_strlit("v");
    reveal_strlit("f");
    reveal_strlit("l");
    reveal_strlit("p");
    reveal_strlit("o");
    reveal_strlit("g");
    reveal_strlit("s");
}

} // verus!

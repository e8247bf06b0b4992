use nobject_rs::load_mtl;
use nobject_rs::material as lib;
use nobject_rs::number::Number;
use nobject_rs::tokenizer::{parse_mtl, Keyword, Token};

fn literal(text: &str) -> f32 {
    let negative = text.starts_with('-');
    let digits = text.trim_start_matches(|c| c == '+' || c == '-');
    let value = digits.parse::<f32>().unwrap_or_default();
    if negative {
        value * -1.0
    } else {
        value
    }
}

fn value(number: &Number<String>) -> f32 {
    match number {
        Number::Int(i) => *i as f32,
        Number::Float(text) => literal(text),
    }
}

fn float(token: &Token<String>) -> f32 {
    match token {
        Token::Float(text) => literal(text),
        other => panic!("not a float: {:?}", other),
    }
}

#[derive(Debug, Clone, PartialEq)]
enum ColorType {
    Rgb(f32, f32, f32),
    Spectral(String, f32),
    CieXyz(f32, f32, f32),
}

#[derive(Debug, Clone, Copy, PartialEq)]
enum DisolveType {
    Alpha(f32),
    Halo(f32),
}

#[derive(Debug, Default, Clone, PartialEq)]
struct ColorCorrectedMap {
    file_name: String,
    blend_u: Option<bool>,
    blend_v: Option<bool>,
    color_correct: Option<bool>,
    clamp: Option<bool>,
    texture_range: Option<(f32, f32)>,
    offset: Option<(f32, Option<f32>, Option<f32>)>,
    scale: Option<(f32, Option<f32>, Option<f32>)>,
    turbulance: Option<(f32, Option<f32>, Option<f32>)>,
    texture_res: Option<i32>,
}

#[derive(Debug, Default, Clone, PartialEq)]
struct NonColorCorrectedMap {
    file_name: String,
    blend_u: Option<bool>,
    blend_v: Option<bool>,
    clamp: Option<bool>,
    imf_chan: Option<String>,
    texture_range: Option<(f32, f32)>,
    offset: Option<(f32, Option<f32>, Option<f32>)>,
    scale: Option<(f32, Option<f32>, Option<f32>)>,
    turbulance: Option<(f32, Option<f32>, Option<f32>)>,
    texture_res: Option<i32>,
}

#[derive(Debug, Default, Clone, PartialEq)]
struct BumpMap {
    bump_multiplier: Option<f32>,
    map_settings: Option<NonColorCorrectedMap>,
}

#[derive(Debug, Default, Clone, PartialEq)]
struct ReflectionMap {
    reflection_type: String,
    map_settings: Option<ColorCorrectedMap>,
}

#[derive(Debug, Default, Clone, PartialEq)]
struct Material {
    name: String,
    ambient: Option<ColorType>,
    diffuse: Option<ColorType>,
    specular: Option<ColorType>,
    emissive_coefficient: Option<ColorType>,
    specular_exponent: Option<f32>,
    disolve: Option<DisolveType>,
    transparancy: Option<f32>,
    transmission_factor: Option<ColorType>,
    sharpness: Option<f32>,
    index_of_refraction: Option<f32>,
    illumination_mode: Option<u32>,
    texture_map_ambient: Option<ColorCorrectedMap>,
    texture_map_diffuse: Option<ColorCorrectedMap>,
    texture_map_specular: Option<ColorCorrectedMap>,
    shininess_map: Option<NonColorCorrectedMap>,
    disolve_map: Option<NonColorCorrectedMap>,
    displacement_map: Option<NonColorCorrectedMap>,
    decal: Option<NonColorCorrectedMap>,
    bump_map: Option<BumpMap>,
    reflection_map: Option<ReflectionMap>,
    anti_alias_map: Option<bool>,
}

fn color(c: &lib::ColorType<String>) -> ColorType {
    match c {
        lib::ColorType::Rgb(r, g, b) => ColorType::Rgb(value(r), value(g), value(b)),
        lib::ColorType::Spectral(file, factor) => ColorType::Spectral(file.clone(), value(factor)),
        lib::ColorType::CieXyz(x, y, z) => ColorType::CieXyz(value(x), value(y), value(z)),
    }
}

fn disolve(d: &lib::DisolveType<String>) -> DisolveType {
    match d {
        lib::DisolveType::Alpha(v) => DisolveType::Alpha(value(v)),
        lib::DisolveType::Halo(v) => DisolveType::Halo(value(v)),
    }
}

fn pair(p: &(Number<String>, Number<String>)) -> (f32, f32) {
    (value(&p.0), value(&p.1))
}

fn triple(
    t: &(Number<String>, Option<Number<String>>, Option<Number<String>>),
) -> (f32, Option<f32>, Option<f32>) {
    (value(&t.0), t.1.as_ref().map(value), t.2.as_ref().map(value))
}

fn cc(m: &lib::ColorCorrectedMap<String>) -> ColorCorrectedMap {
    ColorCorrectedMap {
        file_name: m.file_name.clone(),
        blend_u: m.blend_u,
        blend_v: m.blend_v,
        color_correct: m.color_correct,
        clamp: m.clamp,
        texture_range: m.texture_range.as_ref().map(pair),
        offset: m.offset.as_ref().map(triple),
        scale: m.scale.as_ref().map(triple),
        turbulance: m.turbulance.as_ref().map(triple),
        texture_res: m.texture_res,
    }
}

fn ncc(m: &lib::NonColorCorrectedMap<String>) -> NonColorCorrectedMap {
    NonColorCorrectedMap {
        file_name: m.file_name.clone(),
        blend_u: m.blend_u,
        blend_v: m.blend_v,
        clamp: m.clamp,
        imf_chan: m.imf_chan.clone(),
        texture_range: m.texture_range.as_ref().map(pair),
        offset: m.offset.as_ref().map(triple),
        scale: m.scale.as_ref().map(triple),
        turbulance: m.turbulance.as_ref().map(triple),
        texture_res: m.texture_res,
    }
}

fn plain(m: &lib::Material<String>) -> Material {
    Material {
        name: m.name.clone(),
        ambient: m.ambient.as_ref().map(color),
        diffuse: m.diffuse.as_ref().map(color),
        specular: m.specular.as_ref().map(color),
        emissive_coefficient: m.emissive_coefficient.as_ref().map(color),
        specular_exponent: m.specular_exponent.as_ref().map(value),
        disolve: m.disolve.as_ref().map(disolve),
        transparancy: m.transparancy.as_ref().map(value),
        transmission_factor: m.transmission_factor.as_ref().map(color),
        sharpness: m.sharpness.as_ref().map(value),
        index_of_refraction: m.index_of_refraction.as_ref().map(value),
        illumination_mode: m.illumination_mode,
        texture_map_ambient: m.texture_map_ambient.as_ref().map(cc),
        texture_map_diffuse: m.texture_map_diffuse.as_ref().map(cc),
        texture_map_specular: m.texture_map_specular.as_ref().map(cc),
        shininess_map: m.shininess_map.as_ref().map(ncc),
        disolve_map: m.disolve_map.as_ref().map(ncc),
        displacement_map: m.displacement_map.as_ref().map(ncc),
        decal: m.decal.as_ref().map(ncc),
        bump_map: m.bump_map.as_ref().map(|b| BumpMap {
            bump_multiplier: b.bump_multiplier.as_ref().map(value),
            map_settings: b.map_settings.as_ref().map(ncc),
        }),
        reflection_map: m.reflection_map.as_ref().map(|r| ReflectionMap {
            reflection_type: r.reflection_type.clone(),
            map_settings: r.map_settings.as_ref().map(cc),
        }),
        anti_alias_map: m.anti_alias_map,
    }
}

#[test]
fn mtl_parse_simple_comment() {
    let vert = "# whatever this is a comment";
    let res = parse_mtl(vert);
    assert!(res.is_ok());
    let tokens = res.unwrap();
    assert_eq!(tokens.len(), 0);
}

#[test]
fn mtl_parse_simple_comment_2() {
    let vert = "#whatever this is a comment";
    let res = parse_mtl(vert);
    assert!(res.is_ok());
    let tokens = res.unwrap();
    assert_eq!(tokens.len(), 0);
}

#[test]
fn parse_texres() {
    let vert = "-texres 512";
    let res = parse_mtl(vert);
    assert!(res.is_ok());
    let tokens = res.unwrap();
    assert_eq!(tokens.len(), 2);
    assert_eq!(tokens.tokens[0], Token::Keyword(Keyword::OptionTextureResolution));
    assert_eq!(tokens.tokens[1], Token::Int(512));
}

#[test]
fn parse_turbulence_1() {
    let vert = "-t 1.2";
    let res = parse_mtl(vert);
    assert!(res.is_ok());
    let tokens = res.unwrap();
    assert_eq!(tokens.len(), 2);
    assert_eq!(tokens.tokens[0], Token::Keyword(Keyword::OptionTurbulence));
    assert_eq!(float(&tokens.tokens[1]), 1.2);
}

#[test]
fn parse_turbulence_2() {
    let vert = "-t 1.2 1.3";
    let res = parse_mtl(vert);
    assert!(res.is_ok());
    let tokens = res.unwrap();
    assert_eq!(tokens.len(), 3);
    assert_eq!(tokens.tokens[0], Token::Keyword(Keyword::OptionTurbulence));
    assert_eq!(float(&tokens.tokens[1]), 1.2);
    assert_eq!(float(&tokens.tokens[2]), 1.3);
}

#[test]
fn parse_turbulence_3() {
    let vert = "-t 1.2 1.3 1.4";
    let res = parse_mtl(vert);
    assert!(res.is_ok());
    let tokens = res.unwrap();
    assert_eq!(tokens.len(), 4);
    assert_eq!(tokens.tokens[0], Token::Keyword(Keyword::OptionTurbulence));
    assert_eq!(float(&tokens.tokens[1]), 1.2);
    assert_eq!(float(&tokens.tokens[2]), 1.3);
    assert_eq!(float(&tokens.tokens[3]), 1.4);
}

#[test]
fn parse_scale_1() {
    let vert = "-s 1.2";
    let res = parse_mtl(vert);
    assert!(res.is_ok());
    let tokens = res.unwrap();
    assert_eq!(tokens.len(), 2);
    assert_eq!(tokens.tokens[0], Token::Keyword(Keyword::OptionScale));
    assert_eq!(float(&tokens.tokens[1]), 1.2);
}

#[test]
fn parse_scale_2() {
    let vert = "-s 1.2 1.3";
    let res = parse_mtl(vert);
    assert!(res.is_ok());
    let tokens = res.unwrap();
    assert_eq!(tokens.len(), 3);
    assert_eq!(tokens.tokens[0], Token::Keyword(Keyword::OptionScale));
    assert_eq!(float(&tokens.tokens[1]), 1.2);
    assert_eq!(float(&tokens.tokens[2]), 1.3);
}

#[test]
fn parse_scale_3() {
    let vert = "-s 1.2 1.3 1.4";
    let res = parse_mtl(vert);
    assert!(res.is_ok());
    let tokens = res.unwrap();
    assert_eq!(tokens.len(), 4);
    assert_eq!(tokens.tokens[0], Token::Keyword(Keyword::OptionScale));
    assert_eq!(float(&tokens.tokens[1]), 1.2);
    assert_eq!(float(&tokens.tokens[2]), 1.3);
    assert_eq!(float(&tokens.tokens[3]), 1.4);
}

#[test]
fn parse_offset_1() {
    let vert = "-o 1.2";
    let res = parse_mtl(vert);
    assert!(res.is_ok());
    let tokens = res.unwrap();
    assert_eq!(tokens.len(), 2);
    assert_eq!(tokens.tokens[0], Token::Keyword(Keyword::OptionOffset));
    assert_eq!(float(&tokens.tokens[1]), 1.2);
}

#[test]
fn parse_offset_2() {
    let vert = "-o 1.2 1.3";
    let res = parse_mtl(vert);
    assert!(res.is_ok());
    let tokens = res.unwrap();
    assert_eq!(tokens.len(), 3);
    assert_eq!(tokens.tokens[0], Token::Keyword(Keyword::OptionOffset));
    assert_eq!(float(&tokens.tokens[1]), 1.2);
    assert_eq!(float(&tokens.tokens[2]), 1.3);
}

#[test]
fn parse_offset_3() {
    let vert = "-o 1.2 1.3 1.4";
    let res = parse_mtl(vert);
    assert!(res.is_ok());
    let tokens = res.unwrap();
    assert_eq!(tokens.len(), 4);
    assert_eq!(tokens.tokens[0], Token::Keyword(Keyword::OptionOffset));
    assert_eq!(float(&tokens.tokens[1]), 1.2);
    assert_eq!(float(&tokens.tokens[2]), 1.3);
    assert_eq!(float(&tokens.tokens[3]), 1.4);
}

#[test]
fn parse_range() {
    let vert = "-mm 1.0 2.0";
    let res = parse_mtl(vert);
    assert!(res.is_ok());
    let tokens = res.unwrap();
    assert_eq!(tokens.len(), 3);
    assert_eq!(tokens.tokens[0], Token::Keyword(Keyword::OptionRange));
    assert_eq!(float(&tokens.tokens[1]), 1.0);
    assert_eq!(float(&tokens.tokens[2]), 2.0);
}

#[test]
fn parse_imfchan() {
    let vert = "-imfchan r";
    let res = parse_mtl(vert);
    assert!(res.is_ok());
    let tokens = res.unwrap();
    assert_eq!(tokens.len(), 2);
    assert_eq!(tokens.tokens[0], Token::Keyword(Keyword::OptionIMFChan));
    assert_eq!(tokens.tokens[1], Token::String("r".into()));
}

#[test]
fn parse_clamp() {
    let vert = "-clamp on";
    let res = parse_mtl(vert);
    assert!(res.is_ok());
    let tokens = res.unwrap();
    assert_eq!(tokens.len(), 2);
    assert_eq!(tokens.tokens[0], Token::Keyword(Keyword::OptionClamp));
    assert_eq!(tokens.tokens[1], Token::String("on".into()));
}

#[test]
fn parse_cc() {
    let vert = "-cc on";
    let res = parse_mtl(vert);
    assert!(res.is_ok());
    let tokens = res.unwrap();
    assert_eq!(tokens.len(), 2);
    assert_eq!(tokens.tokens[0], Token::Keyword(Keyword::OptionColorCorrect));
    assert_eq!(tokens.tokens[1], Token::String("on".into()));
}

#[test]
fn parse_boost() {
    let vert = "-boost 1.2";
    let res = parse_mtl(vert);
    assert!(res.is_ok());
    let tokens = res.unwrap();
    assert_eq!(tokens.len(), 2);
    assert_eq!(tokens.tokens[0], Token::Keyword(Keyword::OptionBoost));
    assert_eq!(float(&tokens.tokens[1]), 1.2);
}

#[test]
fn parse_bm() {
    let vert = "-bm 1.2";
    let res = parse_mtl(vert);
    assert!(res.is_ok());
    let tokens = res.unwrap();
    assert_eq!(tokens.len(), 2);
    assert_eq!(tokens.tokens[0], Token::Keyword(Keyword::OptionBumpMultiplier));
    assert_eq!(float(&tokens.tokens[1]), 1.2);
}

#[test]
fn parse_blendv() {
    let vert = "-blendv on";
    let res = parse_mtl(vert);
    assert!(res.is_ok());
    let tokens = res.unwrap();
    assert_eq!(tokens.len(), 2);
    assert_eq!(tokens.tokens[0], Token::Keyword(Keyword::OptionBlendV));
    assert_eq!(tokens.tokens[1], Token::String("on".into()));
}

#[test]
fn parse_blendu() {
    let vert = "-blendu on";
    let res = parse_mtl(vert);
    assert!(res.is_ok());
    let tokens = res.unwrap();
    assert_eq!(tokens.len(), 2);
    assert_eq!(tokens.tokens[0], Token::Keyword(Keyword::OptionBlendU));
    assert_eq!(tokens.tokens[1], Token::String("on".into()));
}

#[test]
fn parse_refl_1() {
    let vert = "refl -type sphere -mm 0.2 1.2 clouds.mpc";
    let res = parse_mtl(vert);
    assert!(res.is_ok());
    let tokens = res.unwrap();
    assert_eq!(tokens.len(), 7);
    assert_eq!(tokens.tokens[0], Token::Keyword(Keyword::ReflectionMap));
    assert_eq!(tokens.tokens[1], Token::Keyword(Keyword::ReflectionType));
    assert_eq!(tokens.tokens[2], Token::String("sphere".into()));
    assert_eq!(tokens.tokens[3], Token::Keyword(Keyword::OptionRange));
    assert_eq!(float(&tokens.tokens[4]), 0.2);
    assert_eq!(float(&tokens.tokens[5]), 1.2);
    assert_eq!(tokens.tokens[6], Token::String("clouds.mpc".into()));
}

#[test]
fn parse_tf_spectral() {
    let vert = "Tf spectral file.rfl 1.0";
    let res = parse_mtl(vert);
    assert!(res.is_ok());
    let tokens = res.unwrap();
    assert_eq!(tokens.len(), 4);
    assert_eq!(tokens.tokens[0], Token::Keyword(Keyword::TransmissionFactor));
    assert_eq!(tokens.tokens[1], Token::Keyword(Keyword::Spectral));
    assert_eq!(tokens.tokens[2], Token::String("file.rfl".into()));
    assert_eq!(float(&tokens.tokens[3]), 1.0);
}

#[test]
fn neon_green() {
    let res = load_mtl(&"newmtl neon_green
Kd 0.0000 1.0000 0.0000
illum 0").unwrap();
    assert_eq!(res.len(), 1);
    let mat = plain(res.first().unwrap());
    let expected =
    Material {
        name: "neon_green".to_string(),
        diffuse: Some(ColorType::Rgb(0.0, 1.0, 0.0)),
        illumination_mode: Some(0),
        ..Default::default()
    };
    assert_eq!(mat, expected);
}

#[test]
fn frosted_window() {
    let res = load_mtl(&"newmtl frost_wind
    Ka 0.2 0.2 0.2
    Kd 0.6 0.6 0.6
    Ks 0.1 0.1 0.1
    d 1
    Ns 200
    illum 2
    map_d -mm 0.200 0.800 window.mps").unwrap();
    assert_eq!(res.len(), 1);
    let mat = plain(res.first().unwrap());
    let expected =
    Material {
        name: "frost_wind".to_string(),
        ambient: Some(ColorType::Rgb(0.2, 0.2, 0.2)),
        diffuse: Some(ColorType::Rgb(0.6, 0.6, 0.6)),
        specular: Some(ColorType::Rgb(0.1, 0.1, 0.1)),
        disolve: Some(DisolveType::Alpha(1.0)),
        specular_exponent: Some(200.0),
        illumination_mode: Some(2),
        disolve_map: Some(NonColorCorrectedMap {
            texture_range: Some((0.2, 0.8)),
            file_name: "window.mps".into(),
            ..Default::default()
        }),
        ..Default::default()
    };
    assert_eq!(mat, expected);
}

#[test]
fn flat_green_test() {
    let res = load_mtl(&"newmtl flat_green
 Ka 0.0000 1.0000 0.0000
 Kd 0.0000 1.0000 0.0000
 illum 1").unwrap();
    assert_eq!(res.len(), 1);
    let mat = plain(res.first().unwrap());
    let expected =
    Material {
        name: "flat_green".into(),
        ambient: Some(ColorType::Rgb(0.0, 1.0, 0.0)),
        diffuse: Some(ColorType::Rgb(0.0, 1.0, 0.0)),
        illumination_mode: Some(1),
        ..Default::default()
    };
    assert_eq!(mat, expected);
}

#[test]
fn pine_wood_test() {
    let res = load_mtl(&"newmtl pine_wood
 Ka spectral ident.rfl 1
 Kd spectral ident.rfl 1
 illum 1
 map_Ka pine.mpc
 map_Kd pine.mpc").unwrap();
    assert_eq!(res.len(), 1);
    let mat = plain(res.first().unwrap());
    let expected =
    Material {
        name: "pine_wood".into(),
        ambient: Some(ColorType::Spectral("ident.rfl".into(), 1.0)),
        diffuse: Some(ColorType::Spectral("ident.rfl".into(), 1.0)),
        illumination_mode: Some(1),
        texture_map_ambient: Some(ColorCorrectedMap {
            file_name: "pine.mpc".into(),
            ..Default::default()
        }),
        texture_map_diffuse: Some(ColorCorrectedMap {
            file_name: "pine.mpc".into(),
            ..Default::default()
        }),
        ..Default::default()
    };
    assert_eq!(mat, expected);
}

#[test]
fn tin_test() {
    let res = load_mtl(&"newmtl tin
 Ka spectral tin.rfl
 Kd spectral tin.rfl
 Ks spectral tin.rfl
 Ns 200
 illum 3").unwrap();
    assert_eq!(res.len(), 1);
    let mat = plain(res.first().unwrap());
    let expected =
    Material {
        name: "tin".into(),
        ambient: Some(ColorType::Spectral("tin.rfl".into(), 1.0)),
        diffuse: Some(ColorType::Spectral("tin.rfl".into(), 1.0)),
        specular: Some(ColorType::Spectral("tin.rfl".into(), 1.0)),
        illumination_mode: Some(3),
        specular_exponent: Some(200.0),
        ..Default::default()
    };
    assert_eq!(mat, expected);
}

#[test]
fn bump_leath_test() {
    let res = load_mtl(&"newmtl bumpy_leath
 Ka spectral ident.rfl 1
 Kd spectral ident.rfl 1
 Ks spectral ident.rfl 1
 illum 2
 map_Ka brown.mpc
 map_Kd brown.mpc
 map_Ks brown.mpc
 bump -bm 2.000 leath.mpb").unwrap();
    assert_eq!(res.len(), 1);
    let mat = plain(res.first().unwrap());
    let expected =
    Material {
        name: "bumpy_leath".into(),
        ambient: Some(ColorType::Spectral("ident.rfl".into(), 1.0)),
        diffuse: Some(ColorType::Spectral("ident.rfl".into(), 1.0)),
        specular: Some(ColorType::Spectral("ident.rfl".into(), 1.0)),
        illumination_mode: Some(2),
        texture_map_ambient: Some(ColorCorrectedMap {
            file_name: "brown.mpc".into(),
            ..Default::default()
        }),
        texture_map_diffuse: Some(ColorCorrectedMap {
            file_name: "brown.mpc".into(),
            ..Default::default()
        }),
        texture_map_specular: Some(ColorCorrectedMap {
            file_name: "brown.mpc".into(),
            ..Default::default()
        }),
        bump_map: Some(BumpMap {
            bump_multiplier: Some(2.0),
            map_settings:    Some(NonColorCorrectedMap {
                file_name: "leath.mpb".into(),
                ..Default::default()
            }),
        }),
        ..Default::default()
    };
    assert_eq!(mat, expected);
}

#[test]
fn logo_test() {
    let res = load_mtl(&"newmtl logo
 Ka spectral ident.rfl 1
 Kd spectral ident.rfl 1
 Ks spectral ident.rfl 1
 illum 2
 map_Ka -s 1.200 1.200 0.000 logo.mpc
 map_Kd -s 1.200 1.200 0.000 logo.mpc
 map_Ks -s 1.200 1.200 0.000 logo.mpc").unwrap();
    assert_eq!(res.len(), 1);
    let mat = plain(res.first().unwrap());
    let expected =
    Material {
        name: "logo".into(),
        ambient: Some(ColorType::Spectral("ident.rfl".into(), 1.0)),
        diffuse: Some(ColorType::Spectral("ident.rfl".into(), 1.0)),
        specular: Some(ColorType::Spectral("ident.rfl".into(), 1.0)),
        illumination_mode: Some(2),
        texture_map_ambient: Some(ColorCorrectedMap {
            file_name: "logo.mpc".into(),
            scale: Some((1.2, Some(1.2), Some(0.0))),
            ..Default::default()
        }),
        texture_map_diffuse: Some(ColorCorrectedMap {
            file_name: "logo.mpc".into(),
            scale: Some((1.2, Some(1.2), Some(0.0))),
            ..Default::default()
        }),
        texture_map_specular: Some(ColorCorrectedMap {
            file_name: "logo.mpc".into(),
            scale: Some((1.2, Some(1.2), Some(0.0))),
            ..Default::default()
        }),
        ..Default::default()
    };
    assert_eq!(mat, expected);
}

#[test]
fn reflection_material() {
    let res = load_mtl(&"newmtl reflection
 ka 0 0 0
 kd 0 0 0
 ks .7 .7 .7
 illum 1
 refl -type sphere chrome.rla").unwrap();
    assert_eq!(res.len(), 1);
    let mat = plain(res.first().unwrap());
    let expected =
    Material {
        name: "reflection".into(),
        ambient: Some(ColorType::Rgb(0.0, 0.0, 0.0)),
        diffuse: Some(ColorType::Rgb(0.0, 0.0, 0.0)),
        specular: Some(ColorType::Rgb(0.7, 0.7, 0.7)),
        illumination_mode: Some(1),
        reflection_map: Some(ReflectionMap {
            reflection_type: "sphere".into(),
            map_settings:    Some(ColorCorrectedMap {
                file_name: "chrome.rla".into(),
                ..Default::default()
            }),
        }),
        ..Default::default()
    };
    assert_eq!(mat, expected);
}

#[test]
fn moon_test() {
    let res = load_mtl(&"# Material Count: 1
    
    newmtl Moon
    Ns 96.078431
    Ka 1.000000 1.000000 1.000000
    Kd 0.640000 0.640000 0.640000
    Ks 0.500000 0.500000 0.500000
    Ke 0.000000 0.000000 0.000000
    Ni 1.000000
    d 1.000000
    map_Kd -o 0 0 0 Diffuse_2K.png
    bump -o 0 0 0 Bump_2K.png
    illum 2
    ").unwrap();
    assert_eq!(res.len(), 1);
    let mat = plain(res.first().unwrap());
    let expected =
    Material {
        name: "Moon".into(),
        ambient: Some(ColorType::Rgb(1.0, 1.0, 1.0)),
        diffuse: Some(ColorType::Rgb(0.64, 0.64, 0.64)),
        specular: Some(ColorType::Rgb(0.5, 0.5, 0.5)),
        emissive_coefficient: Some(ColorType::Rgb(0.0, 0.0, 0.0)),
        specular_exponent: Some(96.078431),
        index_of_refraction: Some(1.0),
        disolve: Some(DisolveType::Alpha(1.0)),
        texture_map_diffuse: Some(ColorCorrectedMap {
            offset: Some((0.0, Some(0.0), Some(0.0))),
            file_name: "Diffuse_2K.png".into(),
            ..Default::default()
        }),
        bump_map: Some(BumpMap {
            map_settings: Some(NonColorCorrectedMap {
                offset: Some((0.0, Some(0.0), Some(0.0))),
                file_name: "Bump_2K.png".into(),
                ..Default::default()
            }),
            ..Default::default()
        }),
        illumination_mode: Some(2),
        ..Default::default()
    };
    assert_eq!(mat, expected);
}

#[test]
fn sponza_mat_test() {
    let res = load_mtl(&"newmtl Material__25
    Ns 7.843137
    Ka 0.000000 0.000000 0.000000
    Kd 0.470400 0.470400 0.470400
    Ks 0.000000 0.000000 0.000000
    Ni 1.000000
    d 0.000000
    illum 2
    map_Kd textures/lion.tga
    map_Disp textures/lion_ddn.tga
    map_Ka textures/lion.tga").unwrap();
    assert_eq!(res.len(), 1);
    let mat = plain(res.first().unwrap());
    let expected =
    Material {
        name: "Material__25".into(),
        ambient: Some(ColorType::Rgb(0.0, 0.0, 0.0)),
        diffuse: Some(ColorType::Rgb(0.470400, 0.470400, 0.470400)),
        specular: Some(ColorType::Rgb(0.0, 0.0, 0.0)),
        specular_exponent: Some(7.843137),
        index_of_refraction: Some(1.0),
        disolve: Some(DisolveType::Alpha(0.0)),
        texture_map_diffuse: Some(ColorCorrectedMap {
            file_name: "textures/lion.tga".into(),
            ..Default::default()
        }),
        texture_map_ambient: Some(ColorCorrectedMap {
            file_name: "textures/lion.tga".into(),
            ..Default::default()
        }),
        displacement_map: Some(NonColorCorrectedMap {
            file_name: "textures/lion_ddn.tga".into(),
            ..Default::default()
        }),
        illumination_mode: Some(2),
        ..Default::default()
    };
    assert_eq!(mat, expected);
}

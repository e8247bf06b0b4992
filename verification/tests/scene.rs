use nobject_rs::load_obj;
use nobject_rs::model;
use nobject_rs::model::{
    Face, FaceElement, Group, Line, LineElement, Model, ModelElement, ModelError, Point,
};
use nobject_rs::number::Number;
use nobject_rs::tokenizer::parse_obj;
use nobject_rs::ObjError;

fn corner(vertex_index: i32) -> FaceElement {
    FaceElement { vertex_index, texture_index: None, normal_index: None }
}

fn face(indices: &[i32], smoothing_group: i32) -> Face {
    Face { elements: indices.iter().map(|i| corner(*i)).collect(), smoothing_group }
}

fn failure(input: &str) -> String {
    match load_obj(input) {
        Err(ObjError::ModelParse(ModelError::Parse(detail))) => detail,
        other => panic!("no parse error: {:?}", other),
    }
}

#[test]
fn an_empty_text_is_the_empty_scene() {
    let scene = load_obj("").unwrap();
    assert!(scene.vertices.is_empty());
    assert!(scene.normals.is_empty());
    assert!(scene.textures.is_empty());
    assert_eq!(scene.faces.len(), 0);
    assert_eq!(scene.lines.len(), 0);
    assert_eq!(scene.points.len(), 0);
    assert_eq!(scene.groups.len(), 1);
    assert_eq!(scene.groups.get("default"), Some(&Group::default()));
    assert_eq!(scene.current_group, vec!["default".to_string()]);
    assert_eq!(scene.current_smoothing_group, 0);
    assert_eq!(scene.shadow_obj, None);
    assert_eq!(scene.trace_obj, None);
}

#[test]
fn default_scene_is_the_scene_of_no_directive() {
    let scene = Model::default();
    assert_eq!(scene.groups.names, vec!["default".to_string()]);
    assert_eq!(scene.groups.values, vec![Group::default()]);
    assert_eq!(Group::<String>::default().material_name, "");
    assert_eq!(Group::<String>::default().texture_map, None);
}

#[test]
fn without_a_group_everything_is_filed_under_default() {
    let scene = load_obj("v 0 0 0\nf 1 2 3\nl 1 2\np 1\nf 3 2 1\n").unwrap();
    assert_eq!(scene.faces.names, vec!["default".to_string()]);
    assert_eq!(scene.lines.names, vec!["default".to_string()]);
    assert_eq!(scene.points.names, vec!["default".to_string()]);
    assert_eq!(scene.faces.get("default").unwrap().len(), 2);
    assert_eq!(scene.lines.get("default").unwrap().len(), 1);
    assert_eq!(scene.points.get("default").unwrap(), &vec![Point { elements: vec![1] }]);
    assert!(scene.groups.contains_key("default"));
}

#[test]
fn a_record_is_filed_under_every_active_group() {
    let scene = load_obj("g left right\nf 1 2 3\nl 4 5\np 6\ng right\nf 7 8 9\n").unwrap();
    assert_eq!(scene.faces.get("left").unwrap(), &vec![face(&[1, 2, 3], 0)]);
    assert_eq!(
        scene.faces.get("right").unwrap(),
        &vec![face(&[1, 2, 3], 0), face(&[7, 8, 9], 0)]
    );
    assert_eq!(scene.lines.get("left"), scene.lines.get("right"));
    assert_eq!(scene.points.get("left").unwrap().len(), 1);
    assert_eq!(scene.faces.get("default"), None);
    assert_eq!(scene.groups.names, vec!["default", "left", "right"]);
    assert_eq!(scene.current_group, vec!["right".to_string()]);
}

#[test]
fn a_group_named_twice_gets_the_record_twice() {
    let scene = load_obj("g a a\nf 1 2 3\n").unwrap();
    assert_eq!(scene.faces.get("a").unwrap().len(), 2);
}

#[test]
fn naming_a_group_again_keeps_its_settings() {
    let scene = load_obj("g a\nusemtl steel\nusemap wood\ng b\ng a\n").unwrap();
    let group = scene.groups.get("a").unwrap();
    assert_eq!(group.material_name, "steel");
    assert_eq!(group.texture_map, Some("wood".to_string()));
    assert_eq!(scene.groups.get("b"), Some(&Group::default()));
    assert_eq!(scene.groups.get("default"), Some(&Group::default()));
}

#[test]
fn settings_reach_every_active_group() {
    let scene = load_obj("g a b\nusemtl m\nbevel true\nc_interp true\nd_interp true\n").unwrap();
    for name in ["a", "b"] {
        let group = scene.groups.get(name).unwrap();
        assert_eq!(group.material_name, "m");
        assert!(group.bevel && group.c_interp && group.d_interp);
        assert_eq!(group.lod, 0);
    }
    assert!(!scene.groups.get("default").unwrap().bevel);
}

#[test]
fn only_true_switches_a_flag_on() {
    for (word, flag) in [("true", true), ("false", false), ("on", false), ("yes", false)] {
        let scene = load_obj(&format!("bevel {}\n", word)).unwrap();
        assert_eq!(scene.groups.get("default").unwrap().bevel, flag);
    }
    let scene = load_obj("bevel true\nbevel off\n").unwrap();
    assert!(!scene.groups.get("default").unwrap().bevel);
}

#[test]
fn material_before_or_after_the_vertices() {
    let before = load_obj("usemtl Default\nv 1 2 3\nv 4 5 6\nf 1 2 1\n").unwrap();
    let after = load_obj("v 1 2 3\nv 4 5 6\nusemtl Default\nf 1 2 1\n").unwrap();
    let between = load_obj("v 1 2 3\nusemtl Default\nv 4 5 6\nf 1 2 1\n").unwrap();
    for scene in [&before, &after, &between] {
        assert_eq!(scene.groups.get("default").unwrap().material_name, "Default");
        assert_eq!(scene.vertices, before.vertices);
        assert_eq!(scene.faces.get("default"), before.faces.get("default"));
    }
}

#[test]
fn the_last_material_wins() {
    let scene = load_obj("usemtl a\nusemtl b\n").unwrap();
    assert_eq!(scene.groups.get("default").unwrap().material_name, "b");
}

#[test]
fn smoothing_group_is_carried_to_the_next_s() {
    let scene = load_obj("f 1 2 3\ns 3\nf 4 5 6\nv 0 0 0\nf 7 8 9\ns off\nf 1 1 1\ns -2\nf 2 2 2\n")
        .unwrap();
    let groups: Vec<i32> =
        scene.faces.get("default").unwrap().iter().map(|f| f.smoothing_group).collect();
    assert_eq!(groups, vec![0, 3, 3, 0, -2]);
    assert_eq!(scene.current_smoothing_group, -2);
}

#[test]
fn a_word_behind_s_counts_as_zero() {
    let scene = load_obj("s 5\nf 1 2 3\ns nonsense\nf 4 5 6\nv 1 2 3\n").unwrap();
    let faces = scene.faces.get("default").unwrap();
    assert_eq!(faces[0].smoothing_group, 5);
    assert_eq!(faces[1].smoothing_group, 0);
    assert_eq!(scene.vertices.len(), 1);
    let scene = load_obj("s 5\ns on\nf 1 2 3\n").unwrap();
    assert_eq!(scene.faces.get("default").unwrap()[0].smoothing_group, 0);
}

#[test]
fn smoothing_directive_by_itself() {
    let tokens = parse_obj("s 4 s off s x s 1.5").unwrap();
    assert_eq!(model::parse_smoothing(&tokens, 0), Some((ModelElement::Smoothing(4), 2)));
    assert_eq!(model::parse_smoothing(&tokens, 2), Some((ModelElement::Smoothing(0), 4)));
    assert_eq!(model::parse_smoothing(&tokens, 4), Some((ModelElement::Smoothing(0), 6)));
    assert_eq!(model::parse_smoothing(&tokens, 6), None);
    assert_eq!(model::parse_smoothing(&tokens, 1), None);
    assert_eq!(model::parse_smoothing(&tokens, 99), None);
}

#[test]
fn indices_are_kept_as_written() {
    let tokens = parse_obj("f 1/1/1 2/2/2 3//3 4//4").unwrap();
    let (face, next) = model::parse_face(&tokens, 0).unwrap();
    assert_eq!(next, tokens.len());
    assert_eq!(face.elements.len(), 4);
    assert_eq!(
        face.elements[2],
        FaceElement { vertex_index: 3, texture_index: None, normal_index: Some(3) }
    );
    let tokens = parse_obj("f -1/-2/-3 0 7/8").unwrap();
    let (face, _) = model::parse_face(&tokens, 0).unwrap();
    assert_eq!(
        face.elements,
        vec![
            FaceElement { vertex_index: -1, texture_index: Some(-2), normal_index: Some(-3) },
            FaceElement { vertex_index: 0, texture_index: None, normal_index: None },
            FaceElement { vertex_index: 7, texture_index: Some(8), normal_index: None },
        ]
    );
}

#[test]
fn line_points_take_one_slash_at_most() {
    let tokens = parse_obj("l 1/4 2 3/").unwrap();
    let (line, next) = model::parse_line(&tokens, 0).unwrap();
    assert_eq!(next, tokens.len());
    assert_eq!(
        line,
        Line {
            elements: vec![
                LineElement { vertex_index: 1, texture_index: Some(4) },
                LineElement { vertex_index: 2, texture_index: None },
                LineElement { vertex_index: 3, texture_index: None },
            ],
        }
    );
    let tokens = parse_obj("l 1/2/3").unwrap();
    assert_eq!(model::parse_line(&tokens, 0).unwrap().1, 4);
    assert!(load_obj("l 1/2/3").is_err());
}

#[test]
fn face_line_and_point_need_an_element() {
    assert_eq!(failure("f \n"), "no directive at token 0");
    assert_eq!(failure("v 1 2 3\nl \n"), "no directive at token 4");
    assert_eq!(failure("p \nv 1 2 3"), "no directive at token 0");
    assert_eq!(failure("f 1.5 2 3"), "no directive at token 0");
}

#[test]
fn a_token_that_fits_nothing_fails_the_parse() {
    assert_eq!(failure("v 1 2\n"), "no directive at token 0");
    assert_eq!(failure("v 1 2 3\nhello\n"), "no directive at token 4");
    assert_eq!(failure("v 1 2 3 4 5\n"), "no directive at token 5");
    assert_eq!(failure("vp 1 2\n"), "no directive at token 0");
    assert_eq!(failure("usemtl a b\n"), "no directive at token 2");
    assert_eq!(failure("usemtl 5\n"), "no directive at token 0");
    assert_eq!(failure("f 1/ 2/ 3/\n"), "no directive at token 6");
    assert_eq!(failure("1 2 3"), "no directive at token 0");
    assert_eq!(failure("lod high\n"), "no directive at token 0");
    assert_eq!(failure("g \n"), "no directive at token 0");
}

#[test]
fn error_text() {
    let error = ModelError::Parse("no directive at token 4".to_string());
    assert_eq!(error.message(), "Parse Error: `no directive at token 4`");
}

#[test]
fn vertices_with_and_without_w() {
    let scene = load_obj("v 1 2.5 -3\nv 1 2 3 4\nvn 0 1 0\nvt 0.5\nvt 0.5 1\nvt 0.5 1 2\n").unwrap();
    assert_eq!(scene.vertices[0].x, Number::Int(1));
    assert_eq!(scene.vertices[0].y, Number::Float("2.5".to_string()));
    assert_eq!(scene.vertices[0].z, Number::Int(-3));
    assert_eq!(scene.vertices[0].w, None);
    assert_eq!(scene.vertices[1].w, Some(Number::Int(4)));
    assert_eq!(scene.normals.len(), 1);
    assert_eq!(scene.normals[0].y, Number::Int(1));
    assert_eq!(scene.textures[0].v, None);
    assert_eq!(scene.textures[1].v, Some(Number::Int(1)));
    assert_eq!(scene.textures[1].w, None);
    assert_eq!(scene.textures[2].w, Some(Number::Int(2)));
}

#[test]
fn libraries_and_object_files() {
    let scene =
        load_obj("mtllib a.mtl b.mtl\nmaplib t.map\nmtllib c.mtl\nshadow_obj s.obj\ntrace_obj t.obj\n")
            .unwrap();
    assert_eq!(scene.material_libs, vec!["a.mtl", "b.mtl", "c.mtl"]);
    assert_eq!(scene.texture_libs, vec!["t.map"]);
    assert_eq!(scene.shadow_obj, Some("s.obj".to_string()));
    assert_eq!(scene.trace_obj, Some("t.obj".to_string()));
}

#[test]
fn object_name_and_level_of_detail_change_nothing() {
    let plain = load_obj("v 1 2 3\n").unwrap();
    let named = load_obj("o chair\nlod 50\nv 1 2 3\no 12\n").unwrap();
    assert_eq!(named.vertices, plain.vertices);
    assert_eq!(named.groups.values, plain.groups.values);
    let tokens = parse_obj("o 12 o -7 o x").unwrap();
    assert_eq!(
        model::parse_obj_name(&tokens, 0),
        Some((ModelElement::ObjName("12".to_string()), 2))
    );
    assert_eq!(
        model::parse_obj_name(&tokens, 2),
        Some((ModelElement::ObjName("-7".to_string()), 4))
    );
    assert_eq!(model::parse_lod(&parse_obj("lod 50").unwrap(), 0), Some((ModelElement::Lod(50), 2)));
}

#[test]
fn directives_one_by_one() {
    let tokens = parse_obj("g a b usemtl m usemap t bevel true c_interp x d_interp true").unwrap();
    assert_eq!(
        model::parse_directive(&tokens, 0),
        Some((ModelElement::Group(vec!["a".to_string(), "b".to_string()]), 3))
    );
    assert_eq!(
        model::parse_material(&tokens, 3),
        Some((ModelElement::Material("m".to_string()), 5))
    );
    assert_eq!(
        model::parse_texture_map(&tokens, 5),
        Some((ModelElement::TextureMap("t".to_string()), 7))
    );
    assert_eq!(model::parse_bevel(&tokens, 7), Some((ModelElement::Bevel(true), 9)));
    assert_eq!(model::parse_c_interp(&tokens, 9), Some((ModelElement::CInterp(false), 11)));
    assert_eq!(model::parse_d_interp(&tokens, 11), Some((ModelElement::DInterp(true), 13)));
    assert_eq!(model::parse_directive(&tokens, 13), None);
    assert_eq!(model::parse_directive(&tokens, 1), None);
    assert_eq!(model::parse_vertex(&tokens, 0), None);
    let tokens = parse_obj("maplib a b shadow_obj sh trace_obj tr vn 1 2 3").unwrap();
    assert_eq!(
        model::parse_texture_lib(&tokens, 0),
        Some((ModelElement::TextureLib(vec!["a".to_string(), "b".to_string()]), 3))
    );
    assert_eq!(
        model::parse_shadow_obj(&tokens, 3),
        Some((ModelElement::ShadowObj("sh".to_string()), 5))
    );
    assert_eq!(
        model::parse_trace_obj(&tokens, 5),
        Some((ModelElement::TraceObj("tr".to_string()), 7))
    );
    let (normal, next) = model::parse_vertex_normal(&tokens, 7).unwrap();
    assert_eq!(next, 11);
    assert_eq!(normal.z, Number::Int(3));
}

#[test]
fn applying_a_directive_by_hand() {
    let mut scene = Model::default();
    scene.apply(ModelElement::Smoothing(9));
    scene.apply(ModelElement::Face(face(&[1, 2, 3], 0)));
    scene.apply(ModelElement::Group(vec!["g".to_string()]));
    scene.apply(ModelElement::Point(Point { elements: vec![5] }));
    assert_eq!(scene.faces.get("default").unwrap(), &vec![face(&[1, 2, 3], 9)]);
    assert_eq!(scene.points.get("g").unwrap(), &vec![Point { elements: vec![5] }]);
    assert_eq!(scene.points.get("default"), None);
}

#[test]
fn the_whole_cube() {
    let cube = "v -0.5 -0.5 0.5\nv -0.5 -0.5 -0.5\nv -0.5 0.5 -0.5\nv -0.5 0.5 0.5\n\
                v 0.5 -0.5 0.5\nv 0.5 -0.5 -0.5\nv 0.5 0.5 -0.5\nv 0.5 0.5 0.5\n";
    let faces = "f 4 3 2 1\nf 2 6 5 1\nf 3 7 6 2\nf 8 7 3 4\nf 5 8 4 1\nf 6 7 8 5\n";
    let first = load_obj(&format!("usemtl Default\n{}{}", cube, faces)).unwrap();
    let second = load_obj(&format!("{}usemtl Default\n{}", cube, faces)).unwrap();
    for scene in [first, second] {
        assert_eq!(scene.vertices.len(), 8);
        assert_eq!(scene.faces.get("default").unwrap().len(), 6);
        assert_eq!(scene.groups.get("default").unwrap().material_name, "Default");
    }
}

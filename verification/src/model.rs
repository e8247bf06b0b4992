//! The geometry scene and the reducer that builds it from tokens.

use crate::cursor::{
    int_after, int_at, is_keyword, is_slash, keyword_at, number_at, read_int, read_number,
    read_word, read_words, slash_at, word_after, word_at, words_after,
};
use crate::decimal::{int_text, int_to_string};
use crate::names::NameMap;
use crate::number::Number;
use crate::tokenizer::{Keyword, Token, TokenSet};
use crate::views::{copy_strings, each_view, lemma_each_view_add, lemma_each_view_push, opt_view};
use vstd::prelude::*;

verus! {

/// Why a token sequence is no geometry scene.
#[derive(Debug)]
pub enum ModelError {
    Parse(String),
}

impl ModelError {
    /// The error as a line of text.
    pub fn message(&self) -> (out: String)
        ensures
            out@ == "Parse Error: `"@ + self->Parse_0@ + "`"@,
    {
        match self {
            ModelError::Parse(detail) => String::from_str("Parse Error: `").concat(
                detail.as_str(),
            ).concat("`"),
        }
    }
}

/// A vertex. `w` is absent when the text gives none.
#[derive(Clone, Debug, PartialEq)]
pub struct Vertex<S> {
    pub x: Number<S>,
    pub y: Number<S>,
    pub z: Number<S>,
    pub w: Option<Number<S>>,
}

impl View for Vertex<String> {
    type V = Vertex<Seq<char>>;

    open spec fn view(&self) -> Vertex<Seq<char>> {
        Vertex { x: self.x@, y: self.y@, z: self.z@, w: opt_view(self.w) }
    }
}

/// A vertex normal.
#[derive(Clone, Debug, PartialEq)]
pub struct Normal<S> {
    pub x: Number<S>,
    pub y: Number<S>,
    pub z: Number<S>,
}

impl View for Normal<String> {
    type V = Normal<Seq<char>>;

    open spec fn view(&self) -> Normal<Seq<char>> {
        Normal { x: self.x@, y: self.y@, z: self.z@ }
    }
}

/// A texture coordinate. `v` and `w` are absent when the text gives none.
#[derive(Clone, Debug, PartialEq)]
pub struct Texture<S> {
    pub u: Number<S>,
    pub v: Option<Number<S>>,
    pub w: Option<Number<S>>,
}

impl View for Texture<String> {
    type V = Texture<Seq<char>>;

    open spec fn view(&self) -> Texture<Seq<char>> {
        Texture { u: self.u@, v: opt_view(self.v), w: opt_view(self.w) }
    }
}

/// The settings of a group.
#[derive(Clone, Debug, PartialEq)]
pub struct Group<S> {
    /// The material of the group.
    pub material_name: S,
    pub bevel: bool,
    pub c_interp: bool,
    pub d_interp: bool,
    pub lod: u8,
    /// The texture map of the group.
    pub texture_map: Option<S>,
}

impl View for Group<String> {
    type V = Group<Seq<char>>;

    open spec fn view(&self) -> Group<Seq<char>> {
        Group {
            material_name: self.material_name@,
            bevel: self.bevel,
            c_interp: self.c_interp,
            d_interp: self.d_interp,
            lod: self.lod,
            texture_map: opt_view(self.texture_map),
        }
    }
}

/// The settings of a group that no directive has touched.
pub open spec fn default_group() -> Group<Seq<char>> {
    Group {
        material_name: Seq::empty(),
        bevel: false,
        c_interp: false,
        d_interp: false,
        lod: 0,
        texture_map: None,
    }
}

impl Default for Group<String> {
    fn default() -> (out: Self)
        ensures
            out@ == default_group(),
    {
        Group {
            material_name: String::new(),
            bevel: false,
            c_interp: false,
            d_interp: false,
            lod: 0,
            texture_map: None,
        }
    }
}

/// A value that can be copied, view for view.
pub trait Duplicate: View + Sized {
    /// A value equal to this one.
    fn duplicate(&self) -> (out: Self)
        ensures
            out@ == self@,
    ;
}

/// One corner of a face. The indices are those of the text: they count
/// from one.
#[derive(Clone, Copy, Debug, Default, PartialEq, Eq, Structural)]
pub struct FaceElement {
    pub vertex_index: i32,
    pub texture_index: Option<i32>,
    pub normal_index: Option<i32>,
}

/// A face: its corners, and the smoothing group it belongs to.
#[derive(Clone, Debug, Default, PartialEq)]
pub struct Face {
    pub elements: Vec<FaceElement>,
    pub smoothing_group: i32,
}

/// What a face holds.
pub ghost struct FaceView {
    pub elements: Seq<FaceElement>,
    pub smoothing_group: i32,
}

impl View for Face {
    type V = FaceView;

    open spec fn view(&self) -> FaceView {
        FaceView { elements: self.elements@, smoothing_group: self.smoothing_group }
    }
}

impl Duplicate for Face {
    fn duplicate(&self) -> (out: Self) {
        let mut elements: Vec<FaceElement> = Vec::new();
        let mut i: usize = 0;
        while i < self.elements.len()
            invariant
                i <= self.elements@.len(),
                elements@ =~= self.elements@.take(i as int),
            decreases self.elements@.len() - i,
        {
            elements.push(self.elements[i]);
            i += 1;
        }
        assert(self.elements@.take(i as int) =~= self.elements@);
        Face { elements, smoothing_group: self.smoothing_group }
    }
}

/// One point of a line. The indices count from one.
#[derive(Clone, Copy, Debug, Default, PartialEq, Eq, Structural)]
pub struct LineElement {
    pub vertex_index: i32,
    pub texture_index: Option<i32>,
}

/// A line.
#[derive(Clone, Debug, Default, PartialEq)]
pub struct Line {
    pub elements: Vec<LineElement>,
}

impl View for Line {
    type V = Seq<LineElement>;

    open spec fn view(&self) -> Seq<LineElement> {
        self.elements@
    }
}

impl Duplicate for Line {
    fn duplicate(&self) -> (out: Self) {
        let mut elements: Vec<LineElement> = Vec::new();
        let mut i: usize = 0;
        while i < self.elements.len()
            invariant
                i <= self.elements@.len(),
                elements@ =~= self.elements@.take(i as int),
            decreases self.elements@.len() - i,
        {
            elements.push(self.elements[i]);
            i += 1;
        }
        assert(self.elements@.take(i as int) =~= self.elements@);
        Line { elements }
    }
}

/// A set of points, by vertex index. The indices count from one.
#[derive(Clone, Debug, Default, PartialEq)]
pub struct Point {
    pub elements: Vec<i32>,
}

impl View for Point {
    type V = Seq<i32>;

    open spec fn view(&self) -> Seq<i32> {
        self.elements@
    }
}

impl Duplicate for Point {
    fn duplicate(&self) -> (out: Self) {
        let mut elements: Vec<i32> = Vec::new();
        let mut i: usize = 0;
        while i < self.elements.len()
            invariant
                i <= self.elements@.len(),
                elements@ =~= self.elements@.take(i as int),
            decreases self.elements@.len() - i,
        {
            elements.push(self.elements[i]);
            i += 1;
        }
        assert(self.elements@.take(i as int) =~= self.elements@);
        Point { elements }
    }
}

/// A geometry scene, together with the state that the reducer carries from
/// one directive to the next.
#[derive(Debug)]
pub struct Model {
    pub vertices: Vec<Vertex<String>>,
    pub normals: Vec<Normal<String>>,
    pub textures: Vec<Texture<String>>,
    /// The faces of each group.
    pub faces: NameMap<Vec<Face>>,
    /// The lines of each group.
    pub lines: NameMap<Vec<Line>>,
    /// The point sets of each group.
    pub points: NameMap<Vec<Point>>,
    /// The settings of each group.
    pub groups: NameMap<Group<String>>,
    /// The material library files that the text names.
    pub material_libs: Vec<String>,
    /// The texture library files that the text names.
    pub texture_libs: Vec<String>,
    pub shadow_obj: Option<String>,
    pub trace_obj: Option<String>,
    /// The groups under which the next face, line or point set is filed.
    pub current_group: Vec<String>,
    /// The smoothing group of the next face.
    pub current_smoothing_group: i32,
}

/// What a scene holds.
pub ghost struct ModelView {
    pub vertices: Seq<Vertex<Seq<char>>>,
    pub normals: Seq<Normal<Seq<char>>>,
    pub textures: Seq<Texture<Seq<char>>>,
    pub faces: Map<Seq<char>, Seq<FaceView>>,
    pub lines: Map<Seq<char>, Seq<Seq<LineElement>>>,
    pub points: Map<Seq<char>, Seq<Seq<i32>>>,
    pub groups: Map<Seq<char>, Group<Seq<char>>>,
    pub material_libs: Seq<Seq<char>>,
    pub texture_libs: Seq<Seq<char>>,
    pub shadow_obj: Option<Seq<char>>,
    pub trace_obj: Option<Seq<char>>,
    pub current_group: Seq<Seq<char>>,
    pub current_smoothing_group: i32,
}

/// Takes a list to the views of its items.
pub open spec fn lists<T: View>() -> spec_fn(Vec<T>) -> Seq<T::V> {
    |list: Vec<T>| each_view(list@)
}

/// Takes the settings of a group to their view.
pub open spec fn group_views() -> spec_fn(Group<String>) -> Group<Seq<char>> {
    |group: Group<String>| group@
}

impl View for Model {
    type V = ModelView;

    open spec fn view(&self) -> ModelView {
        ModelView {
            vertices: each_view(self.vertices@),
            normals: each_view(self.normals@),
            textures: each_view(self.textures@),
            faces: self.faces.mapped(lists::<Face>()),
            lines: self.lines.mapped(lists::<Line>()),
            points: self.points.mapped(lists::<Point>()),
            groups: self.groups.mapped(group_views()),
            material_libs: each_view(self.material_libs@),
            texture_libs: each_view(self.texture_libs@),
            shadow_obj: opt_view(self.shadow_obj),
            trace_obj: opt_view(self.trace_obj),
            current_group: each_view(self.current_group@),
            current_smoothing_group: self.current_smoothing_group,
        }
    }
}

/// The name of the group that is active before any `g` directive.
pub open spec fn default_name() -> Seq<char> {
    "default"@
}

/// The scene before the first directive: nothing but the group `default`,
/// which is active, and smoothing group 0.
pub open spec fn initial_model() -> ModelView {
    ModelView {
        vertices: Seq::empty(),
        normals: Seq::empty(),
        textures: Seq::empty(),
        faces: Map::empty(),
        lines: Map::empty(),
        points: Map::empty(),
        groups: Map::empty().insert(default_name(), default_group()),
        material_libs: Seq::empty(),
        texture_libs: Seq::empty(),
        shadow_obj: None,
        trace_obj: None,
        current_group: seq![default_name()],
        current_smoothing_group: 0,
    }
}

impl Model {
    /// Every table of the scene is well formed.
    pub open spec fn wf(&self) -> bool {
        &&& self.faces.wf()
        &&& self.lines.wf()
        &&& self.points.wf()
        &&& self.groups.wf()
    }
}

impl Default for Model {
    fn default() -> (out: Self)
        ensures
            out.wf(),
            out@ == initial_model(),
    {
        let mut groups: NameMap<Group<String>> = NameMap::new();
        let ghost empty = groups;
        let settings = Group::default();
        groups.insert(String::from_str("default"), settings);
        proof {
            empty.lemma_insert(&groups, default_name(), settings, group_views());
            assert(empty.mapped(group_views()) =~= Map::empty());
        }
        let mut current_group: Vec<String> = Vec::new();
        current_group.push(String::from_str("default"));
        let out = Model {
            vertices: Vec::new(),
            normals: Vec::new(),
            textures: Vec::new(),
            faces: NameMap::new(),
            lines: NameMap::new(),
            points: NameMap::new(),
            groups,
            material_libs: Vec::new(),
            texture_libs: Vec::new(),
            shadow_obj: None,
            trace_obj: None,
            current_group,
            current_smoothing_group: 0,
        };
        proof {
            assert(out@.vertices =~= Seq::empty());
            assert(out@.normals =~= Seq::empty());
            assert(out@.textures =~= Seq::empty());
            assert(out@.material_libs =~= Seq::empty());
            assert(out@.texture_libs =~= Seq::empty());
            assert(out@.faces =~= Map::empty());
            assert(out@.lines =~= Map::empty());
            assert(out@.points =~= Map::empty());
            assert(out@.current_group =~= seq![default_name()]);
            assert(out@.groups =~= Map::empty().insert(default_name(), default_group()));
        }
        out
    }
}

/// One directive of a geometry text, as the reducer sees it.
pub ghost enum Directive {
    Vertex(Vertex<Seq<char>>),
    Normal(Normal<Seq<char>>),
    Texture(Texture<Seq<char>>),
    Face(FaceView),
    Line(Seq<LineElement>),
    Point(Seq<i32>),
    Group(Seq<Seq<char>>),
    MaterialLib(Seq<Seq<char>>),
    Material(Seq<char>),
    ObjName(Seq<char>),
    Smoothing(i32),
    Bevel(bool),
    CInterp(bool),
    DInterp(bool),
    Lod(i32),
    ShadowObj(Seq<char>),
    TraceObj(Seq<char>),
    TextureLib(Seq<Seq<char>>),
    TextureMap(Seq<char>),
}

/// One directive of a geometry text.
#[derive(Debug, PartialEq)]
pub enum ModelElement {
    Vertex(Vertex<String>),
    Normal(Normal<String>),
    Texture(Texture<String>),
    Face(Face),
    Line(Line),
    Point(Point),
    Group(Vec<String>),
    MaterialLib(Vec<String>),
    Material(String),
    ObjName(String),
    Smoothing(i32),
    Bevel(bool),
    CInterp(bool),
    DInterp(bool),
    Lod(i32),
    ShadowObj(String),
    TraceObj(String),
    TextureLib(Vec<String>),
    TextureMap(String),
}

impl View for ModelElement {
    type V = Directive;

    open spec fn view(&self) -> Directive {
        match *self {
            ModelElement::Vertex(v) => Directive::Vertex(v@),
            ModelElement::Normal(n) => Directive::Normal(n@),
            ModelElement::Texture(t) => Directive::Texture(t@),
            ModelElement::Face(f) => Directive::Face(f@),
            ModelElement::Line(l) => Directive::Line(l@),
            ModelElement::Point(p) => Directive::Point(p@),
            ModelElement::Group(names) => Directive::Group(each_view(names@)),
            ModelElement::MaterialLib(names) => Directive::MaterialLib(each_view(names@)),
            ModelElement::Material(name) => Directive::Material(name@),
            ModelElement::ObjName(name) => Directive::ObjName(name@),
            ModelElement::Smoothing(id) => Directive::Smoothing(id),
            ModelElement::Bevel(flag) => Directive::Bevel(flag),
            ModelElement::CInterp(flag) => Directive::CInterp(flag),
            ModelElement::DInterp(flag) => Directive::DInterp(flag),
            ModelElement::Lod(level) => Directive::Lod(level),
            ModelElement::ShadowObj(name) => Directive::ShadowObj(name@),
            ModelElement::TraceObj(name) => Directive::TraceObj(name@),
            ModelElement::TextureLib(names) => Directive::TextureLib(each_view(names@)),
            ModelElement::TextureMap(name) => Directive::TextureMap(name@),
        }
    }
}

/// `v x y z [w]`: the vertex at `at`, and where the next directive starts.
pub open spec fn vertex_at(toks: Seq<Token<Seq<char>>>, at: int) -> Option<
    (Vertex<Seq<char>>, int),
> {
    if keyword_at(toks, at, Keyword::Vertex) && number_at(toks, at + 1) is Some && number_at(
        toks,
        at + 2,
    ) is Some && number_at(toks, at + 3) is Some {
        Some(
            (
                Vertex {
                    x: number_at(toks, at + 1)->0,
                    y: number_at(toks, at + 2)->0,
                    z: number_at(toks, at + 3)->0,
                    w: number_at(toks, at + 4),
                },
                if number_at(toks, at + 4) is Some {
                    at + 5
                } else {
                    at + 4
                },
            ),
        )
    } else {
        None
    }
}

/// `vn x y z`: the normal at `at`, and where the next directive starts.
pub open spec fn normal_at(toks: Seq<Token<Seq<char>>>, at: int) -> Option<
    (Normal<Seq<char>>, int),
> {
    if keyword_at(toks, at, Keyword::VertexNormal) && number_at(toks, at + 1) is Some
        && number_at(toks, at + 2) is Some && number_at(toks, at + 3) is Some {
        Some(
            (
                Normal {
                    x: number_at(toks, at + 1)->0,
                    y: number_at(toks, at + 2)->0,
                    z: number_at(toks, at + 3)->0,
                },
                at + 4,
            ),
        )
    } else {
        None
    }
}

/// `vt u [v [w]]`: the texture coordinate at `at`, and where the next
/// directive starts. A third number counts only after a second.
pub open spec fn texture_at(toks: Seq<Token<Seq<char>>>, at: int) -> Option<
    (Texture<Seq<char>>, int),
> {
    if keyword_at(toks, at, Keyword::VertexTexture) && number_at(toks, at + 1) is Some {
        let u = number_at(toks, at + 1)->0;
        if number_at(toks, at + 2) is None {
            Some((Texture { u, v: None, w: None }, at + 2))
        } else if number_at(toks, at + 3) is None {
            Some((Texture { u, v: number_at(toks, at + 2), w: None }, at + 3))
        } else {
            Some((Texture { u, v: number_at(toks, at + 2), w: number_at(toks, at + 3) }, at + 4))
        }
    } else {
        None
    }
}

/// An optional `/` with an optional index behind it: the index, and where
/// the reading goes on.
pub open spec fn slot_at(toks: Seq<Token<Seq<char>>>, at: int) -> (Option<i32>, int) {
    if slash_at(toks, at) {
        if int_at(toks, at + 1) is Some {
            (int_at(toks, at + 1), at + 2)
        } else {
            (None, at + 1)
        }
    } else {
        (None, at)
    }
}

/// `v[/[vt][/[vn]]]`: the face corner at `at`, and where the next one may
/// start.
pub open spec fn face_element_at(toks: Seq<Token<Seq<char>>>, at: int) -> Option<
    (FaceElement, int),
> {
    match int_at(toks, at) {
        Some(vertex_index) => {
            let texture = slot_at(toks, at + 1);
            let normal = slot_at(toks, texture.1);
            Some(
                (
                    FaceElement { vertex_index, texture_index: texture.0, normal_index: normal.0 },
                    normal.1,
                ),
            )
        },
        None => None,
    }
}

/// The face corners that stand at `at` and after it, and where they end.
pub open spec fn face_elements_from(toks: Seq<Token<Seq<char>>>, at: int) -> (
    Seq<FaceElement>,
    int,
)
    decreases toks.len() - at,
{
    match face_element_at(toks, at) {
        Some(found) => if at < found.1 <= toks.len() {
            let rest = face_elements_from(toks, found.1);
            (seq![found.0] + rest.0, rest.1)
        } else {
            (Seq::empty(), at)
        },
        None => (Seq::empty(), at),
    }
}

/// `f corner ...`: the face at `at`, with at least one corner and with
/// smoothing group 0, and where the next directive starts.
pub open spec fn face_at(toks: Seq<Token<Seq<char>>>, at: int) -> Option<(FaceView, int)> {
    let found = face_elements_from(toks, at + 1);
    if keyword_at(toks, at, Keyword::Face) && found.0.len() > 0 {
        Some((FaceView { elements: found.0, smoothing_group: 0 }, found.1))
    } else {
        None
    }
}

/// `v[/[vt]]`: the line point at `at`, and where the next one may start.
pub open spec fn line_element_at(toks: Seq<Token<Seq<char>>>, at: int) -> Option<
    (LineElement, int),
> {
    match int_at(toks, at) {
        Some(vertex_index) => {
            let texture = slot_at(toks, at + 1);
            Some((LineElement { vertex_index, texture_index: texture.0 }, texture.1))
        },
        None => None,
    }
}

/// The line points that stand at `at` and after it, and where they end.
pub open spec fn line_elements_from(toks: Seq<Token<Seq<char>>>, at: int) -> (
    Seq<LineElement>,
    int,
)
    decreases toks.len() - at,
{
    match line_element_at(toks, at) {
        Some(found) => if at < found.1 <= toks.len() {
            let rest = line_elements_from(toks, found.1);
            (seq![found.0] + rest.0, rest.1)
        } else {
            (Seq::empty(), at)
        },
        None => (Seq::empty(), at),
    }
}

/// `l point ...`: the line at `at`, with at least one point, and where the
/// next directive starts.
pub open spec fn line_at(toks: Seq<Token<Seq<char>>>, at: int) -> Option<(Seq<LineElement>, int)> {
    let found = line_elements_from(toks, at + 1);
    if keyword_at(toks, at, Keyword::Line) && found.0.len() > 0 {
        Some(found)
    } else {
        None
    }
}

/// The whole numbers that stand at `at` and after it.
pub open spec fn ints_from(toks: Seq<Token<Seq<char>>>, at: int) -> Seq<i32>
    decreases toks.len() - at,
{
    match int_at(toks, at) {
        Some(value) => seq![value] + ints_from(toks, at + 1),
        None => Seq::empty(),
    }
}

/// `p v ...`: the point set at `at`, with at least one index, and where the
/// next directive starts.
pub open spec fn point_at(toks: Seq<Token<Seq<char>>>, at: int) -> Option<(Seq<i32>, int)> {
    let found = ints_from(toks, at + 1);
    if keyword_at(toks, at, Keyword::Point) && found.len() > 0 {
        Some((found, at + 1 + found.len()))
    } else {
        None
    }
}

/// The name that follows `o`: a word, or a whole number written out.
pub open spec fn object_name_at(toks: Seq<Token<Seq<char>>>, at: int) -> Option<Seq<char>> {
    if keyword_at(toks, at, Keyword::Object) {
        match int_at(toks, at + 1) {
            Some(value) => Some(int_text(value)),
            None => word_at(toks, at + 1),
        }
    } else {
        None
    }
}

/// The smoothing group that follows `s`: a whole number, or a word. The
/// word `off` switches smoothing off, which is group 0; any other word
/// counts as 0 as well.
pub open spec fn smoothing_at(toks: Seq<Token<Seq<char>>>, at: int) -> Option<i32> {
    if keyword_at(toks, at, Keyword::Smoothing) {
        match int_at(toks, at + 1) {
            Some(id) => Some(id),
            None => if word_at(toks, at + 1) is Some {
                Some(0i32)
            } else {
                None
            },
        }
    } else {
        None
    }
}

/// What a word says as a flag: only `true` switches it on.
pub open spec fn flag_of(word: Seq<char>) -> bool {
    word == "true"@
}

/// The flag that follows the given keyword.
pub open spec fn flag_after(toks: Seq<Token<Seq<char>>>, at: int, keyword: Keyword) -> Option<
    bool,
> {
    match word_after(toks, at, keyword) {
        Some(word) => Some(flag_of(word)),
        None => None,
    }
}

/// A directive together with the position behind it.
pub open spec fn followed<T>(found: Option<T>, directive: spec_fn(T) -> Directive, next: int)
    -> Option<(Directive, int)> {
    match found {
        Some(value) => Some((directive(value), next)),
        None => None,
    }
}

/// The directive that starts at `at`, and where the next one starts. `None`
/// where the tokens at `at` fit no directive.
pub open spec fn directive_at(toks: Seq<Token<Seq<char>>>, at: int) -> Option<(Directive, int)> {
    if !(0 <= at < toks.len()) {
        None
    } else {
        match toks[at] {
            Token::Keyword(Keyword::Vertex) => match vertex_at(toks, at) {
                Some(found) => Some((Directive::Vertex(found.0), found.1)),
                None => None,
            },
            Token::Keyword(Keyword::VertexNormal) => match normal_at(toks, at) {
                Some(found) => Some((Directive::Normal(found.0), found.1)),
                None => None,
            },
            Token::Keyword(Keyword::VertexTexture) => match texture_at(toks, at) {
                Some(found) => Some((Directive::Texture(found.0), found.1)),
                None => None,
            },
            Token::Keyword(Keyword::Face) => match face_at(toks, at) {
                Some(found) => Some((Directive::Face(found.0), found.1)),
                None => None,
            },
            Token::Keyword(Keyword::Line) => match line_at(toks, at) {
                Some(found) => Some((Directive::Line(found.0), found.1)),
                None => None,
            },
            Token::Keyword(Keyword::Point) => match point_at(toks, at) {
                Some(found) => Some((Directive::Point(found.0), found.1)),
                None => None,
            },
            Token::Keyword(Keyword::MaterialLib) => followed(
                words_after(toks, at, Keyword::MaterialLib),
                |names: Seq<Seq<char>>| Directive::MaterialLib(names),
                at + 1 + words_after(toks, at, Keyword::MaterialLib)->0.len(),
            ),
            Token::Keyword(Keyword::UseMaterial) => followed(
                word_after(toks, at, Keyword::UseMaterial),
                |name: Seq<char>| Directive::Material(name),
                at + 2,
            ),
            Token::Keyword(Keyword::Object) => followed(
                object_name_at(toks, at),
                |name: Seq<char>| Directive::ObjName(name),
                at + 2,
            ),
            Token::Keyword(Keyword::Smoothing) => followed(
                smoothing_at(toks, at),
                |id: i32| Directive::Smoothing(id),
                at + 2,
            ),
            Token::Keyword(Keyword::Bevel) => followed(
                flag_after(toks, at, Keyword::Bevel),
                |flag: bool| Directive::Bevel(flag),
                at + 2,
            ),
            Token::Keyword(Keyword::CInterp) => followed(
                flag_after(toks, at, Keyword::CInterp),
                |flag: bool| Directive::CInterp(flag),
                at + 2,
            ),
            Token::Keyword(Keyword::DInterp) => followed(
                flag_after(toks, at, Keyword::DInterp),
                |flag: bool| Directive::DInterp(flag),
                at + 2,
            ),
            Token::Keyword(Keyword::Lod) => followed(
                int_after(toks, at, Keyword::Lod),
                |level: i32| Directive::Lod(level),
                at + 2,
            ),
            Token::Keyword(Keyword::ShadowObj) => followed(
                word_after(toks, at, Keyword::ShadowObj),
                |name: Seq<char>| Directive::ShadowObj(name),
                at + 2,
            ),
            Token::Keyword(Keyword::TraceObj) => followed(
                word_after(toks, at, Keyword::TraceObj),
                |name: Seq<char>| Directive::TraceObj(name),
                at + 2,
            ),
            Token::Keyword(Keyword::TextureMapLib) => followed(
                words_after(toks, at, Keyword::TextureMapLib),
                |names: Seq<Seq<char>>| Directive::TextureLib(names),
                at + 1 + words_after(toks, at, Keyword::TextureMapLib)->0.len(),
            ),
            Token::Keyword(Keyword::UseTextureMap) => followed(
                word_after(toks, at, Keyword::UseTextureMap),
                |name: Seq<char>| Directive::TextureMap(name),
                at + 2,
            ),
            Token::Keyword(Keyword::Group) => followed(
                words_after(toks, at, Keyword::Group),
                |names: Seq<Seq<char>>| Directive::Group(names),
                at + 1 + words_after(toks, at, Keyword::Group)->0.len(),
            ),
            _ => None,
        }
    }
}

/// Whether `out` is what the grammar finds: the same value, by its view,
/// and the same position behind it.
pub open spec fn reads<T: View>(out: Option<(T, usize)>, expected: Option<(T::V, int)>) -> bool {
    match expected {
        Some(wanted) => out matches Some(found) && found.0@ == wanted.0 && found.1 == wanted.1,
        None => out is None,
    }
}

/// Reads the vertex directive at `at`.
pub fn parse_vertex(tokens: &TokenSet, at: usize) -> (out: Option<(Vertex<String>, usize)>)
    ensures
        reads(out, vertex_at(tokens@, at as int)),
        out matches Some(found) ==> at < found.1 <= tokens@.len(),
{
    let length = tokens.len();
    if !is_keyword(tokens, at, Keyword::Vertex) {
        return None;
    }
    let x = match read_number(tokens, at + 1) {
        Some(number) => number,
        None => return None,
    };
    let y = match read_number(tokens, at + 2) {
        Some(number) => number,
        None => return None,
    };
    let z = match read_number(tokens, at + 3) {
        Some(number) => number,
        None => return None,
    };
    let w = read_number(tokens, at + 4);
    let next = if w.is_some() {
        at + 5
    } else {
        at + 4
    };
    Some((Vertex { x, y, z, w }, next))
}

/// Reads the normal directive at `at`.
pub fn parse_vertex_normal(tokens: &TokenSet, at: usize) -> (out: Option<(Normal<String>, usize)>)
    ensures
        reads(out, normal_at(tokens@, at as int)),
        out matches Some(found) ==> at < found.1 <= tokens@.len(),
{
    let length = tokens.len();
    if !is_keyword(tokens, at, Keyword::VertexNormal) {
        return None;
    }
    let x = match read_number(tokens, at + 1) {
        Some(number) => number,
        None => return None,
    };
    let y = match read_number(tokens, at + 2) {
        Some(number) => number,
        None => return None,
    };
    let z = match read_number(tokens, at + 3) {
        Some(number) => number,
        None => return None,
    };
    Some((Normal { x, y, z }, at + 4))
}

/// Reads the texture coordinate directive at `at`.
pub fn parse_vertex_texture(tokens: &TokenSet, at: usize) -> (out: Option<
    (Texture<String>, usize),
>)
    ensures
        reads(out, texture_at(tokens@, at as int)),
        out matches Some(found) ==> at < found.1 <= tokens@.len(),
{
    let length = tokens.len();
    if !is_keyword(tokens, at, Keyword::VertexTexture) {
        return None;
    }
    let u = match read_number(tokens, at + 1) {
        Some(number) => number,
        None => return None,
    };
    let v = read_number(tokens, at + 2);
    if v.is_none() {
        return Some((Texture { u, v: None, w: None }, at + 2));
    }
    let w = read_number(tokens, at + 3);
    if w.is_none() {
        return Some((Texture { u, v, w: None }, at + 3));
    }
    Some((Texture { u, v, w }, at + 4))
}

/// Reads an optional `/` with an optional index behind it.
fn read_slot(tokens: &TokenSet, at: usize) -> (out: (Option<i32>, usize))
    requires
        at <= tokens@.len(),
    ensures
        out.0 == slot_at(tokens@, at as int).0,
        out.1 == slot_at(tokens@, at as int).1,
        at <= out.1 <= tokens@.len(),
{
    let length = tokens.len();
    if is_slash(tokens, at) {
        match read_int(tokens, at + 1) {
            Some(index) => (Some(index), at + 2),
            None => (None, at + 1),
        }
    } else {
        (None, at)
    }
}

/// Reads the face corner at `at`.
fn read_face_element(tokens: &TokenSet, at: usize) -> (out: Option<(FaceElement, usize)>)
    ensures
        out is Some <==> face_element_at(tokens@, at as int) is Some,
        out matches Some(found) ==> face_element_at(tokens@, at as int) == Some(
            (found.0, found.1 as int),
        ) && at < found.1 <= tokens@.len(),
{
    let length = tokens.len();
    match read_int(tokens, at) {
        Some(vertex_index) => {
            let (texture_index, after_texture) = read_slot(tokens, at + 1);
            let (normal_index, next) = read_slot(tokens, after_texture);
            Some((FaceElement { vertex_index, texture_index, normal_index }, next))
        },
        None => None,
    }
}

/// Reads the face directive at `at`. The face has smoothing group 0: the
/// reducer stamps it when it files the face.
pub fn parse_face(tokens: &TokenSet, at: usize) -> (out: Option<(Face, usize)>)
    ensures
        reads(out, face_at(tokens@, at as int)),
        out matches Some(found) ==> at < found.1 <= tokens@.len(),
{
    let length = tokens.len();
    if !is_keyword(tokens, at, Keyword::Face) {
        return None;
    }
    let ghost toks = tokens@;
    let mut elements: Vec<FaceElement> = Vec::new();
    let mut next: usize = at + 1;
    assert(elements@ + face_elements_from(toks, next as int).0 =~= face_elements_from(
        toks,
        next as int,
    ).0);
    let mut done = false;
    while !done
        invariant
            toks == tokens@,
            at < next <= toks.len(),
            face_elements_from(toks, at + 1).0 == elements@ + face_elements_from(
                toks,
                next as int,
            ).0,
            face_elements_from(toks, at + 1).1 == face_elements_from(toks, next as int).1,
            done ==> face_element_at(toks, next as int) is None,
        decreases toks.len() - next + (if done { 0int } else { 1int }),
    {
        match read_face_element(tokens, next) {
            Some(found) => {
                proof {
                    let rest = face_elements_from(toks, found.1 as int).0;
                    assert(elements@.push(found.0) + rest =~= elements@ + (seq![found.0] + rest));
                }
                elements.push(found.0);
                next = found.1;
            },
            None => {
                done = true;
            },
        }
    }
    assert(elements@ + Seq::<FaceElement>::empty() =~= elements@);
    if elements.len() == 0 {
        None
    } else {
        Some((Face { elements, smoothing_group: 0 }, next))
    }
}

/// Reads the line point at `at`.
fn read_line_element(tokens: &TokenSet, at: usize) -> (out: Option<(LineElement, usize)>)
    ensures
        out is Some <==> line_element_at(tokens@, at as int) is Some,
        out matches Some(found) ==> line_element_at(tokens@, at as int) == Some(
            (found.0, found.1 as int),
        ) && at < found.1 <= tokens@.len(),
{
    let length = tokens.len();
    match read_int(tokens, at) {
        Some(vertex_index) => {
            let (texture_index, next) = read_slot(tokens, at + 1);
            Some((LineElement { vertex_index, texture_index }, next))
        },
        None => None,
    }
}

/// Reads the line directive at `at`.
pub fn parse_line(tokens: &TokenSet, at: usize) -> (out: Option<(Line, usize)>)
    ensures
        reads(out, line_at(tokens@, at as int)),
        out matches Some(found) ==> at < found.1 <= tokens@.len(),
{
    let length = tokens.len();
    if !is_keyword(tokens, at, Keyword::Line) {
        return None;
    }
    let ghost toks = tokens@;
    let mut elements: Vec<LineElement> = Vec::new();
    let mut next: usize = at + 1;
    assert(elements@ + line_elements_from(toks, next as int).0 =~= line_elements_from(
        toks,
        next as int,
    ).0);
    let mut done = false;
    while !done
        invariant
            toks == tokens@,
            at < next <= toks.len(),
            line_elements_from(toks, at + 1).0 == elements@ + line_elements_from(
                toks,
                next as int,
            ).0,
            line_elements_from(toks, at + 1).1 == line_elements_from(toks, next as int).1,
            done ==> line_element_at(toks, next as int) is None,
        decreases toks.len() - next + (if done { 0int } else { 1int }),
    {
        match read_line_element(tokens, next) {
            Some(found) => {
                proof {
                    let rest = line_elements_from(toks, found.1 as int).0;
                    assert(elements@.push(found.0) + rest =~= elements@ + (seq![found.0] + rest));
                }
                elements.push(found.0);
                next = found.1;
            },
            None => {
                done = true;
            },
        }
    }
    assert(elements@ + Seq::<LineElement>::empty() =~= elements@);
    if elements.len() == 0 {
        None
    } else {
        Some((Line { elements }, next))
    }
}

/// Reads the point directive at `at`.
pub fn parse_point(tokens: &TokenSet, at: usize) -> (out: Option<(Point, usize)>)
    ensures
        reads(out, point_at(tokens@, at as int)),
        out matches Some(found) ==> at < found.1 <= tokens@.len(),
{
    let length = tokens.len();
    if !is_keyword(tokens, at, Keyword::Point) {
        return None;
    }
    let ghost toks = tokens@;
    let mut elements: Vec<i32> = Vec::new();
    let mut next: usize = at + 1;
    assert(elements@ + ints_from(toks, next as int) =~= ints_from(toks, next as int));
    let mut done = false;
    while !done
        invariant
            toks == tokens@,
            length == toks.len(),
            next == at + 1 + elements@.len(),
            next <= toks.len(),
            ints_from(toks, at + 1) == elements@ + ints_from(toks, next as int),
            done ==> int_at(toks, next as int) is None,
        decreases toks.len() - next + (if done { 0int } else { 1int }),
    {
        match read_int(tokens, next) {
            Some(index) => {
                proof {
                    let rest = ints_from(toks, next + 1);
                    assert(elements@.push(index) + rest =~= elements@ + (seq![index] + rest));
                }
                elements.push(index);
                next += 1;
            },
            None => {
                done = true;
            },
        }
    }
    assert(elements@ + Seq::<i32>::empty() =~= elements@);
    if elements.len() == 0 {
        None
    } else {
        Some((Point { elements }, next))
    }
}

/// Reads the words behind the keyword at `at`, if there is at least one.
fn read_words_after(tokens: &TokenSet, at: usize, keyword: Keyword) -> (out: Option<
    (Vec<String>, usize),
>)
    ensures
        match words_after(tokens@, at as int, keyword) {
            Some(words) => out matches Some(found) && each_view(found.0@) == words && found.1
                == at + 1 + words.len() && found.1 <= tokens@.len(),
            None => out is None,
        },
{
    let length = tokens.len();
    if !is_keyword(tokens, at, keyword) {
        return None;
    }
    let words = read_words(tokens, at + 1);
    if words.len() == 0 {
        None
    } else {
        let next = at + 1 + words.len();
        Some((words, next))
    }
}

/// Reads the word behind the keyword at `at`.
fn read_word_after(tokens: &TokenSet, at: usize, keyword: Keyword) -> (out: Option<String>)
    ensures
        opt_view(out) == word_after(tokens@, at as int, keyword),
        out is Some ==> at + 2 <= tokens@.len(),
{
    let length = tokens.len();
    if !is_keyword(tokens, at, keyword) {
        return None;
    }
    read_word(tokens, at + 1)
}

/// Reads the flag behind the keyword at `at`.
fn read_flag_after(tokens: &TokenSet, at: usize, keyword: Keyword) -> (out: Option<bool>)
    ensures
        out == flag_after(tokens@, at as int, keyword),
        out is Some ==> at + 2 <= tokens@.len(),
{
    match read_word_after(tokens, at, keyword) {
        Some(word) => Some(word == String::from_str("true")),
        None => None,
    }
}

/// Reads the `g` directive at `at`.
pub fn parse_group(tokens: &TokenSet, at: usize) -> (out: Option<(ModelElement, usize)>)
    ensures
        reads(
            out,
            followed(
                words_after(tokens@, at as int, Keyword::Group),
                |names: Seq<Seq<char>>| Directive::Group(names),
                at + 1 + words_after(tokens@, at as int, Keyword::Group)->0.len(),
            ),
        ),
        out matches Some(found) ==> at < found.1 <= tokens@.len(),
{
    match read_words_after(tokens, at, Keyword::Group) {
        Some((names, next)) => Some((ModelElement::Group(names), next)),
        None => None,
    }
}

/// Reads the `mtllib` directive at `at`.
pub fn parse_mat_lib(tokens: &TokenSet, at: usize) -> (out: Option<(ModelElement, usize)>)
    ensures
        reads(
            out,
            followed(
                words_after(tokens@, at as int, Keyword::MaterialLib),
                |names: Seq<Seq<char>>| Directive::MaterialLib(names),
                at + 1 + words_after(tokens@, at as int, Keyword::MaterialLib)->0.len(),
            ),
        ),
        out matches Some(found) ==> at < found.1 <= tokens@.len(),
{
    match read_words_after(tokens, at, Keyword::MaterialLib) {
        Some((names, next)) => Some((ModelElement::MaterialLib(names), next)),
        None => None,
    }
}

/// Reads the `maplib` directive at `at`.
pub fn parse_texture_lib(tokens: &TokenSet, at: usize) -> (out: Option<(ModelElement, usize)>)
    ensures
        reads(
            out,
            followed(
                words_after(tokens@, at as int, Keyword::TextureMapLib),
                |names: Seq<Seq<char>>| Directive::TextureLib(names),
                at + 1 + words_after(tokens@, at as int, Keyword::TextureMapLib)->0.len(),
            ),
        ),
        out matches Some(found) ==> at < found.1 <= tokens@.len(),
{
    match read_words_after(tokens, at, Keyword::TextureMapLib) {
        Some((names, next)) => Some((ModelElement::TextureLib(names), next)),
        None => None,
    }
}

/// Reads the `usemtl` directive at `at`.
pub fn parse_material(tokens: &TokenSet, at: usize) -> (out: Option<(ModelElement, usize)>)
    ensures
        reads(
            out,
            followed(
                word_after(tokens@, at as int, Keyword::UseMaterial),
                |name: Seq<char>| Directive::Material(name),
                at + 2,
            ),
        ),
        out matches Some(found) ==> at < found.1 <= tokens@.len(),
{
    let length = tokens.len();
    match read_word_after(tokens, at, Keyword::UseMaterial) {
        Some(name) => Some((ModelElement::Material(name), at + 2)),
        None => None,
    }
}

/// Reads the `usemap` directive at `at`.
pub fn parse_texture_map(tokens: &TokenSet, at: usize) -> (out: Option<(ModelElement, usize)>)
    ensures
        reads(
            out,
            followed(
                word_after(tokens@, at as int, Keyword::UseTextureMap),
                |name: Seq<char>| Directive::TextureMap(name),
                at + 2,
            ),
        ),
        out matches Some(found) ==> at < found.1 <= tokens@.len(),
{
    let length = tokens.len();
    match read_word_after(tokens, at, Keyword::UseTextureMap) {
        Some(name) => Some((ModelElement::TextureMap(name), at + 2)),
        None => None,
    }
}

/// Reads the `shadow_obj` directive at `at`.
pub fn parse_shadow_obj(tokens: &TokenSet, at: usize) -> (out: Option<(ModelElement, usize)>)
    ensures
        reads(
            out,
            followed(
                word_after(tokens@, at as int, Keyword::ShadowObj),
                |name: Seq<char>| Directive::ShadowObj(name),
                at + 2,
            ),
        ),
        out matches Some(found) ==> at < found.1 <= tokens@.len(),
{
    let length = tokens.len();
    match read_word_after(tokens, at, Keyword::ShadowObj) {
        Some(name) => Some((ModelElement::ShadowObj(name), at + 2)),
        None => None,
    }
}

/// Reads the `trace_obj` directive at `at`.
pub fn parse_trace_obj(tokens: &TokenSet, at: usize) -> (out: Option<(ModelElement, usize)>)
    ensures
        reads(
            out,
            followed(
                word_after(tokens@, at as int, Keyword::TraceObj),
                |name: Seq<char>| Directive::TraceObj(name),
                at + 2,
            ),
        ),
        out matches Some(found) ==> at < found.1 <= tokens@.len(),
{
    let length = tokens.len();
    match read_word_after(tokens, at, Keyword::TraceObj) {
        Some(name) => Some((ModelElement::TraceObj(name), at + 2)),
        None => None,
    }
}

/// Reads the `o` directive at `at`.
pub fn parse_obj_name(tokens: &TokenSet, at: usize) -> (out: Option<(ModelElement, usize)>)
    ensures
        reads(
            out,
            followed(object_name_at(tokens@, at as int), |name: Seq<char>| Directive::ObjName(name), at + 2),
        ),
        out matches Some(found) ==> at < found.1 <= tokens@.len(),
{
    let length = tokens.len();
    if !is_keyword(tokens, at, Keyword::Object) {
        return None;
    }
    match read_int(tokens, at + 1) {
        Some(value) => Some((ModelElement::ObjName(int_to_string(value)), at + 2)),
        None => match read_word(tokens, at + 1) {
            Some(name) => Some((ModelElement::ObjName(name), at + 2)),
            None => None,
        },
    }
}

/// Reads the `s` directive at `at`. A word in place of the number does not
/// stop the parse: it stands for group 0.
pub fn parse_smoothing(tokens: &TokenSet, at: usize) -> (out: Option<(ModelElement, usize)>)
    ensures
        reads(
            out,
            followed(smoothing_at(tokens@, at as int), |id: i32| Directive::Smoothing(id), at + 2),
        ),
        out matches Some(found) ==> at < found.1 <= tokens@.len(),
{
    let length = tokens.len();
    if !is_keyword(tokens, at, Keyword::Smoothing) {
        return None;
    }
    match read_int(tokens, at + 1) {
        Some(id) => Some((ModelElement::Smoothing(id), at + 2)),
        None => match read_word(tokens, at + 1) {
            Some(_) => Some((ModelElement::Smoothing(0), at + 2)),
            None => None,
        },
    }
}

/// Reads the `bevel` directive at `at`.
pub fn parse_bevel(tokens: &TokenSet, at: usize) -> (out: Option<(ModelElement, usize)>)
    ensures
        reads(
            out,
            followed(
                flag_after(tokens@, at as int, Keyword::Bevel),
                |flag: bool| Directive::Bevel(flag),
                at + 2,
            ),
        ),
        out matches Some(found) ==> at < found.1 <= tokens@.len(),
{
    let length = tokens.len();
    match read_flag_after(tokens, at, Keyword::Bevel) {
        Some(flag) => Some((ModelElement::Bevel(flag), at + 2)),
        None => None,
    }
}

/// Reads the `c_interp` directive at `at`.
pub fn parse_c_interp(tokens: &TokenSet, at: usize) -> (out: Option<(ModelElement, usize)>)
    ensures
        reads(
            out,
            followed(
                flag_after(tokens@, at as int, Keyword::CInterp),
                |flag: bool| Directive::CInterp(flag),
                at + 2,
            ),
        ),
        out matches Some(found) ==> at < found.1 <= tokens@.len(),
{
    let length = tokens.len();
    match read_flag_after(tokens, at, Keyword::CInterp) {
        Some(flag) => Some((ModelElement::CInterp(flag), at + 2)),
        None => None,
    }
}

/// Reads the `d_interp` directive at `at`.
pub fn parse_d_interp(tokens: &TokenSet, at: usize) -> (out: Option<(ModelElement, usize)>)
    ensures
        reads(
            out,
            followed(
                flag_after(tokens@, at as int, Keyword::DInterp),
                |flag: bool| Directive::DInterp(flag),
                at + 2,
            ),
        ),
        out matches Some(found) ==> at < found.1 <= tokens@.len(),
{
    let length = tokens.len();
    match read_flag_after(tokens, at, Keyword::DInterp) {
        Some(flag) => Some((ModelElement::DInterp(flag), at + 2)),
        None => None,
    }
}

/// Reads the `lod` directive at `at`.
pub fn parse_lod(tokens: &TokenSet, at: usize) -> (out: Option<(ModelElement, usize)>)
    ensures
        reads(
            out,
            followed(
                int_after(tokens@, at as int, Keyword::Lod),
                |level: i32| Directive::Lod(level),
                at + 2,
            ),
        ),
        out matches Some(found) ==> at < found.1 <= tokens@.len(),
{
    let length = tokens.len();
    if !is_keyword(tokens, at, Keyword::Lod) {
        return None;
    }
    match read_int(tokens, at + 1) {
        Some(level) => Some((ModelElement::Lod(level), at + 2)),
        None => None,
    }
}

/// The list filed under `name`; empty where there is none.
pub open spec fn list_at<T>(table: Map<Seq<char>, Seq<T>>, name: Seq<char>) -> Seq<T> {
    if table.contains_key(name) {
        table[name]
    } else {
        Seq::empty()
    }
}

/// `table` after `item` has been appended to the list of each of `names`,
/// one name after the other.
pub open spec fn filed<T>(table: Map<Seq<char>, Seq<T>>, names: Seq<Seq<char>>, item: T) -> Map<
    Seq<char>,
    Seq<T>,
>
    decreases names.len(),
{
    if names.len() == 0 {
        table
    } else {
        let before = filed(table, names.drop_last(), item);
        before.insert(names.last(), list_at(before, names.last()).push(item))
    }
}

/// The settings of the group `name`; those of an untouched group where
/// there is none.
pub open spec fn settings_at(groups: Map<Seq<char>, Group<Seq<char>>>, name: Seq<char>) -> Group<
    Seq<char>,
> {
    if groups.contains_key(name) {
        groups[name]
    } else {
        default_group()
    }
}

/// The settings of a group after a directive. Only five directives change
/// them.
pub open spec fn changed(group: Group<Seq<char>>, directive: Directive) -> Group<Seq<char>> {
    match directive {
        Directive::Material(name) => Group { material_name: name, ..group },
        Directive::TextureMap(name) => Group { texture_map: Some(name), ..group },
        Directive::Bevel(flag) => Group { bevel: flag, ..group },
        Directive::CInterp(flag) => Group { c_interp: flag, ..group },
        Directive::DInterp(flag) => Group { d_interp: flag, ..group },
        _ => group,
    }
}

/// `groups` after the directive has been applied to each of `names`, one
/// name after the other. A name without settings gets them.
pub open spec fn changed_groups(
    groups: Map<Seq<char>, Group<Seq<char>>>,
    names: Seq<Seq<char>>,
    directive: Directive,
) -> Map<Seq<char>, Group<Seq<char>>>
    decreases names.len(),
{
    if names.len() == 0 {
        groups
    } else {
        let before = changed_groups(groups, names.drop_last(), directive);
        before.insert(names.last(), changed(settings_at(before, names.last()), directive))
    }
}

/// The scene after one more directive.
pub open spec fn apply(model: ModelView, directive: Directive) -> ModelView {
    match directive {
        Directive::Vertex(vertex) => ModelView { vertices: model.vertices.push(vertex), ..model },
        Directive::Normal(normal) => ModelView { normals: model.normals.push(normal), ..model },
        Directive::Texture(texture) => ModelView {
            textures: model.textures.push(texture),
            ..model
        },
        Directive::Face(face) => ModelView {
            faces: filed(
                model.faces,
                model.current_group,
                FaceView { smoothing_group: model.current_smoothing_group, ..face },
            ),
            ..model
        },
        Directive::Line(line) => ModelView {
            lines: filed(model.lines, model.current_group, line),
            ..model
        },
        Directive::Point(point) => ModelView {
            points: filed(model.points, model.current_group, point),
            ..model
        },
        Directive::Group(names) => ModelView {
            groups: changed_groups(model.groups, names, directive),
            current_group: names,
            ..model
        },
        Directive::MaterialLib(names) => ModelView {
            material_libs: model.material_libs + names,
            ..model
        },
        Directive::TextureLib(names) => ModelView {
            texture_libs: model.texture_libs + names,
            ..model
        },
        Directive::Material(_)
        | Directive::TextureMap(_)
        | Directive::Bevel(_)
        | Directive::CInterp(_)
        | Directive::DInterp(_) => ModelView {
            groups: changed_groups(model.groups, model.current_group, directive),
            ..model
        },
        Directive::Smoothing(id) => ModelView { current_smoothing_group: id, ..model },
        Directive::ShadowObj(name) => ModelView { shadow_obj: Some(name), ..model },
        Directive::TraceObj(name) => ModelView { trace_obj: Some(name), ..model },
        Directive::ObjName(_) | Directive::Lod(_) => model,
    }
}

/// The scene after the directives of `toks[at..]`, one after the other;
/// `None` where some token fits no directive.
pub open spec fn reduce_from(toks: Seq<Token<Seq<char>>>, at: int, model: ModelView) -> Option<
    ModelView,
>
    decreases toks.len() - at,
{
    if at >= toks.len() {
        Some(model)
    } else {
        match directive_at(toks, at) {
            Some(found) => if at < found.1 <= toks.len() {
                reduce_from(toks, found.1, apply(model, found.0))
            } else {
                None
            },
            None => None,
        }
    }
}

/// The scene that a whole token sequence describes.
pub open spec fn reduce(toks: Seq<Token<Seq<char>>>) -> Option<ModelView> {
    reduce_from(toks, 0, initial_model())
}

/// Where the reading of directives from `at` on stops: at the end, or at the
/// first token that fits no directive.
pub open spec fn stop_from(toks: Seq<Token<Seq<char>>>, at: int) -> int
    decreases toks.len() - at,
{
    if at >= toks.len() {
        at
    } else {
        match directive_at(toks, at) {
            Some(found) => if at < found.1 <= toks.len() {
                stop_from(toks, found.1)
            } else {
                at
            },
            None => at,
        }
    }
}

/// Appends `item` to the list filed under `name`.
fn file_item<T: View>(table: &mut NameMap<Vec<T>>, name: &String, item: T)
    requires
        old(table).wf(),
    ensures
        final(table).wf(),
        final(table).mapped(lists::<T>()) == old(table).mapped(lists::<T>()).insert(
            name@,
            list_at(old(table).mapped(lists::<T>()), name@).push(item@),
        ),
{
    let ghost before = *table;
    match table.position(name) {
        Some(i) => {
            proof {
                lemma_each_view_push(table.values@[i as int]@, item);
            }
            table.values[i].push(item);
            proof {
                before.lemma_update(table, i as int, lists::<T>());
            }
        },
        None => {
            let mut list: Vec<T> = Vec::new();
            proof {
                lemma_each_view_push(list@, item);
                lemma_each_view_push(table.names@, *name);
                assert(each_view(list@) =~= Seq::<T::V>::empty());
            }
            list.push(item);
            table.names.push(name.clone());
            table.values.push(list);
            proof {
                assert(table.keys().drop_last() =~= before.keys());
                assert(table.values@.drop_last() =~= before.values@);
                before.lemma_append(table, lists::<T>());
            }
        },
    }
}

/// Appends a copy of `item` to the list of each of `names`.
fn file_under<T: Duplicate>(table: &mut NameMap<Vec<T>>, names: &Vec<String>, item: &T)
    requires
        old(table).wf(),
    ensures
        final(table).wf(),
        final(table).mapped(lists::<T>()) == filed(
            old(table).mapped(lists::<T>()),
            each_view(names@),
            item@,
        ),
{
    let ghost start = old(table).mapped(lists::<T>());
    let mut i: usize = 0;
    assert(each_view(names@.take(0)) =~= Seq::<Seq<char>>::empty());
    while i < names.len()
        invariant
            i <= names@.len(),
            table.wf(),
            table.mapped(lists::<T>()) == filed(start, each_view(names@.take(i as int)), item@),
        decreases names@.len() - i,
    {
        proof {
            lemma_each_view_push(names@.take(i as int), names@[i as int]);
            assert(names@.take(i + 1) =~= names@.take(i as int).push(names@[i as int]));
            assert(each_view(names@.take(i + 1)).drop_last() =~= each_view(names@.take(i as int)));
        }
        file_item(table, &names[i], item.duplicate());
        i += 1;
    }
    assert(names@.take(names@.len() as int) =~= names@);
}

/// Applies a directive to the settings of one group.
fn change_group(group: &mut Group<String>, element: &ModelElement)
    ensures
        final(group)@ == changed(old(group)@, element@),
{
    match element {
        ModelElement::Material(name) => {
            group.material_name = name.clone();
        },
        ModelElement::TextureMap(name) => {
            group.texture_map = Some(name.clone());
        },
        ModelElement::Bevel(flag) => {
            group.bevel = *flag;
        },
        ModelElement::CInterp(flag) => {
            group.c_interp = *flag;
        },
        ModelElement::DInterp(flag) => {
            group.d_interp = *flag;
        },
        _ => {},
    }
}

/// Applies a directive to the settings of each of `names`.
fn change_groups(groups: &mut NameMap<Group<String>>, names: &Vec<String>, element: &ModelElement)
    requires
        old(groups).wf(),
    ensures
        final(groups).wf(),
        final(groups).mapped(group_views()) == changed_groups(
            old(groups).mapped(group_views()),
            each_view(names@),
            element@,
        ),
{
    let ghost start = old(groups).mapped(group_views());
    let mut i: usize = 0;
    assert(each_view(names@.take(0)) =~= Seq::<Seq<char>>::empty());
    while i < names.len()
        invariant
            i <= names@.len(),
            groups.wf(),
            groups.mapped(group_views()) == changed_groups(
                start,
                each_view(names@.take(i as int)),
                element@,
            ),
        decreases names@.len() - i,
    {
        proof {
            lemma_each_view_push(names@.take(i as int), names@[i as int]);
            assert(names@.take(i + 1) =~= names@.take(i as int).push(names@[i as int]));
            assert(each_view(names@.take(i + 1)).drop_last() =~= each_view(names@.take(i as int)));
        }
        let ghost before = *groups;
        match groups.position(&names[i]) {
            Some(at) => {
                change_group(&mut groups.values[at], element);
                proof {
                    before.lemma_update(groups, at as int, group_views());
                }
            },
            None => {
                let mut group = Group::default();
                change_group(&mut group, element);
                proof {
                    lemma_each_view_push(groups.names@, names@[i as int]);
                }
                groups.names.push(names[i].clone());
                groups.values.push(group);
                proof {
                    assert(groups.keys().drop_last() =~= before.keys());
                    assert(groups.values@.drop_last() =~= before.values@);
                    before.lemma_append(groups, group_views());
                }
            },
        }
        i += 1;
    }
    assert(names@.take(names@.len() as int) =~= names@);
}

impl Model {
    /// Applies one directive to the scene.
    pub fn apply(&mut self, element: ModelElement)
        requires
            old(self).wf(),
        ensures
            final(self).wf(),
            final(self)@ == apply(old(self)@, element@),
    {
        match &element {
            ModelElement::Group(names) => {
                change_groups(&mut self.groups, names, &element);
                self.current_group = copy_strings(names);
                return ;
            },
            ModelElement::Material(_)
            | ModelElement::TextureMap(_)
            | ModelElement::Bevel(_)
            | ModelElement::CInterp(_)
            | ModelElement::DInterp(_) => {
                change_groups(&mut self.groups, &self.current_group, &element);
                return ;
            },
            _ => {},
        }
        match element {
            ModelElement::Vertex(vertex) => {
                proof {
                    lemma_each_view_push(self.vertices@, vertex);
                }
                self.vertices.push(vertex);
            },
            ModelElement::Normal(normal) => {
                proof {
                    lemma_each_view_push(self.normals@, normal);
                }
                self.normals.push(normal);
            },
            ModelElement::Texture(texture) => {
                proof {
                    lemma_each_view_push(self.textures@, texture);
                }
                self.textures.push(texture);
            },
            ModelElement::Face(face) => {
                let stamped = Face {
                    elements: face.elements,
                    smoothing_group: self.current_smoothing_group,
                };
                file_under(&mut self.faces, &self.current_group, &stamped);
            },
            ModelElement::Line(line) => {
                file_under(&mut self.lines, &self.current_group, &line);
            },
            ModelElement::Point(point) => {
                file_under(&mut self.points, &self.current_group, &point);
            },
            ModelElement::MaterialLib(names) => {
                let mut names = names;
                proof {
                    lemma_each_view_add(self.material_libs@, names@);
                }
                self.material_libs.append(&mut names);
            },
            ModelElement::TextureLib(names) => {
                let mut names = names;
                proof {
                    lemma_each_view_add(self.texture_libs@, names@);
                }
                self.texture_libs.append(&mut names);
            },
            ModelElement::Smoothing(id) => {
                self.current_smoothing_group = id;
            },
            ModelElement::ShadowObj(name) => {
                self.shadow_obj = Some(name);
            },
            ModelElement::TraceObj(name) => {
                self.trace_obj = Some(name);
            },
            _ => {},
        }
    }
}

/// Reads the directive at `at`, whichever it is.
pub fn parse_directive(tokens: &TokenSet, at: usize) -> (out: Option<(ModelElement, usize)>)
    ensures
        out is Some <==> directive_at(tokens@, at as int) is Some,
        out matches Some(found) ==> directive_at(tokens@, at as int) == Some(
            (found.0@, found.1 as int),
        ) && at < found.1 <= tokens@.len(),
{
    if at >= tokens.len() {
        return None;
    }
    proof {
        crate::cursor::lemma_token_view(tokens, at as int);
    }
    match &tokens.tokens[at] {
        Token::Keyword(keyword) => match keyword {
            Keyword::Vertex => match parse_vertex(tokens, at) {
                Some((vertex, next)) => Some((ModelElement::Vertex(vertex), next)),
                None => None,
            },
            Keyword::VertexNormal => match parse_vertex_normal(tokens, at) {
                Some((normal, next)) => Some((ModelElement::Normal(normal), next)),
                None => None,
            },
            Keyword::VertexTexture => match parse_vertex_texture(tokens, at) {
                Some((texture, next)) => Some((ModelElement::Texture(texture), next)),
                None => None,
            },
            Keyword::Face => match parse_face(tokens, at) {
                Some((face, next)) => Some((ModelElement::Face(face), next)),
                None => None,
            },
            Keyword::Line => match parse_line(tokens, at) {
                Some((line, next)) => Some((ModelElement::Line(line), next)),
                None => None,
            },
            Keyword::Point => match parse_point(tokens, at) {
                Some((point, next)) => Some((ModelElement::Point(point), next)),
                None => None,
            },
            Keyword::MaterialLib => parse_mat_lib(tokens, at),
            Keyword::UseMaterial => parse_material(tokens, at),
            Keyword::Object => parse_obj_name(tokens, at),
            Keyword::Smoothing => parse_smoothing(tokens, at),
            Keyword::Bevel => parse_bevel(tokens, at),
            Keyword::CInterp => parse_c_interp(tokens, at),
            Keyword::DInterp => parse_d_interp(tokens, at),
            Keyword::Lod => parse_lod(tokens, at),
            Keyword::ShadowObj => parse_shadow_obj(tokens, at),
            Keyword::TraceObj => parse_trace_obj(tokens, at),
            Keyword::TextureMapLib => parse_texture_lib(tokens, at),
            Keyword::UseTextureMap => parse_texture_map(tokens, at),
            Keyword::Group => parse_group(tokens, at),
            _ => None,
        },
        _ => None,
    }
}

/// Folds a token sequence into a scene. Fails where some token fits no
/// directive; the error then names the index of that token.
pub fn parse(tokens: &TokenSet) -> (out: Result<Model, ModelError>)
    ensures
        match out {
            Ok(model) => model.wf() && reduce(tokens@) == Some(model@),
            Err(ModelError::Parse(detail)) => reduce(tokens@) is None && detail@
                == "no directive at token "@ + crate::decimal::decimal(
                stop_from(tokens@, 0) as nat,
            ),
        },
{
    let mut model = Model::default();
    let mut at: usize = 0;
    let length = tokens.len();
    while at < length
        invariant
            length == tokens@.len(),
            at <= length,
            model.wf(),
            reduce(tokens@) == reduce_from(tokens@, at as int, model@),
            stop_from(tokens@, 0) == stop_from(tokens@, at as int),
        decreases length - at,
    {
        match parse_directive(tokens, at) {
            Some((element, next)) => {
                model.apply(element);
                at = next;
            },
            None => {
                let detail = String::from_str("no directive at token ").concat(
                    crate::decimal::nat_to_string(at as u64).as_str(),
                );
                return Err(ModelError::Parse(detail));
            },
        }
    }
    Ok(model)
}

} // verus!

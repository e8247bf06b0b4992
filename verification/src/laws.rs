//! Laws of the two reducers.

use crate::material::{
    bump_map, cc_map, cc_set, first_bump_multiplier, first_reflection_type, ncc_map, ncc_set,
    reflection_map, set_from, Material, MaterialElement, OptionElement,
};
use crate::model::{
    apply, changed_groups, default_name, directive_at, filed, initial_model, list_at, reduce,
    reduce_from, settings_at, Directive, FaceView, ModelView,
};
use crate::text::{is_line_break, lemma_run_end, lower_seq, run_end, Run};
use crate::tokenizer::{keyword_of, lex_step, tokens_from, tokens_of, Dialect, Keyword, Token};
use vstd::prelude::*;

verus! {

/// Filing under a single name touches the list of that name only, and
/// appends the item to it.
pub proof fn lemma_filed_under_one<T>(table: Map<Seq<char>, Seq<T>>, name: Seq<char>, item: T)
    ensures
        filed(table, seq![name], item) == table.insert(name, list_at(table, name).push(item)),
{
    let names = seq![name];
    assert(names.drop_last() =~= Seq::<Seq<char>>::empty());
    assert(filed(table, names.drop_last(), item) == table);
}

/// After filing, the item is the last one in the list of every name it was
/// filed under.
pub proof fn lemma_filed_last<T>(
    table: Map<Seq<char>, Seq<T>>,
    names: Seq<Seq<char>>,
    item: T,
    i: int,
)
    requires
        0 <= i < names.len(),
    ensures
        filed(table, names, item).contains_key(names[i]),
        filed(table, names, item)[names[i]].len() > 0,
        filed(table, names, item)[names[i]].last() == item,
    decreases names.len(),
{
    let before = filed(table, names.drop_last(), item);
    if i < names.len() - 1 {
        lemma_filed_last(table, names.drop_last(), item, i);
        assert(names.drop_last()[i] == names[i]);
    }
}

/// While only `default` is active, a face, a line or a point set is filed
/// under `default` and nowhere else; the face carries the smoothing group
/// that is current.
pub proof fn lemma_files_under_default(
    model: ModelView,
    face: FaceView,
    line: Seq<crate::model::LineElement>,
    point: Seq<i32>,
)
    requires
        model.current_group == seq![default_name()],
    ensures
        apply(model, Directive::Face(face)).faces == model.faces.insert(
            default_name(),
            list_at(model.faces, default_name()).push(
                FaceView { smoothing_group: model.current_smoothing_group, ..face },
            ),
        ),
        apply(model, Directive::Line(line)).lines == model.lines.insert(
            default_name(),
            list_at(model.lines, default_name()).push(line),
        ),
        apply(model, Directive::Point(point)).points == model.points.insert(
            default_name(),
            list_at(model.points, default_name()).push(point),
        ),
{
    lemma_filed_under_one(
        model.faces,
        default_name(),
        FaceView { smoothing_group: model.current_smoothing_group, ..face },
    );
    lemma_filed_under_one(model.lines, default_name(), line);
    lemma_filed_under_one(model.points, default_name(), point);
}

/// Changing the settings of names keeps every group that was there.
pub proof fn lemma_changed_groups_keeps(
    groups: Map<Seq<char>, crate::model::Group<Seq<char>>>,
    names: Seq<Seq<char>>,
    directive: Directive,
    name: Seq<char>,
)
    requires
        groups.contains_key(name),
    ensures
        changed_groups(groups, names, directive).contains_key(name),
    decreases names.len(),
{
    if names.len() > 0 {
        lemma_changed_groups_keeps(groups, names.drop_last(), directive, name);
    }
}

/// What holds of a scene as long as no `g` directive has been read: only
/// `default` is active, it has its settings, and nothing is filed under
/// another name.
pub open spec fn only_default(model: ModelView) -> bool {
    &&& model.current_group == seq![default_name()]
    &&& model.groups.contains_key(default_name())
    &&& forall|name: Seq<char>| model.faces.contains_key(name) ==> name == default_name()
    &&& forall|name: Seq<char>| model.lines.contains_key(name) ==> name == default_name()
    &&& forall|name: Seq<char>| model.points.contains_key(name) ==> name == default_name()
}

/// A directive other than `g` keeps a scene in which only `default` is
/// active that way.
pub proof fn lemma_only_default_kept(model: ModelView, directive: Directive)
    requires
        only_default(model),
        !(directive is Group),
    ensures
        only_default(apply(model, directive)),
{
    match directive {
        Directive::Face(face) => {
            lemma_files_under_default(model, face, Seq::empty(), Seq::empty());
        },
        Directive::Line(line) => {
            lemma_files_under_default(
                model,
                FaceView { elements: Seq::empty(), smoothing_group: 0 },
                line,
                Seq::empty(),
            );
        },
        Directive::Point(point) => {
            lemma_files_under_default(
                model,
                FaceView { elements: Seq::empty(), smoothing_group: 0 },
                Seq::empty(),
                point,
            );
        },
        Directive::Material(_)
        | Directive::TextureMap(_)
        | Directive::Bevel(_)
        | Directive::CInterp(_)
        | Directive::DInterp(_) => {
            lemma_changed_groups_keeps(
                model.groups,
                model.current_group,
                directive,
                default_name(),
            );
        },
        _ => {},
    }
}

/// The directive that starts with a keyword other than `g` is no `g`
/// directive.
pub proof fn lemma_group_needs_keyword(toks: Seq<Token<Seq<char>>>, at: int)
    requires
        directive_at(toks, at) is Some,
        (directive_at(toks, at)->0).0 is Group,
    ensures
        0 <= at < toks.len(),
        toks[at] == Token::<Seq<char>>::Keyword(Keyword::Group),
{
}

/// Reading on from a scene in which only `default` is active, through
/// tokens that hold no `g`, ends in such a scene.
pub proof fn lemma_without_groups_from(toks: Seq<Token<Seq<char>>>, at: int, model: ModelView)
    requires
        0 <= at,
        only_default(model),
        reduce_from(toks, at, model) is Some,
        forall|i: int|
            0 <= i < toks.len() ==> toks[i] != Token::<Seq<char>>::Keyword(Keyword::Group),
    ensures
        only_default(reduce_from(toks, at, model)->0),
    decreases toks.len() - at,
{
    if at < toks.len() {
        let found = directive_at(toks, at)->0;
        if found.0 is Group {
            lemma_group_needs_keyword(toks, at);
        }
        lemma_only_default_kept(model, found.0);
        lemma_without_groups_from(toks, found.1, apply(model, found.0));
    }
}

/// In the scene of a token sequence without any `g`, the group `default`
/// exists and every face, line and point set is filed under it.
pub proof fn lemma_without_groups(toks: Seq<Token<Seq<char>>>)
    requires
        reduce(toks) is Some,
        forall|i: int|
            0 <= i < toks.len() ==> toks[i] != Token::<Seq<char>>::Keyword(Keyword::Group),
    ensures
        only_default(reduce(toks)->0),
{
    assert(initial_model().groups.contains_key(default_name()));
    lemma_without_groups_from(toks, 0, initial_model());
}

/// `usemtl` may come before or after a vertex, a normal or a texture
/// coordinate: the scene is the same.
pub proof fn lemma_material_commutes(model: ModelView, name: Seq<char>, other: Directive)
    requires
        other is Vertex || other is Normal || other is Texture,
    ensures
        apply(apply(model, Directive::Material(name)), other) == apply(
            apply(model, other),
            Directive::Material(name),
        ),
{
}

/// After `usemtl`, every active group has the material.
pub proof fn lemma_material_set(model: ModelView, name: Seq<char>, i: int)
    requires
        0 <= i < model.current_group.len(),
    ensures
        apply(model, Directive::Material(name)).groups.contains_key(model.current_group[i]),
        apply(model, Directive::Material(name)).groups[model.current_group[i]].material_name
            == name,
{
    lemma_changed_last(model.groups, model.current_group, Directive::Material(name), i);
}

/// After a change of settings, every name that was changed has the
/// material, if the change was `usemtl`.
proof fn lemma_changed_last(
    groups: Map<Seq<char>, crate::model::Group<Seq<char>>>,
    names: Seq<Seq<char>>,
    directive: Directive,
    i: int,
)
    requires
        0 <= i < names.len(),
        directive is Material,
    ensures
        changed_groups(groups, names, directive).contains_key(names[i]),
        changed_groups(groups, names, directive)[names[i]].material_name == directive->Material_0,
    decreases names.len(),
{
    if i < names.len() - 1 {
        lemma_changed_last(groups, names.drop_last(), directive, i);
        assert(names.drop_last()[i] == names[i]);
        let before = changed_groups(groups, names.drop_last(), directive);
        if names.last() == names[i] {
            assert(settings_at(before, names.last()) == before[names[i]]);
        }
    }
}

/// The smoothing group is carried from directive to directive: only `s`
/// changes it, and a face that is read is filed with the one that is
/// current, under every active group.
pub proof fn lemma_smoothing_carried(model: ModelView, directive: Directive)
    ensures
        initial_model().current_smoothing_group == 0,
        match directive {
            Directive::Smoothing(id) => apply(model, directive).current_smoothing_group == id,
            _ => apply(model, directive).current_smoothing_group
                == model.current_smoothing_group,
        },
        directive is Face ==> forall|i: int|
            0 <= i < model.current_group.len() ==> {
                &&& apply(model, directive).faces.contains_key(#[trigger] model.current_group[i])
                &&& apply(model, directive).faces[model.current_group[i]].len() > 0
                &&& apply(model, directive).faces[model.current_group[i]].last().smoothing_group
                    == model.current_smoothing_group
            },
{
    if let Directive::Face(face) = directive {
        let stamped = FaceView { smoothing_group: model.current_smoothing_group, ..face };
        assert forall|i: int| 0 <= i < model.current_group.len() implies {
            &&& apply(model, directive).faces.contains_key(#[trigger] model.current_group[i])
            &&& apply(model, directive).faces[model.current_group[i]].len() > 0
            &&& apply(model, directive).faces[model.current_group[i]].last().smoothing_group
                == model.current_smoothing_group
        } by {
            lemma_filed_last(model.faces, model.current_group, stamped, i);
        }
    }
}

/// Whether two options set the same field.
pub open spec fn same_kind(a: OptionElement<Seq<char>>, b: OptionElement<Seq<char>>) -> bool {
    match a {
        OptionElement::FileName(_) => b is FileName,
        OptionElement::BlendU(_) => b is BlendU,
        OptionElement::BlendV(_) => b is BlendV,
        OptionElement::Cc(_) => b is Cc,
        OptionElement::Clamp(_) => b is Clamp,
        OptionElement::TextureRange(_) => b is TextureRange,
        OptionElement::Offset(_) => b is Offset,
        OptionElement::Scale(_) => b is Scale,
        OptionElement::Turbulance(_) => b is Turbulance,
        OptionElement::TextureRes(_) => b is TextureRes,
        OptionElement::ImfChan(_) => b is ImfChan,
        OptionElement::BumpMultiplier(_) => b is BumpMultiplier,
        OptionElement::ReflectionType(_) => b is ReflectionType,
    }
}

/// Two neighbouring options that set different fields may change places:
/// the map is the same.
pub proof fn lemma_options_swap(
    front: Seq<OptionElement<Seq<char>>>,
    a: OptionElement<Seq<char>>,
    b: OptionElement<Seq<char>>,
    back: Seq<OptionElement<Seq<char>>>,
)
    requires
        !same_kind(a, b),
    ensures
        cc_map(front + seq![a, b] + back) == cc_map(front + seq![b, a] + back),
        ncc_map(front + seq![a, b] + back) == ncc_map(front + seq![b, a] + back),
    decreases back.len(),
{
    let ab = front + seq![a, b] + back;
    let ba = front + seq![b, a] + back;
    if back.len() == 0 {
        let front_a = front + seq![a];
        let front_b = front + seq![b];
        assert(ab.drop_last() =~= front_a);
        assert(ba.drop_last() =~= front_b);
        assert(front_a.drop_last() =~= front);
        assert(front_b.drop_last() =~= front);
        assert(ab.last() == b && ba.last() == a);
        assert(front_a.last() == a && front_b.last() == b);
        assert(cc_map(front_a) == cc_set(cc_map(front_a.drop_last()), a));
        assert(cc_map(front_b) == cc_set(cc_map(front_b.drop_last()), b));
        assert(ncc_map(front_a) == ncc_set(ncc_map(front_a.drop_last()), a));
        assert(ncc_map(front_b) == ncc_set(ncc_map(front_b.drop_last()), b));
        assert(cc_map(ab) == cc_set(cc_map(ab.drop_last()), b));
        assert(cc_map(ba) == cc_set(cc_map(ba.drop_last()), a));
        assert(ncc_map(ab) == ncc_set(ncc_map(ab.drop_last()), b));
        assert(ncc_map(ba) == ncc_set(ncc_map(ba.drop_last()), a));
        assert(cc_map(ab) == cc_set(cc_set(cc_map(front), a), b));
        assert(cc_map(ba) == cc_set(cc_set(cc_map(front), b), a));
        assert(ncc_map(ab) == ncc_set(ncc_set(ncc_map(front), a), b));
        assert(ncc_map(ba) == ncc_set(ncc_set(ncc_map(front), b), a));
    } else {
        lemma_options_swap(front, a, b, back.drop_last());
        assert(ab.drop_last() =~= front + seq![a, b] + back.drop_last());
        assert(ba.drop_last() =~= front + seq![b, a] + back.drop_last());
    }
}

/// A text that is one comment, a `#` and no line break after it, has no
/// token.
pub proof fn lemma_comment_line(dialect: Dialect, text: Seq<char>)
    requires
        text.len() > 0,
        text[0] == '#',
        forall|i: int| 0 <= i < text.len() ==> !is_line_break(text[i]),
    ensures
        tokens_of(dialect, text) == Seq::<Token<Seq<char>>>::empty(),
{
    let word = run_end(text, 0, Run::Word);
    lemma_run_end(text, 0, Run::Word);
    lemma_run_end(text, 0, Run::Digits);
    lemma_run_end(text, 1, Run::Line);
    if keyword_of(dialect, text.subrange(0, word)) is Some {
        match dialect {
            Dialect::Obj => crate::tokenizer::obj::lemma_keyword_start(text.subrange(0, word)),
            Dialect::Mtl => crate::tokenizer::mtl::lemma_keyword_start(text.subrange(0, word)),
        }
    }
    let step = lex_step(dialect, text, 0);
    assert(step.0 is Ignore);
    assert(step.1 == text.len());
    assert(tokens_from(dialect, text, text.len() as int) == Seq::<Token<Seq<char>>>::empty());
}

/// Every directive keeps the groups that are there.
pub proof fn lemma_group_kept(model: ModelView, directive: Directive, name: Seq<char>)
    requires
        model.groups.contains_key(name),
    ensures
        apply(model, directive).groups.contains_key(name),
{
    match directive {
        Directive::Group(names) => {
            lemma_changed_groups_keeps(model.groups, names, directive, name);
        },
        Directive::Material(_)
        | Directive::TextureMap(_)
        | Directive::Bevel(_)
        | Directive::CInterp(_)
        | Directive::DInterp(_) => {
            lemma_changed_groups_keeps(model.groups, model.current_group, directive, name);
        },
        _ => {},
    }
}

/// Reading on keeps the groups that are there.
pub proof fn lemma_groups_kept_from(
    toks: Seq<Token<Seq<char>>>,
    at: int,
    model: ModelView,
    name: Seq<char>,
)
    requires
        0 <= at,
        model.groups.contains_key(name),
        reduce_from(toks, at, model) is Some,
    ensures
        reduce_from(toks, at, model)->0.groups.contains_key(name),
    decreases toks.len() - at,
{
    if at < toks.len() {
        let found = directive_at(toks, at)->0;
        lemma_group_kept(model, found.0, name);
        lemma_groups_kept_from(toks, found.1, apply(model, found.0), name);
    }
}

/// Every scene has the group `default`.
pub proof fn lemma_default_exists(toks: Seq<Token<Seq<char>>>)
    requires
        reduce(toks) is Some,
    ensures
        reduce(toks)->0.groups.contains_key(default_name()),
{
    assert(initial_model().groups.contains_key(default_name()));
    lemma_groups_kept_from(toks, 0, initial_model(), default_name());
}

/// No finished token sequence holds the marker for what is left out.
pub proof fn lemma_no_ignore(dialect: Dialect, text: Seq<char>, at: int, i: int)
    requires
        0 <= i < tokens_from(dialect, text, at).len(),
    ensures
        !(tokens_from(dialect, text, at)[i] is Ignore),
    decreases text.len() - at,
{
    if 0 <= at < text.len() {
        let step = lex_step(dialect, text, at);
        if at < step.1 <= text.len() {
            if step.0 is Ignore {
                lemma_no_ignore(dialect, text, step.1, i);
            } else if i > 0 {
                lemma_no_ignore(dialect, text, step.1, i - 1);
            }
        }
    }
}

/// Two neighbouring options that set different fields may change places:
/// the first bump multiplier and the first reflection type are the same.
pub proof fn lemma_first_swap(
    front: Seq<OptionElement<Seq<char>>>,
    a: OptionElement<Seq<char>>,
    b: OptionElement<Seq<char>>,
    back: Seq<OptionElement<Seq<char>>>,
)
    requires
        !same_kind(a, b),
    ensures
        first_bump_multiplier(front + seq![a, b] + back) == first_bump_multiplier(
            front + seq![b, a] + back,
        ),
        first_reflection_type(front + seq![a, b] + back) == first_reflection_type(
            front + seq![b, a] + back,
        ),
    decreases front.len(),
{
    let ab = front + seq![a, b] + back;
    let ba = front + seq![b, a] + back;
    if front.len() == 0 {
        let after_a = seq![b] + back;
        let after_b = seq![a] + back;
        assert(ab.drop_first() =~= after_a);
        assert(ba.drop_first() =~= after_b);
        assert(after_a.drop_first() =~= back);
        assert(after_b.drop_first() =~= back);
        assert(ab[0] == a && ba[0] == b && after_a[0] == b && after_b[0] == a);
        assert(first_bump_multiplier(after_a) == match b {
            OptionElement::BumpMultiplier(factor) => Some(factor),
            _ => first_bump_multiplier(back),
        });
        assert(first_bump_multiplier(after_b) == match a {
            OptionElement::BumpMultiplier(factor) => Some(factor),
            _ => first_bump_multiplier(back),
        });
        assert(first_bump_multiplier(ab) == match a {
            OptionElement::BumpMultiplier(factor) => Some(factor),
            _ => first_bump_multiplier(after_a),
        });
        assert(first_bump_multiplier(ba) == match b {
            OptionElement::BumpMultiplier(factor) => Some(factor),
            _ => first_bump_multiplier(after_b),
        });
        assert(first_reflection_type(after_a) == match b {
            OptionElement::ReflectionType(kind) => Some(kind),
            _ => first_reflection_type(back),
        });
        assert(first_reflection_type(after_b) == match a {
            OptionElement::ReflectionType(kind) => Some(kind),
            _ => first_reflection_type(back),
        });
        assert(first_reflection_type(ab) == match a {
            OptionElement::ReflectionType(kind) => Some(kind),
            _ => first_reflection_type(after_a),
        });
        assert(first_reflection_type(ba) == match b {
            OptionElement::ReflectionType(kind) => Some(kind),
            _ => first_reflection_type(after_b),
        });
    } else {
        lemma_first_swap(front.drop_first(), a, b, back);
        assert(ab.drop_first() =~= front.drop_first() + seq![a, b] + back);
        assert(ba.drop_first() =~= front.drop_first() + seq![b, a] + back);
        assert(ab[0] == front[0] && ba[0] == front[0]);
    }
}

/// Two neighbouring options that set different fields may change places:
/// the bump map and the reflection map are the same.
pub proof fn lemma_options_swap_wrapped(
    front: Seq<OptionElement<Seq<char>>>,
    a: OptionElement<Seq<char>>,
    b: OptionElement<Seq<char>>,
    back: Seq<OptionElement<Seq<char>>>,
)
    requires
        !same_kind(a, b),
    ensures
        bump_map(front + seq![a, b] + back) == bump_map(front + seq![b, a] + back),
        reflection_map(front + seq![a, b] + back) == reflection_map(front + seq![b, a] + back),
{
    lemma_options_swap(front, a, b, back);
    lemma_first_swap(front, a, b, back);
}

/// Of two options that set the same field, the later one counts.
pub proof fn lemma_later_option_wins(
    a: OptionElement<Seq<char>>,
    b: OptionElement<Seq<char>>,
)
    requires
        same_kind(a, b),
    ensures
        forall|map: crate::material::ColorCorrectedMap<Seq<char>>|
            cc_set(#[trigger] cc_set(map, a), b) == cc_set(map, b),
        forall|map: crate::material::NonColorCorrectedMap<Seq<char>>|
            ncc_set(#[trigger] ncc_set(map, a), b) == ncc_set(map, b),
{
}

/// Whether two directives set the same field of a material.
pub open spec fn same_field(a: MaterialElement<Seq<char>>, b: MaterialElement<Seq<char>>) -> bool {
    match a {
        MaterialElement::Name(_) => b is Name,
        MaterialElement::Ambient(_) => b is Ambient,
        MaterialElement::Diffuse(_) => b is Diffuse,
        MaterialElement::Specular(_) => b is Specular,
        MaterialElement::EmissiveCoefficient(_) => b is EmissiveCoefficient,
        MaterialElement::SpecularExponent(_) => b is SpecularExponent,
        MaterialElement::Disolve(_) => b is Disolve,
        MaterialElement::Transparency(_) => b is Transparency,
        MaterialElement::TransmissionFactor(_) => b is TransmissionFactor,
        MaterialElement::Sharpness(_) => b is Sharpness,
        MaterialElement::IndexOfRefraction(_) => b is IndexOfRefraction,
        MaterialElement::IlluminationModel(_) => b is IlluminationModel,
        MaterialElement::TexMapAmbient(_) => b is TexMapAmbient,
        MaterialElement::TexMapDiffuse(_) => b is TexMapDiffuse,
        MaterialElement::TexMapSpecular(_) => b is TexMapSpecular,
        MaterialElement::ShininessMap(_) => b is ShininessMap,
        MaterialElement::DisolveMap(_) => b is DisolveMap,
        MaterialElement::DisplacementMap(_) => b is DisplacementMap,
        MaterialElement::Decal(_) => b is Decal,
        MaterialElement::BumpMap(_) => b is BumpMap,
        MaterialElement::ReflectionMap(_) => b is ReflectionMap,
        MaterialElement::AntiAliasMap(_) => b is AntiAliasMap,
    }
}

/// Of two directives that set the same field of a material, the later one
/// counts; two that set different fields may change places.
pub proof fn lemma_last_write_wins(
    material: Material<Seq<char>>,
    a: MaterialElement<Seq<char>>,
    b: MaterialElement<Seq<char>>,
)
    ensures
        same_field(a, b) ==> set_from(set_from(material, a), b) == set_from(material, b),
        !same_field(a, b) ==> set_from(set_from(material, a), b) == set_from(
            set_from(material, b),
            a,
        ),
{
}

/// Keywords are matched without regard to letter case: two words that are
/// the same in lower case spell the same keyword, or none.
pub proof fn lemma_keyword_ignores_case(dialect: Dialect, a: Seq<char>, b: Seq<char>)
    requires
        lower_seq(a) == lower_seq(b),
    ensures
        keyword_of(dialect, a) == keyword_of(dialect, b),
{
}

} // verus!

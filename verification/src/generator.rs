//! From the manifest of the icon font to the registry of constants and its
//! text.

use vstd::prelude::*;
use crate::naming::{
    compose_key, constant_key, identifier_of_tag, lemma_all_weights, lemma_identifier_from_valid,
    lemma_key_is_identifier, lemma_keys_distinct, normalize_tag, upper_snake_case, IconWeight,
};
use crate::registry::{in_order, ConstantModel, IconConstant, IconRegistry};
use crate::text::is_identifier;

verus! {

/// One glyph of the font with the tags under which it is known.
#[derive(Debug)]
pub struct Glyph {
    pub tags: Vec<String>,
}

/// One set of glyphs of the manifest.
#[derive(Debug)]
pub struct IconSet {
    pub icons: Vec<Glyph>,
}

/// The manifest of the icon font. Only its first set is read.
#[derive(Debug)]
pub struct Manifest {
    pub icon_sets: Vec<IconSet>,
}

impl View for Glyph {
    type V = Seq<Seq<char>>;

    /// The tags of the glyph.
    open spec fn view(&self) -> Seq<Seq<char>> {
        self.tags@.map_values(|tag: String| tag@)
    }
}

impl View for IconSet {
    type V = Seq<Seq<Seq<char>>>;

    /// The tags of each glyph.
    open spec fn view(&self) -> Seq<Seq<Seq<char>>> {
        self.icons@.map_values(|glyph: Glyph| glyph@)
    }
}

/// Why no registry could be made of a manifest.
#[derive(Clone, Copy, Debug, PartialEq, Eq, Structural)]
pub enum GenerateError {
    /// The manifest holds no icon set.
    NoIconSet,
}

/// The constant of an identifier and a tag in one weight.
pub open spec fn constant_of(identifier: Seq<char>, weight: IconWeight, tag: Seq<char>)
    -> ConstantModel {
    ConstantModel { key: constant_key(identifier, weight), weight, tag }
}

/// `registry` after the constants of `identifier` and `tag` in the first
/// `count` weights were put into it, one after the other.
pub open spec fn with_weights(
    registry: Map<Seq<char>, ConstantModel>,
    identifier: Seq<char>,
    tag: Seq<char>,
    count: nat,
) -> Map<Seq<char>, ConstantModel>
    decreases count,
{
    if count == 0 || count > IconWeight::spec_all().len() {
        registry
    } else {
        let weight = IconWeight::spec_all()[count - 1];
        with_weights(registry, identifier, tag, (count - 1) as nat).insert(
            constant_key(identifier, weight),
            constant_of(identifier, weight, tag),
        )
    }
}

/// `registry` after `tag` was put into it: unchanged where the tag has no
/// identifier, else with the tag's constant in every weight.
pub open spec fn with_tag(registry: Map<Seq<char>, ConstantModel>, tag: Seq<char>) -> Map<
    Seq<char>,
    ConstantModel,
> {
    match identifier_of_tag(tag) {
        None => registry,
        Some(identifier) => with_weights(registry, identifier, tag, IconWeight::spec_all().len()),
    }
}

/// `registry` after the first `count` of `tags` were put into it in turn.
pub open spec fn with_tags(
    registry: Map<Seq<char>, ConstantModel>,
    tags: Seq<Seq<char>>,
    count: nat,
) -> Map<Seq<char>, ConstantModel>
    decreases count,
{
    if count == 0 || count > tags.len() {
        registry
    } else {
        with_tag(with_tags(registry, tags, (count - 1) as nat), tags[count - 1])
    }
}

/// `registry` after the tags of the first `count` of `glyphs` were put into it
/// in turn.
pub open spec fn with_glyphs(
    registry: Map<Seq<char>, ConstantModel>,
    glyphs: Seq<Seq<Seq<char>>>,
    count: nat,
) -> Map<Seq<char>, ConstantModel>
    decreases count,
{
    if count == 0 || count > glyphs.len() {
        registry
    } else {
        let before = with_glyphs(registry, glyphs, (count - 1) as nat);
        with_tags(before, glyphs[count - 1], glyphs[count - 1].len())
    }
}

/// The registry of a set of glyphs: every tag of every glyph put into an empty
/// registry, in the order of the manifest. Where two tags give one name, the
/// later one stays.
pub open spec fn registry_of(glyphs: Seq<Seq<Seq<char>>>) -> Map<Seq<char>, ConstantModel> {
    with_glyphs(Map::empty(), glyphs, glyphs.len())
}

/// Puts the constants of `tag` into `registry`, one for each weight. A tag
/// without identifier adds nothing.
pub fn add_tag(registry: &mut IconRegistry, tag: &str)
    requires
        old(registry).wf(),
    ensures
        final(registry).wf(),
        final(registry)@ == with_tag(old(registry)@, tag@),
{
    let identifier = match normalize_tag(tag) {
        None => {
            return ;
        },
        Some(identifier) => identifier,
    };
    let weights = IconWeight::all();
    let ghost start = registry@;
    let mut i: usize = 0;
    while i < weights.len()
        invariant
            registry.wf(),
            weights@ == IconWeight::spec_all(),
            i <= weights.len(),
            registry@ == with_weights(start, identifier@, tag@, i as nat),
        decreases weights.len() - i,
    {
        let weight = weights[i];
        let key = compose_key(identifier.as_str(), weight);
        registry.insert(IconConstant::new(key, weight, String::from_str(tag)));
        i = i + 1;
    }
}

/// Puts the constants of every tag of `glyph` into `registry`.
pub fn add_glyph(registry: &mut IconRegistry, glyph: &Glyph)
    requires
        old(registry).wf(),
    ensures
        final(registry).wf(),
        final(registry)@ == with_tags(old(registry)@, glyph@, glyph@.len()),
{
    let ghost start = registry@;
    let mut i: usize = 0;
    while i < glyph.tags.len()
        invariant
            registry.wf(),
            i <= glyph.tags.len(),
            glyph@.len() == glyph.tags.len(),
            registry@ == with_tags(start, glyph@, i as nat),
        decreases glyph.tags.len() - i,
    {
        assert(glyph@[i as int] == glyph.tags[i as int]@);
        add_tag(registry, glyph.tags[i].as_str());
        i = i + 1;
    }
}

/// Makes the registry of a manifest from its first icon set.
pub fn generate(manifest: &Manifest) -> (r: Result<IconRegistry, GenerateError>)
    ensures
        match r {
            Ok(registry) => {
                &&& manifest.icon_sets.len() > 0
                &&& registry.wf()
                &&& registry@ == registry_of(manifest.icon_sets[0]@)
            },
            Err(e) => e == GenerateError::NoIconSet && manifest.icon_sets.len() == 0,
        },
{
    if manifest.icon_sets.len() == 0 {
        return Err(GenerateError::NoIconSet);
    }
    let set = &manifest.icon_sets[0];
    let mut registry = IconRegistry::new();
    let mut i: usize = 0;
    while i < set.icons.len()
        invariant
            registry.wf(),
            i <= set.icons.len(),
            set@.len() == set.icons.len(),
            registry@ == with_glyphs(Map::empty(), set@, i as nat),
        decreases set.icons.len() - i,
    {
        assert(set@[i as int] == set.icons[i as int]@);
        add_glyph(&mut registry, &set.icons[i]);
        i = i + 1;
    }
    Ok(registry)
}

/// The declarations of the first `count` of `constants`, one line each.
pub open spec fn declarations_text(constants: Seq<ConstantModel>, count: nat) -> Seq<char>
    decreases count,
{
    if count == 0 || count > constants.len() {
        Seq::empty()
    } else {
        declarations_text(constants, (count - 1) as nat) + constants[count - 1].declaration()
    }
}

/// The text of a registry: an `impl` block for `Icon` that declares the
/// constants in the order given.
pub open spec fn render_text(constants: Seq<ConstantModel>) -> Seq<char> {
    "#[allow(missing_docs)]\nimpl Icon {\n"@ + declarations_text(constants, constants.len())
        + "}\n"@
}

/// Writes the text of a registry, its constants in the order of their names.
pub fn render(registry: &IconRegistry) -> (text: String)
    requires
        registry.wf(),
    ensures
        text@ == render_text(registry.entries()),
        text@ == render_text(in_order(registry@)),
{
    proof {
        registry.lemma_entries_in_order();
    }
    let mut text = String::from_str("#[allow(missing_docs)]\nimpl Icon {\n");
    let ghost head = text@;
    let mut i: usize = 0;
    while i < registry.len()
        invariant
            i <= registry.entries().len(),
            text@ == head + declarations_text(registry.entries(), i as nat),
        decreases registry.entries().len() - i,
    {
        let line = registry.get(i).declaration();
        text.append(line.as_str());
        assert(text@ =~= head + declarations_text(registry.entries(), (i + 1) as nat));
        i = i + 1;
    }
    text.append("}\n");
    text
}

/// Generates the text of the icon registry of a manifest: the constants of
/// every tag of its first icon set, in the order of their names. The same
/// manifest gives the same text.
pub fn phosphor_icons(manifest: &Manifest) -> (r: Result<String, GenerateError>)
    ensures
        match r {
            Ok(text) => {
                &&& manifest.icon_sets.len() > 0
                &&& text@ == render_text(in_order(registry_of(manifest.icon_sets[0]@)))
            },
            Err(e) => e == GenerateError::NoIconSet && manifest.icon_sets.len() == 0,
        },
{
    match generate(manifest) {
        Ok(registry) => Ok(render(&registry)),
        Err(e) => Err(e),
    }
}

/// Whether a constant is named after its own tag and weight.
pub open spec fn named_after_tag(constant: ConstantModel) -> bool {
    match identifier_of_tag(constant.tag) {
        None => false,
        Some(identifier) => constant.key == constant_key(identifier, constant.weight),
    }
}

/// Whether every name of `registry` is an identifier and stands for a
/// constant of that name, named after its own tag and weight.
pub open spec fn consistent(registry: Map<Seq<char>, ConstantModel>) -> bool {
    forall|key: Seq<char>| #[trigger]
        registry.dom().contains(key) ==> {
            &&& is_identifier(key)
            &&& registry[key].key == key
            &&& named_after_tag(registry[key])
        }
}

/// Whether `registry` holds a constant for `tag` in every weight, where the
/// tag has an identifier.
pub open spec fn covers_tag(registry: Map<Seq<char>, ConstantModel>, tag: Seq<char>) -> bool {
    match identifier_of_tag(tag) {
        None => true,
        Some(identifier) => forall|weight: IconWeight|
            registry.dom().contains(#[trigger] constant_key(identifier, weight)),
    }
}

proof fn lemma_with_weights(
    registry: Map<Seq<char>, ConstantModel>,
    identifier: Seq<char>,
    tag: Seq<char>,
    count: nat,
)
    requires
        identifier_of_tag(tag) == Some(identifier),
        count <= IconWeight::spec_all().len(),
    ensures
        registry.dom().subset_of(with_weights(registry, identifier, tag, count).dom()),
        consistent(registry) ==> consistent(with_weights(registry, identifier, tag, count)),
        forall|i: int|
            0 <= i < count ==> with_weights(registry, identifier, tag, count).dom().contains(
                constant_key(identifier, #[trigger] IconWeight::spec_all()[i]),
            ),
    decreases count,
{
    if count > 0 {
        lemma_with_weights(registry, identifier, tag, (count - 1) as nat);
        lemma_identifier_from_valid(upper_snake_case(tag));
        lemma_key_is_identifier(identifier, IconWeight::spec_all()[count - 1]);
    }
}

proof fn lemma_with_tag(registry: Map<Seq<char>, ConstantModel>, tag: Seq<char>)
    ensures
        registry.dom().subset_of(with_tag(registry, tag).dom()),
        consistent(registry) ==> consistent(with_tag(registry, tag)),
        covers_tag(with_tag(registry, tag), tag),
{
    match identifier_of_tag(tag) {
        None => {},
        Some(identifier) => {
            let after = with_tag(registry, tag);
            lemma_with_weights(registry, identifier, tag, IconWeight::spec_all().len());
            assert forall|weight: IconWeight|
                after.dom().contains(#[trigger] constant_key(identifier, weight)) by {
                let i = lemma_all_weights(weight);
            }
        },
    }
}

proof fn lemma_with_tags(registry: Map<Seq<char>, ConstantModel>, tags: Seq<Seq<char>>, count: nat)
    requires
        count <= tags.len(),
    ensures
        registry.dom().subset_of(with_tags(registry, tags, count).dom()),
        consistent(registry) ==> consistent(with_tags(registry, tags, count)),
        forall|i: int|
            0 <= i < count ==> covers_tag(with_tags(registry, tags, count), #[trigger] tags[i]),
    decreases count,
{
    if count > 0 {
        let before = with_tags(registry, tags, (count - 1) as nat);
        let after = with_tags(registry, tags, count);
        lemma_with_tags(registry, tags, (count - 1) as nat);
        lemma_with_tag(before, tags[count - 1]);
        assert forall|i: int| 0 <= i < count implies covers_tag(after, #[trigger] tags[i]) by {
            if i < count - 1 {
                assert(covers_tag(before, tags[i]));
            }
        }
    }
}

proof fn lemma_with_glyphs(
    registry: Map<Seq<char>, ConstantModel>,
    glyphs: Seq<Seq<Seq<char>>>,
    count: nat,
)
    requires
        count <= glyphs.len(),
    ensures
        registry.dom().subset_of(with_glyphs(registry, glyphs, count).dom()),
        consistent(registry) ==> consistent(with_glyphs(registry, glyphs, count)),
        forall|g: int, t: int|
            0 <= g < count && 0 <= t < glyphs[g].len() ==> covers_tag(
                with_glyphs(registry, glyphs, count),
                #[trigger] glyphs[g][t],
            ),
    decreases count,
{
    if count > 0 {
        let before = with_glyphs(registry, glyphs, (count - 1) as nat);
        let after = with_glyphs(registry, glyphs, count);
        let last = glyphs[count - 1];
        lemma_with_glyphs(registry, glyphs, (count - 1) as nat);
        lemma_with_tags(before, last, last.len());
        assert forall|g: int, t: int| 0 <= g < count && 0 <= t < glyphs[g].len() implies covers_tag(
            after,
            #[trigger] glyphs[g][t],
        ) by {
            if g < count - 1 {
                assert(covers_tag(before, glyphs[g][t]));
            } else {
                assert(covers_tag(after, last[t]));
            }
        }
    }
}

/// Every name of a generated registry is an identifier, and the constant
/// under it is the one named after its own tag and weight.
pub proof fn lemma_registry_consistent(glyphs: Seq<Seq<Seq<char>>>)
    ensures
        consistent(registry_of(glyphs)),
        forall|key: Seq<char>| #[trigger]
            registry_of(glyphs).dom().contains(key) ==> is_identifier(key),
{
    lemma_with_glyphs(Map::empty(), glyphs, glyphs.len());
}

/// Every tag of the manifest that has an identifier has a constant in each
/// of the six weights, under six different names.
pub proof fn lemma_registry_complete(glyphs: Seq<Seq<Seq<char>>>, glyph: int, tag: int)
    requires
        0 <= glyph < glyphs.len(),
        0 <= tag < glyphs[glyph].len(),
    ensures
        covers_tag(registry_of(glyphs), glyphs[glyph][tag]),
        identifier_of_tag(glyphs[glyph][tag]) matches Some(identifier) ==> {
            &&& forall|weight: IconWeight|
                registry_of(glyphs).dom().contains(#[trigger] constant_key(identifier, weight))
            &&& forall|first: IconWeight, second: IconWeight|
                first != second ==> #[trigger] constant_key(identifier, first)
                    != #[trigger] constant_key(identifier, second)
        },
{
    lemma_with_glyphs(Map::empty(), glyphs, glyphs.len());
    match identifier_of_tag(glyphs[glyph][tag]) {
        None => {},
        Some(identifier) => {
            assert(covers_tag(registry_of(glyphs), glyphs[glyph][tag]));
            assert forall|first: IconWeight, second: IconWeight| first != second implies (
            #[trigger] constant_key(identifier, first)) != (#[trigger] constant_key(
                identifier,
                second,
            )) by {
                lemma_keys_distinct(identifier, first, second);
            }
        },
    }
}

} // verus!

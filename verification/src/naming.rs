//! Names and markup of icon constants: how a tag of the icon font becomes an
//! identifier, and what is written for it in each weight.

use convert_case::{Case, Casing};
use vstd::prelude::*;
use crate::text::{
    all_identifier_chars, first_char, has_only_identifier_chars, is_identifier,
    is_identifier_char, is_identifier_start,
};

verus! {

/// A visual weight in which every icon of the font exists.
#[derive(Clone, Copy, Debug, PartialEq, Eq, Structural)]
pub enum IconWeight {
    Thin,
    Light,
    Regular,
    Bold,
    Fill,
    Duotone,
}

impl IconWeight {
    /// The name of the weight as it ends the name of a constant.
    pub open spec fn spec_name(self) -> Seq<char> {
        match self {
            IconWeight::Thin => "THIN"@,
            IconWeight::Light => "LIGHT"@,
            IconWeight::Regular => "REGULAR"@,
            IconWeight::Bold => "BOLD"@,
            IconWeight::Fill => "FILL"@,
            IconWeight::Duotone => "DUOTONE"@,
        }
    }

    /// The style class that selects the weight's font.
    pub open spec fn spec_css_class(self) -> Seq<char> {
        match self {
            IconWeight::Thin => "ph-thin"@,
            IconWeight::Light => "ph-light"@,
            IconWeight::Regular => "ph"@,
            IconWeight::Bold => "ph-bold"@,
            IconWeight::Fill => "ph-fill"@,
            IconWeight::Duotone => "ph-duotone"@,
        }
    }

    pub fn name(self) -> (r: &'static str)
        ensures
            r@ == self.spec_name(),
    {
        match self {
            IconWeight::Thin => "THIN",
            IconWeight::Light => "LIGHT",
            IconWeight::Regular => "REGULAR",
            IconWeight::Bold => "BOLD",
            IconWeight::Fill => "FILL",
            IconWeight::Duotone => "DUOTONE",
        }
    }

    pub fn css_class(self) -> (r: &'static str)
        ensures
            r@ == self.spec_css_class(),
    {
        match self {
            IconWeight::Thin => "ph-thin",
            IconWeight::Light => "ph-light",
            IconWeight::Regular => "ph",
            IconWeight::Bold => "ph-bold",
            IconWeight::Fill => "ph-fill",
            IconWeight::Duotone => "ph-duotone",
        }
    }

    /// All weights, in the order of their names.
    pub open spec fn spec_all() -> Seq<IconWeight> {
        seq![
            IconWeight::Bold,
            IconWeight::Duotone,
            IconWeight::Fill,
            IconWeight::Light,
            IconWeight::Regular,
            IconWeight::Thin,
        ]
    }

    pub fn all() -> (r: Vec<IconWeight>)
        ensures
            r@ == Self::spec_all(),
    {
        let r = vec![
            IconWeight::Bold,
            IconWeight::Duotone,
            IconWeight::Fill,
            IconWeight::Light,
            IconWeight::Regular,
            IconWeight::Thin,
        ];
        assert(r@ =~= Self::spec_all());
        r
    }
}

/// The upper snake case form of a kebab case tag: what the words between the
/// hyphens of `tag` give when each is put in upper case and they are joined
/// by underscores.
pub uninterp spec fn upper_snake_case(tag: Seq<char>) -> Seq<char>;

/// Converts a kebab case tag to upper snake case with `convert_case`'s
/// `from_case(Case::Kebab)` and `to_case(Case::UpperSnake)`. Stated, not
/// proved: the result depends on the tag alone.
#[verifier::external_body]
fn to_upper_snake(tag: &str) -> (r: String)
    ensures
        r@ == upper_snake_case(tag@),
{
    tag.from_case(Case::Kebab).to_case(Case::UpperSnake)
}

/// The identifier that an upper snake case text stands for, if any: none for
/// an empty text or one that holds a character that no identifier can hold;
/// else the text itself, with an underscore in front where it would not start
/// like an identifier.
pub open spec fn identifier_from(snake: Seq<char>) -> Option<Seq<char>> {
    if snake.len() == 0 || !all_identifier_chars(snake) {
        None
    } else if is_identifier_start(snake[0]) {
        Some(snake)
    } else {
        Some("_"@ + snake)
    }
}

/// The identifier of a tag, if it has one.
pub open spec fn identifier_of_tag(tag: Seq<char>) -> Option<Seq<char>> {
    identifier_from(upper_snake_case(tag))
}

/// Whatever `identifier_from` accepts is an identifier.
pub proof fn lemma_identifier_from_valid(snake: Seq<char>)
    ensures
        identifier_from(snake) matches Some(id) ==> is_identifier(id),
{
    reveal_strlit("_");
    if identifier_from(snake) is Some && !is_identifier_start(snake[0]) {
        let id = "_"@ + snake;
        assert forall|i: int| 0 <= i < id.len() implies is_identifier_char(#[trigger] id[i]) by {
            if i > 0 {
                assert(id[i] == snake[i - 1]);
            }
        }
    }
}

/// Turns an upper snake case text into an identifier, or drops it.
pub fn identifier_from_snake(snake: String) -> (r: Option<String>)
    ensures
        match identifier_from(snake@) {
            None => r is None,
            Some(id) => r is Some && r->0@ == id,
        },
        r matches Some(id) ==> is_identifier(id@),
{
    proof {
        lemma_identifier_from_valid(snake@);
    }
    if !has_only_identifier_chars(snake.as_str()) {
        return None;
    }
    match first_char(snake.as_str()) {
        None => None,
        Some(first) => {
            if ('a' <= first && first <= 'z') || ('A' <= first && first <= 'Z') || first == '_' {
                Some(snake)
            } else {
                let mut id = String::from_str("_");
                id.append(snake.as_str());
                Some(id)
            }
        },
    }
}

/// Derives the identifier of a tag: its upper snake case form, checked and
/// completed by `identifier_from_snake`. A tag without identifier gives `None`.
pub fn normalize_tag(tag: &str) -> (r: Option<String>)
    ensures
        match identifier_of_tag(tag@) {
            None => r is None,
            Some(id) => r is Some && r->0@ == id,
        },
        r matches Some(id) ==> is_identifier(id@),
{
    identifier_from_snake(to_upper_snake(tag))
}

/// The name of the constant that an identifier has in a weight: the
/// identifier alone in the regular weight, else the identifier, an underscore
/// and the weight's name.
pub open spec fn constant_key(identifier: Seq<char>, weight: IconWeight) -> Seq<char> {
    if weight == IconWeight::Regular {
        identifier
    } else {
        identifier + "_"@ + weight.spec_name()
    }
}

/// The markup of an icon: an empty `i` element whose classes select the
/// weight's font and the glyph of `tag`.
pub open spec fn markup_text(weight: IconWeight, tag: Seq<char>) -> Seq<char> {
    "<i class=\""@ + weight.spec_css_class() + " ph-"@ + tag + "\"></i>"@
}

/// The line that declares a constant: its name, and its markup as a string
/// literal.
pub open spec fn declaration_text(key: Seq<char>, weight: IconWeight, tag: Seq<char>) -> Seq<
    char,
> {
    "    pub const "@ + key + ": Icon = Icon(\"<i class=\\\""@ + weight.spec_css_class()
        + " ph-"@ + tag + "\\\"></i>\");\n"@
}

pub fn compose_key(identifier: &str, weight: IconWeight) -> (key: String)
    ensures
        key@ == constant_key(identifier@, weight),
{
    let mut key = String::from_str(identifier);
    match weight {
        IconWeight::Regular => {},
        _ => {
            key.append("_");
            key.append(weight.name());
        },
    }
    key
}

pub fn compose_markup(weight: IconWeight, tag: &str) -> (markup: String)
    ensures
        markup@ == markup_text(weight, tag@),
{
    let mut markup = String::from_str("<i class=\"");
    markup.append(weight.css_class());
    markup.append(" ph-");
    markup.append(tag);
    markup.append("\"></i>");
    markup
}

pub fn compose_declaration(key: &str, weight: IconWeight, tag: &str) -> (line: String)
    ensures
        line@ == declaration_text(key@, weight, tag@),
{
    let mut line = String::from_str("    pub const ");
    line.append(key);
    line.append(": Icon = Icon(\"<i class=\\\"");
    line.append(weight.css_class());
    line.append(" ph-");
    line.append(tag);
    line.append("\\\"></i>\");\n");
    line
}

/// The name of a constant is an identifier where the identifier it is made
/// of is one.
pub proof fn lemma_key_is_identifier(identifier: Seq<char>, weight: IconWeight)
    requires
        is_identifier(identifier),
    ensures
        is_identifier(constant_key(identifier, weight)),
{
    reveal_strlit("_");
    reveal_strlit("THIN");
    reveal_strlit("LIGHT");
    reveal_strlit("BOLD");
    reveal_strlit("FILL");
    reveal_strlit("DUOTONE");
    let key = constant_key(identifier, weight);
    let name = weight.spec_name();
    if weight != IconWeight::Regular {
        assert(key.len() == identifier.len() + 1 + name.len());
        assert(key[0] == identifier[0]);
        assert forall|i: int| 0 <= i < key.len() implies is_identifier_char(#[trigger] key[i]) by {
            if i < identifier.len() {
                assert(key[i] == identifier[i]);
            } else if i == identifier.len() {
                assert(key[i] == '_');
            } else {
                assert(key[i] == name[i - identifier.len() - 1]);
            }
        }
    }
}

/// One identifier has a different name in each weight.
pub proof fn lemma_keys_distinct(identifier: Seq<char>, first: IconWeight, second: IconWeight)
    requires
        first != second,
    ensures
        constant_key(identifier, first) != constant_key(identifier, second),
{
    reveal_strlit("_");
    reveal_strlit("THIN");
    reveal_strlit("LIGHT");
    reveal_strlit("BOLD");
    reveal_strlit("FILL");
    reveal_strlit("DUOTONE");
    let a = constant_key(identifier, first);
    let b = constant_key(identifier, second);
    let n = identifier.len() as int;
    if first == IconWeight::Regular {
        assert(b.len() == n + 1 + second.spec_name().len());
    } else if second == IconWeight::Regular {
        assert(a.len() == n + 1 + first.spec_name().len());
    } else {
        assert(a.len() == n + 1 + first.spec_name().len());
        assert(b.len() == n + 1 + second.spec_name().len());
        if a.len() == b.len() {
            assert(a[n + 1] == first.spec_name()[0]);
            assert(b[n + 1] == second.spec_name()[0]);
        }
    }
}

/// Every weight is one of `IconWeight::spec_all()`.
pub proof fn lemma_all_weights(weight: IconWeight) -> (i: int)
    ensures
        0 <= i < IconWeight::spec_all().len(),
        IconWeight::spec_all()[i] == weight,
        IconWeight::spec_all().len() == 6,
{
    match weight {
        IconWeight::Bold => 0,
        IconWeight::Duotone => 1,
        IconWeight::Fill => 2,
        IconWeight::Light => 3,
        IconWeight::Regular => 4,
        IconWeight::Thin => 5,
    }
}

} // verus!

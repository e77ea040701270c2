//! Icons as values, and the files of the icon font and of the stylesheet
//! that a site has to serve with them.

use vstd::prelude::*;
use vstd::std_specs::cmp::PartialEqSpecImpl;
use vstd::string::StringSliceAdditionalSpecFns;
use crate::text::{compare_text, Rank};

verus! {

/// An icon: the markup that shows it. Two icons are equal where their markup
/// is.
#[derive(Clone, Copy, Debug, Eq, Hash)]
pub struct Icon(&'static str);

impl View for Icon {
    type V = Seq<char>;

    /// The markup of the icon.
    closed spec fn view(&self) -> Seq<char> {
        self.0@
    }
}

impl Icon {
    /// The icon that `html` shows.
    pub fn new(html: &'static str) -> (icon: Icon)
        ensures
            icon@ == html@,
    {
        Icon(html)
    }

    /// Returns the raw html as a str of this icon.
    #[must_use]
    pub fn raw_html(self) -> (html: &'static str)
        ensures
            html@ == self@,
    {
        self.0
    }
}

impl PartialEq for Icon {
    fn eq(&self, other: &Self) -> (r: bool) {
        compare_text(self.0, other.0) == Rank::Same
    }
}

impl PartialEqSpecImpl for Icon {
    open spec fn obeys_eq_spec() -> bool {
        true
    }

    open spec fn eq_spec(&self, other: &Self) -> bool {
        self@ == other@
    }
}

/// The files of the icon font in one weight.
#[derive(Clone, Copy, Debug)]
pub struct IconFiles {
    /// Name of the variant.
    pub variant: &'static str,
    /// Contents of the file `style.css`.
    pub css: &'static str,
    /// Contents of the file `Phosphor-*.svg`.
    pub svg: &'static str,
    /// Contents of the file `Phosphor-*.ttf`.
    pub font_ttf: &'static [u8],
    /// Contents of the file `Phosphor-*.woff`.
    pub font_woff: &'static [u8],
    /// Contents of the file `Phosphor-*.woff2`.
    pub font_woff2: &'static [u8],
    /// Contents of the file `LICENSE`.
    pub license: &'static str,
}

/// The stylesheets of the components.
#[derive(Clone, Copy, Debug)]
pub struct StylesheetFiles {
    /// Contents of the file `tailwind.css`.
    pub tailwind: &'static str,
}

/// A file to write: its name inside the target directory and its bytes.
#[derive(Debug)]
pub struct AssetFile {
    pub name: String,
    pub contents: &'static [u8],
}

/// What an `AssetFile` holds, as mathematical values.
pub ghost struct AssetFileModel {
    pub name: Seq<char>,
    pub contents: Seq<u8>,
}

impl View for AssetFile {
    type V = AssetFileModel;

    open spec fn view(&self) -> AssetFileModel {
        AssetFileModel { name: self.name@, contents: self.contents@ }
    }
}

/// Where a bundle of files goes below the directory that a caller names: the
/// directories to enter one after the other, each made where it is not there
/// yet, and the files to write into the last of them.
#[derive(Debug)]
pub struct AssetLayout {
    pub directories: Vec<String>,
    pub files: Vec<AssetFile>,
}

impl AssetLayout {
    /// The names of the directories, outermost first.
    pub open spec fn directory_names(&self) -> Seq<Seq<char>> {
        self.directories@.map_values(|name: String| name@)
    }

    /// The files, in the order in which they are written.
    pub open spec fn file_models(&self) -> Seq<AssetFileModel> {
        self.files@.map_values(|file: AssetFile| file@)
    }
}

/// The lower case form of a text.
pub uninterp spec fn lowercase_text(text: Seq<char>) -> Seq<char>;

/// Puts a text in lower case with `str::to_lowercase`. Stated, not proved: the
/// result depends on the text alone.
#[verifier::external_body]
fn to_lowercase(text: &str) -> (r: String)
    ensures
        r@ == lowercase_text(text@),
{
    text.to_lowercase()
}

/// The name of the font file of a variant with the ending `extension`.
pub open spec fn font_file_name(variant: Seq<char>, extension: Seq<char>) -> Seq<char> {
    "Phosphor-"@ + variant + extension
}

fn font_file(variant: &str, extension: &str, contents: &'static [u8]) -> (file: AssetFile)
    ensures
        file@ == (AssetFileModel {
            name: font_file_name(variant@, extension@),
            contents: contents@,
        }),
{
    let mut name = String::from_str("Phosphor-");
    name.append(variant);
    name.append(extension);
    AssetFile { name, contents }
}

impl IconFiles {
    /// The directories of the bundle: that of the icon family, and in it that
    /// of the variant, named in lower case.
    pub open spec fn spec_directories(&self) -> Seq<Seq<char>> {
        seq!["phosphor-icons"@, lowercase_text(self.variant@)]
    }

    /// The files of the bundle: the stylesheet, the font in four formats under
    /// the variant's name, and the license.
    pub open spec fn spec_files(&self) -> Seq<AssetFileModel> {
        seq![
            AssetFileModel { name: "style.css"@, contents: self.css.spec_bytes() },
            AssetFileModel {
                name: font_file_name(self.variant@, ".svg"@),
                contents: self.svg.spec_bytes(),
            },
            AssetFileModel {
                name: font_file_name(self.variant@, ".ttf"@),
                contents: self.font_ttf@,
            },
            AssetFileModel {
                name: font_file_name(self.variant@, ".woff"@),
                contents: self.font_woff@,
            },
            AssetFileModel {
                name: font_file_name(self.variant@, ".woff2"@),
                contents: self.font_woff2@,
            },
            AssetFileModel { name: "LICENSE"@, contents: self.license.spec_bytes() },
        ]
    }

    /// Says where the files of this variant go and what they hold. It depends
    /// on the bundle alone, so that writing it out twice writes the same.
    pub fn layout(&self) -> (layout: AssetLayout)
        ensures
            layout.directory_names() == self.spec_directories(),
            layout.file_models() == self.spec_files(),
    {
        let mut directories: Vec<String> = Vec::new();
        directories.push(String::from_str("phosphor-icons"));
        directories.push(to_lowercase(self.variant));
        let mut files: Vec<AssetFile> = Vec::new();
        files.push(AssetFile { name: String::from_str("style.css"), contents: self.css.as_bytes() });
        files.push(font_file(self.variant, ".svg", self.svg.as_bytes()));
        files.push(font_file(self.variant, ".ttf", self.font_ttf));
        files.push(font_file(self.variant, ".woff", self.font_woff));
        files.push(font_file(self.variant, ".woff2", self.font_woff2));
        files.push(AssetFile { name: String::from_str("LICENSE"), contents: self.license.as_bytes() });
        let layout = AssetLayout { directories, files };
        assert(layout.directory_names() =~= self.spec_directories());
        assert(layout.file_models() =~= self.spec_files());
        layout
    }
}

impl StylesheetFiles {
    /// The directory of the bundle.
    pub open spec fn spec_directories(&self) -> Seq<Seq<char>> {
        seq!["common"@]
    }

    /// The one file of the bundle.
    pub open spec fn spec_files(&self) -> Seq<AssetFileModel> {
        seq![AssetFileModel { name: "tailwind.css"@, contents: self.tailwind.spec_bytes() }]
    }

    /// Says where the stylesheet goes and what it holds.
    pub fn layout(&self) -> (layout: AssetLayout)
        ensures
            layout.directory_names() == self.spec_directories(),
            layout.file_models() == self.spec_files(),
    {
        let mut directories: Vec<String> = Vec::new();
        directories.push(String::from_str("common"));
        let mut files: Vec<AssetFile> = Vec::new();
        files.push(
            AssetFile { name: String::from_str("tailwind.css"), contents: self.tailwind.as_bytes() },
        );
        let layout = AssetLayout { directories, files };
        assert(layout.directory_names() =~= self.spec_directories());
        assert(layout.file_models() =~= self.spec_files());
        layout
    }
}

} // verus!

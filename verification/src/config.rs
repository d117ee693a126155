//! The settings of a run.

use crate::parser::ParserType;
use vstd::prelude::*;
use vstd::string::StringExecFns;

verus! {

/// The settings of a run, as the configuration file gives them.
#[derive(Debug, Clone, PartialEq, Eq)]
pub struct Config {
    /// Whether the generated LaTeX file stays once it is compiled.
    pub keep_tex_file: bool,
    /// The name of the document, without extension.
    pub name: String,
    /// The program that compiles the document.
    pub latex_cmd: String,
    /// What the program is given before the file's name.
    pub latex_args: Vec<String>,
    /// The file that is put on the cover.
    pub cover_image: String,
    pub chords: bool,
    /// The titles of the songs that are left out.
    pub exclude: Vec<String>,
    /// Where the songs are read from.
    pub source: String,
    /// The kind of that source.
    pub from: ParserType,
}

/// The name of the document where none is configured.
pub fn default_name() -> (name: String)
    ensures
        name@ == "SongSheet"@,
{
    String::from_str("SongSheet")
}

/// The program that compiles where none is configured.
pub fn default_latex_cmd() -> (cmd: String)
    ensures
        cmd@ == "latexmk"@,
{
    String::from_str("latexmk")
}

/// What the compiling program is given where nothing is configured.
pub fn default_latex_args() -> (args: Vec<String>)
    ensures
        args@.len() == 2,
        args@[0]@ == "-pdflua"@,
        args@[1]@ == "-interaction=nonstopmode"@,
{
    let mut args: Vec<String> = Vec::new();
    args.push(String::from_str("-pdflua"));
    args.push(String::from_str("-interaction=nonstopmode"));
    args
}

/// The cover file where none is configured.
pub fn default_cover_image() -> (image: String)
    ensures
        image@ == "cover_image.jpg"@,
{
    String::from_str("cover_image.jpg")
}

} // verus!

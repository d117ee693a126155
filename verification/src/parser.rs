//! The kinds of song source, and the two parsers.

pub mod plain_text;
pub mod video_psalm;

use crate::text::{chars_of, same_text};
use vstd::prelude::*;
use vstd::string::StringExecFns;

pub use plain_text::PlainText;
pub use video_psalm::{video_psalm, VsSong, VsStanza, VS};

verus! {

/// The kind of source that the songs are read from.
#[derive(Debug, Clone, PartialEq, Eq)]
pub enum ParserType {
    VideoPsalm,
    PlainText,
    /// A kind that is not known, under the name it was given, in lower case
    /// and without separators.
    Unknown(String),
}

/// A `ParserType` with its name as a sequence of characters.
pub enum ParserTypeView {
    VideoPsalm,
    PlainText,
    Unknown(Seq<char>),
}

impl View for ParserType {
    type V = ParserTypeView;

    open spec fn view(&self) -> ParserTypeView {
        match *self {
            ParserType::VideoPsalm => ParserTypeView::VideoPsalm,
            ParserType::PlainText => ParserTypeView::PlainText,
            ParserType::Unknown(name) => ParserTypeView::Unknown(name@),
        }
    }
}

/// What `str::to_lowercase` makes of a text: its lower-case form as Unicode
/// defines it.
pub uninterp spec fn lowercase(s: Seq<char>) -> Seq<char>;

/// `str::to_lowercase`: the result is the lower-case form of the argument and
/// depends on nothing else.
#[verifier::external_body]
fn to_lowercase(s: &str) -> (lowered: String)
    ensures
        lowered@ == lowercase(s@),
{
    s.to_lowercase()
}

/// Whether `c` only separates the words of a name.
pub open spec fn is_separator(c: char) -> bool {
    c == ' ' || c == '-' || c == '_'
}

/// `s` without its separators.
pub open spec fn without_separators(s: Seq<char>) -> Seq<char>
    decreases s.len(),
{
    if s.len() == 0 {
        Seq::empty()
    } else if is_separator(s.last()) {
        without_separators(s.drop_last())
    } else {
        without_separators(s.drop_last()).push(s.last())
    }
}

/// The kind that a name in lower case stands for, separators aside.
pub open spec fn kind_of_lowered(lowered: Seq<char>) -> ParserTypeView {
    let name = without_separators(lowered);
    if name == "videopsalm"@ {
        ParserTypeView::VideoPsalm
    } else if name == "plaintext"@ {
        ParserTypeView::PlainText
    } else {
        ParserTypeView::Unknown(name)
    }
}

impl ParserType {
    /// The kind that `lowered` names, once its blanks, hyphens and
    /// underscores are taken out. The name is expected in lower case.
    pub fn from_lowered(lowered: &str) -> (kind: ParserType)
        ensures
            kind@ == kind_of_lowered(lowered@),
    {
        let chars = chars_of(lowered);
        let mut name = String::new();
        let mut i: usize = 0;
        while i < chars.len()
            invariant
                i <= chars.len(),
                name@ == without_separators(chars@.take(i as int)),
            decreases chars.len() - i,
        {
            let c = chars[i];
            proof {
                assert(chars@.take(i + 1).drop_last() =~= chars@.take(i as int));
            }
            if !(c == ' ' || c == '-' || c == '_') {
                name.push(c);
            }
            i = i + 1;
        }
        proof {
            assert(chars@.take(chars.len() as int) =~= chars@);
        }
        if same_text(name.as_str(), "videopsalm") {
            ParserType::VideoPsalm
        } else if same_text(name.as_str(), "plaintext") {
            ParserType::PlainText
        } else {
            ParserType::Unknown(name)
        }
    }

    /// The kind that `name` stands for: case, blanks, hyphens and
    /// underscores make no difference.
    pub fn from_name(name: &str) -> (kind: ParserType)
        ensures
            kind@ == kind_of_lowered(lowercase(name@)),
    {
        let lowered = to_lowercase(name);
        ParserType::from_lowered(lowered.as_str())
    }

    /// The name of this kind, as it is shown.
    pub open spec fn name_text(self) -> Seq<char> {
        match self {
            ParserType::VideoPsalm => "VideoPsalm"@,
            ParserType::PlainText => "PlainText"@,
            ParserType::Unknown(name) => "Unknown: "@ + name@,
        }
    }

    /// The name of this kind, as it is shown.
    pub fn name(&self) -> (text: String)
        ensures
            text@ == self.name_text(),
    {
        match self {
            ParserType::VideoPsalm => String::from_str("VideoPsalm"),
            ParserType::PlainText => String::from_str("PlainText"),
            ParserType::Unknown(name) => {
                let mut text = String::from_str("Unknown: ");
                text.append(name.as_str());
                text
            },
        }
    }
}

} // verus!

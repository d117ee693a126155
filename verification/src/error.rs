//! The errors the library reports, each with its view and its message.

use crate::parser::{ParserType, ParserTypeView};
use crate::text::{decimal, push_decimal};
use vstd::prelude::*;
use vstd::string::StringExecFns;

verus! {

/// Why a song could not be built. Every variant names the song.
#[derive(Debug, Clone, PartialEq, Eq)]
pub enum SongError {
    /// No order of stanzas was given.
    NoOrder { song_title: String },
    /// The order calls for a chorus and none was set.
    NoChorus { song_title: String },
    /// The order calls for a bridge and none was set.
    NoBridge { song_title: String },
    /// More verses were added than the order has places for: `expected` is
    /// the number of places, `actual` the number of verses.
    NotEnoughVerses { song_title: String, expected: usize, actual: usize },
}

/// A `SongError` with its title as a sequence of characters.
pub enum SongErrorView {
    NoOrder { song_title: Seq<char> },
    NoChorus { song_title: Seq<char> },
    NoBridge { song_title: Seq<char> },
    NotEnoughVerses { song_title: Seq<char>, expected: nat, actual: nat },
}

impl View for SongError {
    type V = SongErrorView;

    open spec fn view(&self) -> SongErrorView {
        match *self {
            SongError::NoOrder { song_title } => SongErrorView::NoOrder { song_title: song_title@ },
            SongError::NoChorus { song_title } => SongErrorView::NoChorus {
                song_title: song_title@,
            },
            SongError::NoBridge { song_title } => SongErrorView::NoBridge {
                song_title: song_title@,
            },
            SongError::NotEnoughVerses { song_title, expected, actual } => {
                SongErrorView::NotEnoughVerses {
                    song_title: song_title@,
                    expected: expected as nat,
                    actual: actual as nat,
                }
            },
        }
    }
}

/// Why a document could not be put together.
#[derive(Debug, Clone, PartialEq, Eq)]
pub enum LaTeXError {
    /// A package was given without a name; the text says what was expected.
    PackageError(String),
    /// The order of a song asks for the verse at `index`, and the song has
    /// only `size` verses.
    VerseOutOfBounds { index: usize, size: usize },
}

/// A `LaTeXError` with its text as a sequence of characters.
pub enum LaTeXErrorView {
    PackageError(Seq<char>),
    VerseOutOfBounds { index: nat, size: nat },
}

impl View for LaTeXError {
    type V = LaTeXErrorView;

    open spec fn view(&self) -> LaTeXErrorView {
        match *self {
            LaTeXError::PackageError(text) => LaTeXErrorView::PackageError(text@),
            LaTeXError::VerseOutOfBounds { index, size } => LaTeXErrorView::VerseOutOfBounds {
                index: index as nat,
                size: size as nat,
            },
        }
    }
}

/// Why the songs of a source could not be had.
#[derive(Debug, Clone, PartialEq, Eq)]
pub enum ParseError {
    /// A song of the source did not build.
    OrderError(SongError),
    /// The source is of a kind that cannot be read as a whole collection.
    NotAvailable(ParserType),
    /// The source is of no known kind; the name is the one that was given.
    UnknownParser(String),
}

/// A `ParseError` over views.
pub enum ParseErrorView {
    OrderError(SongErrorView),
    NotAvailable(ParserTypeView),
    UnknownParser(Seq<char>),
}

impl View for ParseError {
    type V = ParseErrorView;

    open spec fn view(&self) -> ParseErrorView {
        match *self {
            ParseError::OrderError(e) => ParseErrorView::OrderError(e@),
            ParseError::NotAvailable(kind) => ParseErrorView::NotAvailable(kind@),
            ParseError::UnknownParser(name) => ParseErrorView::UnknownParser(name@),
        }
    }
}

/// Anything that can go wrong between a configuration and its document.
#[derive(Debug, Clone, PartialEq, Eq)]
pub enum SongSheetError {
    LaTeXError(LaTeXError),
    ParseError(ParseError),
}

/// A `SongSheetError` over views.
pub enum SongSheetErrorView {
    LaTeXError(LaTeXErrorView),
    ParseError(ParseErrorView),
}

impl View for SongSheetError {
    type V = SongSheetErrorView;

    open spec fn view(&self) -> SongSheetErrorView {
        match *self {
            SongSheetError::LaTeXError(e) => SongSheetErrorView::LaTeXError(e@),
            SongSheetError::ParseError(e) => SongSheetErrorView::ParseError(e@),
        }
    }
}

/// What is wrong with a song in plain text.
#[derive(Debug, Clone, Copy, PartialEq, Eq, Structural)]
pub enum PlainTextError {
    /// The first line is not followed by a blank line.
    InvalidTitle,
    /// A line that starts a stanza with `#` is not `#c` or `#b`.
    InvalidTag,
}

impl SongError {
    /// What the error says, in words.
    pub open spec fn message_text(&self) -> Seq<char> {
        match *self {
            SongError::NoOrder { song_title } => "\""@ + song_title@
                + "\" has no order specified."@,
            SongError::NoChorus { song_title } =>
                "Order calls for a chorus, but none specified for \""@ + song_title@ + "\"."@,
            SongError::NoBridge { song_title } =>
                "Order calls for a bridge, but none specified for \""@ + song_title@ + "\"."@,
            SongError::NotEnoughVerses { song_title, expected, actual } => "Order calls for "@
                + decimal(expected as nat) + " verses, but only "@ + decimal(actual as nat)
                + " specified for \""@ + song_title@ + "\"."@,
        }
    }

    /// What the error says, in words.
    pub fn message(&self) -> (text: String)
        ensures
            text@ == self.message_text(),
    {
        let mut text = String::new();
        match self {
            SongError::NoOrder { song_title } => {
                text.append("\"");
                text.append(song_title.as_str());
                text.append("\" has no order specified.");
                proof {
                    assert(text@ =~= self.message_text());
                }
            },
            SongError::NoChorus { song_title } => {
                text.append("Order calls for a chorus, but none specified for \"");
                text.append(song_title.as_str());
                text.append("\".");
                proof {
                    assert(text@ =~= self.message_text());
                }
            },
            SongError::NoBridge { song_title } => {
                text.append("Order calls for a bridge, but none specified for \"");
                text.append(song_title.as_str());
                text.append("\".");
                proof {
                    assert(text@ =~= self.message_text());
                }
            },
            SongError::NotEnoughVerses { song_title, expected, actual } => {
                text.append("Order calls for ");
                push_decimal(&mut text, *expected as u64);
                text.append(" verses, but only ");
                push_decimal(&mut text, *actual as u64);
                text.append(" specified for \"");
                text.append(song_title.as_str());
                text.append("\".");
                proof {
                    assert(text@ =~= self.message_text());
                }
            },
        }
        text
    }
}

impl LaTeXError {
    /// What the error says, in words.
    pub open spec fn message_text(&self) -> Seq<char> {
        match *self {
            LaTeXError::PackageError(_) => "Error adding LaTeX package."@,
            LaTeXError::VerseOutOfBounds { index, size } =>
                "Verse out of bounds. Tried to get verse "@ + decimal(index as nat)
                + " but there are only "@ + decimal(size as nat) + "."@,
        }
    }

    /// What the error says, in words.
    pub fn message(&self) -> (text: String)
        ensures
            text@ == self.message_text(),
    {
        match self {
            LaTeXError::PackageError(_) => String::from_str("Error adding LaTeX package."),
            LaTeXError::VerseOutOfBounds { index, size } => {
                let mut text = String::new();
                text.append("Verse out of bounds. Tried to get verse ");
                push_decimal(&mut text, *index as u64);
                text.append(" but there are only ");
                push_decimal(&mut text, *size as u64);
                text.append(".");
                proof {
                    assert(text@ =~= self.message_text());
                }
                text
            },
        }
    }
}

impl ParseError {
    /// What the error says, in words.
    pub open spec fn message_text(&self) -> Seq<char> {
        match *self {
            ParseError::OrderError(_) => "Error setting stanza order: invalid order."@,
            _ => "An error occured while parsing sources."@,
        }
    }

    /// What the error says, in words.
    pub fn message(&self) -> (text: String)
        ensures
            text@ == self.message_text(),
    {
        match self {
            ParseError::OrderError(_) => String::from_str(
                "Error setting stanza order: invalid order.",
            ),
            _ => String::from_str("An error occured while parsing sources."),
        }
    }
}

impl SongSheetError {
    /// What the error says, in words. The error it wraps says more.
    pub fn message(&self) -> (text: String)
        ensures
            text@ == "An error occured."@,
    {
        String::from_str("An error occured.")
    }
}

impl PlainTextError {
    /// What the error says, in words.
    pub open spec fn message_text(&self) -> Seq<char> {
        match *self {
            PlainTextError::InvalidTitle =>
                "Invalid song title.\nSong title must be separated by a blank line."@,
            PlainTextError::InvalidTag => "Invalid tag."@,
        }
    }

    /// What the error says, in words.
    pub fn message(&self) -> (text: String)
        ensures
            text@ == self.message_text(),
    {
        match self {
            PlainTextError::InvalidTitle => String::from_str(
                "Invalid song title.\nSong title must be separated by a blank line.",
            ),
            PlainTextError::InvalidTag => String::from_str("Invalid tag."),
        }
    }
}

} // verus!

use song_sheet::error::{LaTeXError, ParseError, SongError, SongSheetError};
use song_sheet::errors;
use song_sheet::parser::ParserType;

#[test]
fn song_error_messages() {
    assert_eq!(
        SongError::NoOrder { song_title: "A".to_string() }.message(),
        "\"A\" has no order specified."
    );
    assert_eq!(
        SongError::NoChorus { song_title: "B".to_string() }.message(),
        "Order calls for a chorus, but none specified for \"B\"."
    );
    assert_eq!(
        SongError::NoBridge { song_title: "C".to_string() }.message(),
        "Order calls for a bridge, but none specified for \"C\"."
    );
    assert_eq!(
        SongError::NotEnoughVerses { song_title: "D".to_string(), expected: 2, actual: 13 }
            .message(),
        "Order calls for 2 verses, but only 13 specified for \"D\"."
    );
}

#[test]
fn latex_error_messages() {
    assert_eq!(
        LaTeXError::PackageError("whatever".to_string()).message(),
        "Error adding LaTeX package."
    );
    assert_eq!(
        LaTeXError::VerseOutOfBounds { index: 3, size: 3 }.message(),
        "Verse out of bounds. Tried to get verse 3 but there are only 3."
    );
    assert_eq!(
        LaTeXError::VerseOutOfBounds { index: 120, size: 0 }.message(),
        "Verse out of bounds. Tried to get verse 120 but there are only 0."
    );
}

#[test]
fn parse_error_messages() {
    assert_eq!(
        ParseError::OrderError(SongError::NoOrder { song_title: "A".to_string() }).message(),
        "Error setting stanza order: invalid order."
    );
    assert_eq!(
        ParseError::NotAvailable(ParserType::PlainText).message(),
        "An error occured while parsing sources."
    );
    assert_eq!(
        ParseError::UnknownParser("x".to_string()).message(),
        "An error occured while parsing sources."
    );
}

#[test]
fn song_sheet_error_message() {
    assert_eq!(
        SongSheetError::ParseError(ParseError::UnknownParser("x".to_string())).message(),
        "An error occured."
    );
    assert_eq!(
        SongSheetError::LaTeXError(LaTeXError::VerseOutOfBounds { index: 1, size: 1 }).message(),
        "An error occured."
    );
}

#[test]
fn marker_messages() {
    assert_eq!(errors::AppError.message(), "Unrecoverable error.");
    assert_eq!(errors::FileError.message(), "Error reading file.");
    assert_eq!(errors::DirError.message(), "Error reading file.");
    assert_eq!(errors::LaTeXError.message(), "LaTeX error.");
}

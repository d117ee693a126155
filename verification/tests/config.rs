use song_sheet::config::{
    default_cover_image, default_latex_args, default_latex_cmd, default_name,
};
use song_sheet::parser::ParserType;

#[test]
fn default_values() {
    assert_eq!(default_name(), "SongSheet");
    assert_eq!(default_latex_cmd(), "latexmk");
    assert_eq!(default_latex_args(), vec!["-pdflua", "-interaction=nonstopmode"]);
    assert_eq!(default_cover_image(), "cover_image.jpg");
}

#[test]
fn known_kinds_of_source() {
    assert_eq!(ParserType::from_name("videopsalm"), ParserType::VideoPsalm);
    assert_eq!(ParserType::from_name("plaintext"), ParserType::PlainText);
}

#[test]
fn case_makes_no_difference() {
    assert_eq!(ParserType::from_name("VideoPsalm"), ParserType::VideoPsalm);
    assert_eq!(ParserType::from_name("PLAINTEXT"), ParserType::PlainText);
}

#[test]
fn separators_make_no_difference() {
    assert_eq!(ParserType::from_name("Video Psalm"), ParserType::VideoPsalm);
    assert_eq!(ParserType::from_name("video-psalm"), ParserType::VideoPsalm);
    assert_eq!(ParserType::from_name("plain_text"), ParserType::PlainText);
    assert_eq!(ParserType::from_name(" _Plain- Text_ "), ParserType::PlainText);
}

#[test]
fn other_names_are_unknown_under_their_normal_form() {
    assert_eq!(ParserType::from_name("Open-Song"), ParserType::Unknown("opensong".to_string()));
    assert_eq!(ParserType::from_name(""), ParserType::Unknown("".to_string()));
    assert_eq!(ParserType::from_name("video.psalm"), ParserType::Unknown("video.psalm".to_string()));
    assert_eq!(ParserType::from_name("\u{c9}T\u{c9}"), ParserType::Unknown("\u{e9}t\u{e9}".to_string()));
}

#[test]
fn a_lowered_name_is_not_lowered_again() {
    assert_eq!(ParserType::from_lowered("video psalm"), ParserType::VideoPsalm);
    assert_eq!(
        ParserType::from_lowered("VideoPsalm"),
        ParserType::Unknown("VideoPsalm".to_string())
    );
    assert_eq!(ParserType::from_lowered("a-b_c d"), ParserType::Unknown("abcd".to_string()));
}

#[test]
fn names_as_shown() {
    assert_eq!(ParserType::VideoPsalm.name(), "VideoPsalm");
    assert_eq!(ParserType::PlainText.name(), "PlainText");
    assert_eq!(ParserType::Unknown("opensong".to_string()).name(), "Unknown: opensong");
}

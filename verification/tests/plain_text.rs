use song_sheet::error::PlainTextError;
use song_sheet::parser::PlainText;
use song_sheet::song::StanzaType;
use song_sheet::text::chars_of;

#[test]
fn minimal_song() {
    let song = PlainText::parse("Title\n\nLine one\n\n#c\nChorus line\n\n").unwrap();
    assert_eq!(song.title, "Title");
    assert_eq!(song.verses, vec!["Line one"]);
    assert_eq!(song.chorus, Some("Chorus line".to_string()));
    assert_eq!(song.bridge, None);
    assert_eq!(song.order, "vc");
}

#[test]
fn last_stanza_needs_no_blank_line() {
    let song = PlainText::parse("T\n\nfirst\nsecond\n\n#b\nbridge").unwrap();
    assert_eq!(song.verses, vec!["first\nsecond"]);
    assert_eq!(song.bridge, Some("bridge".to_string()));
    assert_eq!(song.order, "vb");
}

#[test]
fn stanzas_keep_their_order() {
    let song =
        PlainText::parse("Song\n\nv1\n\n#c\nchorus\n\nv2\n\n#b\nbridge\n\nv3\n\n#c\nagain\n\n")
            .unwrap();
    assert_eq!(song.verses, vec!["v1", "v2", "v3"]);
    assert_eq!(song.chorus, Some("again".to_string()));
    assert_eq!(song.bridge, Some("bridge".to_string()));
    assert_eq!(song.order, "vcvbvc");
}

#[test]
fn title_alone_is_a_song_without_stanzas() {
    let song = PlainText::parse("Only a title\n\n").unwrap();
    assert_eq!(song.title, "Only a title");
    assert!(song.verses.is_empty());
    assert_eq!(song.order, "");
}

#[test]
fn empty_title_is_a_title() {
    let song = PlainText::parse("\n\nverse").unwrap();
    assert_eq!(song.title, "");
    assert_eq!(song.verses, vec!["verse"]);
}

#[test]
fn title_needs_a_blank_line() {
    assert_eq!(PlainText::parse(""), Err(PlainTextError::InvalidTitle));
    assert_eq!(PlainText::parse("Title"), Err(PlainTextError::InvalidTitle));
    assert_eq!(PlainText::parse("Title\n"), Err(PlainTextError::InvalidTitle));
    assert_eq!(PlainText::parse("Title\nverse\n\n"), Err(PlainTextError::InvalidTitle));
}

#[test]
fn unknown_tag_letter_is_refused() {
    assert_eq!(PlainText::parse("T\n\n#x\ntext\n\n"), Err(PlainTextError::InvalidTag));
    assert_eq!(PlainText::parse("T\n\n#v\ntext\n\n"), Err(PlainTextError::InvalidTag));
    assert_eq!(PlainText::parse("T\n\n#C\ntext\n\n"), Err(PlainTextError::InvalidTag));
    assert_eq!(PlainText::parse("T\n\n#\u{e9}\ntext\n\n"), Err(PlainTextError::InvalidTag));
}

#[test]
fn tag_needs_its_line_feed() {
    assert_eq!(PlainText::parse("T\n\n#"), Err(PlainTextError::InvalidTag));
    assert_eq!(PlainText::parse("T\n\n#c"), Err(PlainTextError::InvalidTag));
    assert_eq!(PlainText::parse("T\n\n#chorus\ntext"), Err(PlainTextError::InvalidTag));
    assert_eq!(PlainText::parse("T\n\n#\nc\n"), Err(PlainTextError::InvalidTag));
}

#[test]
fn bad_tag_after_good_stanzas_is_refused() {
    assert_eq!(PlainText::parse("T\n\nverse\n\n#q\nx"), Err(PlainTextError::InvalidTag));
}

#[test]
fn tag_with_nothing_behind_it_is_an_empty_stanza() {
    let song = PlainText::parse("T\n\n#c\n").unwrap();
    assert_eq!(song.chorus, Some("".to_string()));
    assert_eq!(song.order, "c");
}

#[test]
fn hash_inside_a_stanza_is_text() {
    let song = PlainText::parse("T\n\nline\n#c\nmore\n\n").unwrap();
    assert_eq!(song.verses, vec!["line\n#c\nmore"]);
    assert_eq!(song.order, "v");
}

#[test]
fn a_third_line_feed_starts_an_empty_verse() {
    let song = PlainText::parse("T\n\na\n\n\n\nb").unwrap();
    assert_eq!(song.verses, vec!["a", "", "b"]);
    assert_eq!(song.order, "vvv");
    let song = PlainText::parse("T\n\na\n\n\nb").unwrap();
    assert_eq!(song.verses, vec!["a", "\nb"]);
}

#[test]
fn parts_of_the_parser() {
    let chars = chars_of("Name\n\n#b\nbridge\n\nverse");
    assert_eq!(PlainText::match_name(&chars), Some((6, "Name".to_string())));
    assert!(PlainText::start_tag(&chars, 6));
    assert!(!PlainText::start_tag(&chars, 0));
    assert!(!PlainText::start_tag(&chars, chars.len()));
    assert_eq!(PlainText::identify_tag(&chars, 7), Some((9, StanzaType::Bridge)));
    assert_eq!(PlainText::identify_tag(&chars, 0), None);
    assert_eq!(PlainText::match_block(&chars, 9), (17, "bridge".to_string()));
    assert_eq!(PlainText::match_block(&chars, 17), (22, "verse".to_string()));
    assert_eq!(PlainText::match_block(&chars, 22), (22, "".to_string()));
    assert_eq!(PlainText::match_name(&chars_of("Name\nmore")), None);
}

#[test]
fn messages() {
    assert_eq!(
        PlainTextError::InvalidTitle.message(),
        "Invalid song title.\nSong title must be separated by a blank line."
    );
    assert_eq!(PlainTextError::InvalidTag.message(), "Invalid tag.");
}

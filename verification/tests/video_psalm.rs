use song_sheet::parser::video_psalm::{classify, Tag};
use song_sheet::parser::{video_psalm, VsSong, VsStanza, VS};
use song_sheet::song::StanzaType;

fn stanza(text: &str, tag: Option<i32>) -> VsStanza {
    VsStanza { text: text.to_string(), tag }
}

fn record(title: &str, stanzas: Vec<VsStanza>) -> VsSong {
    VsSong { title: title.to_string(), stanzas }
}

#[test]
fn tags_with_a_role() {
    assert_eq!(classify(None), Tag::Stanza(StanzaType::Verse));
    assert_eq!(classify(Some(1)), Tag::Stanza(StanzaType::Chorus));
    assert_eq!(classify(Some(3)), Tag::Stanza(StanzaType::Bridge));
}

#[test]
fn tags_without_a_role() {
    assert_eq!(classify(Some(6)), Tag::Repeat);
    assert_eq!(classify(Some(0)), Tag::Unknown(0));
    assert_eq!(classify(Some(2)), Tag::Unknown(2));
    assert_eq!(classify(Some(-1)), Tag::Unknown(-1));
    assert_eq!(classify(Some(i32::MAX)), Tag::Unknown(i32::MAX));
    assert_eq!(classify(Some(i32::MIN)), Tag::Unknown(i32::MIN));
}

#[test]
fn a_record_becomes_a_song() {
    let song = record(
        "Psalm 23",
        vec![
            stanza("The Lord's my shepherd", None),
            stanza("Goodness and mercy", Some(1)),
            stanza("My table thou hast furnished", None),
            stanza("Yea, though I walk", Some(3)),
        ],
    )
    .to_song()
    .unwrap();
    assert_eq!(song.title, "Psalm 23");
    assert_eq!(song.order, "vcvb");
    assert_eq!(song.verses, vec!["The Lord's my shepherd", "My table thou hast furnished"]);
    assert_eq!(song.chorus, Some("Goodness and mercy".to_string()));
    assert_eq!(song.bridge, Some("Yea, though I walk".to_string()));
}

#[test]
fn repeats_and_unknown_tags_leave_the_song_alone() {
    let with = record(
        "S",
        vec![
            stanza("skipped first", Some(6)),
            stanza("v1", None),
            stanza("again", Some(6)),
            stanza("ch", Some(1)),
            stanza("what", Some(42)),
            stanza("v2", None),
            stanza("neg", Some(-3)),
        ],
    )
    .to_song()
    .unwrap();
    let without =
        record("S", vec![stanza("v1", None), stanza("ch", Some(1)), stanza("v2", None)])
            .to_song()
            .unwrap();
    assert_eq!(with, without);
    assert_eq!(with.order, "vcv");
    assert_eq!(with.verses, vec!["v1", "v2"]);
    assert_eq!(with.chorus, Some("ch".to_string()));
    assert_eq!(with.bridge, None);
}

#[test]
fn a_song_of_skipped_stanzas_only_is_empty() {
    let song = record("Nothing", vec![stanza("a", Some(6)), stanza("b", Some(9))])
        .to_song()
        .unwrap();
    assert_eq!(song.order, "");
    assert!(song.verses.is_empty());
    assert_eq!(song.chorus, None);
}

#[test]
fn a_chorus_alone_is_a_song() {
    let song = record("Refrain", vec![stanza("la la", Some(1))]).to_song().unwrap();
    assert_eq!(song.order, "c");
    assert!(song.verses.is_empty());
    assert_eq!(song.chorus, Some("la la".to_string()));
}

#[test]
fn the_last_chorus_counts() {
    let song = record("Two", vec![stanza("first", Some(1)), stanza("second", Some(1))])
        .to_song()
        .unwrap();
    assert_eq!(song.order, "cc");
    assert_eq!(song.chorus, Some("second".to_string()));
}

#[test]
fn tags_are_listed_stanza_by_stanza() {
    let rec = record(
        "T",
        vec![stanza("a", None), stanza("b", Some(6)), stanza("c", Some(7)), stanza("d", Some(3))],
    );
    assert_eq!(
        rec.tags(),
        vec![
            Tag::Stanza(StanzaType::Verse),
            Tag::Repeat,
            Tag::Unknown(7),
            Tag::Stanza(StanzaType::Bridge)
        ]
    );
    assert_eq!(record("E", vec![]).tags(), Vec::<Tag>::new());
}

#[test]
fn a_book_becomes_its_songs_in_order() {
    let book = VS {
        songs: vec![
            record("One", vec![stanza("a", None)]),
            record("Two", vec![]),
            record("Three", vec![stanza("r", Some(1)), stanza("b", None)]),
        ],
    };
    let songs = video_psalm(&book).unwrap();
    assert_eq!(songs.len(), 3);
    assert_eq!(songs[0].title, "One");
    assert_eq!(songs[0].order, "v");
    assert_eq!(songs[1].title, "Two");
    assert_eq!(songs[1].order, "");
    assert_eq!(songs[2].title, "Three");
    assert_eq!(songs[2].order, "cv");
    assert_eq!(songs[2].verses, vec!["b"]);
}

#[test]
fn an_empty_book_has_no_songs() {
    assert_eq!(video_psalm(&VS { songs: vec![] }).unwrap().len(), 0);
}

//! Song books in the VideoPsalm format: songs with a title and stanzas,
//! each stanza with a text and, unless it is a verse, a numeric tag.

use crate::error::ParseError;
use crate::latex::song_views;
use crate::song::{
    gathered, lemma_gathered_push, lemma_gathered_song_builds, order_of, song_of, Song, SongView,
    StanzaType, StanzaView,
};
use vstd::prelude::*;

verus! {

/// A song book.
#[derive(Debug, Clone, PartialEq, Eq)]
pub struct VS {
    pub songs: Vec<VsSong>,
}

/// A song of a song book.
#[derive(Debug, Clone, PartialEq, Eq)]
pub struct VsSong {
    pub title: String,
    pub stanzas: Vec<VsStanza>,
}

/// A stanza of a song book.
#[derive(Debug, Clone, PartialEq, Eq)]
pub struct VsStanza {
    /// The text of the stanza.
    pub text: String,
    /// No tag marks a verse, 1 the chorus, 3 the bridge, 6 a repeat.
    pub tag: Option<i32>,
}

/// A stanza of a song book as plain values.
pub struct VsStanzaView {
    pub text: Seq<char>,
    pub tag: Option<i32>,
}

/// A song of a song book as plain values.
pub struct VsSongView {
    pub title: Seq<char>,
    pub stanzas: Seq<VsStanzaView>,
}

impl View for VsStanza {
    type V = VsStanzaView;

    open spec fn view(&self) -> VsStanzaView {
        VsStanzaView { text: self.text@, tag: self.tag }
    }
}

impl View for VsSong {
    type V = VsSongView;

    open spec fn view(&self) -> VsSongView {
        VsSongView {
            title: self.title@,
            stanzas: Seq::new(self.stanzas@.len(), |i: int| self.stanzas@[i]@),
        }
    }
}

impl View for VS {
    type V = Seq<VsSongView>;

    open spec fn view(&self) -> Seq<VsSongView> {
        Seq::new(self.songs@.len(), |i: int| self.songs@[i]@)
    }
}

/// What a tag says of its stanza.
#[derive(Debug, Clone, Copy, PartialEq, Eq, Structural)]
pub enum Tag {
    /// The stanza plays this role in the song.
    Stanza(StanzaType),
    /// The stanza repeats an earlier one and is left out.
    Repeat,
    /// The tag is not known and the stanza is left out.
    Unknown(i32),
}

/// What a tag says of its stanza: none marks a verse, 1 the chorus, 3 the
/// bridge, 6 a repeat, and any other number is unknown.
pub open spec fn tag_meaning(tag: Option<i32>) -> Tag {
    match tag {
        None => Tag::Stanza(StanzaType::Verse),
        Some(n) => if n == 1 {
            Tag::Stanza(StanzaType::Chorus)
        } else if n == 3 {
            Tag::Stanza(StanzaType::Bridge)
        } else if n == 6 {
            Tag::Repeat
        } else {
            Tag::Unknown(n)
        },
    }
}

/// The stanzas that count among those of a song book's song: those whose
/// tag gives them a role, each with that role, in order.
pub open spec fn stanzas_of(stanzas: Seq<VsStanzaView>) -> Seq<StanzaView>
    decreases stanzas.len(),
{
    if stanzas.len() == 0 {
        Seq::empty()
    } else {
        match tag_meaning(stanzas.last().tag) {
            Tag::Stanza(kind) => stanzas_of(stanzas.drop_last()).push(
                StanzaView { kind, text: stanzas.last().text },
            ),
            _ => stanzas_of(stanzas.drop_last()),
        }
    }
}

/// The song that a song of a song book stands for.
pub open spec fn song_of_record(record: VsSongView) -> SongView {
    song_of(record.title, stanzas_of(record.stanzas))
}

/// The songs that the songs of a song book stand for, in order.
pub open spec fn songs_of_book(book: Seq<VsSongView>) -> Seq<SongView> {
    Seq::new(book.len(), |i: int| song_of_record(book[i]))
}

/// What a tag says of its stanza.
pub fn classify(tag: Option<i32>) -> (meaning: Tag)
    ensures
        meaning == tag_meaning(tag),
{
    match tag {
        None => Tag::Stanza(StanzaType::Verse),
        Some(n) => {
            if n == 1 {
                Tag::Stanza(StanzaType::Chorus)
            } else if n == 3 {
                Tag::Stanza(StanzaType::Bridge)
            } else if n == 6 {
                Tag::Repeat
            } else {
                Tag::Unknown(n)
            }
        },
    }
}

impl VsSong {
    /// What the tags of the stanzas say, stanza by stanza: this shows which
    /// stanzas are left out, and for what tag.
    pub fn tags(&self) -> (meanings: Vec<Tag>)
        ensures
            meanings@.len() == self.stanzas@.len(),
            forall|i: int|
                0 <= i < meanings@.len() ==> meanings@[i] == tag_meaning(
                    (#[trigger] self.stanzas@[i]).tag,
                ),
    {
        let mut meanings: Vec<Tag> = Vec::new();
        let mut i: usize = 0;
        while i < self.stanzas.len()
            invariant
                i <= self.stanzas.len(),
                meanings@.len() == i,
                forall|j: int|
                    0 <= j < i ==> meanings@[j] == tag_meaning((#[trigger] self.stanzas@[j]).tag),
            decreases self.stanzas.len() - i,
        {
            meanings.push(classify(self.stanzas[i].tag));
            i = i + 1;
        }
        meanings
    }

    /// The song that this song of a song book stands for: its stanzas are
    /// taken in by their tags, and their order is the order of the song.
    pub fn to_song(&self) -> (r: Result<Song, ParseError>)
        ensures
            r matches Ok(song) && song@ == song_of_record(self@) && song@.valid(),
    {
        let mut song = Song::builder(self.title.as_str());
        let mut order = String::new();
        let ghost done: Seq<StanzaView> = Seq::empty();
        let mut i: usize = 0;
        proof {
            assert(self@.stanzas.take(0) =~= Seq::empty());
        }
        while i < self.stanzas.len()
            invariant
                i <= self.stanzas.len(),
                done == stanzas_of(self@.stanzas.take(i as int)),
                song@ == gathered(self.title@, done),
                order@ == order_of(done),
            decreases self.stanzas.len() - i,
        {
            let stanza = &self.stanzas[i];
            proof {
                assert(self@.stanzas.take(i + 1).drop_last() =~= self@.stanzas.take(i as int));
                assert(self@.stanzas.take(i + 1).last() == stanza@);
            }
            match classify(stanza.tag) {
                Tag::Stanza(kind) => {
                    proof {
                        lemma_gathered_push(
                            self.title@,
                            done,
                            StanzaView { kind, text: stanza.text@ },
                        );
                        done = done.push(StanzaView { kind, text: stanza.text@ });
                    }
                    song = song.add_stanza(kind, stanza.text.as_str());
                    order.push(kind.letter());
                },
                Tag::Repeat => {},
                Tag::Unknown(_) => {},
            }
            i = i + 1;
        }
        proof {
            assert(self@.stanzas.take(i as int) =~= self@.stanzas);
            lemma_gathered_song_builds(self.title@, done);
        }
        match song.set_order(order.as_str()).build() {
            Ok(song) => Ok(song),
            Err(e) => Err(ParseError::OrderError(e)),
        }
    }
}

/// The songs of a song book, in order. Every song of a song book builds,
/// since its order is made from its own stanzas.
pub fn video_psalm(book: &VS) -> (r: Result<Vec<Song>, ParseError>)
    ensures
        r matches Ok(songs) && song_views(songs@) == songs_of_book(book@),
{
    let mut ret: Vec<Song> = Vec::new();
    let mut i: usize = 0;
    while i < book.songs.len()
        invariant
            i <= book.songs.len(),
            ret@.len() == i,
            forall|j: int| 0 <= j < i ==> (#[trigger] ret@[j])@ == song_of_record(book.songs@[j]@),
        decreases book.songs.len() - i,
    {
        let song = book.songs[i].to_song()?;
        ret.push(song);
        i = i + 1;
    }
    proof {
        assert(song_views(ret@) =~= songs_of_book(book@));
    }
    Ok(ret)
}

/// A stanza whose tag gives it no role leaves the stanzas that count as
/// they are; one under a tag with a role comes after them, with that role.
pub proof fn lemma_stanzas_of_push(stanzas: Seq<VsStanzaView>, stanza: VsStanzaView)
    ensures
        stanzas_of(stanzas.push(stanza)) == (match tag_meaning(stanza.tag) {
            Tag::Stanza(kind) => stanzas_of(stanzas).push(StanzaView { kind, text: stanza.text }),
            _ => stanzas_of(stanzas),
        }),
{
    assert(stanzas.push(stanza).drop_last() =~= stanzas);
}

/// The stanzas that count in two runs of stanzas, one after the other, are
/// those of the first and then those of the second.
pub proof fn lemma_stanzas_of_concat(a: Seq<VsStanzaView>, b: Seq<VsStanzaView>)
    ensures
        stanzas_of(a + b) == stanzas_of(a) + stanzas_of(b),
    decreases b.len(),
{
    if b.len() == 0 {
        assert(a + b =~= a);
        assert(stanzas_of(a) + stanzas_of(b) =~= stanzas_of(a));
    } else {
        lemma_stanzas_of_concat(a, b.drop_last());
        assert((a + b).drop_last() =~= a + b.drop_last());
        assert((a + b).last() == b.last());
        assert(stanzas_of(a + b) =~= stanzas_of(a) + stanzas_of(b));
    }
}

/// The tags none, 1 and 3 always mean verse, chorus and bridge. A stanza
/// under 6, or under any number but 1 and 3, may stand anywhere in a song:
/// the song is the same with it and without it, in its order, its verses,
/// its chorus and its bridge.
pub proof fn lemma_skipped_stanza_changes_nothing(
    title: Seq<char>,
    before: Seq<VsStanzaView>,
    stanza: VsStanzaView,
    after: Seq<VsStanzaView>,
)
    requires
        stanza.tag matches Some(n) && n != 1 && n != 3,
    ensures
        tag_meaning(None) == Tag::Stanza(StanzaType::Verse),
        tag_meaning(Some(1)) == Tag::Stanza(StanzaType::Chorus),
        tag_meaning(Some(3)) == Tag::Stanza(StanzaType::Bridge),
        !(tag_meaning(stanza.tag) is Stanza),
        song_of_record(VsSongView { title, stanzas: before + seq![stanza] + after })
            == song_of_record(VsSongView { title, stanzas: before + after }),
{
    lemma_stanzas_of_concat(before + seq![stanza], after);
    lemma_stanzas_of_concat(before, seq![stanza]);
    lemma_stanzas_of_concat(before, after);
    lemma_stanzas_of_push(Seq::empty(), stanza);
    assert(seq![stanza] =~= Seq::<VsStanzaView>::empty().push(stanza));
    assert(stanzas_of(seq![stanza]) =~= Seq::<StanzaView>::empty());
    assert(stanzas_of(before) + Seq::<StanzaView>::empty() =~= stanzas_of(before));
}

} // verus!

//! Song sheets: a validated song model, two lyric-source parsers and a
//! LaTeX document renderer.

pub mod config;
pub mod error;
pub mod errors;
pub mod latex;
pub mod parser;
pub mod song;
pub mod text;

use crate::config::Config;
use crate::error::{
    LaTeXErrorView, ParseError, ParseErrorView, SongSheetError, SongSheetErrorView,
};
use crate::latex::{default_template, song_views, LaTeX, LaTeXBuilderView};
use crate::parser::video_psalm::songs_of_book;
use crate::parser::{video_psalm, ParserType, ParserTypeView, VS};
use crate::song::{Song, SongView};
use crate::text::{same_text, views};
use vstd::prelude::*;

verus! {

/// The byte-order mark that may stand at the start of a text.
pub open spec fn is_mark(c: char) -> bool {
    c == '\u{feff}'
}

/// How many byte-order marks `s` starts with, counted from `from` on.
pub open spec fn marks_from(s: Seq<char>, from: int) -> int
    decreases s.len() - from,
{
    if from < 0 || from >= s.len() || !is_mark(s[from]) {
        from
    } else {
        marks_from(s, from + 1)
    }
}

/// `s` without the byte-order marks it starts with.
pub open spec fn without_marks(s: Seq<char>) -> Seq<char> {
    s.subrange(marks_from(s, 0), s.len() as int)
}

/// Where the marks end: within `s`, and not before `from`.
pub proof fn lemma_marks_from(s: Seq<char>, from: int)
    requires
        0 <= from <= s.len(),
    ensures
        from <= marks_from(s, from) <= s.len(),
        forall|j: int| from <= j < marks_from(s, from) ==> is_mark(s[j]),
        marks_from(s, from) < s.len() ==> !is_mark(s[marks_from(s, from)]),
    decreases s.len() - from,
{
    if from < s.len() && is_mark(s[from]) {
        lemma_marks_from(s, from + 1);
    }
}

/// What is left of a text without its marks does not start with a mark,
/// and all that was taken from the text are marks at its start.
pub proof fn lemma_without_marks(s: Seq<char>)
    ensures
        without_marks(s).len() > 0 ==> !is_mark(without_marks(s)[0]),
        0 <= marks_from(s, 0) <= s.len(),
        s == s.take(marks_from(s, 0)) + without_marks(s),
        forall|j: int| 0 <= j < marks_from(s, 0) ==> is_mark(s[j]),
        (s.len() > 0 && !is_mark(s[0])) || s.len() == 0 ==> without_marks(s) == s,
{
    lemma_marks_from(s, 0);
    assert(s =~= s.take(marks_from(s, 0)) + without_marks(s));
    if s.len() == 0 || !is_mark(s[0]) {
        assert(without_marks(s) =~= s);
    }
}

/// The songs that stay when those under a title of `exclude` are left out,
/// in their order.
pub open spec fn kept(songs: Seq<SongView>, exclude: Seq<Seq<char>>) -> Seq<SongView>
    decreases songs.len(),
{
    if songs.len() == 0 {
        Seq::empty()
    } else if exclude.contains(songs.last().title) {
        kept(songs.drop_last(), exclude)
    } else {
        kept(songs.drop_last(), exclude).push(songs.last())
    }
}

/// What reading the source of `config` gives, `book` being what the source
/// holds: the songs of a song book that are not excluded; plain text and
/// unknown kinds of source are turned down.
pub open spec fn source_songs(config: &Config, book: &VS) -> Result<Seq<SongView>, ParseErrorView> {
    match config.from@ {
        ParserTypeView::PlainText => Err(ParseErrorView::NotAvailable(ParserTypeView::PlainText)),
        ParserTypeView::VideoPsalm => Ok(kept(songs_of_book(book@), views(config.exclude@))),
        ParserTypeView::Unknown(name) => Err(ParseErrorView::UnknownParser(name)),
    }
}

/// The view of songs that were read, or of why they were not.
pub open spec fn songs_view(r: Result<Vec<Song>, ParseError>) -> Result<
    Seq<SongView>,
    ParseErrorView,
> {
    match r {
        Ok(songs) => Ok(song_views(songs@)),
        Err(e) => Err(e@),
    }
}

/// What a run gives: the default document for `config` with the songs of
/// the source, rendered; or the first thing that went wrong.
pub open spec fn run_outcome(config: &Config, book: &VS) -> Result<Seq<char>, SongSheetErrorView> {
    match source_songs(config, book) {
        Err(e) => Err(SongSheetErrorView::ParseError(e)),
        Ok(songs) => match (LaTeXBuilderView { songs, ..default_template(config) }).rendered() {
            Ok(text) => Ok(text),
            Err(e) => Err(SongSheetErrorView::LaTeXError(e)),
        },
    }
}

/// `input` without the byte-order marks it starts with.
pub fn strip_bom(input: &str) -> (rest: &str)
    ensures
        rest@ == without_marks(input@),
{
    let len = input.unicode_len();
    let mut i: usize = 0;
    while i < len && input.get_char(i) == '\u{feff}'
        invariant
            i <= len,
            len == input@.len(),
            marks_from(input@, 0) == marks_from(input@, i as int),
        decreases len - i,
    {
        i = i + 1;
    }
    input.substring_char(i, len)
}

/// Whether `config` leaves out the song under `title`.
pub fn is_excluded(config: &Config, title: &str) -> (r: bool)
    ensures
        r == views(config.exclude@).contains(title@),
{
    let mut i: usize = 0;
    while i < config.exclude.len()
        invariant
            i <= config.exclude.len(),
            forall|j: int| 0 <= j < i ==> views(config.exclude@)[j] != title@,
        decreases config.exclude.len() - i,
    {
        if same_text(config.exclude[i].as_str(), title) {
            proof {
                assert(views(config.exclude@)[i as int] == title@);
            }
            return true;
        }
        i = i + 1;
    }
    false
}

/// The songs of `book`, but for those that `config` leaves out.
pub fn video_psalm_songs(config: &Config, book: &VS) -> (r: Result<Vec<Song>, ParseError>)
    ensures
        r matches Ok(songs) && song_views(songs@) == kept(
            songs_of_book(book@),
            views(config.exclude@),
        ),
{
    let songs = video_psalm(book)?;
    let ghost all = song_views(songs@);
    let ghost exclude = views(config.exclude@);
    let mut ret: Vec<Song> = Vec::new();
    proof {
        assert(all.take(0) =~= Seq::empty());
        assert(song_views(ret@) =~= Seq::empty());
    }
    for song in it: songs
        invariant
            song_views(it.seq()) == all,
            exclude == views(config.exclude@),
            song_views(ret@) == kept(all.take(it.index()), exclude),
    {
        proof {
            assert(all.take(it.index() + 1).drop_last() =~= all.take(it.index()));
            assert(all.take(it.index() + 1).last() == song@);
        }
        if !is_excluded(config, song.title.as_str()) {
            let ghost before = song_views(ret@);
            ret.push(song);
            proof {
                assert(song_views(ret@) =~= before.push(song@));
            }
        }
    }
    proof {
        assert(all.take(all.len() as int) =~= all);
    }
    Ok(ret)
}

/// The songs of the source of `config`, `book` being what the source holds.
pub fn parse_source(config: &Config, book: &VS) -> (r: Result<Vec<Song>, ParseError>)
    ensures
        songs_view(r) == source_songs(config, book),
{
    match &config.from {
        ParserType::PlainText => Err(ParseError::NotAvailable(ParserType::PlainText)),
        ParserType::VideoPsalm => video_psalm_songs(config, book),
        ParserType::Unknown(s) => Err(ParseError::UnknownParser(s.clone())),
    }
}

/// Makes the document of a run: the default template for `config`, with
/// the songs of the source in their order. `book` is what the source
/// holds. The document comes with its file and with `config`, under which
/// it is then compiled and cleaned up.
pub fn run<'a>(config: &'a Config, book: &VS) -> (r: Result<LaTeX<'a>, SongSheetError>)
    ensures
        match r {
            Ok(latex) => run_outcome(config, book) == Ok::<Seq<char>, SongSheetErrorView>(
                latex.document_text(),
            ) && latex.path_text() == config.name@ + ".tex"@ && latex.config() == config,
            Err(e) => run_outcome(config, book) == Err::<Seq<char>, SongSheetErrorView>(e@),
        },
{
    let mut latex_builder = match LaTeX::builder_default(config) {
        Ok(builder) => builder,
        Err(e) => {
            return Err(SongSheetError::LaTeXError(e));
        },
    };
    let songs = match parse_source(config, book) {
        Ok(songs) => songs,
        Err(e) => {
            return Err(SongSheetError::ParseError(e));
        },
    };
    let ghost all = song_views(songs@);
    proof {
        assert(all.take(0) =~= Seq::empty());
        assert(latex_builder@ == (LaTeXBuilderView {
            songs: all.take(0),
            ..default_template(config)
        }));
    }
    for song in it: songs
        invariant
            song_views(it.seq()) == all,
            latex_builder.config() == config,
            latex_builder@ == (LaTeXBuilderView {
                songs: all.take(it.index()),
                ..default_template(config)
            }),
    {
        proof {
            assert(all.take(it.index()).push(song@) =~= all.take(it.index() + 1));
        }
        latex_builder = latex_builder.add_song(song);
    }
    proof {
        assert(all.take(all.len() as int) =~= all);
    }
    match latex_builder.write_to_file() {
        Ok(latex) => Ok(latex),
        Err(e) => Err(SongSheetError::LaTeXError(e)),
    }
}

/// Leaving songs out goes song by song: what is kept of two runs of songs,
/// one after the other, is what is kept of the first and then what is kept
/// of the second. So the songs that stay keep their order.
pub proof fn lemma_kept_concat(a: Seq<SongView>, b: Seq<SongView>, exclude: Seq<Seq<char>>)
    ensures
        kept(a + b, exclude) == kept(a, exclude) + kept(b, exclude),
    decreases b.len(),
{
    if b.len() == 0 {
        assert(a + b =~= a);
        assert(kept(a, exclude) + kept(b, exclude) =~= kept(a, exclude));
    } else {
        lemma_kept_concat(a, b.drop_last(), exclude);
        assert((a + b).drop_last() =~= a + b.drop_last());
        assert((a + b).last() == b.last());
        assert(kept(a + b, exclude) =~= kept(a, exclude) + kept(b, exclude));
    }
}

/// No song that is kept bears an excluded title, every kept song was among
/// the songs, and every song whose title is not excluded is kept.
pub proof fn lemma_kept_leaves_out_excluded(songs: Seq<SongView>, exclude: Seq<Seq<char>>)
    ensures
        kept(songs, exclude).len() <= songs.len(),
        forall|i: int|
            0 <= i < kept(songs, exclude).len() ==> !exclude.contains(
                (#[trigger] kept(songs, exclude)[i]).title,
            ) && songs.contains(kept(songs, exclude)[i]),
        forall|i: int|
            0 <= i < songs.len() && !exclude.contains((#[trigger] songs[i]).title) ==> kept(
                songs,
                exclude,
            ).contains(songs[i]),
    decreases songs.len(),
{
    if songs.len() > 0 {
        let front = songs.drop_last();
        let last = songs.last();
        let all = kept(songs, exclude);
        lemma_kept_leaves_out_excluded(front, exclude);
        assert forall|i: int| 0 <= i < all.len() implies !exclude.contains((#[trigger] all[i]).title)
            && songs.contains(all[i]) by {
            if i < kept(front, exclude).len() {
                let song = kept(front, exclude)[i];
                assert(all[i] == song);
                let j = choose|j: int| 0 <= j < front.len() && front[j] == song;
                assert(songs[j] == song);
            } else {
                assert(all[i] == last);
                assert(songs[songs.len() - 1] == last);
            }
        }
        assert forall|i: int|
            0 <= i < songs.len() && !exclude.contains((#[trigger] songs[i]).title) implies all.contains(
            songs[i],
        ) by {
            if i < front.len() {
                assert(front[i] == songs[i]);
                let j = choose|j: int|
                    0 <= j < kept(front, exclude).len() && kept(front, exclude)[j] == front[i];
                assert(all[j] == songs[i]);
            } else {
                assert(all[all.len() - 1] == songs[i]);
            }
        }
    }
}

} // verus!

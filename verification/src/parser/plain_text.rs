//! The plain-text song format: a title, a blank line, and stanzas parted by
//! blank lines. A stanza that begins with the line `#c` is the chorus, one
//! that begins with `#b` the bridge, any other a verse.

use crate::error::PlainTextError;
use crate::song::{
    gathered, lemma_gathered_push, lemma_gathered_song_builds, order_of, song_of, Song, SongView,
    StanzaType, StanzaView,
};
use crate::text::{chars_of, find_char, find_from, lemma_find_char, text_of};
use vstd::pervasive::unreached;
use vstd::prelude::*;

verus! {

/// The first position at or after `from` where a blank line parts two
/// stanzas, that is where two line feeds stand together, or the length of
/// `s` where there is none.
pub open spec fn find_blank(s: Seq<char>, from: int) -> int
    decreases s.len() - from,
{
    if from < 0 || from >= s.len() {
        s.len() as int
    } else if from + 1 < s.len() && s[from] == '\n' && s[from + 1] == '\n' {
        from
    } else {
        find_blank(s, from + 1)
    }
}

/// The kind that a tag letter stands for, if it is one.
pub open spec fn kind_of_letter(c: char) -> Option<StanzaType> {
    if c == 'c' {
        Some(StanzaType::Chorus)
    } else if c == 'b' {
        Some(StanzaType::Bridge)
    } else {
        None
    }
}

/// The kind that the tag at `at` gives its stanza, `at` being the place
/// behind the `#`: the letter there says which, and a line feed must follow
/// it. `None` where the tag is not of that form.
pub open spec fn tag_at(s: Seq<char>, at: int) -> Option<StanzaType> {
    if 0 <= at && at + 1 < s.len() && s[at + 1] == '\n' {
        kind_of_letter(s[at])
    } else {
        None
    }
}

/// Where the title of `s` ends: at the first line feed, which a second one
/// must follow. `None` where the first line is not followed by a blank
/// line.
pub open spec fn title_end(s: Seq<char>) -> Option<int> {
    let end = find_char(s, '\n', 0);
    if end + 1 < s.len() && s[end + 1] == '\n' {
        Some(end)
    } else {
        None
    }
}

/// Where the stanza after the one whose text ends at `end` starts: behind
/// the blank line, or at the end of `s` where no blank line followed.
pub open spec fn after_stanza(s: Seq<char>, end: int) -> int {
    if end < s.len() {
        end + 2
    } else {
        s.len() as int
    }
}

/// The stanzas of `s` from `pos` on, or `None` where one of them has a tag
/// that is none.
pub open spec fn stanzas_from(s: Seq<char>, pos: int) -> Option<Seq<StanzaView>>
    decreases s.len() - pos,
    via stanzas_from_decreases
{
    if pos < 0 || pos >= s.len() {
        Some(Seq::empty())
    } else {
        let tagged = s[pos] == '#';
        let kind = if tagged {
            tag_at(s, pos + 1)
        } else {
            Some(StanzaType::Verse)
        };
        match kind {
            None => None,
            Some(kind) => {
                let start = if tagged {
                    pos + 3
                } else {
                    pos
                };
                let end = find_blank(s, start);
                match stanzas_from(s, after_stanza(s, end)) {
                    None => None,
                    Some(rest) => Some(
                        seq![StanzaView { kind, text: s.subrange(start, end) }] + rest,
                    ),
                }
            },
        }
    }
}

#[via_fn]
proof fn stanzas_from_decreases(s: Seq<char>, pos: int) {
    if 0 <= pos < s.len() {
        let tagged = s[pos] == '#';
        if tagged && tag_at(s, pos + 1) is Some {
            lemma_find_blank(s, pos + 3);
        } else if !tagged {
            lemma_find_blank(s, pos);
        }
    }
}

/// What `find_blank` finds: it does not go back, and it stays within `s`.
pub proof fn lemma_find_blank(s: Seq<char>, from: int)
    requires
        0 <= from <= s.len(),
    ensures
        from <= find_blank(s, from) <= s.len(),
        find_blank(s, from) < s.len() ==> find_blank(s, from) + 2 <= s.len(),
    decreases s.len() - from,
{
    if from < s.len() && !(from + 1 < s.len() && s[from] == '\n' && s[from + 1] == '\n') {
        lemma_find_blank(s, from + 1);
    }
}

/// The title of a song in plain text is one line: it holds no line feed,
/// and two line feeds follow it.
pub proof fn lemma_title_is_first_line(s: Seq<char>)
    requires
        title_end(s) is Some,
    ensures
        0 <= title_end(s)->0,
        title_end(s)->0 + 2 <= s.len(),
        !s.subrange(0, title_end(s)->0).contains('\n'),
        s[title_end(s)->0] == '\n',
        s[title_end(s)->0 + 1] == '\n',
{
    lemma_find_char(s, '\n', 0);
}

/// What parsing makes of `s`: the title is the first line, which a blank
/// line must follow; the stanzas come after it.
pub open spec fn parsed(s: Seq<char>) -> Result<SongView, PlainTextError> {
    match title_end(s) {
        Some(end) => match stanzas_from(s, end + 2) {
            Some(stanzas) => Ok(song_of(s.subrange(0, end), stanzas)),
            None => Err(PlainTextError::InvalidTag),
        },
        None => Err(PlainTextError::InvalidTitle),
    }
}

/// The view of what parsing returned.
pub open spec fn parsed_view(r: Result<Song, PlainTextError>) -> Result<SongView, PlainTextError> {
    match r {
        Ok(song) => Ok(song@),
        Err(e) => Err(e),
    }
}

/// The first position at or after `from` where two line feeds stand
/// together, or the length of `chars`.
fn find_blank_from(chars: &Vec<char>, from: usize) -> (at: usize)
    requires
        from <= chars.len(),
    ensures
        at == find_blank(chars@, from as int),
        from <= at <= chars.len(),
        at < chars.len() ==> at + 2 <= chars.len(),
{
    let mut i: usize = from;
    while i < chars.len()
        invariant
            from <= i <= chars.len(),
            find_blank(chars@, from as int) == find_blank(chars@, i as int),
        decreases chars.len() - i,
    {
        if chars[i] == '\n' && i + 1 < chars.len() && chars[i + 1] == '\n' {
            return i;
        }
        i = i + 1;
    }
    i
}

/// The parser of the plain-text song format.
pub struct PlainText;

impl PlainText {
    /// Reads a song from plain text.
    pub fn parse(input: &str) -> (r: Result<Song, PlainTextError>)
        ensures
            parsed_view(r) == parsed(input@),
            r matches Ok(song) ==> song@.valid(),
    {
        let chars = chars_of(input);
        let len = chars.len();
        let (first, title) = match PlainText::match_name(&chars) {
            Some(found) => found,
            None => {
                return Err(PlainTextError::InvalidTitle);
            },
        };
        let mut song = Song::builder(title.as_str());
        let mut order = String::new();
        let mut pos: usize = first;
        let ghost done: Seq<StanzaView> = Seq::empty();
        proof {
            assert(gathered(title@, done) == song@);
            assert(match stanzas_from(chars@, pos as int) {
                Some(rest) => Some(done + rest),
                None => None,
            } =~= stanzas_from(chars@, first as int));
        }
        while pos < len
            invariant
                pos <= len,
                len == chars.len(),
                chars@ == input@,
                title_end(chars@) == Some(first - 2),
                title@ == chars@.subrange(0, first - 2),
                song@ == gathered(title@, done),
                order@ == order_of(done),
                stanzas_from(chars@, first as int) == (match stanzas_from(chars@, pos as int) {
                    Some(rest) => Some(done + rest),
                    None => None,
                }),
            decreases len - pos,
        {
            let (start, kind) = if PlainText::start_tag(&chars, pos) {
                match PlainText::identify_tag(&chars, pos + 1) {
                    Some(tag) => tag,
                    None => {
                        return Err(PlainTextError::InvalidTag);
                    },
                }
            } else {
                (pos, StanzaType::Verse)
            };
            let (next, stanza) = PlainText::match_block(&chars, start);
            let ghost met = StanzaView { kind, text: stanza@ };
            proof {
                lemma_gathered_push(title@, done, met);
                match stanzas_from(chars@, next as int) {
                    Some(rest) => {
                        assert(done + (seq![met] + rest) =~= done.push(met) + rest);
                    },
                    None => {},
                }
            }
            song = song.add_stanza(kind, stanza.as_str());
            order.push(kind.letter());
            proof {
                done = done.push(met);
            }
            pos = next;
        }
        proof {
            assert(done + Seq::<StanzaView>::empty() =~= done);
            lemma_gathered_song_builds(title@, done);
        }
        match song.set_order(order.as_str()).build() {
            Ok(song) => Ok(song),
            Err(_) => unreached(),
        }
    }

    /// The title of the song: the first line, which a blank line must
    /// follow. With it comes the place where the stanzas start.
    pub fn match_name(chars: &Vec<char>) -> (r: Option<(usize, String)>)
        ensures
            match r {
                Some((rest, name)) => title_end(chars@) == Some(rest - 2) && name@
                    == chars@.subrange(0, rest - 2) && 2 <= rest <= chars.len(),
                None => title_end(chars@) is None,
            },
    {
        let len = chars.len();
        let end = find_from(chars, '\n', 0);
        if end < len && len - end > 1 && chars[end + 1] == '\n' {
            Some((end + 2, text_of(chars, 0, end)))
        } else {
            None
        }
    }

    /// Whether a tag starts at `pos`.
    pub fn start_tag(chars: &Vec<char>, pos: usize) -> (tagged: bool)
        ensures
            tagged == (pos < chars.len() && chars@[pos as int] == '#'),
    {
        pos < chars.len() && chars[pos] == '#'
    }

    /// The kind that the tag at `at` gives its stanza, `at` being the place
    /// behind the `#`: `c` marks the chorus and `b` the bridge, and a line
    /// feed must follow the letter. With the kind comes the place where the
    /// text of the stanza starts.
    pub fn identify_tag(chars: &Vec<char>, at: usize) -> (r: Option<(usize, StanzaType)>)
        ensures
            match r {
                Some((rest, kind)) => tag_at(chars@, at as int) == Some(kind) && rest == at + 2,
                None => tag_at(chars@, at as int) is None,
            },
    {
        let len = chars.len();
        if at < len && len - at > 1 && chars[at + 1] == '\n' {
            let letter = chars[at];
            if letter == 'c' {
                Some((at + 2, StanzaType::Chorus))
            } else if letter == 'b' {
                Some((at + 2, StanzaType::Bridge))
            } else {
                None
            }
        } else {
            None
        }
    }

    /// The text of the stanza that starts at `pos`: all up to the next
    /// blank line, or up to the end where none follows. With it comes the
    /// place where the next stanza starts.
    pub fn match_block(chars: &Vec<char>, pos: usize) -> (r: (usize, String))
        requires
            pos <= chars.len(),
        ensures
            r.1@ == chars@.subrange(pos as int, find_blank(chars@, pos as int)),
            r.0 == after_stanza(chars@, find_blank(chars@, pos as int)),
            pos <= r.0 <= chars.len(),
            pos < chars.len() ==> pos < r.0,
    {
        let end = find_blank_from(chars, pos);
        let stanza = text_of(chars, pos, end);
        let next = if end < chars.len() {
            end + 2
        } else {
            chars.len()
        };
        (next, stanza)
    }
}

} // verus!

//! The song model and the builder that validates it.

use crate::error::{SongError, SongErrorView};
use crate::text::{chars_of, count_char, count_of, has_char, lemma_count_char_zero, views};
use vstd::prelude::*;

verus! {

/// The role a stanza plays in a song.
#[derive(Debug, Clone, Copy, PartialEq, Eq, Structural)]
pub enum StanzaType {
    Verse,
    Chorus,
    Bridge,
}

impl StanzaType {
    /// The letter that stands for this role in an order string.
    pub open spec fn letter_spec(self) -> char {
        match self {
            StanzaType::Verse => 'v',
            StanzaType::Chorus => 'c',
            StanzaType::Bridge => 'b',
        }
    }

    /// The letter that stands for this role in an order string.
    #[verifier::when_used_as_spec(letter_spec)]
    pub fn letter(self) -> (c: char)
        ensures
            c == self.letter_spec(),
    {
        match self {
            StanzaType::Verse => 'v',
            StanzaType::Chorus => 'c',
            StanzaType::Bridge => 'b',
        }
    }
}

impl Default for StanzaType {
    fn default() -> (kind: StanzaType)
        ensures
            kind == StanzaType::Verse,
    {
        StanzaType::Verse
    }
}

/// A song: its stanzas, and the order in which they are performed.
#[derive(Debug, Clone, PartialEq, Eq)]
pub struct Song {
    pub title: String,
    /// One letter per stanza performed: `v` for the next verse, `c` for the
    /// chorus, `b` for the bridge.
    pub order: String,
    pub verses: Vec<String>,
    pub chorus: Option<String>,
    pub bridge: Option<String>,
}

/// The view of an optional string.
pub open spec fn opt_view(s: Option<String>) -> Option<Seq<char>> {
    match s {
        Some(s) => Some(s@),
        None => None,
    }
}

/// A song as plain sequences of characters.
pub struct SongView {
    pub title: Seq<char>,
    pub order: Seq<char>,
    pub verses: Seq<Seq<char>>,
    pub chorus: Option<Seq<char>>,
    pub bridge: Option<Seq<char>>,
}

impl SongView {
    /// What a built song satisfies: a chorus where the order calls for one, a
    /// bridge likewise, and at least as many `v` in the order as there are
    /// verses.
    pub open spec fn valid(self) -> bool {
        &&& self.order.contains('c') ==> self.chorus is Some
        &&& self.order.contains('b') ==> self.bridge is Some
        &&& count_char(self.order, 'v') >= self.verses.len()
    }
}

impl View for Song {
    type V = SongView;

    open spec fn view(&self) -> SongView {
        SongView {
            title: self.title@,
            order: self.order@,
            verses: views(self.verses@),
            chorus: opt_view(self.chorus),
            bridge: opt_view(self.bridge),
        }
    }
}

impl Default for Song {
    fn default() -> (song: Song)
        ensures
            song@ == (SongView {
                title: Seq::empty(),
                order: Seq::empty(),
                verses: Seq::empty(),
                chorus: None,
                bridge: None,
            }),
    {
        let song = Song {
            title: String::new(),
            order: String::new(),
            verses: Vec::new(),
            chorus: None,
            bridge: None,
        };
        proof {
            assert(views(song.verses@) =~= Seq::empty());
        }
        song
    }
}

impl Song {
    /// Starts a song with the given title and nothing else.
    pub fn builder(title: &str) -> (b: SongBuilder)
        ensures
            b@ == (SongBuilderView {
                title: title@,
                order: None,
                verses: Seq::empty(),
                chorus: None,
                bridge: None,
            }),
    {
        let b = SongBuilder {
            title: title.to_owned(),
            order: None,
            verses: Vec::new(),
            chorus: None,
            bridge: None,
        };
        proof {
            assert(views(b.verses@) =~= Seq::empty());
        }
        b
    }
}

/// A stanza as a source gives it: its role and its text.
pub struct StanzaView {
    pub kind: StanzaType,
    pub text: Seq<char>,
}

/// The order in which the stanzas were met, one letter each.
pub open spec fn order_of(stanzas: Seq<StanzaView>) -> Seq<char>
    decreases stanzas.len(),
{
    if stanzas.len() == 0 {
        Seq::empty()
    } else {
        order_of(stanzas.drop_last()).push(stanzas.last().kind.letter_spec())
    }
}

/// The texts of the verses among the stanzas, in order.
pub open spec fn verses_of(stanzas: Seq<StanzaView>) -> Seq<Seq<char>>
    decreases stanzas.len(),
{
    if stanzas.len() == 0 {
        Seq::empty()
    } else if stanzas.last().kind == StanzaType::Verse {
        verses_of(stanzas.drop_last()).push(stanzas.last().text)
    } else {
        verses_of(stanzas.drop_last())
    }
}

/// The text of the last stanza of the given kind, if there is one.
pub open spec fn last_of(stanzas: Seq<StanzaView>, kind: StanzaType) -> Option<Seq<char>>
    decreases stanzas.len(),
{
    if stanzas.len() == 0 {
        None
    } else if stanzas.last().kind == kind {
        Some(stanzas.last().text)
    } else {
        last_of(stanzas.drop_last(), kind)
    }
}

/// What a builder holds once it has taken in the stanzas, before its order
/// is set.
pub open spec fn gathered(title: Seq<char>, stanzas: Seq<StanzaView>) -> SongBuilderView {
    SongBuilderView {
        title,
        order: None,
        verses: verses_of(stanzas),
        chorus: last_of(stanzas, StanzaType::Chorus),
        bridge: last_of(stanzas, StanzaType::Bridge),
    }
}

/// The song that the stanzas of a source make: the verses in order, the
/// last chorus and the last bridge, performed in the order they were met.
pub open spec fn song_of(title: Seq<char>, stanzas: Seq<StanzaView>) -> SongView {
    SongView {
        title,
        order: order_of(stanzas),
        verses: verses_of(stanzas),
        chorus: last_of(stanzas, StanzaType::Chorus),
        bridge: last_of(stanzas, StanzaType::Bridge),
    }
}

/// Taking in one more stanza gathers it.
pub proof fn lemma_gathered_push(title: Seq<char>, stanzas: Seq<StanzaView>, stanza: StanzaView)
    ensures
        gathered(title, stanzas.push(stanza)) == gathered(title, stanzas).with_stanza(stanza),
        order_of(stanzas.push(stanza)) == order_of(stanzas).push(stanza.kind.letter_spec()),
{
    assert(stanzas.push(stanza).drop_last() =~= stanzas);
}

/// The order of stanzas names each kind as often as it was met: a `v` for
/// each verse, and a `c` or a `b` exactly where there is a chorus or a
/// bridge.
pub proof fn lemma_order_matches_stanzas(stanzas: Seq<StanzaView>)
    ensures
        count_char(order_of(stanzas), 'v') == verses_of(stanzas).len(),
        order_of(stanzas).contains('c') <==> last_of(stanzas, StanzaType::Chorus) is Some,
        order_of(stanzas).contains('b') <==> last_of(stanzas, StanzaType::Bridge) is Some,
    decreases stanzas.len(),
{
    if stanzas.len() > 0 {
        let front = stanzas.drop_last();
        let order = order_of(stanzas);
        lemma_order_matches_stanzas(front);
        assert(order.drop_last() =~= order_of(front));
        lemma_count_char_zero(order, 'c');
        lemma_count_char_zero(order_of(front), 'c');
        lemma_count_char_zero(order, 'b');
        lemma_count_char_zero(order_of(front), 'b');
    } else {
        lemma_count_char_zero(order_of(stanzas), 'c');
        lemma_count_char_zero(order_of(stanzas), 'b');
    }
}

/// A song put together from the stanzas of a source, with the order in
/// which they were met, always builds, and is the song of those stanzas.
pub proof fn lemma_gathered_song_builds(title: Seq<char>, stanzas: Seq<StanzaView>)
    ensures
        (SongBuilderView { order: Some(order_of(stanzas)), ..gathered(title, stanzas) }).outcome()
            == Ok::<SongView, SongErrorView>(song_of(title, stanzas)),
        song_of(title, stanzas).valid(),
{
    lemma_order_matches_stanzas(stanzas);
}

/// A song under construction. Nothing is checked before `build`.
pub struct SongBuilder {
    title: String,
    order: Option<String>,
    verses: Vec<String>,
    chorus: Option<String>,
    bridge: Option<String>,
}

/// A builder's state as plain sequences of characters.
pub struct SongBuilderView {
    pub title: Seq<char>,
    pub order: Option<Seq<char>>,
    pub verses: Seq<Seq<char>>,
    pub chorus: Option<Seq<char>>,
    pub bridge: Option<Seq<char>>,
}

impl SongBuilderView {
    /// The state after a stanza is taken in: a verse comes after the verses
    /// there are, a chorus or a bridge takes the place of an earlier one.
    pub open spec fn with_stanza(self, stanza: StanzaView) -> SongBuilderView {
        match stanza.kind {
            StanzaType::Verse => SongBuilderView {
                verses: self.verses.push(stanza.text),
                ..self
            },
            StanzaType::Chorus => SongBuilderView { chorus: Some(stanza.text), ..self },
            StanzaType::Bridge => SongBuilderView { bridge: Some(stanza.text), ..self },
        }
    }

    /// What `build` returns from this state. The checks come in this order:
    /// the order is there, the chorus, the bridge, the number of verses.
    pub open spec fn outcome(self) -> Result<SongView, SongErrorView> {
        match self.order {
            None => Err(SongErrorView::NoOrder { song_title: self.title }),
            Some(order) => {
                if order.contains('c') && self.chorus is None {
                    Err(SongErrorView::NoChorus { song_title: self.title })
                } else if order.contains('b') && self.bridge is None {
                    Err(SongErrorView::NoBridge { song_title: self.title })
                } else if count_char(order, 'v') < self.verses.len() {
                    Err(
                        SongErrorView::NotEnoughVerses {
                            song_title: self.title,
                            expected: count_char(order, 'v'),
                            actual: self.verses.len(),
                        },
                    )
                } else {
                    Ok(
                        SongView {
                            title: self.title,
                            order,
                            verses: self.verses,
                            chorus: self.chorus,
                            bridge: self.bridge,
                        },
                    )
                }
            },
        }
    }
}

/// The view of what `build` returned.
pub open spec fn built_view(r: Result<Song, SongError>) -> Result<SongView, SongErrorView> {
    match r {
        Ok(song) => Ok(song@),
        Err(e) => Err(e@),
    }
}

impl View for SongBuilder {
    type V = SongBuilderView;

    closed spec fn view(&self) -> SongBuilderView {
        SongBuilderView {
            title: self.title@,
            order: opt_view(self.order),
            verses: views(self.verses@),
            chorus: opt_view(self.chorus),
            bridge: opt_view(self.bridge),
        }
    }
}

impl SongBuilder {
    /// Adds `verse` after the verses added so far.
    pub fn add_verse(self, verse: &str) -> (b: SongBuilder)
        ensures
            b@ == (SongBuilderView { verses: self@.verses.push(verse@), ..self@ }),
    {
        let mut b = self;
        b.verses.push(verse.to_owned());
        proof {
            assert(views(b.verses@) =~= views(self.verses@).push(verse@));
        }
        b
    }

    /// Sets the chorus, in place of an earlier one.
    pub fn set_chorus(self, chorus: &str) -> (b: SongBuilder)
        ensures
            b@ == (SongBuilderView { chorus: Some(chorus@), ..self@ }),
    {
        let mut b = self;
        b.chorus = Some(chorus.to_owned());
        b
    }

    /// Sets the bridge, in place of an earlier one.
    pub fn set_bridge(self, bridge: &str) -> (b: SongBuilder)
        ensures
            b@ == (SongBuilderView { bridge: Some(bridge@), ..self@ }),
    {
        let mut b = self;
        b.bridge = Some(bridge.to_owned());
        b
    }

    /// Sets the order, in place of an earlier one.
    pub fn set_order(self, order: &str) -> (b: SongBuilder)
        ensures
            b@ == (SongBuilderView { order: Some(order@), ..self@ }),
    {
        let mut b = self;
        b.order = Some(order.to_owned());
        b
    }

    /// Takes in a stanza of the given kind: a verse is added, a chorus or a
    /// bridge is set.
    pub fn add_stanza(self, kind: StanzaType, text: &str) -> (b: SongBuilder)
        ensures
            b@ == self@.with_stanza(StanzaView { kind, text: text@ }),
    {
        match kind {
            StanzaType::Verse => self.add_verse(text),
            StanzaType::Chorus => self.set_chorus(text),
            StanzaType::Bridge => self.set_bridge(text),
        }
    }

    /// Checks the song and hands it out, or says what is wrong with it.
    pub fn build(self) -> (r: Result<Song, SongError>)
        ensures
            built_view(r) == self@.outcome(),
            r matches Ok(song) ==> song@.valid(),
    {
        let SongBuilder { title, order, verses, chorus, bridge } = self;
        let order = match order {
            Some(order) => order,
            None => {
                return Err(SongError::NoOrder { song_title: title });
            },
        };
        let letters = chars_of(order.as_str());
        if has_char(&letters, 'c') && chorus.is_none() {
            return Err(SongError::NoChorus { song_title: title });
        }
        if has_char(&letters, 'b') && bridge.is_none() {
            return Err(SongError::NoBridge { song_title: title });
        }
        let v_act = verses.len();
        let v_exp = count_of(&letters, 'v');
        if v_exp < v_act {
            return Err(
                SongError::NotEnoughVerses { song_title: title, expected: v_exp, actual: v_act },
            );
        }
        Ok(Song { title, order, verses, chorus, bridge })
    }
}

/// With an order set, and a chorus and a bridge wherever the order calls for
/// them, a song builds exactly when its order has at least as many `v` as
/// verses were added; what else can come is `NotEnoughVerses`, with both
/// numbers.
pub proof fn lemma_builds_iff_enough_places(b: SongBuilderView)
    requires
        b.order is Some,
        b.order->0.contains('c') ==> b.chorus is Some,
        b.order->0.contains('b') ==> b.bridge is Some,
    ensures
        b.outcome() is Ok <==> count_char(b.order->0, 'v') >= b.verses.len(),
        b.outcome() is Err ==> b.outcome() == Err::<SongView, SongErrorView>(
            SongErrorView::NotEnoughVerses {
                song_title: b.title,
                expected: count_char(b.order->0, 'v'),
                actual: b.verses.len(),
            },
        ),
{
}

/// An order that calls for a chorus, with none set, gives `NoChorus`.
pub proof fn lemma_chorus_is_required(b: SongBuilderView)
    requires
        b.order is Some,
        b.order->0.contains('c'),
        b.chorus is None,
    ensures
        b.outcome() == Err::<SongView, SongErrorView>(
            SongErrorView::NoChorus { song_title: b.title },
        ),
{
}

/// An order that calls for a bridge, with none set, gives `NoBridge`, unless
/// the chorus is missing too: that is reported first.
pub proof fn lemma_bridge_is_required(b: SongBuilderView)
    requires
        b.order is Some,
        b.order->0.contains('b'),
        b.bridge is None,
        b.order->0.contains('c') ==> b.chorus is Some,
    ensures
        b.outcome() == Err::<SongView, SongErrorView>(
            SongErrorView::NoBridge { song_title: b.title },
        ),
{
}

/// Where the order calls for neither chorus nor bridge, it makes no
/// difference to the check whether one is set: with any chorus and any bridge
/// the song builds exactly when the order has places enough for the verses.
pub proof fn lemma_unused_stanzas_are_free(
    b: SongBuilderView,
    chorus: Option<Seq<char>>,
    bridge: Option<Seq<char>>,
)
    requires
        b.order is Some,
        !b.order->0.contains('c'),
        !b.order->0.contains('b'),
    ensures
        (SongBuilderView { chorus, bridge, ..b }).outcome() is Ok <==> count_char(b.order->0, 'v')
            >= b.verses.len(),
        count_char(b.order->0, 'v') >= b.verses.len() ==> (SongBuilderView {
            chorus,
            bridge,
            ..b
        }).outcome() == Ok::<SongView, SongErrorView>(
            SongView {
                title: b.title,
                order: b.order->0,
                verses: b.verses,
                chorus,
                bridge,
            },
        ),
{
}

} // verus!

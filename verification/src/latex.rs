//! The LaTeX document: escaping, the template, and the rendering of songs.

use crate::config::Config;
use crate::error::{LaTeXError, LaTeXErrorView};
use crate::song::{opt_view, Song, SongView, StanzaType};
use crate::text::{
    chars_of, count_char, decimal, joined, lemma_count_char_prefix, lines_of, push_decimal,
    push_joined, split_lines, views,
};
use vstd::prelude::*;
use vstd::string::StringExecFns;

verus! {

/// The characters that LaTeX reads as markup and that are escaped in lyrics.
pub open spec fn is_special(c: char) -> bool {
    c == '%' || c == '$' || c == '{' || c == '}' || c == '#' || c == '&'
}

/// `s` with a backslash put before each special character, in one pass.
pub open spec fn escaped(s: Seq<char>) -> Seq<char>
    decreases s.len(),
{
    if s.len() == 0 {
        Seq::empty()
    } else if is_special(s.last()) {
        escaped(s.drop_last()).push('\\').push(s.last())
    } else {
        escaped(s.drop_last()).push(s.last())
    }
}

/// Whether `t`, read from the left, holds no special character of its own: a
/// backslash takes the character after it along, and what is left over is
/// not special.
pub open spec fn reads_clean(t: Seq<char>) -> bool
    decreases t.len(),
{
    if t.len() == 0 {
        true
    } else if t[0] == '\\' {
        t.len() >= 2 && reads_clean(t.skip(2))
    } else {
        !is_special(t[0]) && reads_clean(t.skip(1))
    }
}

/// Escapes the special characters of `string` for LaTeX.
pub fn safe(string: &str) -> (out: String)
    ensures
        out@ == escaped(string@),
{
    let chars = chars_of(string);
    let mut out = String::new();
    let mut i: usize = 0;
    while i < chars.len()
        invariant
            i <= chars.len(),
            chars@ == string@,
            out@ == escaped(chars@.take(i as int)),
        decreases chars.len() - i,
    {
        let c = chars[i];
        proof {
            assert(chars@.take(i + 1).drop_last() =~= chars@.take(i as int));
        }
        if c == '%' || c == '$' || c == '{' || c == '}' || c == '#' || c == '&' {
            out.push('\\');
        }
        out.push(c);
        i = i + 1;
    }
    proof {
        assert(chars@.take(chars.len() as int) =~= chars@);
    }
    out
}

/// Escaping what follows a piece of text does not change how the piece
/// itself is escaped.
pub proof fn lemma_escaped_concat(a: Seq<char>, b: Seq<char>)
    ensures
        escaped(a + b) == escaped(a) + escaped(b),
    decreases b.len(),
{
    if b.len() == 0 {
        assert(a + b =~= a);
        assert(escaped(a) + escaped(b) =~= escaped(a));
    } else {
        lemma_escaped_concat(a, b.drop_last());
        assert((a + b).drop_last() =~= a + b.drop_last());
        assert((a + b).last() == b.last());
        assert(escaped(a + b) =~= escaped(a) + escaped(b));
    }
}

/// In escaped text every special character stands directly behind a
/// backslash.
pub proof fn lemma_escaped_marks_each_special(s: Seq<char>)
    ensures
        forall|i: int|
            0 <= i < escaped(s).len() && is_special(#[trigger] escaped(s)[i]) ==> i > 0 && escaped(
                s,
            )[i - 1] == '\\',
    decreases s.len(),
{
    if s.len() > 0 {
        let front = escaped(s.drop_last());
        lemma_escaped_marks_each_special(s.drop_last());
        assert forall|i: int|
            0 <= i < escaped(s).len() && is_special(#[trigger] escaped(s)[i]) implies i > 0
            && escaped(s)[i - 1] == '\\' by {
            if i < front.len() {
                assert(escaped(s)[i] == front[i]);
                assert(escaped(s)[i - 1] == front[i - 1]);
            }
        }
    }
}

/// Two clean texts, one after the other, read clean.
pub proof fn lemma_reads_clean_concat(a: Seq<char>, b: Seq<char>)
    requires
        reads_clean(a),
        reads_clean(b),
    ensures
        reads_clean(a + b),
    decreases a.len(),
{
    if a.len() == 0 {
        assert(a + b =~= b);
    } else if a[0] == '\\' {
        lemma_reads_clean_concat(a.skip(2), b);
        assert((a + b).skip(2) =~= a.skip(2) + b);
    } else {
        lemma_reads_clean_concat(a.skip(1), b);
        assert((a + b).skip(1) =~= a.skip(1) + b);
    }
}

/// Text without a backslash of its own reads clean once escaped: read from
/// the left in pairs of backslash and character, it shows no special
/// character outside such a pair.
pub proof fn lemma_escaped_reads_clean(s: Seq<char>)
    requires
        !s.contains('\\'),
    ensures
        reads_clean(escaped(s)),
    decreases s.len(),
{
    if s.len() > 0 {
        let front = s.drop_last();
        let c = s.last();
        assert(!front.contains('\\')) by {
            if front.contains('\\') {
                let i = choose|i: int| 0 <= i < front.len() && front[i] == '\\';
                assert(s[i] == '\\');
            }
        }
        assert(c != '\\') by {
            assert(s[s.len() - 1] == c);
        }
        lemma_escaped_reads_clean(front);
        let piece = if is_special(c) {
            seq!['\\', c]
        } else {
            seq![c]
        };
        assert(reads_clean(piece)) by {
            if is_special(c) {
                assert(piece.skip(2) =~= Seq::empty());
                assert(reads_clean(piece.skip(2)));
            } else {
                assert(piece.skip(1) =~= Seq::empty());
                assert(reads_clean(piece.skip(1)));
            }
        }
        lemma_reads_clean_concat(escaped(front), piece);
        assert(escaped(s) =~= escaped(front) + piece);
    }
}

/// Escaping adds one character for each special character and none else.
pub proof fn lemma_escaped_len(s: Seq<char>)
    ensures
        escaped(s).len() >= s.len(),
        escaped(s).len() == s.len() <==> (forall|i: int| 0 <= i < s.len() ==> !is_special(s[i])),
        (forall|i: int| 0 <= i < s.len() ==> !is_special(s[i])) ==> escaped(s) == s,
    decreases s.len(),
{
    if s.len() > 0 {
        let front = s.drop_last();
        lemma_escaped_len(front);
        if forall|i: int| 0 <= i < s.len() ==> !is_special(s[i]) {
            assert forall|i: int| 0 <= i < front.len() implies !is_special(front[i]) by {
                assert(front[i] == s[i]);
            }
            assert(!is_special(s.last()));
            assert(escaped(s) =~= s);
        }
        if escaped(s).len() == s.len() {
            assert(escaped(front).len() == front.len() && !is_special(s.last()));
            assert forall|i: int| 0 <= i < s.len() implies !is_special(s[i]) by {
                if i < front.len() {
                    assert(front[i] == s[i]);
                }
            }
        }
    } else {
        assert(escaped(s) =~= s);
    }
}

/// Escaping is not idempotent: text that holds a special character changes
/// again, and grows, when its escaped form is escaped once more.
pub proof fn lemma_escaping_twice_differs(s: Seq<char>)
    requires
        exists|i: int| 0 <= i < s.len() && is_special(s[i]),
    ensures
        escaped(escaped(s)).len() > escaped(s).len(),
        escaped(escaped(s)) != escaped(s),
{
    let once = escaped(s);
    lemma_escaped_len(s);
    assert(once.len() > s.len());
    // The escaped text still holds the special character, so it grows again.
    lemma_escaped_keeps_specials(s);
    lemma_escaped_len(once);
}

/// A special character of the text is still there once the text is escaped.
pub proof fn lemma_escaped_keeps_specials(s: Seq<char>)
    requires
        exists|i: int| 0 <= i < s.len() && is_special(s[i]),
    ensures
        exists|j: int| 0 <= j < escaped(s).len() && is_special(escaped(s)[j]),
    decreases s.len(),
{
    let c = s.last();
    let front = s.drop_last();
    if is_special(c) {
        assert(escaped(s)[escaped(s).len() - 1] == c);
    } else {
        let i = choose|i: int| 0 <= i < s.len() && is_special(s[i]);
        assert(i < front.len());
        assert(front[i] == s[i]);
        lemma_escaped_keeps_specials(front);
        let j = choose|j: int| 0 <= j < escaped(front).len() && is_special(escaped(front)[j]);
        assert(escaped(s)[j] == escaped(front)[j]);
    }
}

/// What follows the packages: the index, the counters, the colour of titles
/// and the footer.
pub const SETUP: &'static str = r"
% ====   Index   ====
\makeindex

% ====   Counters   ====
\newtotcounter{songcount}
\newtotcounter{psalmcount}
\definecolor{title dark}{HTML}{7E73A7}

% ====   Footer   ====
\pagestyle{fancy}
\fancyhf{}
\cfoot{{\small\thepage} \\ v{\ssver}}
\renewcommand{\headrulewidth}{0pt}

\makeatletter
";

/// The `verse` command up to the format of a line.
pub const VERSE_HEAD: &'static str = r"
% ====   Verse   ====
\renewcommand{\verse}{\@versei}
\newcommand{\@versei}{\@ifnextchar\end{\@verseend}{\@verseii}} % chktex 10
\newcommand{\@verseii}[1]{";

/// The `verse` command after the format of a line.
pub const VERSE_TAIL: &'static str = r"#1\par\@versei}
\newcommand{\@verseend}[1]{\vskip1em}
";

/// The `chorus` command up to the format of a line.
pub const CHORUS_HEAD: &'static str = r"
% ====   Chorus   ====
\newcommand{\chorus}{\@chorusi}
\newcommand{\@chorusi}{\@ifnextchar\end{\@chorusend}{\@chorusii}} % chktex 10
\newcommand{\@chorusii}[1]{";

/// The `chorus` command after the format of a line.
pub const CHORUS_TAIL: &'static str = r"{#1}\par\@chorusi}
\newcommand{\@chorusend}[1]{\vskip1em}
";

/// The `bridge` command up to the format of a line.
pub const BRIDGE_HEAD: &'static str = r"
% ====   Bridge   ====
\newcommand{\bridge}{\@bridgei}
\newcommand{\@bridgei}{\@ifnextchar\end{\@bridgeend}{\@bridgeii}} % chktex 10
\newcommand{\@bridgeii}[1]{";

/// The `bridge` command after the format of a line.
pub const BRIDGE_TAIL: &'static str = r"{#1}\par\@bridgei}
\newcommand{\@bridgeend}[1]{\vskip1em}
";

/// The `song` and `psalm` environments and the shorthands for lyrics.
pub const ENVIRONMENTS: &'static str = r"
\makeatother

% ====   Song   ====
\newenvironment{song}[1]%
{%
    \begin{minipage}[t]{0.94\columnwidth}{\stepcounter{songcount}\textbf{\large #1}\index{#1}}%
        \par\vspace{2pt}
}%
{%
    \end{minipage}%
    \vspace{2em}%
}

% ====   Psalm   ====
\newenvironment{psalm}[2]%
{%
    \begin{minipage}[t]{0.94\columnwidth}%
        \begin{center}{\stepcounter{psalmcount}\textbf{\large #1}\index{#1}{\normalsize #2}}%
            \par\vspace{2pt}
}%
{%
        \end{center}%
    \end{minipage}%
    \vspace{2em}%
}%

% ====   Utitilty Commands   ====
\newcommand{\extra}[1]{\textit{\normalsize (#1)}}
\renewcommand{\sp}{\textit{\normalsize (Sing Psalms)}}
\newcommand{\tr}{\textit{\normalsize (Scottish Psalter)}}
\newcommand{\LORD}{\textsc{Lord}}
\newcommand{\cp}[1]{{\tiny\ttfamily#1}}
";

/// The heading over the extra preamble.
pub const EXTRA_HEAD: &'static str = r"
% ====   Rest of Preamble   ====
";

/// The start of the document, up to the cover.
pub const OPENING_HEAD: &'static str = r"
% ====   Document   ====
\begin{document}
\sffamily

\begin{titlepage}
";

/// From the cover to the first song: the page counter, the index and the
/// two columns.
pub const OPENING_TAIL: &'static str = r"
\end{titlepage}

\setcounter{page}{2}  % Make title page, page 1
\printindex
\begin{multicols}{2}
\raggedcolumns{}
";

/// The end of the columns and of the document.
pub const CLOSING: &'static str = r"
\end{multicols}
\end{document}
";

/// A LaTeX package, with the options it is loaded with.
#[derive(Debug, Clone, PartialEq, Eq)]
pub struct Package {
    pub name: String,
    pub opts: Option<Vec<String>>,
}

/// A package as plain sequences of characters.
pub struct PackageView {
    pub name: Seq<char>,
    pub opts: Option<Seq<Seq<char>>>,
}

impl View for Package {
    type V = PackageView;

    open spec fn view(&self) -> PackageView {
        PackageView {
            name: self.name@,
            opts: match self.opts {
                Some(opts) => Some(views(opts@)),
                None => None,
            },
        }
    }
}

impl Default for Package {
    fn default() -> (package: Package)
        ensures
            package@ == (PackageView { name: Seq::empty(), opts: None }),
    {
        Package { name: String::new(), opts: None }
    }
}

/// The views of a sequence of string slices, in order.
pub open spec fn str_views(v: Seq<&str>) -> Seq<Seq<char>> {
    Seq::new(v.len(), |i: int| v[i]@)
}

/// The views of a sequence of packages, in order.
pub open spec fn package_views(v: Seq<Package>) -> Seq<PackageView> {
    Seq::new(v.len(), |i: int| v[i]@)
}

/// The views of a sequence of songs, in order.
pub open spec fn song_views(v: Seq<Song>) -> Seq<SongView> {
    Seq::new(v.len(), |i: int| v[i]@)
}

/// The package that `args` describe: its name first, then its options, if
/// there are any.
pub open spec fn package_of(args: Seq<Seq<char>>) -> PackageView
    recommends
        args.len() > 0,
{
    PackageView {
        name: args[0],
        opts: if args.len() > 1 {
            Some(args.skip(1))
        } else {
            None
        },
    }
}

/// What is said of a package without a name.
pub const NO_PACKAGE_NAME: &'static str =
    "Not enough arguments for package. Expected at least 1, got 0.";

impl Package {
    /// The package that `args` describe: its name, then its options. Without
    /// a name there is no package.
    pub fn try_from(args: &[&str]) -> (r: Result<Package, LaTeXError>)
        ensures
            args@.len() == 0 ==> (r matches Err(e) && e@ == LaTeXErrorView::PackageError(
                NO_PACKAGE_NAME@,
            )),
            args@.len() > 0 ==> (r matches Ok(package) && package@ == package_of(
                str_views(args@),
            )),
    {
        if args.len() == 0 {
            return Err(LaTeXError::PackageError(String::from_str(NO_PACKAGE_NAME)));
        }
        let name = String::from_str(args[0]);
        let mut opts: Vec<String> = Vec::new();
        let mut i: usize = 1;
        while i < args.len()
            invariant
                1 <= i <= args.len(),
                views(opts@) == str_views(args@).subrange(1, i as int),
            decreases args.len() - i,
        {
            let ghost before = views(opts@);
            let opt = String::from_str(args[i]);
            opts.push(opt);
            proof {
                assert(views(opts@) =~= before.push(args@[i as int]@));
                assert(str_views(args@).subrange(1, i + 1) =~= str_views(args@).subrange(
                    1,
                    i as int,
                ).push(args@[i as int]@));
            }
            i = i + 1;
        }
        proof {
            assert(str_views(args@).subrange(1, args.len() as int) =~= str_views(args@).skip(1));
        }
        let opts = if opts.len() > 0 {
            Some(opts)
        } else {
            None
        };
        Ok(Package { name, opts })
    }
}

/// The template of a document and the songs it holds, as plain sequences.
pub struct LaTeXBuilderView {
    pub path: Seq<char>,
    pub doc_class: Seq<char>,
    pub doc_opts: Seq<Seq<char>>,
    pub version: (u8, u8, u8),
    pub packages: Seq<PackageView>,
    pub verse_fmt: Seq<char>,
    pub chorus_fmt: Seq<char>,
    pub bridge_fmt: Seq<char>,
    pub cover: Seq<char>,
    pub preamble_extra: Option<Seq<char>>,
    pub songs: Seq<SongView>,
}

/// The line that loads one package.
pub open spec fn package_line(p: PackageView) -> Seq<char> {
    "\\usepackage"@ + (match p.opts {
        Some(opts) => "["@ + joined(opts, ", "@) + "]"@,
        None => Seq::empty(),
    }) + "{"@ + p.name + "}\n"@
}

/// The lines that load the packages, in their order.
pub open spec fn package_lines(ps: Seq<PackageView>) -> Seq<char>
    decreases ps.len(),
{
    if ps.len() == 0 {
        Seq::empty()
    } else {
        package_lines(ps.drop_last()) + package_line(ps.last())
    }
}

/// The lines of a stanza, each escaped and in braces of its own.
pub open spec fn wrapped_lines(lines: Seq<Seq<char>>) -> Seq<char>
    decreases lines.len(),
{
    if lines.len() == 0 {
        Seq::empty()
    } else {
        wrapped_lines(lines.drop_last()) + "    {"@ + escaped(lines.last()) + "}\n"@
    }
}

/// The line that opens a stanza of the given kind.
pub open spec fn stanza_opening(kind: StanzaType) -> Seq<char> {
    match kind {
        StanzaType::Verse => "    \\verse\n"@,
        StanzaType::Chorus => "    \\chorus\n"@,
        StanzaType::Bridge => "    \\bridge\n"@,
    }
}

/// One stanza: the line that opens it, its lines, and the line that ends it.
pub open spec fn stanza_text(kind: StanzaType, text: Seq<char>) -> Seq<char> {
    stanza_opening(kind) + wrapped_lines(lines_of(text)) + "    \\end\n"@
}

/// What the letter at place `i` of the song's order puts out. A `v` stands
/// for the verse after those that the `v` before it stood for; a `c` or `b`
/// without chorus or bridge, and any other letter, stand for nothing.
pub open spec fn step_text(song: SongView, i: int) -> Seq<char>
    recommends
        0 <= i < song.order.len(),
{
    let letter = song.order[i];
    let cursor = count_char(song.order.take(i), 'v') as int;
    if letter == 'v' {
        if cursor < song.verses.len() {
            stanza_text(StanzaType::Verse, song.verses[cursor])
        } else {
            Seq::empty()
        }
    } else if letter == 'c' {
        match song.chorus {
            Some(chorus) => stanza_text(StanzaType::Chorus, chorus),
            None => Seq::empty(),
        }
    } else if letter == 'b' {
        match song.bridge {
            Some(bridge) => stanza_text(StanzaType::Bridge, bridge),
            None => Seq::empty(),
        }
    } else {
        Seq::empty()
    }
}

/// What the first `n` letters of the song's order put out.
pub open spec fn body_text(song: SongView, n: int) -> Seq<char>
    decreases n,
{
    if n <= 0 {
        Seq::empty()
    } else {
        body_text(song, n - 1) + step_text(song, n - 1)
    }
}

/// The block of one song: a comment with its title, the `song` environment
/// under that title, and its stanzas in the order of performance.
pub open spec fn song_text(song: SongView) -> Seq<char> {
    "\n% ====   "@ + escaped(song.title) + "   ====\n\\begin{song}{"@ + escaped(song.title) + "}\n"@
        + body_text(song, song.order.len() as int) + "\\end{song}\n"@
}

/// The blocks of the songs, in their order.
pub open spec fn songs_text(songs: Seq<SongView>) -> Seq<char>
    decreases songs.len(),
{
    if songs.len() == 0 {
        Seq::empty()
    } else {
        songs_text(songs.drop_last()) + song_text(songs.last())
    }
}

/// Whether the song's order asks for more verses than the song has.
pub open spec fn overruns(song: SongView) -> bool {
    count_char(song.order, 'v') > song.verses.len()
}

/// The place of the first song at or after `from` whose order overruns its
/// verses, or the number of songs where there is none.
pub open spec fn first_overrun(songs: Seq<SongView>, from: int) -> int
    decreases songs.len() - from,
{
    if from < 0 || from >= songs.len() {
        songs.len() as int
    } else if overruns(songs[from]) {
        from
    } else {
        first_overrun(songs, from + 1)
    }
}

impl LaTeXBuilderView {
    /// The document class with its options.
    pub open spec fn class_line(self) -> Seq<char> {
        "\\documentclass["@ + joined(self.doc_opts, ", "@) + "]{"@ + self.doc_class + "}\n"@
    }

    /// The definition of the version mark.
    pub open spec fn version_line(self) -> Seq<char> {
        "\n\\def\\ssver{"@ + decimal(self.version.0 as nat) + "."@ + decimal(self.version.1 as nat)
            + "."@ + decimal(self.version.2 as nat) + "}\n"@
    }

    /// The `verse`, `chorus` and `bridge` commands, each around its format.
    pub open spec fn stanza_commands(self) -> Seq<char> {
        VERSE_HEAD@ + self.verse_fmt + VERSE_TAIL@ + CHORUS_HEAD@ + self.chorus_fmt + CHORUS_TAIL@
            + BRIDGE_HEAD@ + self.bridge_fmt + BRIDGE_TAIL@
    }

    /// The extra preamble under its heading, where there is one.
    pub open spec fn extra_text(self) -> Seq<char> {
        match self.preamble_extra {
            Some(extra) => EXTRA_HEAD@ + extra + "\n"@,
            None => Seq::empty(),
        }
    }

    /// All that stands before the first song.
    pub open spec fn head(self) -> Seq<char> {
        self.class_line() + self.version_line() + "\n% ====   Packages   ====\n"@ + package_lines(
            self.packages,
        ) + SETUP@ + self.stanza_commands() + ENVIRONMENTS@ + self.extra_text() + OPENING_HEAD@
            + self.cover + OPENING_TAIL@
    }

    /// The whole document.
    pub open spec fn document(self) -> Seq<char> {
        self.head() + songs_text(self.songs) + CLOSING@
    }

    /// What rendering gives: the document, unless the order of a song asks
    /// for a verse that the song does not have. The first such song is
    /// reported, with the place of the missing verse and the number of
    /// verses there are, which are the same number.
    pub open spec fn rendered(self) -> Result<Seq<char>, LaTeXErrorView> {
        let at = first_overrun(self.songs, 0);
        if 0 <= at < self.songs.len() {
            Err(
                LaTeXErrorView::VerseOutOfBounds {
                    index: self.songs[at].verses.len(),
                    size: self.songs[at].verses.len(),
                },
            )
        } else {
            Ok(self.document())
        }
    }
}

/// The view of what rendering returned.
pub open spec fn text_view(r: Result<String, LaTeXError>) -> Result<Seq<char>, LaTeXErrorView> {
    match r {
        Ok(text) => Ok(text@),
        Err(e) => Err(e@),
    }
}

/// Appends the line that loads `p`.
fn push_package(out: &mut String, p: &Package)
    ensures
        final(out)@ == old(out)@ + package_line(p@),
{
    out.append("\\usepackage");
    match &p.opts {
        Some(opts) => {
            out.append("[");
            push_joined(out, opts, ", ");
            out.append("]");
        },
        None => {},
    }
    out.append("{");
    out.append(p.name.as_str());
    out.append("}\n");
    proof {
        assert(out@ =~= old(out)@ + package_line(p@));
    }
}

/// Appends one stanza of the given kind.
fn push_stanza(out: &mut String, kind: StanzaType, text: &str)
    ensures
        final(out)@ == old(out)@ + stanza_text(kind, text@),
{
    match kind {
        StanzaType::Verse => out.append("    \\verse\n"),
        StanzaType::Chorus => out.append("    \\chorus\n"),
        StanzaType::Bridge => out.append("    \\bridge\n"),
    }
    let chars = chars_of(text);
    let lines = split_lines(&chars);
    let ghost start = out@;
    let mut i: usize = 0;
    while i < lines.len()
        invariant
            i <= lines.len(),
            out@ == start + wrapped_lines(views(lines@).take(i as int)),
        decreases lines.len() - i,
    {
        proof {
            assert(views(lines@).take(i + 1).drop_last() =~= views(lines@).take(i as int));
            assert(views(lines@).take(i + 1).last() == lines@[i as int]@);
        }
        let line = safe(lines[i].as_str());
        out.append("    {");
        out.append(line.as_str());
        out.append("}\n");
        proof {
            assert(out@ =~= start + wrapped_lines(views(lines@).take(i + 1)));
        }
        i = i + 1;
    }
    out.append("    \\end\n");
    proof {
        assert(views(lines@).take(lines.len() as int) =~= views(lines@));
        assert(out@ =~= old(out)@ + stanza_text(kind, text@));
    }
}

/// Appends the block of `song`, or reports that its order asks for a verse
/// that it does not have.
fn push_song(out: &mut String, song: &Song) -> (r: Result<(), LaTeXError>)
    ensures
        r is Ok <==> !overruns(song@),
        r is Ok ==> final(out)@ == old(out)@ + song_text(song@),
        r matches Err(e) ==> e@ == (LaTeXErrorView::VerseOutOfBounds {
            index: song.verses@.len(),
            size: song.verses@.len(),
        }),
{
    let title = safe(song.title.as_str());
    out.append("\n% ====   ");
    out.append(title.as_str());
    out.append("   ====\n\\begin{song}{");
    out.append(title.as_str());
    out.append("}\n");
    let ghost start = out@;
    proof {
        assert(start =~= old(out)@ + ("\n% ====   "@ + escaped(song@.title)
            + "   ====\n\\begin{song}{"@ + escaped(song@.title) + "}\n"@));
    }
    let order = chars_of(song.order.as_str());
    let mut cur_verse: usize = 0;
    let mut i: usize = 0;
    while i < order.len()
        invariant
            i <= order.len(),
            order@ == song@.order,
            cur_verse == count_char(order@.take(i as int), 'v'),
            cur_verse <= song.verses@.len(),
            out@ == start + body_text(song@, i as int),
        decreases order.len() - i,
    {
        let c = order[i];
        proof {
            assert(order@.take(i + 1).drop_last() =~= order@.take(i as int));
            assert(order@.take(i + 1).last() == c);
        }
        if c == 'v' {
            if cur_verse >= song.verses.len() {
                proof {
                    lemma_count_char_prefix(order@, 'v', i + 1);
                }
                return Err(
                    LaTeXError::VerseOutOfBounds { index: cur_verse, size: song.verses.len() },
                );
            }
            push_stanza(out, StanzaType::Verse, song.verses[cur_verse].as_str());
            cur_verse = cur_verse + 1;
        } else if c == 'c' {
            match &song.chorus {
                Some(chorus) => {
                    push_stanza(out, StanzaType::Chorus, chorus.as_str());
                },
                None => {},
            }
        } else if c == 'b' {
            match &song.bridge {
                Some(bridge) => {
                    push_stanza(out, StanzaType::Bridge, bridge.as_str());
                },
                None => {},
            }
        }
        proof {
            assert(out@ =~= start + body_text(song@, i + 1));
        }
        i = i + 1;
    }
    out.append("\\end{song}\n");
    proof {
        assert(order@.take(order.len() as int) =~= order@);
        assert(out@ =~= old(out)@ + song_text(song@));
    }
    Ok(())
}

/// Where the first overrun is, given that no song before `from` has one.
pub proof fn lemma_first_overrun(songs: Seq<SongView>, from: int)
    requires
        0 <= from <= songs.len(),
    ensures
        from <= first_overrun(songs, from) <= songs.len(),
        forall|j: int| from <= j < first_overrun(songs, from) ==> !overruns(songs[j]),
        first_overrun(songs, from) < songs.len() ==> overruns(songs[first_overrun(songs, from)]),
    decreases songs.len() - from,
{
    if from < songs.len() && !overruns(songs[from]) {
        lemma_first_overrun(songs, from + 1);
    }
}

/// The packages that every document loads.
pub open spec fn default_packages() -> Seq<PackageView> {
    seq![
        PackageView {
            name: "geometry"@,
            opts: Some(seq!["left=1cm"@, "right=1cm"@, "top=1cm"@, "bottom=2cm"@]),
        },
        PackageView { name: "hyperref"@, opts: Some(seq!["hyperindex"@]) },
        PackageView { name: "makeidx"@, opts: None },
        PackageView { name: "pdfpages"@, opts: None },
        PackageView { name: "fancyhdr"@, opts: None },
        PackageView { name: "graphicx"@, opts: None },
        PackageView { name: "adjustbox"@, opts: None },
        PackageView { name: "multicol"@, opts: None },
        PackageView { name: "totcount"@, opts: None },
        PackageView { name: "xcolor"@, opts: None },
    ]
}

/// The template that a configuration starts from: an `article` on A4 in
/// version 1.0.0, the default packages, the cover taken from the configured
/// image, and no song yet.
pub open spec fn default_template(config: &Config) -> LaTeXBuilderView {
    LaTeXBuilderView {
        path: config.name@ + ".tex"@,
        doc_class: "article"@,
        doc_opts: seq!["a4paper"@, "twoside"@, "titlepage"@],
        version: (1u8, 0u8, 0u8),
        packages: default_packages(),
        verse_fmt: Seq::empty(),
        chorus_fmt: "\\quad\\textit"@,
        bridge_fmt: "\\textit"@,
        cover: "\\includepdf{./"@ + config.cover_image@ + "}"@,
        preamble_extra: None,
        songs: Seq::empty(),
    }
}

/// A document that has been rendered: its text, the file it belongs in, and
/// the configuration it is compiled under.
pub struct LaTeX<'a> {
    path: String,
    text: String,
    config: &'a Config,
}

/// A program and what it is called with.
#[derive(Debug, Clone, PartialEq, Eq)]
pub struct Invocation {
    pub program: String,
    pub args: Vec<String>,
}

/// What cleaning up takes: the file to remove first, if any, and the call
/// that follows.
#[derive(Debug, Clone, PartialEq, Eq)]
pub struct Cleanup {
    pub remove: Option<String>,
    pub call: Invocation,
}

/// A document in the making: the template and the songs added so far.
pub struct LaTeXBuilder<'a> {
    path: String,
    doc_class: String,
    doc_opts: Vec<String>,
    version: (u8, u8, u8),
    packages: Vec<Package>,
    verse_fmt: String,
    chorus_fmt: String,
    bridge_fmt: String,
    cover: String,
    preamble_extra: Option<String>,
    songs: Vec<Song>,
    config: &'a Config,
}

impl<'a> View for LaTeXBuilder<'a> {
    type V = LaTeXBuilderView;

    closed spec fn view(&self) -> LaTeXBuilderView {
        LaTeXBuilderView {
            path: self.path@,
            doc_class: self.doc_class@,
            doc_opts: views(self.doc_opts@),
            version: self.version,
            packages: package_views(self.packages@),
            verse_fmt: self.verse_fmt@,
            chorus_fmt: self.chorus_fmt@,
            bridge_fmt: self.bridge_fmt@,
            cover: self.cover@,
            preamble_extra: opt_view(self.preamble_extra),
            songs: song_views(self.songs@),
        }
    }
}

impl<'a> LaTeX<'a> {
    /// The file the document belongs in.
    pub closed spec fn path_text(&self) -> Seq<char> {
        self.path@
    }

    /// The text of the document.
    pub closed spec fn document_text(&self) -> Seq<char> {
        self.text@
    }

    /// The configuration the document is compiled under.
    pub closed spec fn config(&self) -> &'a Config {
        self.config
    }

    /// Starts a document from the default template for `config`.
    pub fn builder_default(config: &'a Config) -> (r: Result<LaTeXBuilder<'a>, LaTeXError>)
        ensures
            r matches Ok(builder) && builder@ == default_template(config) && builder.config()
                == config,
    {
        let mut path = config.name.clone();
        path.append(".tex");
        let mut cover = String::from_str("\\includepdf{./");
        cover.append(config.cover_image.as_str());
        cover.append("}");
        let mut doc_opts: Vec<String> = Vec::new();
        doc_opts.push(String::from_str("a4paper"));
        doc_opts.push(String::from_str("twoside"));
        doc_opts.push(String::from_str("titlepage"));
        let builder = LaTeXBuilder {
            path,
            doc_class: String::from_str("article"),
            doc_opts,
            version: (1, 0, 0),
            packages: Vec::new(),
            verse_fmt: String::new(),
            chorus_fmt: String::from_str("\\quad\\textit"),
            bridge_fmt: String::from_str("\\textit"),
            cover,
            preamble_extra: None,
            songs: Vec::new(),
            config,
        };
        proof {
            assert(views(builder.doc_opts@) =~= seq!["a4paper"@, "twoside"@, "titlepage"@]);
            assert(package_views(builder.packages@) =~= Seq::empty());
            assert(song_views(builder.songs@) =~= Seq::empty());
        }
        let geometry = ["geometry", "left=1cm", "right=1cm", "top=1cm", "bottom=2cm"];
        let hyperref = ["hyperref", "hyperindex"];
        proof {
            assert(str_views(geometry@).skip(1) =~= seq![
                "left=1cm"@,
                "right=1cm"@,
                "top=1cm"@,
                "bottom=2cm"@,
            ]);
            assert(package_of(str_views(geometry@)) == default_packages()[0]);
            assert(str_views(hyperref@).skip(1) =~= seq!["hyperindex"@]);
            assert(package_of(str_views(hyperref@)) == default_packages()[1]);
        }
        let builder = builder.use_package_str(&geometry)?;
        let builder = builder.use_package_str(&hyperref)?;
        let builder = builder.use_package_str(&["makeidx"])?;
        let builder = builder.use_package_str(&["pdfpages"])?;
        let builder = builder.use_package_str(&["fancyhdr"])?;
        let builder = builder.use_package_str(&["graphicx"])?;
        let builder = builder.use_package_str(&["adjustbox"])?;
        let builder = builder.use_package_str(&["multicol"])?;
        let builder = builder.use_package_str(&["totcount"])?;
        let builder = builder.use_package_str(&["xcolor"])?;
        proof {
            assert(builder@.packages =~= default_packages());
        }
        Ok(builder)
    }

    /// The file the document belongs in.
    pub fn path(&self) -> (path: &str)
        ensures
            path@ == self.path_text(),
    {
        self.path.as_str()
    }

    /// The text of the document.
    pub fn text(&self) -> (text: &str)
        ensures
            text@ == self.document_text(),
    {
        self.text.as_str()
    }

    /// The call that compiles the document: the configured program with the
    /// configured arguments, then the file.
    pub fn compile(&self) -> (call: Invocation)
        ensures
            call.program@ == self.config().latex_cmd@,
            views(call.args@) == views(self.config().latex_args@).push(self.path_text()),
    {
        let mut args: Vec<String> = Vec::new();
        let mut i: usize = 0;
        while i < self.config.latex_args.len()
            invariant
                i <= self.config.latex_args.len(),
                views(args@) == views(self.config.latex_args@).take(i as int),
            decreases self.config.latex_args.len() - i,
        {
            let ghost before = views(args@);
            args.push(self.config.latex_args[i].clone());
            proof {
                assert(views(args@) =~= before.push(self.config.latex_args@[i as int]@));
                assert(views(self.config.latex_args@).take(i + 1) =~= before.push(
                    self.config.latex_args@[i as int]@,
                ));
            }
            i = i + 1;
        }
        let ghost copied = views(args@);
        args.push(self.path.clone());
        proof {
            assert(views(self.config.latex_args@).take(i as int) =~= views(
                self.config.latex_args@,
            ));
            assert(views(args@) =~= copied.push(self.path@));
        }
        Invocation { program: self.config.latex_cmd.clone(), args }
    }

    /// What cleaning up takes: the file goes unless the configuration keeps
    /// it, then the configured program is called with `-c`.
    pub fn clean(&self) -> (plan: Cleanup)
        ensures
            opt_view(plan.remove) == (if self.config().keep_tex_file {
                None
            } else {
                Some(self.path_text())
            }),
            plan.call.program@ == self.config().latex_cmd@,
            views(plan.call.args@) == seq!["-c"@],
    {
        let remove = if self.config.keep_tex_file {
            None
        } else {
            Some(self.path.clone())
        };
        let mut args: Vec<String> = Vec::new();
        args.push(String::from_str("-c"));
        proof {
            assert(views(args@) =~= seq!["-c"@]);
        }
        Cleanup { remove, call: Invocation { program: self.config.latex_cmd.clone(), args } }
    }
}

impl<'a> LaTeXBuilder<'a> {
    /// The configuration the document is made under.
    pub closed spec fn config(&self) -> &'a Config {
        self.config
    }

    /// The text of the document, or the song that cannot be rendered.
    pub fn render(&self) -> (r: Result<String, LaTeXError>)
        ensures
            text_view(r) == self@.rendered(),
    {
        let mut out = String::new();
        out.append("\\documentclass[");
        push_joined(&mut out, &self.doc_opts, ", ");
        out.append("]{");
        out.append(self.doc_class.as_str());
        out.append("}\n");
        proof {
            assert(out@ =~= self@.class_line());
        }
        let ghost line = out@;
        out.append("\n\\def\\ssver{");
        push_decimal(&mut out, self.version.0 as u64);
        out.append(".");
        push_decimal(&mut out, self.version.1 as u64);
        out.append(".");
        push_decimal(&mut out, self.version.2 as u64);
        out.append("}\n");
        proof {
            assert(out@ =~= line + self@.version_line());
        }
        out.append("\n% ====   Packages   ====\n");
        let ghost start = out@;
        let mut i: usize = 0;
        while i < self.packages.len()
            invariant
                i <= self.packages.len(),
                out@ == start + package_lines(package_views(self.packages@).take(i as int)),
            decreases self.packages.len() - i,
        {
            proof {
                let upto = package_views(self.packages@).take(i + 1);
                assert(upto.drop_last() =~= package_views(self.packages@).take(i as int));
                assert(upto.last() == self.packages@[i as int]@);
            }
            push_package(&mut out, &self.packages[i]);
            proof {
                assert(out@ =~= start + package_lines(
                    package_views(self.packages@).take(i + 1),
                ));
            }
            i = i + 1;
        }
        proof {
            assert(package_views(self.packages@).take(i as int) =~= package_views(
                self.packages@,
            ));
        }
        let ghost packed = out@;
        out.append(SETUP);
        out.append(VERSE_HEAD);
        out.append(self.verse_fmt.as_str());
        out.append(VERSE_TAIL);
        out.append(CHORUS_HEAD);
        out.append(self.chorus_fmt.as_str());
        out.append(CHORUS_TAIL);
        out.append(BRIDGE_HEAD);
        out.append(self.bridge_fmt.as_str());
        out.append(BRIDGE_TAIL);
        proof {
            assert(out@ =~= packed + SETUP@ + self@.stanza_commands());
        }
        let ghost commands = out@;
        out.append(ENVIRONMENTS);
        match &self.preamble_extra {
            Some(extra) => {
                out.append(EXTRA_HEAD);
                out.append(extra.as_str());
                out.append("\n");
            },
            None => {},
        }
        proof {
            assert(out@ =~= commands + ENVIRONMENTS@ + self@.extra_text());
        }
        out.append(OPENING_HEAD);
        out.append(self.cover.as_str());
        out.append(OPENING_TAIL);
        proof {
            assert(out@ =~= self@.head());
        }
        let mut k: usize = 0;
        while k < self.songs.len()
            invariant
                k <= self.songs.len(),
                out@ == self@.head() + songs_text(song_views(self.songs@).take(k as int)),
                first_overrun(self@.songs, 0) == first_overrun(self@.songs, k as int),
            decreases self.songs.len() - k,
        {
            let ghost before = out@;
            proof {
                let upto = song_views(self.songs@).take(k + 1);
                assert(upto.drop_last() =~= song_views(self.songs@).take(k as int));
                assert(upto.last() == self.songs@[k as int]@);
                assert(self@.songs[k as int] == self.songs@[k as int]@);
            }
            match push_song(&mut out, &self.songs[k]) {
                Ok(()) => {},
                Err(e) => {
                    proof {
                        assert(views(self.songs@[k as int].verses@).len()
                            == self.songs@[k as int].verses@.len());
                    }
                    return Err(e);
                },
            }
            proof {
                assert(out@ =~= self@.head() + songs_text(
                    song_views(self.songs@).take(k + 1),
                ));
            }
            k = k + 1;
        }
        out.append(CLOSING);
        proof {
            assert(song_views(self.songs@).take(k as int) =~= song_views(self.songs@));
            assert(out@ =~= self@.document());
        }
        Ok(out)
    }

    /// Renders the document and hands it out with the file it belongs in.
    /// Nothing is written here: that is left to the caller.
    pub fn write_to_file(self) -> (r: Result<LaTeX<'a>, LaTeXError>)
        ensures
            match r {
                Ok(latex) => self@.rendered() == Ok::<Seq<char>, LaTeXErrorView>(
                    latex.document_text(),
                ) && latex.path_text() == self@.path && latex.config() == self.config(),
                Err(e) => self@.rendered() == Err::<Seq<char>, LaTeXErrorView>(e@),
            },
    {
        match self.render() {
            Ok(text) => Ok(LaTeX { path: self.path, text, config: self.config }),
            Err(e) => Err(e),
        }
    }

    /// Adds `pkg` after the packages there are.
    pub fn use_package(self, pkg: Package) -> (b: LaTeXBuilder<'a>)
        ensures
            b@ == (LaTeXBuilderView { packages: self@.packages.push(pkg@), ..self@ }),
            b.config() == self.config(),
    {
        let mut b = self;
        b.packages.push(pkg);
        proof {
            assert(package_views(b.packages@) =~= package_views(self.packages@).push(pkg@));
        }
        b
    }

    /// Adds the package that `args` describe: its name, then its options.
    /// Without a name nothing is added.
    pub fn use_package_str(self, args: &[&str]) -> (r: Result<LaTeXBuilder<'a>, LaTeXError>)
        ensures
            args@.len() == 0 ==> (r matches Err(e) && e@ == LaTeXErrorView::PackageError(
                NO_PACKAGE_NAME@,
            )),
            args@.len() > 0 ==> (r matches Ok(b) && b@ == (LaTeXBuilderView {
                packages: self@.packages.push(package_of(str_views(args@))),
                ..self@
            }) && b.config() == self.config()),
    {
        match Package::try_from(args) {
            Ok(pkg) => Ok(self.use_package(pkg)),
            Err(e) => Err(e),
        }
    }

    /// Sets the document class.
    pub fn set_doc_class(self, doc_class: String) -> (b: LaTeXBuilder<'a>)
        ensures
            b@ == (LaTeXBuilderView { doc_class: doc_class@, ..self@ }),
            b.config() == self.config(),
    {
        let mut b = self;
        b.doc_class = doc_class;
        b
    }

    /// Sets the options of the document class.
    pub fn set_doc_opts(self, doc_opts: Vec<String>) -> (b: LaTeXBuilder<'a>)
        ensures
            b@ == (LaTeXBuilderView { doc_opts: views(doc_opts@), ..self@ }),
            b.config() == self.config(),
    {
        let mut b = self;
        b.doc_opts = doc_opts;
        b
    }

    /// Sets the version that the footer shows.
    pub fn set_version(self, version: (u8, u8, u8)) -> (b: LaTeXBuilder<'a>)
        ensures
            b@ == (LaTeXBuilderView { version, ..self@ }),
            b.config() == self.config(),
    {
        let mut b = self;
        b.version = version;
        b
    }

    /// Sets what each line of a verse is wrapped in.
    pub fn set_verse_fmt(self, verse_fmt: String) -> (b: LaTeXBuilder<'a>)
        ensures
            b@ == (LaTeXBuilderView { verse_fmt: verse_fmt@, ..self@ }),
            b.config() == self.config(),
    {
        let mut b = self;
        b.verse_fmt = verse_fmt;
        b
    }

    /// Sets what each line of the chorus is wrapped in.
    pub fn set_chorus_fmt(self, chorus_fmt: String) -> (b: LaTeXBuilder<'a>)
        ensures
            b@ == (LaTeXBuilderView { chorus_fmt: chorus_fmt@, ..self@ }),
            b.config() == self.config(),
    {
        let mut b = self;
        b.chorus_fmt = chorus_fmt;
        b
    }

    /// Sets what each line of the bridge is wrapped in.
    pub fn set_bridge_fmt(self, bridge_fmt: String) -> (b: LaTeXBuilder<'a>)
        ensures
            b@ == (LaTeXBuilderView { bridge_fmt: bridge_fmt@, ..self@ }),
            b.config() == self.config(),
    {
        let mut b = self;
        b.bridge_fmt = bridge_fmt;
        b
    }

    /// Sets what stands on the title page.
    pub fn set_cover(self, cover: String) -> (b: LaTeXBuilder<'a>)
        ensures
            b@ == (LaTeXBuilderView { cover: cover@, ..self@ }),
            b.config() == self.config(),
    {
        let mut b = self;
        b.cover = cover;
        b
    }

    /// Sets, or takes away, the text that ends the preamble.
    pub fn set_preamble_extra(self, preamble_extra: Option<String>) -> (b: LaTeXBuilder<'a>)
        ensures
            b@ == (LaTeXBuilderView { preamble_extra: opt_view(preamble_extra), ..self@ }),
            b.config() == self.config(),
    {
        let mut b = self;
        b.preamble_extra = preamble_extra;
        b
    }

    /// Adds `song` after the songs there are.
    pub fn add_song(self, song: Song) -> (b: LaTeXBuilder<'a>)
        ensures
            b@ == (LaTeXBuilderView { songs: self@.songs.push(song@), ..self@ }),
            b.config() == self.config(),
    {
        let mut b = self;
        b.songs.push(song);
        proof {
            assert(song_views(b.songs@) =~= song_views(self.songs@).push(song@));
        }
        b
    }
}

/// A document renders exactly when no song's order asks for more verses
/// than the song has. A song that was built has places for all its verses,
/// so it renders exactly when it has as many `v` as verses.
pub proof fn lemma_renders_iff_no_overrun(t: LaTeXBuilderView)
    ensures
        t.rendered() is Ok <==> (forall|i: int| 0 <= i < t.songs.len() ==> !overruns(t.songs[i])),
        t.rendered() is Ok ==> t.rendered() == Ok::<Seq<char>, LaTeXErrorView>(t.document()),
        forall|i: int|
            0 <= i < t.songs.len() && (#[trigger] t.songs[i]).valid() ==> (!overruns(t.songs[i])
                <==> count_char(t.songs[i].order, 'v') == t.songs[i].verses.len()),
{
    lemma_first_overrun(t.songs, 0);
}

/// Two documents in the making with the same template and the same songs
/// render alike: the text depends on nothing else.
pub proof fn lemma_render_is_determined(a: LaTeXBuilder, b: LaTeXBuilder)
    requires
        a@ == b@,
    ensures
        a@.rendered() == b@.rendered(),
{
}

} // verus!

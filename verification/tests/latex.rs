use song_sheet::config::{
    default_cover_image, default_latex_args, default_latex_cmd, default_name, Config,
};
use song_sheet::error::LaTeXError;
use song_sheet::latex::{LaTeX, LaTeXBuilder, Package};
use song_sheet::parser::ParserType;
use song_sheet::song::Song;

fn config() -> Config {
    Config {
        keep_tex_file: false,
        name: default_name(),
        latex_cmd: default_latex_cmd(),
        latex_args: default_latex_args(),
        cover_image: default_cover_image(),
        chords: false,
        exclude: Vec::new(),
        source: "songs.json".to_string(),
        from: ParserType::VideoPsalm,
    }
}

fn builder(config: &Config) -> LaTeXBuilder<'_> {
    LaTeX::builder_default(config).unwrap()
}

fn strings(items: &[&str]) -> Vec<String> {
    items.iter().map(|s| s.to_string()).collect()
}

const DEFAULT_PACKAGES: &str = r"\usepackage[left=1cm, right=1cm, top=1cm, bottom=2cm]{geometry}
\usepackage[hyperindex]{hyperref}
\usepackage{makeidx}
\usepackage{pdfpages}
\usepackage{fancyhdr}
\usepackage{graphicx}
\usepackage{adjustbox}
\usepackage{multicol}
\usepackage{totcount}
\usepackage{xcolor}
";

/// The document for the given template parts and song blocks.
fn document(
    class_line: &str,
    version: &str,
    packages: &str,
    formats: (&str, &str, &str),
    extra: Option<&str>,
    cover: &str,
    songs: &str,
) -> String {
    let mut lines: Vec<String> = Vec::new();
    let mut put = |s: &str| lines.push(s.to_string());
    put(class_line);
    put("");
    put(&format!("\\def\\ssver{{{}}}", version));
    put("");
    put("% ====   Packages   ====");
    let mut text = lines.join("\n") + "\n" + packages;
    let mut lines: Vec<String> = Vec::new();
    let mut put = |s: &str| lines.push(s.to_string());
    put("");
    put("% ====   Index   ====");
    put("\\makeindex");
    put("");
    put("% ====   Counters   ====");
    put("\\newtotcounter{songcount}");
    put("\\newtotcounter{psalmcount}");
    put("\\definecolor{title dark}{HTML}{7E73A7}");
    put("");
    put("% ====   Footer   ====");
    put("\\pagestyle{fancy}");
    put("\\fancyhf{}");
    put("\\cfoot{{\\small\\thepage} \\\\ v{\\ssver}}");
    put("\\renewcommand{\\headrulewidth}{0pt}");
    put("");
    put("\\makeatletter");
    put("");
    put("% ====   Verse   ====");
    put("\\renewcommand{\\verse}{\\@versei}");
    put("\\newcommand{\\@versei}{\\@ifnextchar\\end{\\@verseend}{\\@verseii}} % chktex 10");
    put(&format!("\\newcommand{{\\@verseii}}[1]{{{}#1\\par\\@versei}}", formats.0));
    put("\\newcommand{\\@verseend}[1]{\\vskip1em}");
    put("");
    put("% ====   Chorus   ====");
    put("\\newcommand{\\chorus}{\\@chorusi}");
    put("\\newcommand{\\@chorusi}{\\@ifnextchar\\end{\\@chorusend}{\\@chorusii}} % chktex 10");
    put(&format!("\\newcommand{{\\@chorusii}}[1]{{{}{{#1}}\\par\\@chorusi}}", formats.1));
    put("\\newcommand{\\@chorusend}[1]{\\vskip1em}");
    put("");
    put("% ====   Bridge   ====");
    put("\\newcommand{\\bridge}{\\@bridgei}");
    put("\\newcommand{\\@bridgei}{\\@ifnextchar\\end{\\@bridgeend}{\\@bridgeii}} % chktex 10");
    put(&format!("\\newcommand{{\\@bridgeii}}[1]{{{}{{#1}}\\par\\@bridgei}}", formats.2));
    put("\\newcommand{\\@bridgeend}[1]{\\vskip1em}");
    put("");
    put("\\makeatother");
    put("");
    put("% ====   Song   ====");
    put("\\newenvironment{song}[1]%");
    put("{%");
    put("    \\begin{minipage}[t]{0.94\\columnwidth}{\\stepcounter{songcount}\\textbf{\\large #1}\\index{#1}}%");
    put("        \\par\\vspace{2pt}");
    put("}%");
    put("{%");
    put("    \\end{minipage}%");
    put("    \\vspace{2em}%");
    put("}");
    put("");
    put("% ====   Psalm   ====");
    put("\\newenvironment{psalm}[2]%");
    put("{%");
    put("    \\begin{minipage}[t]{0.94\\columnwidth}%");
    put("        \\begin{center}{\\stepcounter{psalmcount}\\textbf{\\large #1}\\index{#1}{\\normalsize #2}}%");
    put("            \\par\\vspace{2pt}");
    put("}%");
    put("{%");
    put("        \\end{center}%");
    put("    \\end{minipage}%");
    put("    \\vspace{2em}%");
    put("}%");
    put("");
    put("% ====   Utitilty Commands   ====");
    put("\\newcommand{\\extra}[1]{\\textit{\\normalsize (#1)}}");
    put("\\renewcommand{\\sp}{\\textit{\\normalsize (Sing Psalms)}}");
    put("\\newcommand{\\tr}{\\textit{\\normalsize (Scottish Psalter)}}");
    put("\\newcommand{\\LORD}{\\textsc{Lord}}");
    put("\\newcommand{\\cp}[1]{{\\tiny\\ttfamily#1}}");
    if let Some(extra) = extra {
        put("");
        put("% ====   Rest of Preamble   ====");
        put(extra);
    }
    put("");
    put("% ====   Document   ====");
    put("\\begin{document}");
    put("\\sffamily");
    put("");
    put("\\begin{titlepage}");
    put(cover);
    put("\\end{titlepage}");
    put("");
    put("\\setcounter{page}{2}  % Make title page, page 1");
    put("\\printindex");
    put("\\begin{multicols}{2}");
    put("\\raggedcolumns{}");
    text += &(lines.join("\n") + "\n");
    text += songs;
    text += "\n\\end{multicols}\n\\end{document}\n";
    text
}

fn default_document(songs: &str) -> String {
    document(
        "\\documentclass[a4paper, twoside, titlepage]{article}",
        "1.0.0",
        DEFAULT_PACKAGES,
        ("", "\\quad\\textit", "\\textit"),
        None,
        "\\includepdf{./cover_image.jpg}",
        songs,
    )
}

fn grace() -> Song {
    Song::builder("Amazing Grace")
        .add_verse("Amazing grace, how sweet the sound\nThat saved a wretch like me")
        .set_chorus("Praise & glory")
        .add_verse("'Twas grace that taught\nmy heart to fear")
        .set_order("vcvc")
        .build()
        .unwrap()
}

const GRACE_BLOCK: &str = r"
% ====   Amazing Grace   ====
\begin{song}{Amazing Grace}
    \verse
    {Amazing grace, how sweet the sound}
    {That saved a wretch like me}
    \end
    \chorus
    {Praise \& glory}
    \end
    \verse
    {'Twas grace that taught}
    {my heart to fear}
    \end
    \chorus
    {Praise \& glory}
    \end
\end{song}
";

#[test]
fn package_from_name_and_options() {
    assert_eq!(
        Package::try_from(&["geometry", "left=1cm", "right=1cm"]),
        Ok(Package {
            name: "geometry".to_string(),
            opts: Some(strings(&["left=1cm", "right=1cm"]))
        })
    );
}

#[test]
fn package_from_name_alone_has_no_options() {
    assert_eq!(
        Package::try_from(&["makeidx"]),
        Ok(Package { name: "makeidx".to_string(), opts: None })
    );
}

#[test]
fn package_without_name_is_refused() {
    assert_eq!(
        Package::try_from(&[]),
        Err(LaTeXError::PackageError(
            "Not enough arguments for package. Expected at least 1, got 0.".to_string()
        ))
    );
}

#[test]
fn default_package_is_empty() {
    assert_eq!(Package::default(), Package { name: String::new(), opts: None });
}

#[test]
fn default_document_without_songs() {
    let config = config();
    assert_eq!(builder(&config).render().unwrap(), default_document(""));
}

#[test]
fn document_starts_and_ends_as_expected() {
    let config = config();
    let text = builder(&config).render().unwrap();
    assert!(text.starts_with(
        "\\documentclass[a4paper, twoside, titlepage]{article}\n\n\\def\\ssver{1.0.0}\n\n% ====   Packages   ====\n\\usepackage[left=1cm, right=1cm, top=1cm, bottom=2cm]{geometry}\n"
    ));
    assert!(text.ends_with("\\raggedcolumns{}\n\n\\end{multicols}\n\\end{document}\n"));
}

#[test]
fn song_block() {
    let config = config();
    let text = builder(&config).add_song(grace()).render().unwrap();
    assert_eq!(text, default_document(GRACE_BLOCK));
}

#[test]
fn songs_come_in_the_order_they_were_added() {
    let config = config();
    let second = Song::builder("Second").add_verse("line").set_order("v").build().unwrap();
    let text = builder(&config).add_song(grace()).add_song(second).render().unwrap();
    let block = "\n% ====   Second   ====\n\\begin{song}{Second}\n    \\verse\n    {line}\n    \\end\n\\end{song}\n";
    assert_eq!(text, default_document(&(GRACE_BLOCK.to_string() + block)));
}

#[test]
fn titles_and_lines_are_escaped() {
    let config = config();
    let song = Song::builder("100% & more")
        .add_verse("cost: $5 {each}\n#1 hit")
        .set_order("v")
        .build()
        .unwrap();
    let text = builder(&config).add_song(song).render().unwrap();
    let block = "\n% ====   100\\% \\& more   ====\n\\begin{song}{100\\% \\& more}\n    \\verse\n    {cost: \\$5 \\{each\\}}\n    {\\#1 hit}\n    \\end\n\\end{song}\n";
    assert_eq!(text, default_document(block));
}

#[test]
fn bridge_and_unknown_letters() {
    let config = config();
    let song = Song::builder("B")
        .set_bridge("over\r\nthe bridge")
        .add_verse("v")
        .set_order("bxv?")
        .build()
        .unwrap();
    let text = builder(&config).add_song(song).render().unwrap();
    let block = "\n% ====   B   ====\n\\begin{song}{B}\n    \\bridge\n    {over}\n    {the bridge}\n    \\end\n    \\verse\n    {v}\n    \\end\n\\end{song}\n";
    assert_eq!(text, default_document(block));
}

#[test]
fn chorus_and_bridge_that_are_missing_are_passed_over() {
    let config = config();
    let song = Song {
        title: "Loose".to_string(),
        order: "cvb".to_string(),
        verses: strings(&["only"]),
        chorus: None,
        bridge: None,
    };
    let text = builder(&config).add_song(song).render().unwrap();
    let block =
        "\n% ====   Loose   ====\n\\begin{song}{Loose}\n    \\verse\n    {only}\n    \\end\n\\end{song}\n";
    assert_eq!(text, default_document(block));
}

#[test]
fn empty_stanza_has_no_lines() {
    let config = config();
    let song = Song::builder("E").add_verse("").set_order("v").build().unwrap();
    let text = builder(&config).add_song(song).render().unwrap();
    let block = "\n% ====   E   ====\n\\begin{song}{E}\n    \\verse\n    \\end\n\\end{song}\n";
    assert_eq!(text, default_document(block));
}

#[test]
fn a_place_without_a_verse_fails_the_rendering() {
    let config = config();
    let song = Song::builder("Short")
        .add_verse("one")
        .add_verse("two")
        .add_verse("three")
        .set_order("vvvv")
        .build()
        .unwrap();
    assert_eq!(
        builder(&config).add_song(song).render(),
        Err(LaTeXError::VerseOutOfBounds { index: 3, size: 3 })
    );
}

#[test]
fn the_first_song_that_overruns_is_reported() {
    let config = config();
    let none = Song::builder("None").set_order("cv").set_chorus("c").build().unwrap();
    let one = Song::builder("One").add_verse("a").set_order("vv").build().unwrap();
    assert_eq!(
        builder(&config).add_song(grace()).add_song(none).add_song(one).render(),
        Err(LaTeXError::VerseOutOfBounds { index: 0, size: 0 })
    );
    assert!(builder(&config).add_song(grace()).add_song(grace()).write_to_file().is_ok());
    let one = Song::builder("One").add_verse("a").set_order("vv").build().unwrap();
    assert!(matches!(
        builder(&config).add_song(one).write_to_file(),
        Err(LaTeXError::VerseOutOfBounds { index: 1, size: 1 })
    ));
}

#[test]
fn rendering_twice_gives_the_same_text() {
    let config = config();
    let b = builder(&config).add_song(grace());
    let first = b.render().unwrap();
    let second = b.render().unwrap();
    assert_eq!(first, second);
    let again = builder(&config).add_song(grace()).render().unwrap();
    assert_eq!(first, again);
}

#[test]
fn template_can_be_changed() {
    let config = config();
    let text = builder(&config)
        .set_doc_class("book".to_string())
        .set_doc_opts(strings(&["a5paper"]))
        .set_version((2, 10, 255))
        .set_verse_fmt("\\small".to_string())
        .set_chorus_fmt("\\textbf".to_string())
        .set_bridge_fmt("\\emph".to_string())
        .set_cover("\\maketitle".to_string())
        .set_preamble_extra(Some("\\title{Songs}".to_string()))
        .use_package(Package { name: "babel".to_string(), opts: Some(strings(&["english"])) })
        .use_package_str(&["microtype"])
        .unwrap()
        .render()
        .unwrap();
    let packages =
        DEFAULT_PACKAGES.to_string() + "\\usepackage[english]{babel}\n\\usepackage{microtype}\n";
    assert_eq!(
        text,
        document(
            "\\documentclass[a5paper]{book}",
            "2.10.255",
            &packages,
            ("\\small", "\\textbf", "\\emph"),
            Some("\\title{Songs}"),
            "\\maketitle",
            "",
        )
    );
}

#[test]
fn no_options_and_version_zero() {
    let config = config();
    let text = builder(&config)
        .set_doc_opts(Vec::new())
        .set_version((0, 0, 9))
        .set_preamble_extra(Some("x".to_string()))
        .set_preamble_extra(None)
        .render()
        .unwrap();
    assert_eq!(
        text,
        document(
            "\\documentclass[]{article}",
            "0.0.9",
            DEFAULT_PACKAGES,
            ("", "\\quad\\textit", "\\textit"),
            None,
            "\\includepdf{./cover_image.jpg}",
            "",
        )
    );
}

#[test]
fn package_without_name_is_not_added() {
    let config = config();
    assert!(matches!(
        builder(&config).use_package_str(&[]),
        Err(LaTeXError::PackageError(_))
    ));
}

#[test]
fn cover_and_path_come_from_the_configuration() {
    let mut config = config();
    config.name = "Hymnal".to_string();
    config.cover_image = "front.pdf".to_string();
    let latex = builder(&config).write_to_file().unwrap();
    assert_eq!(latex.path(), "Hymnal.tex");
    assert_eq!(
        latex.text(),
        document(
            "\\documentclass[a4paper, twoside, titlepage]{article}",
            "1.0.0",
            DEFAULT_PACKAGES,
            ("", "\\quad\\textit", "\\textit"),
            None,
            "\\includepdf{./front.pdf}",
            "",
        )
    );
}

#[test]
fn compile_call() {
    let mut config = config();
    config.latex_cmd = "tectonic".to_string();
    config.latex_args = strings(&["-X", "compile"]);
    let latex = builder(&config).write_to_file().unwrap();
    let call = latex.compile();
    assert_eq!(call.program, "tectonic");
    assert_eq!(call.args, vec!["-X", "compile", "SongSheet.tex"]);
}

#[test]
fn default_compile_call() {
    let config = config();
    let latex = builder(&config).write_to_file().unwrap();
    let call = latex.compile();
    assert_eq!(call.program, "latexmk");
    assert_eq!(call.args, vec!["-pdflua", "-interaction=nonstopmode", "SongSheet.tex"]);
}

#[test]
fn cleaning_removes_the_file_unless_it_is_kept() {
    let mut config = config();
    let plan = builder(&config).write_to_file().unwrap().clean();
    assert_eq!(plan.remove, Some("SongSheet.tex".to_string()));
    assert_eq!(plan.call.program, "latexmk");
    assert_eq!(plan.call.args, vec!["-c"]);
    config.keep_tex_file = true;
    let plan = builder(&config).write_to_file().unwrap().clean();
    assert_eq!(plan.remove, None);
    assert_eq!(plan.call.program, "latexmk");
    assert_eq!(plan.call.args, vec!["-c"]);
}

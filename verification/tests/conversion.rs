use txt2ebook::layout::page_path;
use txt2ebook::{
    prepare_book, render_content, run_kindlegen, BookInfo, Config, Conversion, LineKind,
    LineRules, MainChapter, Output, TemplateType,
};

fn config(chapter: &str, subchapter: &str, is_html_p: bool) -> Config {
    Config {
        title: "Novel".to_string(),
        cover: "img/front.png".to_string(),
        author: "Someone".to_string(),
        chapter: chapter.to_string(),
        lang: "en".to_string(),
        subchapter: subchapter.to_string(),
        encoding: "utf-8".to_string(),
        is_html_p,
        file: "book.txt".to_string(),
    }
}

#[test]
fn rules_classify_lines() {
    let rules = LineRules::new(&config("^Chapter \\d+", "^Section", false)).unwrap();
    assert!(rules.uses_subchapters());
    assert_eq!(rules.classify(""), LineKind::Blank);
    assert_eq!(rules.classify("   \t"), LineKind::Blank);
    assert_eq!(rules.classify("Chapter 12 The End"), LineKind::Chapter);
    assert_eq!(rules.classify("Section a"), LineKind::Subchapter);
    assert_eq!(rules.classify("Some text"), LineKind::Text);
}

#[test]
fn rules_without_subchapters() {
    let rules = LineRules::new(&config("^Chapter", "", false)).unwrap();
    assert!(!rules.uses_subchapters());
    assert_eq!(rules.classify("Section a"), LineKind::Text);
    assert_eq!(rules.classify(" "), LineKind::Blank);
}

#[test]
fn rules_refuse_bad_pattern() {
    let err = LineRules::new(&config("(", "", false)).err().unwrap();
    assert_eq!(err.pattern, "(");
    assert!(!err.message.is_empty());
    assert_eq!(err.message, regex::Regex::new("(").unwrap_err().to_string());
    let err = LineRules::new(&config("^Chapter", "[", false)).err().unwrap();
    assert_eq!(err.pattern, "[");
    assert_eq!(err.message, regex::Regex::new("[").unwrap_err().to_string());
}

#[test]
fn line_kind_from_matches() {
    assert_eq!(LineKind::from_matches(true, true, true), LineKind::Blank);
    assert_eq!(LineKind::from_matches(false, true, true), LineKind::Chapter);
    assert_eq!(LineKind::from_matches(false, false, true), LineKind::Subchapter);
    assert_eq!(LineKind::from_matches(false, false, false), LineKind::Text);
}

fn feed(conv: &mut Conversion, rules: &LineRules, line: &str) -> Output {
    let kind = rules.classify(line);
    let out = conv.prepare(kind);
    conv.apply(line.to_string(), kind);
    out
}

#[test]
fn conversion_renders_title_then_chapters() {
    let conf = config("^Chapter", "^Section", false);
    let rules = LineRules::new(&conf).unwrap();
    let mut conv = Conversion::new(&conf);
    let dir = conv.get_dir_name().clone();
    assert_eq!(&dir, conv.get_book().get_uid());

    assert!(matches!(feed(&mut conv, &rules, "A preface"), Output::Nothing));
    assert!(matches!(feed(&mut conv, &rules, "   "), Output::Nothing));
    match feed(&mut conv, &rules, "Chapter 1") {
        Output::TitlePage(job) => {
            assert_eq!(job.template, TemplateType::Title);
            assert_eq!(job.path, format!("{}/OEBPS/Xhtml/title.xhtml", dir));
        }
        other => panic!("unexpected {:?}", other),
    }
    assert_eq!(conv.get_book().get_descripration(), "A preface\n<br/>");
    assert_eq!(conv.get_content().get_id(), 4);
    assert!(conv.get_content().is_empty());
    feed(&mut conv, &rules, "text one");
    feed(&mut conv, &rules, "Section 1.1");
    feed(&mut conv, &rules, "text two");
    assert_eq!(conv.get_content().get_chapter_content(), "text one\n<br/>");
    assert_eq!(conv.get_content().get_subchapters()[0].get_id(), 5);
    match feed(&mut conv, &rules, "Chapter 2") {
        Output::ChapterPage(job) => {
            assert_eq!(job.template, TemplateType::Content);
            assert_eq!(job.path, format!("{}/OEBPS/Xhtml/chap_4.xhtml", dir));
        }
        other => panic!("unexpected {:?}", other),
    }
    assert_eq!(conv.get_content().get_id(), 6);
    let chapters = conv.get_book().get_chapters();
    assert_eq!(chapters.len(), 2);
    assert_eq!(chapters[1].get_chapter().get_id(), 6);
    assert_eq!(chapters[0].get_subchapters()[0].get_title(), "Section 1.1");
    assert!(matches!(conv.pending_output(), Output::Nothing));
    feed(&mut conv, &rules, "last words");
    match conv.pending_output() {
        Output::ChapterPage(job) => assert_eq!(job.path, format!("{}/OEBPS/Xhtml/chap_6.xhtml", dir)),
        other => panic!("unexpected {:?}", other),
    }
    conv.close_chapter();
    assert!(conv.get_content().is_empty());
    assert_eq!(conv.get_content().get_id(), 0);
}

#[test]
fn conversion_paragraph_mode_and_out_dir() {
    let conf = config("^Chapter", "", true);
    let rules = LineRules::new(&conf).unwrap();
    let mut conv = Conversion::new(&conf);
    conv.set_out_dir("books");
    assert_eq!(conv.get_book().get_output_file(), "books/Novel");
    feed(&mut conv, &rules, "Chapter 1");
    feed(&mut conv, &rules, "  spaced line  ");
    assert_eq!(conv.get_content().get_chapter_content(), "<p>spaced line</p>\n<br/>");
}

#[test]
fn page_paths() {
    assert_eq!(page_path("d", TemplateType::Opf, 0), "d/OEBPS/content.opf");
    assert_eq!(page_path("d", TemplateType::Catalog, 0), "d/OEBPS/Xhtml/catalog.xhtml");
    assert_eq!(page_path("d", TemplateType::Ncx, 0), "d/OEBPS/toc.ncx");
    assert_eq!(page_path("d", TemplateType::Cover, 0), "d/OEBPS/Xhtml/cover.xhtml");
    assert_eq!(page_path("d", TemplateType::Title, 0), "d/OEBPS/Xhtml/title.xhtml");
    assert_eq!(page_path("d", TemplateType::Content, 12), "d/OEBPS/Xhtml/chap_12.xhtml");
    assert_ne!(page_path("d", TemplateType::Content, 4), page_path("d", TemplateType::Content, 5));
    let m = MainChapter::new("x".to_string(), 42);
    let job = render_content(&m, &"dir".to_string());
    assert_eq!(job.path, "dir/OEBPS/Xhtml/chap_42.xhtml");
}

#[test]
fn render_title_and_left_jobs() {
    let mut b = BookInfo::new(&config("^C", "", false));
    let job = b.render_title("desc".to_string(), &"d".to_string());
    assert_eq!(b.get_descripration(), "desc");
    assert_eq!(job.template, TemplateType::Title);
    let jobs = b.render_left(&"d".to_string());
    let kinds: Vec<TemplateType> = jobs.iter().map(|j| j.template).collect();
    assert_eq!(kinds, vec![TemplateType::Opf, TemplateType::Catalog, TemplateType::Ncx]);
    assert_eq!(jobs[2].path, "d/OEBPS/toc.ncx");
}

#[test]
fn prepare_book_plan() {
    let b = BookInfo::new(&config("^C", "", false));
    let plan = prepare_book(&"d".to_string(), &b);
    assert_eq!(
        plan.directories,
        vec!["d/META-INF", "d/OEBPS", "d/OEBPS/Xhtml", "d/OEBPS/Styles", "d/OEBPS/Images"]
    );
    assert_eq!(plan.mimetype_path, "d/mimetype");
    assert_eq!(plan.mimetype, "application/epub+zip");
    assert_eq!(plan.assets[0].asset, "container.xml");
    assert_eq!(plan.assets[1].path, "d/OEBPS/Styles/stylesheet.css");
    let copy = plan.cover_copy.unwrap();
    assert_eq!(copy.from, "img/front.png");
    assert_eq!(copy.to, "d/OEBPS/Images/cover.png");
    assert_eq!(plan.cover_page.path, "d/OEBPS/Xhtml/cover.xhtml");
    let mut no_cover = config("^C", "", false);
    no_cover.cover = String::new();
    let plan = prepare_book(&"d".to_string(), &BookInfo::new(&no_cover));
    assert!(plan.cover_copy.is_none());
}

#[test]
fn kindlegen_command() {
    let cmd = run_kindlegen(&"Novel".to_string(), &"out/Novel.epub".to_string(), false);
    assert_eq!(cmd.program, "kindlegen");
    assert_eq!(cmd.args, vec!["-dont_append_source", "-c1", "-o", "Novel.mobi", "out/Novel.epub"]);
    let cmd = run_kindlegen(&"Novel".to_string(), &"x.epub".to_string(), true);
    assert_eq!(cmd.program, "kindlegen.exe");
}

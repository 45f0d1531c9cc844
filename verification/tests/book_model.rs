use std::hash::{Hash, Hasher};

use txt2ebook::text::decimal_string;
use txt2ebook::{
    hash_string, BookInfo, ChapterContent, ChapterInfo, ChapterMeta, Config, MainChapter,
    TemplateType,
};

fn config(title: &str, cover: &str) -> Config {
    Config {
        title: title.to_string(),
        cover: cover.to_string(),
        author: "Someone".to_string(),
        chapter: "^Chapter".to_string(),
        lang: String::new(),
        subchapter: String::new(),
        encoding: "utf-8".to_string(),
        is_html_p: false,
        file: "book.txt".to_string(),
    }
}

#[test]
fn chapter_meta_new_and_setters() {
    let mut m = ChapterMeta::new("One".to_string(), 4);
    assert_eq!(m.get_title(), "One");
    assert_eq!(m.get_id(), 4);
    assert!(!m.get_is_sub_cha());
    assert!(!m.get_has_sub_chap());
    m.set_title("Two".to_string());
    m.set_id(9);
    m.set_has_sub_chap(true);
    assert_eq!(m.get_title(), "Two");
    assert_eq!(m.get_id(), 9);
    assert!(m.get_has_sub_chap());
    assert!(!m.get_is_sub_cha());
    let s = ChapterMeta::new_sub("Part".to_string(), 5);
    assert!(s.get_is_sub_cha());
    assert!(!s.get_has_sub_chap());
}

#[test]
fn chapter_info_add_subchapter_marks_chapter() {
    let mut info = ChapterInfo::new("One".to_string(), 4);
    assert!(!info.get_chapter().get_has_sub_chap());
    assert!(info.get_subchapters().is_empty());
    info.add_subchapter("1.1".to_string(), 5);
    info.add_subchapter("1.2".to_string(), 6);
    assert!(info.get_chapter().get_has_sub_chap());
    assert_eq!(info.get_subchapters().len(), 2);
    assert_eq!(info.get_subchapters()[1].get_title(), "1.2");
    assert_eq!(info.get_subchapters()[1].get_id(), 6);
    assert!(info.get_subchapters()[0].get_is_sub_cha());
}

#[test]
fn content_append_plain_line() {
    let mut c = ChapterContent::new("One".to_string(), 4);
    assert!(c.is_empty());
    c.append(&"  hello ".to_string(), false);
    assert_eq!(c.get_content(), "  hello \n<br/>");
    assert!(!c.is_empty());
}

#[test]
fn content_append_paragraph_trims() {
    let mut c = ChapterContent::new("One".to_string(), 4);
    c.append(&"\u{3000} hello world\t\u{a0}".to_string(), true);
    assert_eq!(c.get_content(), "<p>hello world</p>\n<br/>");
    c.append(&"next".to_string(), true);
    assert_eq!(c.get_content(), "<p>hello world</p>\n<br/><p>next</p>\n<br/>");
}

#[test]
fn content_restore_and_clear() {
    let mut c = ChapterContent::new_subchapter("Sub".to_string(), 7);
    c.append(&"x".to_string(), false);
    c.set_has_sub_chap(true);
    c.restore("New".to_string(), 8);
    assert!(c.is_empty());
    assert_eq!(c.get_id(), 8);
    assert_eq!(c.get_metadata().get_title(), "New");
    assert!(!c.get_metadata().get_has_sub_chap());
    assert!(c.get_is_sub_cha());
    c.append(&"y".to_string(), false);
    c.clear();
    assert!(c.is_empty());
    c.set_title("T".to_string());
    assert_eq!(c.get_metadata().get_title(), "T");
}

#[test]
fn main_chapter_append_goes_to_last_subchapter() {
    let mut m = MainChapter::new("One".to_string(), 4);
    assert!(m.is_empty());
    m.append(&"intro".to_string(), false);
    assert_eq!(m.get_chapter_content(), "intro\n<br/>");
    m.add_subchapter("1.1".to_string(), 5);
    assert!(m.get_data().get_metadata().get_has_sub_chap());
    m.append(&"first".to_string(), false);
    m.add_subchapter("1.2".to_string(), 6);
    m.append(&"second".to_string(), true);
    assert_eq!(m.get_chapter_content(), "intro\n<br/>");
    let subs = m.get_subchapters();
    assert_eq!(subs.len(), 2);
    assert_eq!(subs[0].get_content(), "first\n<br/>");
    assert_eq!(subs[1].get_content(), "<p>second</p>\n<br/>");
    assert_eq!(subs[1].get_id(), 6);
    assert_eq!(m.get_id(), 4);
}

#[test]
fn main_chapter_is_empty_with_subchapter_only() {
    let mut m = MainChapter::new(String::new(), 3);
    m.add_subchapter("s".to_string(), 4);
    assert!(!m.is_empty());
    m.restore("Two".to_string(), 9);
    assert!(m.is_empty());
    assert_eq!(m.get_id(), 9);
    assert!(!m.get_data().get_metadata().get_has_sub_chap());
    assert!(m.get_subchapters().is_empty());
}

#[test]
fn book_new_cover_names() {
    assert_eq!(BookInfo::new(&config("T", "a/b.png")).get_cover(), "cover.png");
    assert_eq!(BookInfo::new(&config("T", "a/b.PNG")).get_cover(), "cover.png");
    assert_eq!(BookInfo::new(&config("T", "a/b.jpeg")).get_cover(), "cover.jpg");
    assert_eq!(BookInfo::new(&config("T", "")).get_cover(), "");
    let b = BookInfo::new(&config("My Book", "c.png"));
    assert_eq!(b.get_title(), "My Book");
    assert_eq!(b.get_cover_source(), "c.png");
    assert_eq!(b.get_author(), "Someone");
    assert_eq!(b.get_descripration(), "");
    assert_eq!(b.get_current_order(), 3);
    assert!(b.is_chapter_empty());
    assert_eq!(b.get_out_dir(), "");
    assert_eq!(b.get_uid(), &hash_string(&"My Book".to_string()));
}

#[test]
fn book_out_dir_and_output_file() {
    let mut b = BookInfo::new(&config("Novel", ""));
    assert_eq!(b.get_output_file(), "Novel");
    b.set_out_dir("");
    assert_eq!(b.get_out_dir(), "");
    b.set_out_dir("out");
    assert_eq!(b.get_out_dir(), "out/");
    assert_eq!(b.get_output_file(), "out/Novel");
    assert_eq!(b.get_epub_file(), "out/Novel.epub");
    b.set_out_dir("dir/");
    assert_eq!(b.get_out_dir(), "dir/");
    b.set_out_dir("");
    assert_eq!(b.get_out_dir(), "dir/");
}

#[test]
fn book_chapter_ids_grow() {
    let mut b = BookInfo::new(&config("Novel", ""));
    b.add_subchapter("before any chapter".to_string());
    assert_eq!(b.get_current_order(), 4);
    assert!(b.is_chapter_empty());
    b.add_chapter("One".to_string());
    b.add_subchapter("1.1".to_string());
    b.add_chapter("Two".to_string());
    assert_eq!(b.get_current_order(), 7);
    let chapters = b.get_chapters();
    assert_eq!(chapters.len(), 2);
    assert_eq!(chapters[0].get_chapter().get_id(), 5);
    assert!(chapters[0].get_chapter().get_has_sub_chap());
    assert_eq!(chapters[0].get_subchapters()[0].get_id(), 6);
    assert_eq!(chapters[1].get_chapter().get_id(), 7);
    assert_eq!(chapters[1].get_chapter().get_title(), "Two");
    b.set_descripration("about".to_string());
    assert_eq!(b.get_descripration(), "about");
}

#[test]
fn hash_string_matches_std_hasher() {
    for s in ["", "My Book", "中文书名", "a\u{3000}b"] {
        let owned = s.to_string();
        let mut hasher = std::collections::hash_map::DefaultHasher::new();
        Hash::hash(&owned, &mut hasher);
        assert_eq!(hash_string(&owned), format!("{}", hasher.finish()));
    }
}

#[test]
fn decimal_string_values() {
    assert_eq!(decimal_string(0), "0");
    assert_eq!(decimal_string(7), "7");
    assert_eq!(decimal_string(10), "10");
    assert_eq!(decimal_string(305), "305");
    assert_eq!(decimal_string(u64::MAX), u64::MAX.to_string());
}

#[test]
fn template_type_names() {
    assert_eq!(TemplateType::Opf.get_file_name(), "content.opf");
    assert_eq!(TemplateType::Catalog.get_file_name(), "catalog.xhtml");
    assert_eq!(TemplateType::Content.get_file_name(), "content.xhtml");
    assert_eq!(TemplateType::Ncx.get_file_name(), "toc.ncx");
    assert_eq!(TemplateType::Cover.get_file_name(), "cover.xhtml");
    assert_eq!(TemplateType::Title.get_file_name(), "title.xhtml");
    for t in TemplateType::values() {
        assert_eq!(t.to_name(), format!("{:?}", t));
    }
    assert_eq!(TemplateType::values().len(), 6);
}

#[test]
fn config_fill_defaults() {
    let mut c = config("T", "");
    c.fill_defaults();
    assert_eq!(c.lang, "en");
    let mut d = config("T", "");
    d.lang = "zh".to_string();
    d.fill_defaults();
    assert_eq!(d.lang, "zh");
}

#[test]
fn book_counter_and_catalog_history() {
    let mut b = BookInfo::new(&config("Novel", ""));
    b.add_subchapter("a".to_string());
    b.add_subchapter("b".to_string());
    b.set_out_dir("x");
    assert!(b.is_chapter_empty());
    assert_eq!(b.get_current_order(), 5);
    b.add_chapter("One".to_string());
    b.set_descripration("d".to_string());
    b.add_subchapter("c".to_string());
    assert!(!b.is_chapter_empty());
    assert_eq!(b.get_current_order(), 7);
    assert_eq!(b.get_title(), "Novel");
    assert_eq!(b.get_uid(), &hash_string(&"Novel".to_string()));
    let info = &b.get_chapters()[0];
    assert!(info.get_chapter().get_id() >= 4);
    assert!(info.get_subchapters()[0].get_id() > info.get_chapter().get_id());
}

#[test]
fn page_kind_survives_every_call() {
    let mut c = ChapterContent::new_subchapter("s".to_string(), 4);
    c.append(&"x".to_string(), true);
    c.clear();
    c.set_title("t".to_string());
    c.restore("r".to_string(), 5);
    c.set_has_sub_chap(true);
    assert!(c.get_is_sub_cha());
    let mut d = ChapterContent::new("c".to_string(), 4);
    d.restore("r".to_string(), 5);
    assert!(!d.get_is_sub_cha());
}

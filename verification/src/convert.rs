//! The conversion of a text, line by line: which page to render when, and
//! how each line changes the book and the chapter being written.
use crate::book::{new_book_spec, out_dir_spec, book_add_chapter, book_add_subchapter, book_wf, page_ids, BookInfo, BookInfoView};
use crate::chapter::{
    chapter_meta, contents_view, main_add_subchapter, main_append, main_restore, ChapterInfoView,
    MainChapter, MainChapterView,
};
use crate::config::Config;
use crate::layout::{lemma_chapter_paths_distinct, page_path_spec, render_content, RenderJob};
use crate::pattern::LineKind;
use crate::template_type::TemplateType;
use crate::text::{decimal_spec, hash_string, string_hash_value};
use vstd::prelude::*;

verus! {

/// A page that has to be rendered before the next line is taken in.
#[derive(Debug)]
pub enum Output {
    /// Nothing to render.
    Nothing,
    /// The title page, from the book (its description is set).
    TitlePage(RenderJob),
    /// The page of the chapter being written, from that chapter.
    ChapterPage(RenderJob),
}

/// The state of a conversion.
pub struct ConversionView {
    pub book: BookInfoView,
    pub content: MainChapterView,
    pub dir_name: Seq<char>,
    pub is_html_p: bool,
}

/// A conversion under way: the book, the chapter being written, the
/// directory the pages go to, and whether lines are set as paragraphs.
pub struct Conversion {
    book: BookInfo,
    content: MainChapter,
    dir_name: String,
    is_html_p: bool,
}

impl View for Conversion {
    type V = ConversionView;

    closed spec fn view(&self) -> ConversionView {
        ConversionView {
            book: self.book@,
            content: self.content@,
            dir_name: self.dir_name@,
            is_html_p: self.is_html_p,
        }
    }
}

/// Whether the chapter being written mirrors the catalog entry `info`:
/// same heading (title, id, sub-chapter mark), and sub-chapter pages with
/// the headings of the entry's sub-chapters, one for one.
pub open spec fn mirrors(info: ChapterInfoView, m: MainChapterView) -> bool {
    &&& info.chapter == m.data.metadata
    &&& info.subchapter.len() == m.subchapter.len()
    &&& forall|k: int| 0 <= k < info.subchapter.len() ==> #[trigger] info.subchapter[k] == m.subchapter[k].metadata
}

/// Whether a conversion is well formed: the book is, the chapter being
/// written is a chapter (not a sub-chapter), and once the catalog has a
/// chapter, the chapter being written mirrors its last entry.
pub open spec fn conversion_wf(c: ConversionView) -> bool {
    &&& book_wf(c.book)
    &&& !c.content.data.metadata.is_sub_cha
    &&& c.book.chapter.len() > 0 ==> mirrors(c.book.chapter.last(), c.content)
}

/// The page to render before a line of kind `kind` is taken in: the title
/// page before the first chapter heading, the page of the chapter being
/// written before any later chapter heading, nothing otherwise.
pub open spec fn output_spec(c: ConversionView, kind: LineKind) -> Option<(TemplateType, Seq<char>)> {
    if kind == LineKind::Chapter {
        if c.book.chapter.len() == 0 {
            Some((TemplateType::Title, page_path_spec(c.dir_name, TemplateType::Title, 0)))
        } else {
            Some(
                (
                    TemplateType::Content,
                    page_path_spec(c.dir_name, TemplateType::Content, c.content.data.metadata.id),
                ),
            )
        }
    } else {
        None
    }
}

/// The conversion `c` once the title page is about to be rendered: the text
/// before the first chapter becomes the description of the book.
pub open spec fn prepare_spec(c: ConversionView, kind: LineKind) -> ConversionView {
    if kind == LineKind::Chapter && c.book.chapter.len() == 0 {
        ConversionView {
            book: BookInfoView { descripration: c.content.data.content, ..c.book },
            ..c
        }
    } else {
        c
    }
}

/// The first chapter heading (the catalog is still empty) always has the
/// title page rendered before it, into `title.xhtml` of the book
/// directory, whether or not any text came before it; that text becomes
/// the book's description.
pub proof fn lemma_first_heading_renders_title(c: ConversionView)
    requires
        c.book.chapter.len() == 0,
    ensures
        output_spec(c, LineKind::Chapter) == Some(
            (TemplateType::Title, c.dir_name + "/OEBPS/Xhtml/title.xhtml"@),
        ),
        prepare_spec(c, LineKind::Chapter).book.descripration == c.content.data.content,
        prepare_spec(c, LineKind::Chapter).content == c.content,
{
}

/// Every later chapter heading (the catalog has a chapter) always has the
/// page of the chapter being written rendered before it, whether or not
/// that chapter has any text: the chapter listed last in the catalog,
/// written to the file named after its id; nothing else changes.
pub proof fn lemma_later_heading_renders_chapter(c: ConversionView)
    requires
        conversion_wf(c),
        c.book.chapter.len() > 0,
    ensures
        output_spec(c, LineKind::Chapter) == Some(
            (
                TemplateType::Content,
                c.dir_name + "/OEBPS/Xhtml/chap_"@ + decimal_spec(c.book.chapter.last().chapter.id as nat)
                    + ".xhtml"@,
            ),
        ),
        prepare_spec(c, LineKind::Chapter) == c,
{
}

/// Only chapter headings render a page: before a blank line, a
/// sub-chapter heading or body text nothing is rendered and nothing
/// changes.
pub proof fn lemma_other_lines_render_nothing(c: ConversionView, kind: LineKind)
    requires
        kind != LineKind::Chapter,
    ensures
        output_spec(c, kind) is None,
        prepare_spec(c, kind) == c,
{
}

/// The conversion `c` once the line `line` of kind `kind` is taken in.
pub open spec fn apply_spec(c: ConversionView, line: Seq<char>, kind: LineKind) -> ConversionView {
    match kind {
        LineKind::Blank => c,
        LineKind::Chapter => ConversionView {
            book: book_add_chapter(c.book, line),
            content: main_restore(c.content, line, (c.book.current_order + 1) as usize),
            ..c
        },
        LineKind::Subchapter => ConversionView {
            book: book_add_subchapter(c.book, line),
            content: main_add_subchapter(c.content, line, (c.book.current_order + 1) as usize),
            ..c
        },
        LineKind::Text => ConversionView { content: main_append(c.content, line, c.is_html_p), ..c },
    }
}

impl Conversion {
    /// A conversion at the start of the text: a book made from the settings,
    /// an empty untitled chapter with id 3, and the hash of the title as the
    /// directory of the pages.
    pub fn new(conf: &Config) -> (res: Conversion)
        ensures
            res@.book == new_book_spec(*conf),
            res@.content == (MainChapterView {
                data: crate::chapter::ChapterContentView { metadata: chapter_meta(seq![], 3), content: seq![] },
                subchapter: seq![],
            }),
            res@.dir_name == decimal_spec(string_hash_value(conf.title@) as nat),
            res@.dir_name == res@.book.uid,
            res@.is_html_p == conf.is_html_p,
            conversion_wf(res@),
    {
        let book = BookInfo::new(conf);
        let dir_name = hash_string(book.get_title());
        Conversion {
            book,
            content: MainChapter::new(String::new(), 3),
            dir_name,
            is_html_p: conf.is_html_p,
        }
    }

    pub fn get_book(&self) -> (res: &BookInfo)
        ensures
            res@ == self@.book,
    {
        &self.book
    }

    pub fn get_content(&self) -> (res: &MainChapter)
        ensures
            res@ == self@.content,
    {
        &self.content
    }

    pub fn get_dir_name(&self) -> (res: &String)
        ensures
            res@ == self@.dir_name,
    {
        &self.dir_name
    }

    /// Sets the output directory of the book (see `BookInfo::set_out_dir`).
    pub fn set_out_dir(&mut self, dir: &str)
        ensures
            final(self)@.content == old(self)@.content,
            final(self)@.dir_name == old(self)@.dir_name,
            final(self)@.is_html_p == old(self)@.is_html_p,
            final(self)@.book == (if dir@.len() == 0 {
                old(self)@.book
            } else {
                BookInfoView { out_dir: out_dir_spec(dir@), ..old(self)@.book }
            }),
            conversion_wf(old(self)@) ==> conversion_wf(final(self)@),
    {
        self.book.set_out_dir(dir);
    }

    /// The page to render before a line of kind `kind` is taken in; for the
    /// title page, the text gathered so far becomes the book's description.
    pub fn prepare(&mut self, kind: LineKind) -> (res: Output)
        ensures
            final(self)@ == prepare_spec(old(self)@, kind),
            match res {
                Output::Nothing => output_spec(old(self)@, kind) is None,
                Output::TitlePage(job) => output_spec(old(self)@, kind) == Some(
                    (job.template, job.path@),
                ) && job.template == TemplateType::Title,
                Output::ChapterPage(job) => output_spec(old(self)@, kind) == Some(
                    (job.template, job.path@),
                ) && job.template == TemplateType::Content,
            },
            conversion_wf(old(self)@) ==> conversion_wf(final(self)@),
    {
        if kind == LineKind::Chapter {
            if self.book.is_chapter_empty() {
                let text = self.content.get_chapter_content();
                let job = self.book.render_title(text, &self.dir_name);
                Output::TitlePage(job)
            } else {
                Output::ChapterPage(render_content(&self.content, &self.dir_name))
            }
        } else {
            Output::Nothing
        }
    }

    /// Takes in the line `line` of kind `kind`: a chapter heading opens a new
    /// chapter in the catalog and starts the chapter being written over, a
    /// sub-chapter heading adds a sub-chapter to both, a text line is
    /// appended, a blank line is skipped.
    pub fn apply(&mut self, line: String, kind: LineKind)
        requires
            kind == LineKind::Chapter || kind == LineKind::Subchapter ==> old(self)@.book.current_order
                < usize::MAX,
        ensures
            final(self)@ == apply_spec(old(self)@, line@, kind),
            conversion_wf(old(self)@) ==> conversion_wf(final(self)@),
    {
        let ghost old_view = self@;
        match kind {
            LineKind::Blank => {},
            LineKind::Chapter => {
                self.book.add_chapter(line.clone());
                let id = self.book.get_current_order();
                self.content.restore(line, id);
                assert(contents_view(seq![]) =~= seq![]);
            },
            LineKind::Subchapter => {
                self.book.add_subchapter(line.clone());
                let id = self.book.get_current_order();
                self.content.add_subchapter(line, id);
                proof {
                    if conversion_wf(old_view) && old_view.book.chapter.len() > 0 {
                        let info = self@.book.chapter.last();
                        let m = self@.content;
                        let old_info = old_view.book.chapter.last();
                        assert forall|k: int| 0 <= k < info.subchapter.len() implies #[trigger] info.subchapter[k]
                            == m.subchapter[k].metadata by {
                            if k < old_info.subchapter.len() {
                                assert(info.subchapter[k] == old_info.subchapter[k]);
                            }
                        }
                    }
                }
            },
            LineKind::Text => {
                self.content.append(&line, self.is_html_p);
                proof {
                    if conversion_wf(old_view) && old_view.book.chapter.len() > 0 {
                        let info = self@.book.chapter.last();
                        let m = self@.content;
                        assert forall|k: int| 0 <= k < info.subchapter.len() implies #[trigger] info.subchapter[k]
                            == m.subchapter[k].metadata by {
                            assert(info.subchapter[k] == old_view.content.subchapter[k].metadata);
                        }
                    }
                }
            },
        }
    }

    /// The page of the chapter being written, to render at the end of the
    /// text, if that chapter has any text or sub-chapters.
    pub fn pending_output(&self) -> (res: Output)
        ensures
            match res {
                Output::Nothing => self@.content.data.content.len() == 0 && self@.content.subchapter.len() == 0,
                Output::ChapterPage(job) => !(self@.content.data.content.len() == 0
                    && self@.content.subchapter.len() == 0) && job.template == TemplateType::Content
                    && job.path@ == page_path_spec(self@.dir_name, TemplateType::Content, self@.content.data.metadata.id),
                Output::TitlePage(_) => false,
            },
    {
        if !self.content.is_empty() {
            Output::ChapterPage(render_content(&self.content, &self.dir_name))
        } else {
            Output::Nothing
        }
    }

    /// Closes the chapter being written once its page is rendered: it starts
    /// over, untitled, with id 0.
    pub fn close_chapter(&mut self)
        ensures
            final(self)@ == (ConversionView { content: main_restore(old(self)@.content, seq![], 0), ..old(self)@ }),
    {
        self.content.restore(String::new(), 0);
    }
}

/// In a well-formed conversion whose catalog has chapters, the page of the
/// chapter being written goes to the file of the catalog's last entry.
pub proof fn lemma_written_chapter_is_last_entry(c: ConversionView)
    requires
        conversion_wf(c),
        c.book.chapter.len() > 0,
    ensures
        c.content.data.metadata.id == c.book.chapter.last().chapter.id,
        c.content.data.metadata.title == c.book.chapter.last().chapter.title,
{
}

/// Taking in a line never removes a chapter from the catalog, and a chapter
/// heading always leaves one there; so the title page, which is rendered
/// only while the catalog is empty, is rendered at most once.
pub proof fn lemma_title_page_at_most_once(c: ConversionView, line: Seq<char>, kind: LineKind)
    ensures
        apply_spec(c, line, kind).book.chapter.len() >= c.book.chapter.len(),
        prepare_spec(c, kind).book.chapter == c.book.chapter,
        kind == LineKind::Chapter ==> apply_spec(c, line, kind).book.chapter.len() > 0,
        kind == LineKind::Chapter ==> forall|k: LineKind|
            !(#[trigger] output_spec(apply_spec(c, line, kind), k) matches Some((TemplateType::Title, _))),
{
}

/// In a well-formed book, different pages of the catalog are written to
/// different files.
pub proof fn lemma_catalog_pages_distinct(b: BookInfoView, dir: Seq<char>, i: int, j: int)
    requires
        book_wf(b),
        0 <= i < page_ids(b.chapter).len(),
        0 <= j < page_ids(b.chapter).len(),
        i != j,
    ensures
        page_path_spec(dir, TemplateType::Content, page_ids(b.chapter)[i]) != page_path_spec(
            dir,
            TemplateType::Content,
            page_ids(b.chapter)[j],
        ),
{
    if i < j {
        lemma_chapter_paths_distinct(dir, page_ids(b.chapter)[i], page_ids(b.chapter)[j]);
    } else {
        lemma_chapter_paths_distinct(dir, page_ids(b.chapter)[j], page_ids(b.chapter)[i]);
    }
}

} // verus!

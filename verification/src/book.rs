//! The book: its metadata and its catalog of chapters.
use crate::chapter::{
    chapter_meta, info_add_subchapter, ChapterInfo, ChapterInfoView, ChapterMetaView,
};
use crate::config::Config;
use crate::layout::{page_path_spec, render_job, RenderJob};
use crate::template_type::TemplateType;
use crate::text::{decimal_spec, has_suffix, hash_string, str_ends_with, string_hash_value};
use vstd::prelude::*;

verus! {

/// What a book records.
pub struct BookInfoView {
    pub title: Seq<char>,
    pub cover: Seq<char>,
    pub cover_source: Seq<char>,
    pub author: Seq<char>,
    pub descripration: Seq<char>,
    pub chapter: Seq<ChapterInfoView>,
    pub current_order: usize,
    pub uid: Seq<char>,
    pub out_dir: Seq<char>,
}

/// The book: metadata, the catalog of chapters, and the id of the last page
/// numbered so far.
#[derive(Debug)]
pub struct BookInfo {
    title: String,
    cover: String,
    cover_source: String,
    author: String,
    descripration: String,
    chapter: Vec<ChapterInfo>,
    current_order: usize,
    uid: String,
    out_dir: String,
}

/// The catalog entries of a sequence of entries.
pub open spec fn infos_view(v: Seq<ChapterInfo>) -> Seq<ChapterInfoView> {
    v.map_values(|c: ChapterInfo| c@)
}

impl View for BookInfo {
    type V = BookInfoView;

    closed spec fn view(&self) -> BookInfoView {
        BookInfoView {
            title: self.title@,
            cover: self.cover@,
            cover_source: self.cover_source@,
            author: self.author@,
            descripration: self.descripration@,
            chapter: infos_view(self.chapter@),
            current_order: self.current_order,
            uid: self.uid@,
            out_dir: self.out_dir@,
        }
    }
}

/// The file name the cover image gets inside the book: `cover.png` for a
/// `.png` (or `.PNG`) image, `cover.jpg` for any other, nothing without one.
pub open spec fn cover_file_spec(cover: Seq<char>) -> Seq<char> {
    if has_suffix(cover, ".png"@) || has_suffix(cover, ".PNG"@) {
        "cover.png"@
    } else if cover.len() > 0 {
        "cover.jpg"@
    } else {
        seq![]
    }
}

/// The book made from the settings `conf`: title, author and cover from
/// the settings, no chapters, the hash of the title as identifier, and page
/// ids starting after 3.
pub open spec fn new_book_spec(conf: Config) -> BookInfoView {
    BookInfoView {
        title: conf.title@,
        cover: cover_file_spec(conf.cover@),
        cover_source: conf.cover@,
        author: conf.author@,
        descripration: seq![],
        chapter: seq![],
        current_order: 3,
        uid: decimal_spec(string_hash_value(conf.title@) as nat),
        out_dir: seq![],
    }
}

/// A new book names its cover `cover.png` exactly when the cover image's
/// path ends in `.png` or `.PNG`, `cover.jpg` when the path is any other
/// non-empty one, and gives it no name when there is no cover image; the
/// path itself is kept as the cover's source.
pub proof fn lemma_cover_file_name(conf: Config)
    ensures
        new_book_spec(conf).cover == "cover.png"@ <==> (conf.cover@.len() >= 4 && (conf.cover@.subrange(
            conf.cover@.len() - 4,
            conf.cover@.len() as int,
        ) == ".png"@ || conf.cover@.subrange(conf.cover@.len() - 4, conf.cover@.len() as int)
            == ".PNG"@)),
        new_book_spec(conf).cover == "cover.jpg"@ <==> (conf.cover@.len() > 0 && new_book_spec(conf).cover
            != "cover.png"@),
        new_book_spec(conf).cover.len() == 0 <==> conf.cover@.len() == 0,
        new_book_spec(conf).cover_source == conf.cover@,
{
    reveal_strlit("cover.png");
    reveal_strlit("cover.jpg");
    reveal_strlit(".png");
    reveal_strlit(".PNG");
    assert("cover.png"@[6] != "cover.jpg"@[6]);
    assert("cover.png"@.len() == 9 && "cover.jpg"@.len() == 9);
    assert(".png"@.len() == 4 && ".PNG"@.len() == 4);
    let c = conf.cover@;
    if c.len() >= 4 {
        assert(has_suffix(c, ".png"@) == (c.subrange(c.len() - 4, c.len() as int) == ".png"@));
        assert(has_suffix(c, ".PNG"@) == (c.subrange(c.len() - 4, c.len() as int) == ".PNG"@));
    } else {
        assert(!has_suffix(c, ".png"@));
        assert(!has_suffix(c, ".PNG"@));
    }
}

/// The output directory `dir` as the book keeps it: with a `/` at its end.
pub open spec fn out_dir_spec(dir: Seq<char>) -> Seq<char> {
    if has_suffix(dir, "/"@) {
        dir
    } else {
        dir + "/"@
    }
}

/// The output directory a book keeps ends with `/`, so the book file lands
/// inside it; setting it again to what it is changes nothing.
pub proof fn lemma_out_dir_ends_with_slash(dir: Seq<char>)
    ensures
        has_suffix(out_dir_spec(dir), "/"@),
        out_dir_spec(out_dir_spec(dir)) == out_dir_spec(dir),
{
    reveal_strlit("/");
    let d = out_dir_spec(dir);
    if !has_suffix(dir, "/"@) {
        assert(d.subrange(d.len() - 1, d.len() as int) =~= "/"@);
    }
}

/// The ids of the pages of a catalog entry: the chapter, then its sub-chapters.
pub open spec fn info_ids(c: ChapterInfoView) -> Seq<usize> {
    seq![c.chapter.id] + c.subchapter.map_values(|m: ChapterMetaView| m.id)
}

/// The ids of the pages of a catalog, in reading order.
pub open spec fn page_ids(chapters: Seq<ChapterInfoView>) -> Seq<usize>
    decreases chapters.len(),
{
    if chapters.len() == 0 {
        seq![]
    } else {
        page_ids(chapters.drop_last()) + info_ids(chapters.last())
    }
}

/// Whether a catalog entry is well formed: a chapter heading, sub-chapter
/// headings without sub-chapters of their own, and the chapter marked as
/// having sub-chapters exactly when it has some, every sub-chapter with an
/// id above the chapter's.
pub open spec fn info_wf(c: ChapterInfoView) -> bool {
    &&& !c.chapter.is_sub_cha
    &&& c.chapter.has_sub_chap == (c.subchapter.len() > 0)
    &&& forall|k: int|
        0 <= k < c.subchapter.len() ==> (#[trigger] c.subchapter[k]).is_sub_cha
            && !c.subchapter[k].has_sub_chap && c.chapter.id < c.subchapter[k].id
}

/// Whether the book is well formed: the last id numbered is at least 3,
/// every catalog entry is well formed, the page ids grow strictly in
/// reading order (so no two pages share one), and every page id lies
/// between 4 and the last id numbered.
pub open spec fn book_wf(b: BookInfoView) -> bool {
    &&& b.current_order >= 3
    &&& forall|i: int| 0 <= i < b.chapter.len() ==> info_wf(#[trigger] b.chapter[i])
    &&& forall|i: int, j: int|
        0 <= i < j < page_ids(b.chapter).len() ==> page_ids(b.chapter)[i] < page_ids(b.chapter)[j]
    &&& forall|i: int|
        0 <= i < page_ids(b.chapter).len() ==> 4 <= #[trigger] page_ids(b.chapter)[i] <= b.current_order
}

/// The book `b` once a chapter with the given title is added: the next id
/// is taken and the chapter is added to the catalog under it.
pub open spec fn book_add_chapter(b: BookInfoView, title: Seq<char>) -> BookInfoView {
    BookInfoView {
        current_order: (b.current_order + 1) as usize,
        chapter: b.chapter.push(
            ChapterInfoView { chapter: chapter_meta(title, (b.current_order + 1) as usize), subchapter: seq![] },
        ),
        ..b
    }
}

/// The book `b` once a sub-chapter with the given title is added: the next
/// id is taken and, if the catalog has a chapter, the sub-chapter is added
/// to the last one under that id.
pub open spec fn book_add_subchapter(b: BookInfoView, title: Seq<char>) -> BookInfoView {
    let id = (b.current_order + 1) as usize;
    BookInfoView {
        current_order: id,
        chapter: if b.chapter.len() > 0 {
            b.chapter.update(b.chapter.len() - 1, info_add_subchapter(b.chapter.last(), title, id))
        } else {
            b.chapter
        },
        ..b
    }
}

/// The ids of a catalog that ends with `c` are those before it, then those of `c`.
proof fn lemma_page_ids_last(chapters: Seq<ChapterInfoView>, c: ChapterInfoView)
    ensures
        page_ids(chapters.push(c)) == page_ids(chapters) + info_ids(c),
{
    assert(chapters.push(c).drop_last() =~= chapters);
}

/// Adding a sub-chapter to the last entry adds its id at the end of the page ids.
proof fn lemma_page_ids_add_subchapter(chapters: Seq<ChapterInfoView>, title: Seq<char>, id: usize)
    requires
        chapters.len() > 0,
    ensures
        page_ids(chapters.update(chapters.len() - 1, info_add_subchapter(chapters.last(), title, id)))
            == page_ids(chapters).push(id),
{
    let n = chapters.len();
    let c2 = info_add_subchapter(chapters.last(), title, id);
    let updated = chapters.update(n - 1, c2);
    assert(updated.drop_last() =~= chapters.drop_last());
    assert(updated.last() == c2);
    assert(info_ids(c2) =~= info_ids(chapters.last()).push(id));
}

/// Adding a page id above every id of a well-formed book keeps the ids strictly growing.
proof fn lemma_push_id_keeps_order(ids: Seq<usize>, id: usize, bound: usize)
    requires
        forall|i: int, j: int| 0 <= i < j < ids.len() ==> ids[i] < ids[j],
        forall|i: int| 0 <= i < ids.len() ==> 4 <= #[trigger] ids[i] <= bound,
        bound < id,
        4 <= id,
    ensures
        forall|i: int, j: int| 0 <= i < j < ids.push(id).len() ==> ids.push(id)[i] < ids.push(id)[j],
        forall|i: int| 0 <= i < ids.push(id).len() ==> 4 <= #[trigger] ids.push(id)[i] <= id,
{
    assert forall|i: int, j: int| 0 <= i < j < ids.push(id).len() implies ids.push(id)[i] < ids.push(id)[j] by {
        if j == ids.len() {
            assert(ids[i] <= bound);
        }
    }
}

/// Adding a chapter keeps a book well formed.
pub proof fn lemma_add_chapter_wf(b: BookInfoView, title: Seq<char>)
    requires
        book_wf(b),
        b.current_order < usize::MAX,
    ensures
        book_wf(book_add_chapter(b, title)),
{
    let id = (b.current_order + 1) as usize;
    let new_info = ChapterInfoView { chapter: chapter_meta(title, id), subchapter: seq![] };
    let nb = book_add_chapter(b, title);
    lemma_page_ids_last(b.chapter, new_info);
    assert(info_ids(new_info) =~= seq![id]);
    lemma_push_id_keeps_order(page_ids(b.chapter), id, b.current_order);
    assert(page_ids(nb.chapter) =~= page_ids(b.chapter).push(id));
    assert forall|i: int| 0 <= i < nb.chapter.len() implies info_wf(#[trigger] nb.chapter[i]) by {
        if i < b.chapter.len() {
            assert(nb.chapter[i] == b.chapter[i]);
        }
    }
}

/// The id of the last chapter of a well-formed book is at most the last id
/// numbered.
proof fn lemma_last_chapter_id_bounded(b: BookInfoView)
    requires
        book_wf(b),
        b.chapter.len() > 0,
    ensures
        b.chapter.last().chapter.id <= b.current_order,
{
    let k = page_ids(b.chapter.drop_last()).len();
    assert(page_ids(b.chapter) == page_ids(b.chapter.drop_last()) + info_ids(b.chapter.last()));
    assert(page_ids(b.chapter)[k as int] == info_ids(b.chapter.last())[0]);
}

/// Adding a sub-chapter keeps a book well formed.
pub proof fn lemma_add_subchapter_wf(b: BookInfoView, title: Seq<char>)
    requires
        book_wf(b),
        b.current_order < usize::MAX,
    ensures
        book_wf(book_add_subchapter(b, title)),
{
    let id = (b.current_order + 1) as usize;
    let nb = book_add_subchapter(b, title);
    if b.chapter.len() > 0 {
        lemma_last_chapter_id_bounded(b);
        lemma_page_ids_add_subchapter(b.chapter, title, id);
        lemma_push_id_keeps_order(page_ids(b.chapter), id, b.current_order);
        assert forall|i: int| 0 <= i < nb.chapter.len() implies info_wf(#[trigger] nb.chapter[i]) by {
            if i < b.chapter.len() - 1 {
                assert(nb.chapter[i] == b.chapter[i]);
            } else {
                assert(info_wf(b.chapter[i]));
                let c2 = nb.chapter[i];
                assert forall|k: int| 0 <= k < c2.subchapter.len() implies (
                #[trigger] c2.subchapter[k]).is_sub_cha && !c2.subchapter[k].has_sub_chap
                    && c2.chapter.id < c2.subchapter[k].id by {
                    if k < c2.subchapter.len() - 1 {
                        assert(c2.subchapter[k] == b.chapter[i].subchapter[k]);
                    }
                }
            }
        }
    } else {
        assert(nb.chapter =~= b.chapter);
    }
}

/// A call that changes a book.
pub enum BookOp {
    /// `add_chapter` with this title.
    AddChapter(Seq<char>),
    /// `add_subchapter` with this title.
    AddSubchapter(Seq<char>),
    /// `set_out_dir` with this directory.
    SetOutDir(Seq<char>),
    /// `set_descripration` (or `render_title`) with this description.
    SetDescripration(Seq<char>),
}

/// The book `b` once the call `op` is made.
pub open spec fn book_op_spec(b: BookInfoView, op: BookOp) -> BookInfoView {
    match op {
        BookOp::AddChapter(title) => book_add_chapter(b, title),
        BookOp::AddSubchapter(title) => book_add_subchapter(b, title),
        BookOp::SetOutDir(dir) => if dir.len() == 0 {
            b
        } else {
            BookInfoView { out_dir: out_dir_spec(dir), ..b }
        },
        BookOp::SetDescripration(d) => BookInfoView { descripration: d, ..b },
    }
}

/// The book `b` once the calls `ops` are made, in order.
pub open spec fn run_book_ops(b: BookInfoView, ops: Seq<BookOp>) -> BookInfoView
    decreases ops.len(),
{
    if ops.len() == 0 {
        b
    } else {
        book_op_spec(run_book_ops(b, ops.drop_last()), ops.last())
    }
}

/// How many of the calls `ops` add a chapter or a sub-chapter.
pub open spec fn count_adds(ops: Seq<BookOp>) -> nat
    decreases ops.len(),
{
    if ops.len() == 0 {
        0
    } else {
        count_adds(ops.drop_last()) + (if ops.last() is AddChapter || ops.last() is AddSubchapter {
            1nat
        } else {
            0nat
        })
    }
}

/// Whether one of the calls `ops` adds a chapter.
pub open spec fn has_add_chapter(ops: Seq<BookOp>) -> bool
    decreases ops.len(),
{
    ops.len() > 0 && (ops.last() is AddChapter || has_add_chapter(ops.drop_last()))
}

/// The history of a book made from the settings `conf` and then changed by
/// the calls `ops` (with no overflow of the id counter): it stays well
/// formed (page ids distinct, growing in reading order, between 4 and the
/// counter, each sub-chapter after its chapter); the counter is 3 plus the
/// number of chapters and sub-chapters added; the catalog is empty exactly
/// when no chapter was added (sub-chapters alone never fill it); and the
/// title and identifier stay those the settings gave.
pub proof fn lemma_book_history(conf: Config, ops: Seq<BookOp>)
    requires
        3 + count_adds(ops) <= usize::MAX,
    ensures
        book_wf(run_book_ops(new_book_spec(conf), ops)),
        run_book_ops(new_book_spec(conf), ops).current_order == 3 + count_adds(ops),
        run_book_ops(new_book_spec(conf), ops).chapter.len() == 0 <==> !has_add_chapter(ops),
        run_book_ops(new_book_spec(conf), ops).title == conf.title@,
        run_book_ops(new_book_spec(conf), ops).uid == decimal_spec(string_hash_value(conf.title@) as nat),
    decreases ops.len(),
{
    let b0 = new_book_spec(conf);
    if ops.len() == 0 {
        assert(page_ids(b0.chapter) =~= seq![]);
    } else {
        let prev = ops.drop_last();
        assert(count_adds(prev) <= count_adds(ops));
        lemma_book_history(conf, prev);
        let pb = run_book_ops(b0, prev);
        match ops.last() {
            BookOp::AddChapter(t) => {
                lemma_add_chapter_wf(pb, t);
            },
            BookOp::AddSubchapter(t) => {
                lemma_add_subchapter_wf(pb, t);
            },
            BookOp::SetOutDir(d) => {},
            BookOp::SetDescripration(d) => {},
        }
    }
}

impl BookInfo {
    /// A book without chapters, made from the settings: title, author,
    /// cover, and the hash of the title as its identifier. Page ids start
    /// after 3.
    pub fn new(conf: &Config) -> (res: Self)
        ensures
            res@ == new_book_spec(*conf),
            book_wf(res@),
    {
        let cover = if str_ends_with(conf.cover.as_str(), ".png") || str_ends_with(
            conf.cover.as_str(),
            ".PNG",
        ) {
            String::from_str("cover.png")
        } else if !conf.cover.as_str().is_empty() {
            String::from_str("cover.jpg")
        } else {
            String::new()
        };
        let res = Self {
            title: conf.title.clone(),
            cover: cover,
            cover_source: conf.cover.clone(),
            author: conf.author.clone(),
            descripration: String::new(),
            chapter: Vec::new(),
            current_order: 3,
            uid: hash_string(&conf.title),
            out_dir: String::new(),
        };
        assert(infos_view(res.chapter@) =~= seq![]);
        res
    }

    /// The path of the book file, without its extension: the output
    /// directory followed by the title.
    pub fn get_output_file(&self) -> (res: String)
        ensures
            res@ == self@.out_dir + self@.title,
    {
        let mut res = self.out_dir.clone();
        res.append(self.title.as_str());
        res
    }

    /// The name of the EPUB archive: the output file with `.epub` added.
    pub fn get_epub_file(&self) -> (res: String)
        ensures
            res@ == self@.out_dir + self@.title + ".epub"@,
    {
        let mut res = self.get_output_file();
        res.append(".epub");
        res
    }

    pub fn get_out_dir(&self) -> (res: &String)
        ensures
            res@ == self@.out_dir,
    {
        &self.out_dir
    }

    /// Sets the output directory, with a `/` added at its end if it has
    /// none; an empty `dir` leaves the book as it is.
    pub fn set_out_dir(&mut self, dir: &str)
        ensures
            final(self)@ == (if dir@.len() == 0 {
                old(self)@
            } else {
                BookInfoView { out_dir: out_dir_spec(dir@), ..old(self)@ }
            }),
            final(self)@ == book_op_spec(old(self)@, BookOp::SetOutDir(dir@)),
    {
        if dir.is_empty() {
            return ;
        }
        self.out_dir = String::from_str(dir);
        if !str_ends_with(self.out_dir.as_str(), "/") {
            self.out_dir.append("/");
        }
    }

    pub fn get_title(&self) -> (res: &String)
        ensures
            res@ == self@.title,
    {
        &self.title
    }

    pub fn get_uid(&self) -> (res: &String)
        ensures
            res@ == self@.uid,
    {
        &self.uid
    }

    /// Sets the description (the text before the first chapter) and gives
    /// the job that renders the title page into `dir_name`.
    pub fn render_title(&mut self, descripration: String, dir_name: &String) -> (res: RenderJob)
        ensures
            final(self)@ == (BookInfoView { descripration: descripration@, ..old(self)@ }),
            final(self)@ == book_op_spec(old(self)@, BookOp::SetDescripration(descripration@)),
            res.template == TemplateType::Title,
            res.path@ == page_path_spec(dir_name@, TemplateType::Title, 0),
    {
        self.descripration = descripration;
        render_job(dir_name.as_str(), TemplateType::Title, 0)
    }

    /// The jobs that render the package document, the catalog page and the
    /// navigation file into `dir_name`, in that order.
    pub fn render_left(&self, dir_name: &String) -> (res: Vec<RenderJob>)
        ensures
            res@.len() == 3,
            res@[0].template == TemplateType::Opf,
            res@[0].path@ == page_path_spec(dir_name@, TemplateType::Opf, 0),
            res@[1].template == TemplateType::Catalog,
            res@[1].path@ == page_path_spec(dir_name@, TemplateType::Catalog, 0),
            res@[2].template == TemplateType::Ncx,
            res@[2].path@ == page_path_spec(dir_name@, TemplateType::Ncx, 0),
    {
        let mut res = Vec::new();
        res.push(render_job(dir_name.as_str(), TemplateType::Opf, 0));
        res.push(render_job(dir_name.as_str(), TemplateType::Catalog, 0));
        res.push(render_job(dir_name.as_str(), TemplateType::Ncx, 0));
        res
    }

    pub fn get_cover(&self) -> (res: &String)
        ensures
            res@ == self@.cover,
    {
        &self.cover
    }

    pub fn get_cover_source(&self) -> (res: &String)
        ensures
            res@ == self@.cover_source,
    {
        &self.cover_source
    }

    pub fn get_author(&self) -> (res: &String)
        ensures
            res@ == self@.author,
    {
        &self.author
    }

    pub fn get_descripration(&self) -> (res: &String)
        ensures
            res@ == self@.descripration,
    {
        &self.descripration
    }

    pub fn get_chapters(&self) -> (res: &Vec<ChapterInfo>)
        ensures
            infos_view(res@) == self@.chapter,
    {
        &self.chapter
    }

    pub fn is_chapter_empty(&self) -> (res: bool)
        ensures
            res == (self@.chapter.len() == 0),
    {
        self.chapter.len() == 0
    }

    /// Takes the next id and adds a chapter with the given title under it.
    pub fn add_chapter(&mut self, title: String)
        requires
            old(self)@.current_order < usize::MAX,
        ensures
            final(self)@ == book_add_chapter(old(self)@, title@),
            final(self)@ == book_op_spec(old(self)@, BookOp::AddChapter(title@)),
            book_wf(old(self)@) ==> book_wf(final(self)@),
    {
        self.current_order = self.current_order + 1;
        self.chapter.push(ChapterInfo::new(title, self.current_order));
        let ghost old_view = old(self)@;
        let ghost new_info = ChapterInfoView {
            chapter: chapter_meta(title@, self.current_order),
            subchapter: seq![],
        };
        assert(infos_view(self.chapter@) =~= old_view.chapter.push(new_info));
        proof {
            if book_wf(old_view) {
                lemma_add_chapter_wf(old_view, title@);
            }
        }
    }

    /// Takes the next id and, if the book has a chapter, adds a sub-chapter
    /// with the given title to the last one under that id.
    pub fn add_subchapter(&mut self, title: String)
        requires
            old(self)@.current_order < usize::MAX,
        ensures
            final(self)@ == book_add_subchapter(old(self)@, title@),
            final(self)@ == book_op_spec(old(self)@, BookOp::AddSubchapter(title@)),
            book_wf(old(self)@) ==> book_wf(final(self)@),
    {
        self.current_order = self.current_order + 1;
        let ghost old_view = old(self)@;
        let ghost id = self.current_order;
        match self.chapter.pop() {
            Some(mut last) => {
                let ghost last_view = last@;
                last.add_subchapter(title, self.current_order);
                self.chapter.push(last);
                assert(infos_view(self.chapter@) =~= old_view.chapter.update(
                    old_view.chapter.len() - 1,
                    info_add_subchapter(last_view, title@, id),
                ));
            },
            None => {
                assert(infos_view(self.chapter@) =~= old_view.chapter);
            },
        }
        proof {
            if book_wf(old_view) {
                lemma_add_subchapter_wf(old_view, title@);
            }
        }
    }

    pub fn get_current_order(&self) -> (res: usize)
        ensures
            res == self@.current_order,
    {
        self.current_order
    }

    pub fn set_descripration(&mut self, descripration: String)
        ensures
            final(self)@ == (BookInfoView { descripration: descripration@, ..old(self)@ }),
            final(self)@ == book_op_spec(old(self)@, BookOp::SetDescripration(descripration@)),
    {
        self.descripration = descripration;
    }
}

} // verus!

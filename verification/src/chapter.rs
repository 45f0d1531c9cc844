//! Chapters: their headings, the catalog entries built from them, and the
//! text gathered under them.
use crate::text::{str_trim, trim_spec};
use vstd::prelude::*;

verus! {

/// What a heading records: its title, whether it is a sub-chapter, whether
/// it has sub-chapters of its own, and its id (the number of its page).
pub struct ChapterMetaView {
    pub title: Seq<char>,
    pub is_sub_cha: bool,
    pub has_sub_chap: bool,
    pub id: usize,
}

/// The heading of a chapter or of a sub-chapter.
#[derive(Debug)]
pub struct ChapterMeta {
    title: String,
    is_sub_cha: bool,
    has_sub_chap: bool,
    id: usize,
}

impl View for ChapterMeta {
    type V = ChapterMetaView;

    closed spec fn view(&self) -> ChapterMetaView {
        ChapterMetaView {
            title: self.title@,
            is_sub_cha: self.is_sub_cha,
            has_sub_chap: self.has_sub_chap,
            id: self.id,
        }
    }
}

/// The heading of a chapter with the given title and id.
pub open spec fn chapter_meta(title: Seq<char>, id: usize) -> ChapterMetaView {
    ChapterMetaView { title, is_sub_cha: false, has_sub_chap: false, id }
}

/// The heading of a sub-chapter with the given title and id.
pub open spec fn subchapter_meta(title: Seq<char>, id: usize) -> ChapterMetaView {
    ChapterMetaView { title, is_sub_cha: true, has_sub_chap: false, id }
}

impl ChapterMeta {
    /// The heading of a chapter.
    pub fn new(title: String, id: usize) -> (res: Self)
        ensures
            res@ == chapter_meta(title@, id),
    {
        Self { title: title, is_sub_cha: false, has_sub_chap: false, id: id }
    }

    /// The heading of a sub-chapter.
    pub fn new_sub(title: String, id: usize) -> (res: Self)
        ensures
            res@ == subchapter_meta(title@, id),
    {
        Self { title: title, is_sub_cha: true, has_sub_chap: false, id: id }
    }

    pub fn set_title(&mut self, title: String)
        ensures
            final(self)@ == (ChapterMetaView { title: title@, ..old(self)@ }),
    {
        self.title = title;
    }

    pub fn set_id(&mut self, id: usize)
        ensures
            final(self)@ == (ChapterMetaView { id: id, ..old(self)@ }),
    {
        self.id = id;
    }

    pub fn set_has_sub_chap(&mut self, is_has: bool)
        ensures
            final(self)@ == (ChapterMetaView { has_sub_chap: is_has, ..old(self)@ }),
    {
        self.has_sub_chap = is_has;
    }

    pub fn get_title(&self) -> (res: &String)
        ensures
            res@ == self@.title,
    {
        &self.title
    }

    pub fn get_is_sub_cha(&self) -> (res: bool)
        ensures
            res == self@.is_sub_cha,
    {
        self.is_sub_cha
    }

    pub fn get_has_sub_chap(&self) -> (res: bool)
        ensures
            res == self@.has_sub_chap,
    {
        self.has_sub_chap
    }

    pub fn get_id(&self) -> (res: usize)
        ensures
            res == self@.id,
    {
        self.id
    }
}

/// The headings of a sequence of headings.
pub open spec fn metas_view(v: Seq<ChapterMeta>) -> Seq<ChapterMetaView> {
    v.map_values(|m: ChapterMeta| m@)
}

/// A catalog entry: a chapter heading and the headings of its sub-chapters.
pub struct ChapterInfoView {
    pub chapter: ChapterMetaView,
    pub subchapter: Seq<ChapterMetaView>,
}

/// A catalog entry: a chapter heading and the headings of its sub-chapters.
#[derive(Debug)]
pub struct ChapterInfo {
    chapter: ChapterMeta,
    subchapter: Vec<ChapterMeta>,
}

impl View for ChapterInfo {
    type V = ChapterInfoView;

    closed spec fn view(&self) -> ChapterInfoView {
        ChapterInfoView { chapter: self.chapter@, subchapter: metas_view(self.subchapter@) }
    }
}

/// The catalog entry `info` once a sub-chapter with the given title and id
/// is added to it.
pub open spec fn info_add_subchapter(info: ChapterInfoView, title: Seq<char>, id: usize) -> ChapterInfoView {
    ChapterInfoView {
        chapter: ChapterMetaView { has_sub_chap: true, ..info.chapter },
        subchapter: info.subchapter.push(subchapter_meta(title, id)),
    }
}

impl ChapterInfo {
    /// A catalog entry for a chapter without sub-chapters.
    pub fn new(title: String, id: usize) -> (res: Self)
        ensures
            res@ == (ChapterInfoView { chapter: chapter_meta(title@, id), subchapter: seq![] }),
    {
        let res = Self { chapter: ChapterMeta::new(title, id), subchapter: Vec::new() };
        assert(metas_view(res.subchapter@) =~= seq![]);
        res
    }

    /// Adds a sub-chapter heading and marks the chapter as having sub-chapters.
    pub fn add_subchapter(&mut self, title: String, id: usize)
        ensures
            final(self)@ == info_add_subchapter(old(self)@, title@, id),
    {
        self.chapter.has_sub_chap = true;
        self.subchapter.push(ChapterMeta::new_sub(title, id));
        assert(metas_view(self.subchapter@) =~= metas_view(old(self).subchapter@).push(
            subchapter_meta(title@, id),
        ));
    }

    pub fn get_chapter(&self) -> (res: &ChapterMeta)
        ensures
            res@ == self@.chapter,
    {
        &self.chapter
    }

    pub fn get_subchapters(&self) -> (res: &Vec<ChapterMeta>)
        ensures
            metas_view(res@) == self@.subchapter,
    {
        &self.subchapter
    }
}

/// What a line of text adds to a page: the line trimmed and set in a
/// paragraph (when paragraphs are asked for) or the line as it is with a
/// line break, and then a `<br/>` in either case.
pub open spec fn paragraph_spec(line: Seq<char>, is_label_p: bool) -> Seq<char> {
    if is_label_p {
        "<p>"@ + trim_spec(line) + "</p>\n"@ + "<br/>"@
    } else {
        line + "\n"@ + "<br/>"@
    }
}

/// A page under construction: its heading and the text gathered so far.
pub struct ChapterContentView {
    pub metadata: ChapterMetaView,
    pub content: Seq<char>,
}

/// A page under construction: its heading and the text gathered so far.
#[derive(Debug)]
pub struct ChapterContent {
    metadata: ChapterMeta,
    content: String,
}

impl View for ChapterContent {
    type V = ChapterContentView;

    closed spec fn view(&self) -> ChapterContentView {
        ChapterContentView { metadata: self.metadata@, content: self.content@ }
    }
}

/// The page `c` once a line is appended to it.
pub open spec fn content_append(c: ChapterContentView, line: Seq<char>, is_label_p: bool) -> ChapterContentView {
    ChapterContentView { content: c.content + paragraph_spec(line, is_label_p), ..c }
}

/// The page `c` once it is restored to start a new chapter.
pub open spec fn content_restore(c: ChapterContentView, title: Seq<char>, id: usize) -> ChapterContentView {
    ChapterContentView {
        metadata: ChapterMetaView { title, has_sub_chap: false, id, ..c.metadata },
        content: seq![],
    }
}

/// Appending a line keeps the page's heading and every character already
/// on the page, and adds after them the line rendered on its own: as it is
/// with a line break in plain mode, trimmed inside `<p>`..`</p>` in
/// paragraph mode, then `<br/>`.
pub proof fn lemma_append_keeps_text(c: ChapterContentView, line: Seq<char>, is_label_p: bool)
    ensures
        content_append(c, line, is_label_p).metadata == c.metadata,
        content_append(c, line, is_label_p).content.len() > c.content.len(),
        content_append(c, line, is_label_p).content.subrange(0, c.content.len() as int) == c.content,
        !is_label_p ==> content_append(c, line, is_label_p).content == c.content + line + "\n<br/>"@,
        is_label_p ==> content_append(c, line, is_label_p).content == c.content + "<p>"@ + trim_spec(line)
            + "</p>\n<br/>"@,
{
    reveal_strlit("\n<br/>");
    reveal_strlit("\n");
    reveal_strlit("<br/>");
    reveal_strlit("</p>\n");
    reveal_strlit("</p>\n<br/>");
    let n = content_append(c, line, is_label_p).content;
    assert(n.subrange(0, c.content.len() as int) =~= c.content);
    assert(("\n"@ + "<br/>"@) =~= "\n<br/>"@);
    assert(("</p>\n"@ + "<br/>"@) =~= "</p>\n<br/>"@);
    if is_label_p {
        assert(n =~= c.content + "<p>"@ + trim_spec(line) + "</p>\n<br/>"@);
    } else {
        assert(n =~= c.content + line + "\n<br/>"@);
    }
}

/// Two lines appended one after the other both stay on the page, in the
/// order they came, after the text that was there before.
pub proof fn lemma_append_two_lines(c: ChapterContentView, a: Seq<char>, b: Seq<char>, is_label_p: bool)
    ensures
        content_append(content_append(c, a, is_label_p), b, is_label_p).content == c.content
            + content_append(ChapterContentView { content: seq![], ..c }, a, is_label_p).content
            + content_append(ChapterContentView { content: seq![], ..c }, b, is_label_p).content,
{
    let e = ChapterContentView { content: seq![], ..c };
    lemma_append_keeps_text(c, a, is_label_p);
    lemma_append_keeps_text(content_append(c, a, is_label_p), b, is_label_p);
    lemma_append_keeps_text(e, a, is_label_p);
    lemma_append_keeps_text(e, b, is_label_p);
    let r = content_append(content_append(c, a, is_label_p), b, is_label_p).content;
    if is_label_p {
        assert(r =~= c.content + content_append(e, a, is_label_p).content + content_append(e, b, is_label_p).content);
    } else {
        assert(r =~= c.content + content_append(e, a, is_label_p).content + content_append(e, b, is_label_p).content);
    }
}

/// A call that changes a page.
pub enum ContentOp {
    /// `append` with this line and paragraph setting.
    Append(Seq<char>, bool),
    /// `clear`.
    Clear,
    /// `set_title` with this title.
    SetTitle(Seq<char>),
    /// `restore` with this title and id.
    Restore(Seq<char>, usize),
    /// `set_has_sub_chap` with this mark.
    SetHasSubChap(bool),
}

/// The page `c` once the call `op` is made.
pub open spec fn content_op_spec(c: ChapterContentView, op: ContentOp) -> ChapterContentView {
    match op {
        ContentOp::Append(line, p) => content_append(c, line, p),
        ContentOp::Clear => ChapterContentView { content: seq![], ..c },
        ContentOp::SetTitle(t) => ChapterContentView {
            metadata: ChapterMetaView { title: t, ..c.metadata },
            ..c
        },
        ContentOp::Restore(t, id) => content_restore(c, t, id),
        ContentOp::SetHasSubChap(h) => ChapterContentView {
            metadata: ChapterMetaView { has_sub_chap: h, ..c.metadata },
            ..c
        },
    }
}

/// The page `c` once the calls `ops` are made, in order.
pub open spec fn run_content_ops(c: ChapterContentView, ops: Seq<ContentOp>) -> ChapterContentView
    decreases ops.len(),
{
    if ops.len() == 0 {
        c
    } else {
        content_op_spec(run_content_ops(c, ops.drop_last()), ops.last())
    }
}

/// No call changes whether a page is a sub-chapter (not even `restore`):
/// a page made by `new` stays a chapter page and one made by
/// `new_subchapter` stays a sub-chapter page.
pub proof fn lemma_page_kind_never_changes(c: ChapterContentView, ops: Seq<ContentOp>)
    ensures
        run_content_ops(c, ops).metadata.is_sub_cha == c.metadata.is_sub_cha,
    decreases ops.len(),
{
    if ops.len() > 0 {
        lemma_page_kind_never_changes(c, ops.drop_last());
    }
}

impl ChapterContent {
    /// An empty chapter page.
    pub fn new(title: String, id: usize) -> (res: Self)
        ensures
            res@ == (ChapterContentView { metadata: chapter_meta(title@, id), content: seq![] }),
    {
        Self { metadata: ChapterMeta::new(title, id), content: String::new() }
    }

    /// An empty sub-chapter page.
    pub fn new_subchapter(title: String, id: usize) -> (res: Self)
        ensures
            res@ == (ChapterContentView { metadata: subchapter_meta(title@, id), content: seq![] }),
    {
        Self { metadata: ChapterMeta::new_sub(title, id), content: String::new() }
    }

    pub fn is_empty(&self) -> (res: bool)
        ensures
            res == (self@.content.len() == 0),
    {
        self.content.as_str().is_empty()
    }

    pub fn get_id(&self) -> (res: usize)
        ensures
            res == self@.metadata.id,
    {
        self.metadata.id
    }

    /// Drops the text gathered so far.
    pub fn clear(&mut self)
        ensures
            final(self)@ == (ChapterContentView { content: seq![], ..old(self)@ }),
            final(self)@ == content_op_spec(old(self)@, ContentOp::Clear),
    {
        self.content = String::new();
    }

    /// Appends a line of text (see `paragraph_spec`).
    pub fn append(&mut self, content: &String, is_label_p: bool)
        ensures
            final(self)@ == content_append(old(self)@, content@, is_label_p),
            final(self)@ == content_op_spec(old(self)@, ContentOp::Append(content@, is_label_p)),
    {
        if is_label_p {
            self.content.append("<p>");
            self.content.append(str_trim(content.as_str()));
            self.content.append("</p>\n");
        } else {
            self.content.append(content.as_str());
            self.content.append("\n");
        }
        self.content.append("<br/>");
        assert(self.content@ =~= old(self).content@ + paragraph_spec(content@, is_label_p));
    }

    pub fn set_title(&mut self, title: String)
        ensures
            final(self)@ == (ChapterContentView {
                metadata: ChapterMetaView { title: title@, ..old(self)@.metadata },
                ..old(self)@
            }),
            final(self)@ == content_op_spec(old(self)@, ContentOp::SetTitle(title@)),
    {
        self.metadata.set_title(title);
    }

    /// Starts the page over for a new chapter: new title and id, no
    /// sub-chapters, no text.
    pub fn restore(&mut self, title: String, id: usize)
        ensures
            final(self)@ == content_restore(old(self)@, title@, id),
            final(self)@ == content_op_spec(old(self)@, ContentOp::Restore(title@, id)),
    {
        self.set_title(title);
        self.set_has_sub_chap(false);
        self.metadata.id = id;
        self.content = String::new();
    }

    pub fn get_content(&self) -> (res: String)
        ensures
            res@ == self@.content,
    {
        self.content.clone()
    }

    pub fn get_is_sub_cha(&self) -> (res: bool)
        ensures
            res == self@.metadata.is_sub_cha,
    {
        self.metadata.is_sub_cha
    }

    pub fn set_has_sub_chap(&mut self, is_has: bool)
        ensures
            final(self)@ == (ChapterContentView {
                metadata: ChapterMetaView { has_sub_chap: is_has, ..old(self)@.metadata },
                ..old(self)@
            }),
            final(self)@ == content_op_spec(old(self)@, ContentOp::SetHasSubChap(is_has)),
    {
        self.metadata.set_has_sub_chap(is_has);
    }

    pub fn get_metadata(&self) -> (res: &ChapterMeta)
        ensures
            res@ == self@.metadata,
    {
        &self.metadata
    }
}


/// The pages of a sequence of pages.
pub open spec fn contents_view(v: Seq<ChapterContent>) -> Seq<ChapterContentView> {
    v.map_values(|c: ChapterContent| c@)
}

/// A chapter being written: its own page and the pages of its sub-chapters.
pub struct MainChapterView {
    pub data: ChapterContentView,
    pub subchapter: Seq<ChapterContentView>,
}

/// A chapter being written: its own page and the pages of its sub-chapters.
#[derive(Debug)]
pub struct MainChapter {
    data: ChapterContent,
    subchapter: Vec<ChapterContent>,
}

impl View for MainChapter {
    type V = MainChapterView;

    closed spec fn view(&self) -> MainChapterView {
        MainChapterView { data: self.data@, subchapter: contents_view(self.subchapter@) }
    }
}

/// The chapter `m` once a line is appended: the line goes to the last
/// sub-chapter, or to the chapter's own page when it has no sub-chapter.
pub open spec fn main_append(m: MainChapterView, line: Seq<char>, is_label_p: bool) -> MainChapterView {
    if m.subchapter.len() > 0 {
        MainChapterView {
            subchapter: m.subchapter.update(
                m.subchapter.len() - 1,
                content_append(m.subchapter.last(), line, is_label_p),
            ),
            ..m
        }
    } else {
        MainChapterView { data: content_append(m.data, line, is_label_p), ..m }
    }
}

/// A line of body text goes to the last sub-chapter of the chapter being
/// written when it has one, else to the chapter's own page; every other
/// page is left as it was, and no page is added or dropped.
pub proof fn lemma_main_append_target(m: MainChapterView, line: Seq<char>, is_label_p: bool)
    ensures
        main_append(m, line, is_label_p).subchapter.len() == m.subchapter.len(),
        m.subchapter.len() == 0 ==> main_append(m, line, is_label_p).data == content_append(
            m.data,
            line,
            is_label_p,
        ),
        m.subchapter.len() > 0 ==> main_append(m, line, is_label_p).data == m.data && main_append(
            m,
            line,
            is_label_p,
        ).subchapter.last() == content_append(m.subchapter.last(), line, is_label_p),
        forall|k: int|
            0 <= k < m.subchapter.len() - 1 ==> #[trigger] main_append(m, line, is_label_p).subchapter[k]
                == m.subchapter[k],
{
}

/// The chapter `m` once a sub-chapter with the given title and id is started.
pub open spec fn main_add_subchapter(m: MainChapterView, title: Seq<char>, id: usize) -> MainChapterView {
    MainChapterView {
        data: ChapterContentView {
            metadata: ChapterMetaView { has_sub_chap: true, ..m.data.metadata },
            ..m.data
        },
        subchapter: m.subchapter.push(ChapterContentView { metadata: subchapter_meta(title, id), content: seq![] }),
    }
}

/// The chapter `m` once it is restored to start a new chapter.
pub open spec fn main_restore(m: MainChapterView, title: Seq<char>, id: usize) -> MainChapterView {
    MainChapterView { data: content_restore(m.data, title, id), subchapter: seq![] }
}

impl MainChapter {
    /// An empty chapter without sub-chapters.
    pub fn new(title: String, id: usize) -> (res: Self)
        ensures
            res@ == (MainChapterView {
                data: ChapterContentView { metadata: chapter_meta(title@, id), content: seq![] },
                subchapter: seq![],
            }),
    {
        let res = Self { data: ChapterContent::new(title, id), subchapter: Vec::new() };
        assert(contents_view(res.subchapter@) =~= seq![]);
        res
    }

    /// Whether the chapter has neither text of its own nor sub-chapters.
    pub fn is_empty(&self) -> (res: bool)
        ensures
            res == (self@.data.content.len() == 0 && self@.subchapter.len() == 0),
    {
        self.data.is_empty() && self.subchapter.len() == 0
    }

    pub fn get_id(&self) -> (res: usize)
        ensures
            res == self@.data.metadata.id,
    {
        self.data.get_id()
    }

    /// Starts over for a new chapter with the given title and id.
    pub fn restore(&mut self, title: String, id: usize)
        ensures
            final(self)@ == main_restore(old(self)@, title@, id),
    {
        self.data.restore(title, id);
        self.subchapter.clear();
        assert(contents_view(self.subchapter@) =~= seq![]);
    }

    /// Starts a sub-chapter; the lines that follow go to it.
    pub fn add_subchapter(&mut self, title: String, id: usize)
        ensures
            final(self)@ == main_add_subchapter(old(self)@, title@, id),
    {
        self.data.set_has_sub_chap(true);
        self.subchapter.push(ChapterContent::new_subchapter(title, id));
        assert(contents_view(self.subchapter@) =~= contents_view(old(self).subchapter@).push(
            ChapterContentView { metadata: subchapter_meta(title@, id), content: seq![] },
        ));
    }

    /// Appends a line to the last sub-chapter, or to the chapter's own page.
    pub fn append(&mut self, content: &String, is_label_p: bool)
        ensures
            final(self)@ == main_append(old(self)@, content@, is_label_p),
    {
        match self.subchapter.pop() {
            Some(mut last) => {
                last.append(content, is_label_p);
                self.subchapter.push(last);
                let ghost old_subs = contents_view(old(self).subchapter@);
                assert(contents_view(self.subchapter@) =~= old_subs.update(
                    old_subs.len() - 1,
                    content_append(old_subs.last(), content@, is_label_p),
                ));
            },
            None => {
                self.data.append(content, is_label_p);
            },
        }
    }

    /// The text of the chapter's own page.
    pub fn get_chapter_content(&self) -> (res: String)
        ensures
            res@ == self@.data.content,
    {
        self.data.get_content()
    }

    pub fn get_data(&self) -> (res: &ChapterContent)
        ensures
            res@ == self@.data,
    {
        &self.data
    }

    pub fn get_subchapters(&self) -> (res: &Vec<ChapterContent>)
        ensures
            contents_view(res@) == self@.subchapter,
    {
        &self.subchapter
    }
}

} // verus!

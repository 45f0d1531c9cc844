//! Where the files of a book go, and which template renders each page.
use crate::book::BookInfo;
use crate::chapter::MainChapter;
use crate::template_type::TemplateType;
use crate::text::{decimal_spec, decimal_string, lemma_decimal_injective};
use vstd::prelude::*;

verus! {

/// A page to render: the template to render it with and the file to write.
#[derive(Debug)]
pub struct RenderJob {
    pub template: TemplateType,
    pub path: String,
}

/// The path of the page of kind `t` in the book directory `dir`; `id` is
/// the chapter id and only chapter pages use it.
pub open spec fn page_path_spec(dir: Seq<char>, t: TemplateType, id: usize) -> Seq<char> {
    match t {
        TemplateType::Opf => dir + "/OEBPS/content.opf"@,
        TemplateType::Catalog => dir + "/OEBPS/Xhtml/catalog.xhtml"@,
        TemplateType::Content => dir + "/OEBPS/Xhtml/chap_"@ + decimal_spec(id as nat) + ".xhtml"@,
        TemplateType::Ncx => dir + "/OEBPS/toc.ncx"@,
        TemplateType::Cover => dir + "/OEBPS/Xhtml/cover.xhtml"@,
        TemplateType::Title => dir + "/OEBPS/Xhtml/title.xhtml"@,
    }
}

/// The string `a` followed by `b`.
pub fn joined(a: &str, b: &str) -> (res: String)
    ensures
        res@ == a@ + b@,
{
    let mut res = String::from_str(a);
    res.append(b);
    res
}

/// The path of the page of kind `t` in the book directory `dir`.
pub fn page_path(dir: &str, t: TemplateType, id: usize) -> (res: String)
    ensures
        res@ == page_path_spec(dir@, t, id),
{
    match t {
        TemplateType::Opf => joined(dir, "/OEBPS/content.opf"),
        TemplateType::Catalog => joined(dir, "/OEBPS/Xhtml/catalog.xhtml"),
        TemplateType::Content => {
            let mut res = joined(dir, "/OEBPS/Xhtml/chap_");
            let number = decimal_string(id as u64);
            res.append(number.as_str());
            res.append(".xhtml");
            res
        },
        TemplateType::Ncx => joined(dir, "/OEBPS/toc.ncx"),
        TemplateType::Cover => joined(dir, "/OEBPS/Xhtml/cover.xhtml"),
        TemplateType::Title => joined(dir, "/OEBPS/Xhtml/title.xhtml"),
    }
}

/// The job that renders the page of kind `t` into the book directory `dir`.
pub fn render_job(dir: &str, t: TemplateType, id: usize) -> (res: RenderJob)
    ensures
        res.template == t,
        res.path@ == page_path_spec(dir@, t, id),
{
    RenderJob { template: t, path: page_path(dir, t, id) }
}

/// Chapters with different ids are written to different files.
pub proof fn lemma_chapter_paths_distinct(dir: Seq<char>, a: usize, b: usize)
    requires
        a != b,
    ensures
        page_path_spec(dir, TemplateType::Content, a) != page_path_spec(dir, TemplateType::Content, b),
{
    let pre = dir + "/OEBPS/Xhtml/chap_"@;
    let post = ".xhtml"@;
    let pa = page_path_spec(dir, TemplateType::Content, a);
    let pb = page_path_spec(dir, TemplateType::Content, b);
    let da = decimal_spec(a as nat);
    let db = decimal_spec(b as nat);
    if pa == pb {
        assert(pa.len() == pb.len());
        assert(da.len() == db.len());
        assert(pa.subrange(pre.len() as int, (pre.len() + da.len()) as int) =~= da);
        assert(pb.subrange(pre.len() as int, (pre.len() + db.len()) as int) =~= db);
        lemma_decimal_injective(a as nat, b as nat);
    }
}


/// The job that renders the page of `chapter_content` into `dir_name`: the
/// chapter template, written to the file named after the chapter's id.
pub fn render_content(chapter_content: &MainChapter, dir_name: &String) -> (res: RenderJob)
    ensures
        res.template == TemplateType::Content,
        res.path@ == page_path_spec(dir_name@, TemplateType::Content, chapter_content@.data.metadata.id),
{
    render_job(dir_name.as_str(), TemplateType::Content, chapter_content.get_id())
}


/// An embedded asset to write out: its name and the file to write it to.
#[derive(Debug)]
pub struct AssetCopy {
    pub asset: String,
    pub path: String,
}

/// A file to copy.
#[derive(Debug)]
pub struct FileCopy {
    pub from: String,
    pub to: String,
}

/// What setting up the book directory takes: the directories to create, the
/// `mimetype` file and its text, the assets to write out, the cover image
/// to copy (if the book has one), and the cover page to render.
#[derive(Debug)]
pub struct PreparePlan {
    pub directories: Vec<String>,
    pub mimetype_path: String,
    pub mimetype: String,
    pub assets: Vec<AssetCopy>,
    pub cover_copy: Option<FileCopy>,
    pub cover_page: RenderJob,
}

/// The directories of a book in `dir`.
pub open spec fn book_directories(dir: Seq<char>) -> Seq<Seq<char>> {
    seq![
        dir + "/META-INF"@,
        dir + "/OEBPS"@,
        dir + "/OEBPS/Xhtml"@,
        dir + "/OEBPS/Styles"@,
        dir + "/OEBPS/Images"@,
    ]
}

/// What setting up the book directory `dir_name` for `book_info` takes.
pub fn prepare_book(dir_name: &String, book_info: &BookInfo) -> (res: PreparePlan)
    ensures
        res.directories@.map_values(|d: String| d@) == book_directories(dir_name@),
        res.mimetype_path@ == dir_name@ + "/mimetype"@,
        res.mimetype@ == "application/epub+zip"@,
        res.assets@.len() == 2,
        res.assets@[0].asset@ == "container.xml"@,
        res.assets@[0].path@ == dir_name@ + "/META-INF/container.xml"@,
        res.assets@[1].asset@ == "stylesheet.css"@,
        res.assets@[1].path@ == dir_name@ + "/OEBPS/Styles/stylesheet.css"@,
        res.cover_copy is Some <==> book_info@.cover.len() > 0,
        res.cover_copy matches Some(c) ==> c.from@ == book_info@.cover_source && c.to@ == dir_name@
            + "/OEBPS/Images/"@ + book_info@.cover,
        res.cover_page.template == TemplateType::Cover,
        res.cover_page.path@ == page_path_spec(dir_name@, TemplateType::Cover, 0),
{
    let dir = dir_name.as_str();
    let mut directories = Vec::new();
    directories.push(joined(dir, "/META-INF"));
    directories.push(joined(dir, "/OEBPS"));
    directories.push(joined(dir, "/OEBPS/Xhtml"));
    directories.push(joined(dir, "/OEBPS/Styles"));
    directories.push(joined(dir, "/OEBPS/Images"));
    assert(directories@.map_values(|d: String| d@) =~= book_directories(dir_name@));
    let mut assets = Vec::new();
    assets.push(
        AssetCopy {
            asset: String::from_str("container.xml"),
            path: joined(dir, "/META-INF/container.xml"),
        },
    );
    assets.push(
        AssetCopy {
            asset: String::from_str("stylesheet.css"),
            path: joined(dir, "/OEBPS/Styles/stylesheet.css"),
        },
    );
    let cover = book_info.get_cover();
    let cover_copy = if !cover.as_str().is_empty() {
        let mut to = joined(dir, "/OEBPS/Images/");
        to.append(cover.as_str());
        Some(FileCopy { from: book_info.get_cover_source().clone(), to })
    } else {
        None
    };
    PreparePlan {
        directories,
        mimetype_path: joined(dir, "/mimetype"),
        mimetype: String::from_str("application/epub+zip"),
        assets,
        cover_copy,
        cover_page: render_job(dir, TemplateType::Cover, 0),
    }
}

/// A program to run and its arguments.
#[derive(Debug)]
pub struct Command {
    pub program: String,
    pub args: Vec<String>,
}

/// The command that turns the EPUB file `source_file` into `<book_name>.mobi`
/// with kindlegen (`kindlegen.exe` on Windows).
pub fn run_kindlegen(book_name: &String, source_file: &String, on_windows: bool) -> (res: Command)
    ensures
        res.program@ == (if on_windows {
            "kindlegen.exe"@
        } else {
            "kindlegen"@
        }),
        res.args@.map_values(|a: String| a@) == seq![
            "-dont_append_source"@,
            "-c1"@,
            "-o"@,
            book_name@ + ".mobi"@,
            source_file@,
        ],
{
    let program = if on_windows {
        String::from_str("kindlegen.exe")
    } else {
        String::from_str("kindlegen")
    };
    let mut args = Vec::new();
    args.push(String::from_str("-dont_append_source"));
    args.push(String::from_str("-c1"));
    args.push(String::from_str("-o"));
    args.push(joined(book_name.as_str(), ".mobi"));
    args.push(source_file.clone());
    assert(args@.map_values(|a: String| a@) =~= seq![
        "-dont_append_source"@,
        "-c1"@,
        "-o"@,
        book_name@ + ".mobi"@,
        source_file@,
    ]);
    Command { program, args }
}

} // verus!

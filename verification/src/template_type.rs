//! The kinds of page templates a book is rendered with.
use vstd::prelude::*;

verus! {

/// The page templates of a book.
#[derive(Debug, Clone, Copy, PartialEq, Eq, Structural)]
pub enum TemplateType {
    Opf,
    Catalog,
    Content,
    Ncx,
    Cover,
    Title,
}

/// The name of the template file of `t`.
pub open spec fn file_name_spec(t: TemplateType) -> Seq<char> {
    match t {
        TemplateType::Opf => "content.opf"@,
        TemplateType::Catalog => "catalog.xhtml"@,
        TemplateType::Content => "content.xhtml"@,
        TemplateType::Ncx => "toc.ncx"@,
        TemplateType::Cover => "cover.xhtml"@,
        TemplateType::Title => "title.xhtml"@,
    }
}

/// The name a template of kind `t` is registered under: the variant's name.
pub open spec fn template_name_spec(t: TemplateType) -> Seq<char> {
    match t {
        TemplateType::Opf => "Opf"@,
        TemplateType::Catalog => "Catalog"@,
        TemplateType::Content => "Content"@,
        TemplateType::Ncx => "Ncx"@,
        TemplateType::Cover => "Cover"@,
        TemplateType::Title => "Title"@,
    }
}

impl TemplateType {
    /// Every kind of template, in the order they are registered.
    pub fn values() -> (res: Vec<TemplateType>)
        ensures
            res@ == seq![
                TemplateType::Opf,
                TemplateType::Catalog,
                TemplateType::Content,
                TemplateType::Ncx,
                TemplateType::Cover,
                TemplateType::Title,
            ],
    {
        let mut res = Vec::new();
        res.push(TemplateType::Opf);
        res.push(TemplateType::Catalog);
        res.push(TemplateType::Content);
        res.push(TemplateType::Ncx);
        res.push(TemplateType::Cover);
        res.push(TemplateType::Title);
        assert(res@ =~= seq![
            TemplateType::Opf,
            TemplateType::Catalog,
            TemplateType::Content,
            TemplateType::Ncx,
            TemplateType::Cover,
            TemplateType::Title,
        ]);
        res
    }

    /// The name of the template file.
    pub fn get_file_name(&self) -> (res: &'static str)
        ensures
            res@ == file_name_spec(*self),
    {
        match *self {
            Self::Opf => "content.opf",
            Self::Catalog => "catalog.xhtml",
            Self::Content => "content.xhtml",
            Self::Ncx => "toc.ncx",
            Self::Cover => "cover.xhtml",
            Self::Title => "title.xhtml",
        }
    }

    /// The name the template is registered and looked up under.
    pub fn to_name(&self) -> (res: &'static str)
        ensures
            res@ == template_name_spec(*self),
    {
        match *self {
            Self::Opf => "Opf",
            Self::Catalog => "Catalog",
            Self::Content => "Content",
            Self::Ncx => "Ncx",
            Self::Cover => "Cover",
            Self::Title => "Title",
        }
    }
}

} // verus!

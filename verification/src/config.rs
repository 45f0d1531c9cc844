//! The settings of a conversion.
use vstd::prelude::*;

verus! {

/// The settings of a conversion, as the configuration file gives them.
#[derive(Debug)]
pub struct Config {
    /// Title of the book.
    pub title: String,
    /// Path of the cover image, or empty for none.
    pub cover: String,
    /// Author of the book.
    pub author: String,
    /// Regular expression that chapter headings match.
    pub chapter: String,
    /// Language of the book; `en` when left empty.
    pub lang: String,
    /// Regular expression that sub-chapter headings match, or empty for none.
    pub subchapter: String,
    /// Encoding of the text file (a WHATWG label).
    pub encoding: String,
    /// Whether lines are set in `<p>` paragraphs.
    pub is_html_p: bool,
    /// Path of the text file.
    pub file: String,
}

impl Config {
    /// Fills in what the configuration file may leave out: an empty
    /// language becomes `en`; everything else is kept.
    pub fn fill_defaults(&mut self)
        ensures
            final(self).lang@ == (if old(self).lang@.len() == 0 {
                "en"@
            } else {
                old(self).lang@
            }),
            final(self).title == old(self).title,
            final(self).cover == old(self).cover,
            final(self).author == old(self).author,
            final(self).chapter == old(self).chapter,
            final(self).subchapter == old(self).subchapter,
            final(self).encoding == old(self).encoding,
            final(self).is_html_p == old(self).is_html_p,
            final(self).file == old(self).file,
    {
        if self.lang.as_str().is_empty() {
            self.lang = String::from_str("en");
        }
    }
}

} // verus!

# txt2ebook

Turns a plain-text novel into an EPUB book.

- `src/` is the verified library: the book model (`book`, `chapter`), the
  line rules (`pattern`), the line-by-line conversion (`convert`), the file
  layout of a book (`layout`), the settings (`config`), the template kinds
  (`template_type`) and text helpers (`text`).
- `app/` is the command-line program: it reads the configuration and the
  text file, renders the pages with handlebars, packs the archive and runs
  kindlegen, asking the library what to do at each step.
- `tests/` exercises the library on concrete inputs.

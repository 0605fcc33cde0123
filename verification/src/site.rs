//! The build of a site: what is done with each entry of the source tree,
//! and what is written for it.

use vstd::prelude::*;
use vstd::utf8::encode_utf8;
use crate::link::LinkRule;
use crate::path::{extension, extension_of, file_name, name_start, strip_extension, without_extension};
use crate::text::{chars_of, ends_with, has_prefix, has_suffix, same_text, starts_with, text_of_range, view_of};

verus! {

/// How much of what happens is logged.
#[derive(Debug, Clone, Copy, PartialEq, Eq)]
pub enum LogLevel {
    Off,
    Error,
    Warn,
    Info,
    Debug,
    Trace,
}

/// The settings of a build.
#[derive(Debug, Clone)]
pub struct Args {
    /// The directory that holds the sources.
    pub dir: String,
    /// The address under which the site is served.
    pub root_address: String,
    /// The title of the site.
    pub title: String,
    /// The description of the site.
    pub description: String,
    /// The language of the site.
    pub language: String,
    /// How much is logged.
    pub log_level: LogLevel,
    /// The directory that the site is written to.
    pub outdir: String,
    /// Whether files are copied that are no newer than their copies.
    pub copy_older_files: bool,
    /// Whether HTML is minified.
    pub minify_html: bool,
    /// Whether a style sheet that cannot be minified is copied as it is.
    pub minifier_copy_on_failure: bool,
    /// How links are told to point inside the site.
    pub link_rule: LinkRule,
}

impl Args {
    /// The settings of a site for which only the address, the title and the
    /// description are given: sources in `site`, output in `out`, language
    /// `en-GB`, informational logging, nothing minified, nothing forced,
    /// links told by the stem of their document.
    pub fn new(root_address: String, title: String, description: String) -> (args: Args)
        ensures
            args.dir@ == "site"@,
            args.root_address == root_address,
            args.title == title,
            args.description == description,
            args.language@ == "en-GB"@,
            args.log_level == LogLevel::Info,
            args.outdir@ == "out"@,
            !args.copy_older_files,
            !args.minify_html,
            !args.minifier_copy_on_failure,
            args.link_rule == LinkRule::DocumentStem,
    {
        Args {
            dir: String::from_str("site"),
            root_address,
            title,
            description,
            language: String::from_str("en-GB"),
            log_level: LogLevel::Info,
            outdir: String::from_str("out"),
            copy_older_files: false,
            minify_html: false,
            minifier_copy_on_failure: false,
            link_rule: LinkRule::DocumentStem,
        }
    }
}

/// Whether a file of this name is left out of the build: the name is one
/// of the names of editor and project files, or starts with the mark of a
/// temporary file, or ends with one of the marks of a backup file.
pub open spec fn is_skipped(name: Seq<char>) -> bool {
    ||| name == ".dir-locals.el"@
    ||| name == ".env"@
    ||| name == ".gitignore"@
    ||| name == ".projectile"@
    ||| name == "Justfile"@
    ||| has_prefix(name, ".#"@)
    ||| has_suffix(name, ".bak"@)
    ||| has_suffix(name, ".tmp"@)
}

/// Tells whether a file of this name is left out of the build.
pub fn should_be_skipped(file_name: &str) -> (skip: bool)
    ensures
        skip == is_skipped(file_name@),
{
    same_text(file_name, ".dir-locals.el") || same_text(file_name, ".env") || same_text(
        file_name,
        ".gitignore",
    ) || same_text(file_name, ".projectile") || same_text(file_name, "Justfile") || starts_with(
        file_name,
        ".#",
    ) || ends_with(file_name, ".bak") || ends_with(file_name, ".tmp")
}

/// The kinds of file that the build tells apart.
#[derive(Debug, Clone, Copy, PartialEq, Eq)]
pub enum FileKind {
    /// A markup document, which becomes a page.
    Markup,
    /// A file that is HTML already.
    Html,
    /// A style sheet.
    Style,
    /// Any other file.
    Other,
}

/// The kind of the file at a path, by its extension.
pub open spec fn kind_of(path: Seq<char>) -> FileKind {
    match extension(path) {
        Some(e) => if e == "org"@ {
            FileKind::Markup
        } else if e == "html"@ {
            FileKind::Html
        } else if e == "css"@ {
            FileKind::Style
        } else {
            FileKind::Other
        },
        None => FileKind::Other,
    }
}

/// Tells the kind of the file at a path.
pub fn classify(path: &str) -> (kind: FileKind)
    ensures
        kind == kind_of(path@),
{
    match extension_of(path) {
        Some(e) => {
            if same_text(e.as_str(), "org") {
                FileKind::Markup
            } else if same_text(e.as_str(), "html") {
                FileKind::Html
            } else if same_text(e.as_str(), "css") {
                FileKind::Style
            } else {
                FileKind::Other
            }
        },
        None => FileKind::Other,
    }
}

/// What the build does with an entry of the source tree.
#[derive(Debug, Clone, Copy, PartialEq, Eq)]
pub enum Step {
    /// Make sure that the directory exists in the output tree.
    MakeDirectory,
    /// Leave the file out.
    Ignore,
    /// Transform the document into a page.
    Render,
    /// Write the HTML file, minified where that is asked for.
    WriteHtml,
    /// Write the style sheet, minified.
    WriteStyle,
    /// Copy the file, unless its copy is still good.
    Copy,
}

/// The step for an entry: a directory is mirrored; a file whose name is
/// skipped is left out; any other file is handled by its kind.
pub open spec fn step_for(is_dir: bool, path: Seq<char>) -> Step {
    if is_dir {
        Step::MakeDirectory
    } else if is_skipped(file_name(path)) {
        Step::Ignore
    } else {
        match kind_of(path) {
            FileKind::Markup => Step::Render,
            FileKind::Html => Step::WriteHtml,
            FileKind::Style => Step::WriteStyle,
            FileKind::Other => Step::Copy,
        }
    }
}

/// The last segment of a path.
pub fn name_of(path: &str) -> (name: String)
    ensures
        name@ == file_name(path@),
{
    let v = chars_of(path);
    let n = v.len();
    let mut i: usize = n;
    assert(v@.subrange(0, n as int) == v@);
    while i > 0 && v[i - 1] != '/'
        invariant
            i <= n,
            n == v.len(),
            name_start(v@) == name_start(v@.subrange(0, i as int)),
        decreases i,
    {
        assert(v@.subrange(0, i as int).drop_last() == v@.subrange(0, i - 1));
        i -= 1;
    }
    let name = text_of_range(&v, i, n);
    assert(name@ =~= file_name(path@));
    name
}

/// Decides what the build does with an entry, given its path relative to
/// the source directory and whether it is a directory.
pub fn plan(is_dir: bool, rel_path: &str) -> (step: Step)
    ensures
        step == step_for(is_dir, rel_path@),
{
    if is_dir {
        return Step::MakeDirectory;
    }
    if should_be_skipped(name_of(rel_path).as_str()) {
        return Step::Ignore;
    }
    match classify(rel_path) {
        FileKind::Markup => Step::Render,
        FileKind::Html => Step::WriteHtml,
        FileKind::Style => Step::WriteStyle,
        FileKind::Other => Step::Copy,
    }
}

/// What the file system says of a file: its size in bytes, and when it was
/// last modified, in nanoseconds since the start of 1970.
#[derive(Debug, Clone, Copy, PartialEq, Eq)]
pub struct Stamp {
    pub len: u64,
    pub modified: i128,
}

/// Whether a copy is still good: it has the size of the source, and the
/// source is no newer than it.
pub open spec fn is_current(source: Stamp, copy: Stamp) -> bool {
    source.len == copy.len && source.modified <= copy.modified
}

/// Whether a file is copied, given the stamps of the file and of its copy
/// where a copy was found: always where that is asked for or where there
/// is no copy yet, else where the copy is no longer good.
pub open spec fn copy_needed(always: bool, found: Option<(Stamp, Stamp)>) -> bool {
    always || match found {
        Some((source, copy)) => !is_current(source, copy),
        None => true,
    }
}

/// Decides whether a file is copied. `found` holds the stamp of the file
/// and the stamp of its copy, where a copy was looked for and found.
pub fn needs_copy(always: bool, found: Option<(Stamp, Stamp)>) -> (needed: bool)
    ensures
        needed == copy_needed(always, found),
{
    if always {
        return true;
    }
    match found {
        Some((source, copy)) => !(source.len == copy.len && source.modified <= copy.modified),
        None => true,
    }
}

/// A file that was copied is not copied again by a build that does not
/// force it, as long as the source keeps its size and is not modified
/// after the copy was made.
pub proof fn lemma_unchanged_file_is_kept(source: Stamp, copy: Stamp)
    requires
        is_current(source, copy),
    ensures
        !copy_needed(false, Some((source, copy))),
{
}

/// A file whose size differs from its copy's, or that was modified after
/// the copy was made, is copied again.
pub proof fn lemma_changed_file_is_copied(always: bool, source: Stamp, copy: Stamp)
    requires
        source.len != copy.len || source.modified > copy.modified,
    ensures
        copy_needed(always, Some((source, copy))),
{
}

/// Where the page of a markup document goes in the output tree.
#[derive(Debug, Clone, PartialEq, Eq)]
pub struct PagePaths {
    /// The directory of the page: the document's path without extension.
    pub directory: String,
    /// The stub that forwards a request for the directory to the site's
    /// shell.
    pub stub: String,
    /// The fragment that holds the page's content.
    pub fragment: String,
}

/// Whether `paths` are the places of the page of the document at `path`.
pub open spec fn are_paths_of(paths: PagePaths, path: Seq<char>) -> bool {
    &&& paths.directory@ == without_extension(path)
    &&& paths.stub@ == without_extension(path) + "/index.html"@
    &&& paths.fragment@ == without_extension(path) + "/_.html"@
}

/// The places of a page in the output tree, relative to its root.
pub fn page_paths(rel_path: &str) -> (paths: PagePaths)
    ensures
        are_paths_of(paths, rel_path@),
{
    let directory = strip_extension(rel_path);
    let mut stub = directory.clone();
    stub.append("/index.html");
    let mut fragment = directory.clone();
    fragment.append("/_.html");
    PagePaths { directory, stub, fragment }
}

/// The name of the feed's file in the root of the output tree.
pub fn feed_file() -> (name: &'static str)
    ensures
        name@ == "feed.rss"@,
{
    "feed.rss"
}

/// The page that forwards a request to the site's shell: on load it
/// replaces the location by the root of the site, followed by the
/// requested path as the route and by the fragment.
pub open spec fn stub_html() -> Seq<char> {
    "<!DOCTYPE html>\n<html xmlns=\"http://www.w3.org/1999/xhtml\" xml:lang=\"en\" lang=\"en\">\n\t<head>\n\t\t<title>Redirecting to root page...</title>\n\t\t<script type=\"text/javascript\">\nvar l = window.location;\nl.replace(\n  l.protocol + '//' + l.hostname + (l.port ? ':' + l.port : '') +\n  '/?/' + l.pathname.slice(1) + l.hash\n);\n\t\t</script>\n\t</head>\n\t<body>\n\t</body>\n</html>\n"@
}

/// The page that forwards a request to the site's shell.
pub fn stub_page() -> (page: &'static str)
    ensures
        page@ == stub_html(),
{
    "<!DOCTYPE html>\n<html xmlns=\"http://www.w3.org/1999/xhtml\" xml:lang=\"en\" lang=\"en\">\n\t<head>\n\t\t<title>Redirecting to root page...</title>\n\t\t<script type=\"text/javascript\">\nvar l = window.location;\nl.replace(\n  l.protocol + '//' + l.hostname + (l.port ? ':' + l.port : '') +\n  '/?/' + l.pathname.slice(1) + l.hash\n);\n\t\t</script>\n\t</head>\n\t<body>\n\t</body>\n</html>\n"
}

/// Why a file could not be written.
#[derive(Debug, Clone, PartialEq, Eq)]
pub enum WriteError {
    /// The style sheet at this path could not be minified.
    Minify { path: String },
}

impl WriteError {
    /// The message that names the file.
    pub open spec fn text(self) -> Seq<char> {
        match self {
            WriteError::Minify { path } => "Couldn't minify "@ + path@,
        }
    }

    /// The message that names the file.
    pub fn message(&self) -> (text: String)
        ensures
            text@ == self.text(),
    {
        match self {
            WriteError::Minify { path } => {
                let mut text = String::from_str("Couldn't minify ");
                text.append(path.as_str());
                text
            },
        }
    }
}

/// What is written for a style sheet: the minified text where minifying
/// gave one; else the text as it is where that is asked for, and an error
/// that names the file where it is not.
pub open spec fn style_output(
    minified: Option<Seq<char>>,
    contents: Seq<char>,
    copy_on_failure: bool,
    path: Seq<char>,
) -> Result<Seq<char>, Seq<char>> {
    match minified {
        Some(m) => Ok(m),
        None => if copy_on_failure {
            Ok(contents)
        } else {
            Err(path)
        },
    }
}

/// Decides what is written for a style sheet, given what minifying it
/// gave.
pub fn write_css(
    minified: Option<String>,
    contents: &str,
    copy_on_failure: bool,
    path: &str,
) -> (written: Result<String, WriteError>)
    ensures
        match written {
            Ok(text) => style_output(
                view_of(minified),
                contents@,
                copy_on_failure,
                path@,
            ) == Ok::<Seq<char>, Seq<char>>(text@),
            Err(WriteError::Minify { path: named }) => style_output(
                view_of(minified),
                contents@,
                copy_on_failure,
                path@,
            ) == Err::<Seq<char>, Seq<char>>(named@),
        },
{
    match minified {
        Some(m) => Ok(m),
        None => {
            if copy_on_failure {
                Ok(String::from_str(contents))
            } else {
                Err(WriteError::Minify { path: String::from_str(path) })
            }
        },
    }
}

/// The choices that the minifier of HTML offers and the build makes.
#[derive(Debug, Clone, Copy, PartialEq, Eq)]
pub struct HtmlMinify {
    pub minify_css: bool,
    pub minify_js: bool,
    pub spec_compliant_unquoted_values: bool,
    pub keep_comments: bool,
    pub keep_closing_tags: bool,
}

/// The choices of the build: styles and scripts inside the page are
/// minified too, attribute values stay valid without quotes, comments go
/// and closing tags stay.
pub fn minify_choices() -> (choices: HtmlMinify)
    ensures
        choices == (HtmlMinify {
            minify_css: true,
            minify_js: true,
            spec_compliant_unquoted_values: true,
            keep_comments: false,
            keep_closing_tags: true,
        }),
{
    HtmlMinify {
        minify_css: true,
        minify_js: true,
        spec_compliant_unquoted_values: true,
        keep_comments: false,
        keep_closing_tags: true,
    }
}

/// What the bytes of a sequence of bytes are, where there is one.
pub open spec fn bytes_of(bytes: Option<Vec<u8>>) -> Option<Seq<u8>> {
    match bytes {
        Some(b) => Some(b@),
        None => None,
    }
}

/// The bytes that are written for an HTML text: what the minifier gave
/// where it was asked, else the text's own bytes.
pub open spec fn html_output(minified: Option<Seq<u8>>, contents: Seq<char>) -> Seq<u8> {
    match minified {
        Some(m) => m,
        None => encode_utf8(contents),
    }
}

/// Decides which bytes are written for an HTML text, given what the
/// minifier made of it where minifying was asked for.
pub fn write_html(minified: Option<Vec<u8>>, contents: &str) -> (bytes: Vec<u8>)
    ensures
        bytes@ == html_output(bytes_of(minified), contents@),
{
    match minified {
        Some(m) => m,
        None => contents.as_bytes_vec(),
    }
}

/// Decides which bytes are written for the stub, given what the minifier
/// made of it where minifying was asked for.
pub fn write_stub_file(minified: Option<Vec<u8>>) -> (bytes: Vec<u8>)
    ensures
        bytes@ == html_output(bytes_of(minified), stub_html()),
{
    write_html(minified, stub_page())
}

} // verus!

//! Decisions around finding debug symbols for a library: which libraries are
//! worth the search, the order of the attempts, and the address of a library's
//! symbol archive on the remote symbol server.

use vstd::prelude::*;

verus! {

pub const MOZILLA_SYMBOL_SERVER: &'static str = "https://symbols.mozilla.org/";

/// The suffix of a symbol archive for a macOS binary.
pub const SYMBOL_ARCHIVE_SUFFIX: &'static str = ".dSYM.tar.bz2";

/// The libraries holding code whose symbols are searched for.
pub const MAIN_BINARY: &'static str = "XUL";

pub const LAUNCHER_BINARY: &'static str = "firefox";

/// Above this many symbols a symbol map is summarised rather than listed.
pub const SYMBOL_LISTING_LIMIT: usize = 100;

/// The text of the URL that `input` denotes relative to the URL whose text is
/// `base`, or `None` where either does not parse.
pub uninterp spec fn url_join_text(base: Seq<char>, input: Seq<char>) -> Option<Seq<char>>;

/// Relies on url::Url::join, after url::Url::parse reads the base from its text;
/// the result is handed back as its text (Url::as_str).
#[verifier::external_body]
fn join_url(base: &str, input: &str) -> (r: Option<String>)
    ensures
        r is Some <==> url_join_text(base@, input@) is Some,
        r is Some ==> r->0@ == url_join_text(base@, input@)->0,
{
    let base = url::Url::parse(base).ok()?;
    base.join(input).ok().map(|u| String::from(u.as_str()))
}

/// Whether symbols are searched for in a library of this name.
pub fn is_searched_library(name: &str) -> (r: bool)
    ensures
        r == (name@ == MAIN_BINARY@ || name@ == LAUNCHER_BINARY@),
{
    let n = String::from_str(name);
    n == String::from_str(MAIN_BINARY) || n == String::from_str(LAUNCHER_BINARY)
}

/// The file name of the symbol archive of a binary.
pub fn symbol_archive_name(filename: &str) -> (r: String)
    ensures
        r@ == filename@ + SYMBOL_ARCHIVE_SUFFIX@,
{
    let mut s = String::from_str(filename);
    s.append(SYMBOL_ARCHIVE_SUFFIX);
    s
}

/// A path segment that names a directory: the text followed by a slash, so
/// that what is joined after it goes inside it rather than replacing it.
pub fn directory_segment(s: &str) -> (r: String)
    ensures
        r@ == s@ + seq!['/'],
{
    let mut r = String::from_str(s);
    r.append("/");
    proof {
        reveal_strlit("/");
    }
    assert(r@ =~= s@ + seq!['/']);
    r
}

/// The server's URL, then the binary's name as a directory, then its build
/// identifier as a directory, then the archive's file name.
pub open spec fn symbol_file_url_spec(filename: Seq<char>, uuid: Seq<char>) -> Option<Seq<char>> {
    match url_join_text(MOZILLA_SYMBOL_SERVER@, filename + seq!['/']) {
        None => None,
        Some(a) => match url_join_text(a, uuid + seq!['/']) {
            None => None,
            Some(b) => url_join_text(b, filename + SYMBOL_ARCHIVE_SUFFIX@),
        },
    }
}

/// Where the symbol server keeps the symbol archive of a binary with this name
/// and build identifier; `None` where a step of the URL does not parse.
pub fn symbol_file_url(filename: &str, uuid: &str) -> (r: Option<String>)
    ensures
        r is Some <==> symbol_file_url_spec(filename@, uuid@) is Some,
        r is Some ==> r->0@ == symbol_file_url_spec(filename@, uuid@)->0,
{
    let sym_file = symbol_archive_name(filename);
    let name_dir = directory_segment(filename);
    let id_dir = directory_segment(uuid);
    let with_name = join_url(MOZILLA_SYMBOL_SERVER, name_dir.as_str())?;
    let with_id = join_url(with_name.as_str(), id_dir.as_str())?;
    join_url(with_id.as_str(), sym_file.as_str())
}

/// Whether an HTTP status from the symbol server says the archive is there:
/// a success (2xx) or a redirection (3xx).
pub fn symbols_found(status: u16) -> (r: bool)
    ensures
        r == (200 <= status && status < 400),
{
    200 <= status && status < 400
}

/// Whether every symbol of a map with `count` symbols is listed.
pub fn lists_every_symbol(count: usize) -> (r: bool)
    ensures
        r == (count < SYMBOL_LISTING_LIMIT),
{
    count < SYMBOL_LISTING_LIMIT
}

/// What has happened so far in the search for a library's symbols.
#[derive(Debug, Clone, Copy, PartialEq, Eq, Structural)]
pub enum SymbolSearchEvent {
    /// The search begins.
    Started,
    /// A symbol map was looked for at the library's own path.
    LocalLoad { found: bool },
    /// The symbol server was asked for the library's archive.
    ServerQueried,
}

/// What the search does next.
#[derive(Debug, Clone, Copy, PartialEq, Eq, Structural)]
pub enum SymbolSearchAction {
    /// Load a symbol map from the library's own path.
    LoadLocal,
    /// Ask the symbol server for the library's archive.
    QueryServer,
    /// Use the symbol map that was loaded.
    UseLocal,
    /// Go on without symbols for this library.
    GiveUp,
}

/// The next step of the search for a library's symbols: libraries that are
/// not searched are given up at once; otherwise the library's own path is
/// tried first, and the symbol server only where that found nothing. The
/// server's answer locates an archive but yields no symbol map.
pub fn next_symbol_search_action(lib_name: &str, event: SymbolSearchEvent) -> (r:
    SymbolSearchAction)
    ensures
        event is Started ==> r == if lib_name@ == MAIN_BINARY@ || lib_name@ == LAUNCHER_BINARY@ {
            SymbolSearchAction::LoadLocal
        } else {
            SymbolSearchAction::GiveUp
        },
        event == (SymbolSearchEvent::LocalLoad { found: true }) ==> r
            == SymbolSearchAction::UseLocal,
        event == (SymbolSearchEvent::LocalLoad { found: false }) ==> r
            == SymbolSearchAction::QueryServer,
        event is ServerQueried ==> r == SymbolSearchAction::GiveUp,
{
    match event {
        SymbolSearchEvent::Started => {
            if is_searched_library(lib_name) {
                SymbolSearchAction::LoadLocal
            } else {
                SymbolSearchAction::GiveUp
            }
        },
        SymbolSearchEvent::LocalLoad { found } => {
            if found {
                SymbolSearchAction::UseLocal
            } else {
                SymbolSearchAction::QueryServer
            }
        },
        SymbolSearchEvent::ServerQueried => SymbolSearchAction::GiveUp,
    }
}

} // verus!

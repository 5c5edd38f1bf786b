use fx_processed_to_clang::symbol_server::{
    directory_segment, is_searched_library, lists_every_symbol, next_symbol_search_action, symbol_archive_name,
    symbol_file_url, symbols_found, SymbolSearchAction, SymbolSearchEvent,
};

#[test]
fn archive_name_appends_suffix() {
    assert_eq!(symbol_archive_name("XUL"), "XUL.dSYM.tar.bz2");
    assert_eq!(symbol_archive_name(""), ".dSYM.tar.bz2");
}

#[test]
fn symbol_file_url_nests_name_and_build_id() {
    assert_eq!(
        symbol_file_url("XUL", "5B2AE053F0313841AF23AA605E66A6470"),
        Some(String::from(
            "https://symbols.mozilla.org/XUL/5B2AE053F0313841AF23AA605E66A6470/XUL.dSYM.tar.bz2"
        ))
    );
    assert_eq!(
        symbol_file_url("firefox", "ABC"),
        Some(String::from("https://symbols.mozilla.org/firefox/ABC/firefox.dSYM.tar.bz2"))
    );
}

#[test]
fn directory_segment_appends_slash() {
    assert_eq!(directory_segment("XUL"), "XUL/");
    assert_eq!(directory_segment(""), "/");
}

#[test]
fn searched_libraries() {
    assert!(is_searched_library("XUL"));
    assert!(is_searched_library("firefox"));
    assert!(!is_searched_library("libc.so.6"));
    assert!(!is_searched_library("xul"));
    assert!(!is_searched_library(""));
}

#[test]
fn server_status_classes() {
    assert!(symbols_found(200));
    assert!(symbols_found(204));
    assert!(symbols_found(302));
    assert!(symbols_found(399));
    assert!(!symbols_found(199));
    assert!(!symbols_found(404));
    assert!(!symbols_found(500));
}

#[test]
fn listing_limit() {
    assert!(lists_every_symbol(0));
    assert!(lists_every_symbol(99));
    assert!(!lists_every_symbol(100));
    assert!(!lists_every_symbol(5000));
}

#[test]
fn search_steps() {
    assert_eq!(
        next_symbol_search_action("XUL", SymbolSearchEvent::Started),
        SymbolSearchAction::LoadLocal
    );
    assert_eq!(
        next_symbol_search_action("dump_syms", SymbolSearchEvent::Started),
        SymbolSearchAction::GiveUp
    );
    assert_eq!(
        next_symbol_search_action("XUL", SymbolSearchEvent::LocalLoad { found: true }),
        SymbolSearchAction::UseLocal
    );
    assert_eq!(
        next_symbol_search_action("firefox", SymbolSearchEvent::LocalLoad { found: false }),
        SymbolSearchAction::QueryServer
    );
    assert_eq!(
        next_symbol_search_action("firefox", SymbolSearchEvent::ServerQueried),
        SymbolSearchAction::GiveUp
    );
}

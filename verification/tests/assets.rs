use spa_assets::assets::{AssetEntry, AssetIndex};

fn file(path: &str, bytes: &[u8]) -> (String, Vec<u8>) {
    (path.to_string(), bytes.to_vec())
}

#[test]
fn entry_keeps_path_and_bytes() {
    let entry = AssetEntry::new("img/logo.png".to_string(), vec![1, 2, 3]);
    assert_eq!(entry.path(), "img/logo.png");
    assert_eq!(entry.bytes(), &[1, 2, 3]);
}

#[test]
fn entry_is_labelled_by_its_path() {
    assert_eq!(AssetEntry::new("a/b.SVG".to_string(), vec![]).content_type(), "image/svg+xml");
    assert_eq!(
        AssetEntry::new("LICENSE".to_string(), vec![]).content_type(),
        "application/octet-stream"
    );
}

#[test]
fn lookup_finds_each_file() {
    let assets = AssetIndex::from_files(vec![
        file("index.html", b"<html></html>"),
        file("css/site.css", b"body{}"),
    ]);
    let page = assets.lookup("index.html").unwrap();
    assert_eq!(page.path(), "index.html");
    assert_eq!(page.bytes(), b"<html></html>");
    assert_eq!(page.content_type(), "text/html");
    let sheet = assets.lookup("css/site.css").unwrap();
    assert_eq!(sheet.path(), "css/site.css");
    assert_eq!(sheet.bytes(), b"body{}");
    assert_eq!(sheet.content_type(), "text/css");
}

#[test]
fn lookup_misses_what_is_not_there() {
    let assets = AssetIndex::from_files(vec![file("index.html", b"x")]);
    assert!(assets.lookup("app.js").is_none());
    assert!(assets.lookup("").is_none());
}

#[test]
fn lookup_in_an_empty_bundle_finds_nothing() {
    let assets = AssetIndex::from_files(Vec::new());
    assert!(assets.lookup("index.html").is_none());
}

#[test]
fn lookup_takes_the_path_as_it_is() {
    let assets = AssetIndex::from_files(vec![file("js/app.js", b"1")]);
    assert!(assets.lookup("/js/app.js").is_none());
    assert!(assets.lookup("js/App.js").is_none());
    assert!(assets.lookup("js/../js/app.js").is_none());
    assert!(assets.lookup("js/app.js/").is_none());
    assert!(assets.lookup("js/app.js").is_some());
}

#[test]
fn later_file_replaces_earlier_of_the_same_path() {
    let assets = AssetIndex::from_files(vec![
        file("a.txt", b"first"),
        file("b.txt", b"other"),
        file("a.txt", b"second"),
    ]);
    assert_eq!(assets.lookup("a.txt").unwrap().bytes(), b"second");
    assert_eq!(assets.lookup("b.txt").unwrap().bytes(), b"other");
}

#[test]
fn empty_file_is_kept() {
    let assets = AssetIndex::from_files(vec![file("empty.txt", b"")]);
    assert_eq!(assets.lookup("empty.txt").unwrap().bytes(), b"");
}

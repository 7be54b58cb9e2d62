use rendezvous::assets::{extension_for, find_asset, has_suffix};

fn names(names: &[&str]) -> Vec<String> {
    names.iter().map(|name| name.to_string()).collect()
}

#[test]
fn paths_ask_for_the_page_or_the_script() {
    assert_eq!(extension_for("/"), "html");
    assert_eq!(extension_for("/pkg/peer.js"), "js");
    assert_eq!(extension_for("/pkg/peer_bg.wasm"), "html");
    assert_eq!(extension_for(""), "html");
    assert_eq!(extension_for("/pkg/peer.js/"), "html");
    assert_eq!(extension_for("/PKG/PEER.JS"), "html");
}

#[test]
fn suffixes() {
    assert!(has_suffix("index.4f2a.html", "html"));
    assert!(has_suffix("html", "html"));
    assert!(has_suffix("anything", ""));
    assert!(has_suffix("", ""));
    assert!(!has_suffix("tml", "html"));
    assert!(!has_suffix("", "html"));
    assert!(!has_suffix("index.html.bak", "html"));
    assert!(!has_suffix("index.HTML", "html"));
    assert!(has_suffix("gr\u{fc}n.\u{1f600}js", "\u{1f600}js"));
    assert!(!has_suffix("peer.js", "xpeer.js"));
}

#[test]
fn the_first_asset_of_the_kind_is_served() {
    let stored = names(&["index.1a.html", "pkg/peer.2b.js", "pkg/peer_bg.3c.wasm", "other.html"]);
    assert_eq!(find_asset(&stored, "html"), Some(0));
    assert_eq!(find_asset(&stored, "js"), Some(1));
    assert_eq!(find_asset(&stored, "wasm"), Some(2));
    assert_eq!(find_asset(&stored, "css"), None);
    assert_eq!(find_asset(&stored, ""), Some(0));
    assert_eq!(find_asset(&names(&[]), "html"), None);
    assert_eq!(find_asset(&names(&["a.js", "b.js", "c.html"]), "html"), Some(2));
}

use chipmunk::domain::postprocessors::{contains_text, PostprocessorCapabilities};
use chipmunk::error::ChipmunkError;
use chipmunk::nc::bridge::{finish_nc, PostprocessorReturn};
use chipmunk::nc::postprocessors::{
    find_postprocessor, find_postprocessor_in, first_existing, join_path, postprocessor_candidates, postprocessor_name, postprocessor_names,
    postprocessor_search_dirs, str_lt,
};

fn strings(items: &[&str]) -> Vec<String> {
    items.iter().map(|s| s.to_string()).collect()
}

#[test]
fn capabilities_insert_and_look_up() {
    let mut caps = PostprocessorCapabilities::new();
    assert!(!caps.has("drill"));
    assert!(caps.cycle("drill").is_none());
    caps.insert("drill".to_string(), strings(&["circular"]));
    caps.insert("bore".to_string(), strings(&[]));
    assert!(caps.has("drill"));
    assert_eq!(caps.cycle("drill").unwrap(), &strings(&["circular"]));
    // A second insert replaces what was recorded.
    caps.insert("drill".to_string(), strings(&["linear"]));
    assert_eq!(caps.cycle("drill").unwrap(), &strings(&["linear"]));
    assert_eq!(caps.cycle("bore").unwrap(), &strings(&[]));
    assert!(PostprocessorCapabilities::default().cycle("bore").is_none());
}

#[test]
fn contains_text_finds_exact_matches() {
    let list = strings(&["linear", "circular"]);
    assert!(contains_text(&list, "circular"));
    assert!(!contains_text(&list, "circ"));
    assert!(!contains_text(&strings(&[]), "circular"));
}

#[test]
fn join_path_like_pathbuf() {
    assert_eq!(join_path("postprocessors", "haas.lua"), "postprocessors/haas.lua");
    assert_eq!(join_path("/home/a/.config/", "chipmunk/postprocessors"), "/home/a/.config/chipmunk/postprocessors");
    assert_eq!(join_path("", "haas.lua"), "haas.lua");
    assert_eq!(join_path("postprocessors", "/etc/pp.lua"), "/etc/pp.lua");
}

#[test]
fn search_dirs_with_and_without_config() {
    assert_eq!(postprocessor_search_dirs(&None), strings(&["postprocessors"]));
    assert_eq!(
        postprocessor_search_dirs(&Some("/home/a/.config".to_string())),
        strings(&["postprocessors", "/home/a/.config/chipmunk/postprocessors"])
    );
}

#[test]
fn missing_postprocessor_is_not_found() {
    let dirs = strings(&["/nonexistent/chipmunk/a", "/nonexistent/chipmunk/b"]);
    assert_eq!(find_postprocessor_in(&dirs, "heidenhain"), None);
    assert_eq!(find_postprocessor("no-such-postprocessor-anywhere"), None);
}

#[test]
fn postprocessor_file_names() {
    assert_eq!(postprocessor_name("haas.lua"), Some("haas".to_string()));
    assert_eq!(postprocessor_name("a.b.lua"), Some("a.b".to_string()));
    assert_eq!(postprocessor_name("base.lua"), None);
    assert_eq!(postprocessor_name(".lua"), None);
    assert_eq!(postprocessor_name("haas.txt"), None);
    assert_eq!(postprocessor_name("lua"), None);
    assert_eq!(postprocessor_name("..lua"), Some(".".to_string()));
}

#[test]
fn postprocessor_listing_is_sorted_and_unique() {
    let files = strings(&["heidenhain.lua", "base.lua", "README.md", "haas.lua", "heidenhain.lua", "Z.lua"]);
    assert_eq!(postprocessor_names(&files), strings(&["Z", "haas", "heidenhain"]));
    let mut reversed = files.clone();
    reversed.reverse();
    assert_eq!(postprocessor_names(&reversed), postprocessor_names(&files));
}

#[test]
fn string_order() {
    assert!(str_lt("a", "b"));
    assert!(str_lt("ab", "abc"));
    assert!(!str_lt("abc", "ab"));
    assert!(!str_lt("same", "same"));
    assert!(str_lt("Z", "a"));
    assert!(str_lt("é", "ü"));
}

#[test]
fn finish_adds_missing_newline() {
    assert_eq!(finish_nc(PostprocessorReturn::Text("G0 X0".to_string())), Ok("G0 X0\n".to_string()));
    assert_eq!(finish_nc(PostprocessorReturn::Text("G0 X0\n".to_string())), Ok("G0 X0\n".to_string()));
    assert_eq!(finish_nc(PostprocessorReturn::Text(String::new())), Ok("\n".to_string()));
    let once = finish_nc(PostprocessorReturn::Text("END".to_string())).unwrap();
    assert_eq!(finish_nc(PostprocessorReturn::Text(once.clone())).unwrap(), once);
}

#[test]
fn finish_reports_postprocessor_errors() {
    assert_eq!(finish_nc(PostprocessorReturn::Nothing), Err(ChipmunkError::PostprocessorNoValue));
    assert_eq!(
        finish_nc(PostprocessorReturn::Nil(Some("no tool".to_string()))),
        Err(ChipmunkError::PostprocessorFailed("no tool".to_string()))
    );
    assert_eq!(
        finish_nc(PostprocessorReturn::Nil(None)),
        Err(ChipmunkError::PostprocessorFailed("unknown postprocessor error".to_string()))
    );
    assert_eq!(
        finish_nc(PostprocessorReturn::Other("table".to_string())),
        Err(ChipmunkError::PostprocessorUnexpectedType("table".to_string()))
    );
}

#[test]
fn candidates_one_per_directory() {
    let dirs = strings(&["postprocessors", "/home/a/.config/chipmunk/postprocessors/"]);
    assert_eq!(
        postprocessor_candidates(&dirs, "haas"),
        strings(&["postprocessors/haas.lua", "/home/a/.config/chipmunk/postprocessors/haas.lua"])
    );
}

#[test]
fn first_existing_takes_the_first_present_path() {
    let paths = strings(&["a.lua", "b.lua", "c.lua"]);
    assert_eq!(first_existing(&paths, &vec![false, true, true]), Some("b.lua".to_string()));
    assert_eq!(first_existing(&paths, &vec![true, true, true]), Some("a.lua".to_string()));
    assert_eq!(first_existing(&paths, &vec![false, false, false]), None);
    assert_eq!(first_existing(&paths, &vec![false]), None);
}

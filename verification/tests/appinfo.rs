use keyfit::appinfo::{
    app_info_from_bundle, app_info_from_exe_path, exe_name, fallback_bundle_id,
    get_active_app_info, remove_spaces,
};

#[test]
fn no_resolver_means_no_application() {
    assert_eq!(get_active_app_info(), None);
}

#[test]
fn exe_name_is_the_last_component() {
    assert_eq!(exe_name("C:\\Program Files\\Editor\\editor.exe"), "editor.exe");
    assert_eq!(exe_name("editor.exe"), "editor.exe");
    assert_eq!(exe_name("C:\\dir\\"), "");
    assert_eq!(exe_name(""), "");
    assert_eq!(exe_name("\\"), "");
    assert_eq!(exe_name("C:\\Programme\\Büro\\schreiber.exe"), "schreiber.exe");
}

#[test]
fn exe_path_is_the_identifier() {
    let (name, id) = app_info_from_exe_path("C:\\Windows\\notepad.exe".to_string());
    assert_eq!(name, "notepad.exe");
    assert_eq!(id, "C:\\Windows\\notepad.exe");
}

#[test]
fn spaces_are_removed() {
    assert_eq!(remove_spaces("a b  c "), "abc");
    assert_eq!(remove_spaces("   "), "");
    assert_eq!(remove_spaces(""), "");
    assert_eq!(remove_spaces("tab\tstays"), "tab\tstays");
}

#[test]
fn fallback_identifier_is_lower_case_without_spaces() {
    assert_eq!(fallback_bundle_id("My Cool App"), "com.mycoolapp.app");
    assert_eq!(fallback_bundle_id("Safari"), "com.safari.app");
    assert_eq!(fallback_bundle_id("ÄÖ Ü"), "com.äöü.app");
    assert_eq!(fallback_bundle_id(""), "com..app");
}

#[test]
fn bundle_path_is_the_identifier_where_there_is_one() {
    let with_path =
        app_info_from_bundle("Safari".to_string(), Some("/Applications/Safari.app".to_string()));
    assert_eq!(with_path, ("Safari".to_string(), "/Applications/Safari.app".to_string()));
    let without = app_info_from_bundle("Text Edit".to_string(), None);
    assert_eq!(without, ("Text Edit".to_string(), "com.textedit.app".to_string()));
}

use fastlog::civil::CivilDate;
use fastlog::rotate::rotated_path;

const D: CivilDate = CivilDate { year: 2024, month: 1, day: 15 };

#[test]
fn stem_and_extension_get_the_date_between_them() {
    assert_eq!(rotated_path("app.log", D).as_str(), "app_20240115.log");
}

#[test]
fn parent_directories_are_kept() {
    assert_eq!(
        rotated_path("var/log/app.log", D).as_str(),
        "var/log/app_20240115.log"
    );
}

#[test]
fn no_extension_appends_a_log_suffix() {
    assert_eq!(rotated_path("app", D).as_str(), "app_20240115.log");
}

#[test]
fn hidden_file_without_extension_uses_the_fallback() {
    assert_eq!(rotated_path(".hidden", D).as_str(), ".hidden_20240115.log");
}

#[test]
fn only_the_last_dot_starts_the_extension() {
    assert_eq!(rotated_path("a.b.c", D).as_str(), "a.b_20240115.c");
}

#[test]
fn a_dot_in_a_directory_name_is_not_an_extension() {
    assert_eq!(
        rotated_path("dir.d/noext", D).as_str(),
        "dir.d/noext_20240115.log"
    );
}

#[test]
fn date_fields_are_zero_padded() {
    let d = CivilDate { year: 987, month: 3, day: 4 };
    assert_eq!(rotated_path("app.log", d).as_str(), "app_09870304.log");
}

use mk_oracle::files::{
    find_sql_files, get_file_version, is_query_file, parse_u32, split_version_tag, version_if_same_name,
};
use mk_oracle::section::{get_sql_id, Catalog, Id, Section, SectionConfig, SectionKind, IO_STATS};

#[test]
fn test_section_header() {
    let section = Section::make_instance_section();
    assert_eq!(
        section.to_plain_header(),
        "<<<oracle_instance:sep(124)>>>\n"
    );
    assert_eq!(section.to_work_header(None), "<<<oracle_instance:sep(124)>>>\n");

    let section = Section::new(&SectionConfig::new("backup").set_async(true), 100);
    assert_eq!(section.to_plain_header(), "<<<oracle_backup:sep(124)>>>\n");
    assert!(section
        .to_work_header(Some(1700000000))
        .starts_with("<<<oracle_backup:cached("));
    assert!(section.to_work_header(Some(1700000000)).ends_with("100):sep(124)>>>\n"));

    let section = Section::new(&SectionConfig::new("jobs").set_async(true), 100);
    assert!(section
        .to_work_header(Some(1700000000))
        .starts_with("<<<oracle_jobs:cached("));
    let section = Section::new(&SectionConfig::new("jobs").set_async(false), 100);
    assert_eq!(section.to_work_header(Some(1700000000)), "<<<oracle_jobs:sep(124)>>>\n");
}

#[test]
fn test_get_ids() {
    assert_eq!(get_sql_id(IO_STATS).unwrap(), Id::IoStats);
    assert!(get_sql_id("").is_none());
}

#[test]
fn unknown_section_has_no_compiled_query() {
    assert!(get_sql_id("no_such_section").is_none());
    assert!(get_sql_id("IOSTATS").is_none());
}

#[test]
fn work_header_exact_text() {
    let section = Section::new(&SectionConfig::new("backup").set_async(true), 100);
    assert_eq!(
        section.to_work_header(Some(1700000000)),
        "<<<oracle_backup:cached(1700000000,100):sep(124)>>>\n"
    );
    assert_eq!(
        section.to_work_header(None),
        "<<<oracle_backup:cached(0,100):sep(124)>>>\n"
    );
}

#[test]
fn sync_work_header_equals_plain() {
    let section = Section::new(&SectionConfig::new("tablespaces"), 600);
    assert_eq!(section.kind(), SectionKind::Sync);
    assert_eq!(section.to_work_header(Some(42)), section.to_plain_header());
    assert_eq!(section.cache_age(), 0);
}

#[test]
fn async_section_kind_and_age() {
    let section = Section::new(&SectionConfig::new("jobs").set_async(true), 7);
    assert_eq!(section.kind(), SectionKind::Async);
    assert_eq!(section.cache_age(), 7);
    assert!(section.to_work_header(Some(5)).contains(":cached("));
    assert!(section.to_work_header(Some(5)).ends_with(",7):sep(124)>>>\n"));
}

#[test]
fn accessors() {
    let mut config = SectionConfig::new("locks");
    config.sep = ',';
    let section = Section::new(&config, 0);
    assert_eq!(section.name().as_str(), "locks");
    assert_eq!(section.header_name(), "oracle_locks");
    assert_eq!(section.sep(), ',');
    assert_eq!(section.to_plain_header(), "<<<oracle_locks:sep(44)>>>\n");
}

fn names(v: &[&str]) -> Vec<String> {
    v.iter().map(|s| s.to_string()).collect()
}

#[test]
fn versioned_override_is_chosen_by_instance_version() {
    let dir = names(&["5@backup.sql", "backup.sql", "jobs.sql"]);
    let section = Section::new(&SectionConfig::new("backup"), 0);
    assert_eq!(section.find_provided_query(&dir, 10), Some(0));
    assert_eq!(section.find_provided_query(&dir, 3), Some(1));
    assert_eq!(section.find_provided_query(&dir, 5), Some(0));
}

#[test]
fn version_zero_file_is_always_eligible() {
    let dir = names(&["5@backup.sql", "backup.sql"]);
    let section = Section::new(&SectionConfig::new("backup"), 0);
    assert_eq!(section.find_provided_query(&dir, 0), Some(1));
    let dir = names(&["5@backup.sql"]);
    assert_eq!(section.find_provided_query(&dir, 4), None);
}

#[test]
fn malformed_version_tag_counts_as_zero() {
    assert_eq!(get_file_version("v5@backup.sql", "backup"), Some(0));
    assert_eq!(get_file_version("12@BackUp.sql", "backup"), Some(12));
    assert_eq!(get_file_version("99999999999@backup.sql", "backup"), Some(0));
}

#[test]
fn file_versions() {
    assert_eq!(get_file_version("BACKUP.sql", "backup"), Some(0));
    assert_eq!(get_file_version("backup.txt", "backup"), Some(0));
    assert_eq!(get_file_version("5@backup.txt", "backup"), Some(5));
    assert_eq!(get_file_version("backup", "backup"), Some(0));
    assert_eq!(get_file_version(".sql", "backup"), None);
    assert_eq!(get_file_version(".backup", ".backup"), Some(0));
    assert_eq!(get_file_version("jobs.sql", "backup"), None);
    assert_eq!(get_file_version("1@2@backup.sql", "backup"), Some(0));
    assert_eq!(get_file_version("7@x.backup.sql", "x.backup"), Some(7));
}

#[test]
fn candidates_in_trial_order() {
    let dir = names(&["backup.sql", "3@backup.sql", "a.txt", "backup@1.sql", "3@BACKUP.sql"]);
    assert_eq!(find_sql_files(&dir, "backup"), vec![(3, 4), (3, 1), (0, 0)]);
    assert!(find_sql_files(&Vec::new(), "backup").is_empty());
}

#[test]
fn numbers_read_as_std_does() {
    assert_eq!(parse_u32("0"), Some(0));
    assert_eq!(parse_u32("+17"), Some(17));
    assert_eq!(parse_u32("4294967295"), Some(4294967295));
    assert_eq!(parse_u32("4294967296"), None);
    assert_eq!(parse_u32(""), None);
    assert_eq!(parse_u32("+"), None);
    assert_eq!(parse_u32("-1"), None);
    assert_eq!(parse_u32("1a"), None);
}

#[test]
fn query_selection() {
    let catalog = Catalog::new(vec![(Id::IoStats, String::from("select io"))]);
    let io = Section::new(&SectionConfig::new("iostats"), 0);
    assert_eq!(
        io.select_query(Some(String::from("override")), &catalog),
        Some(String::from("select io"))
    );
    let backup = Section::new(&SectionConfig::new("backup"), 0);
    assert_eq!(
        backup.select_query(Some(String::from("A")), &catalog),
        Some(String::from("A"))
    );
    assert_eq!(backup.select_query(None, &catalog), None);
    assert_eq!(io.select_query(None, &Catalog::new(Vec::new())), None);
}

#[test]
fn catalog_lookup_takes_first_entry() {
    let catalog = Catalog::new(vec![
        (Id::IoStats, String::from("first")),
        (Id::IoStats, String::from("second")),
    ]);
    assert_eq!(catalog.find_known_query(Id::IoStats), Some(String::from("first")));
    assert_eq!(Catalog::new(Vec::new()).find_known_query(Id::IoStats), None);
}

#[test]
fn version_tag_split() {
    assert_eq!(split_version_tag("5@backup"), (Some("5"), "backup"));
    assert_eq!(split_version_tag("1@2@backup"), (Some("1@2"), "backup"));
    assert_eq!(split_version_tag("backup"), (None, "backup"));
    assert_eq!(split_version_tag("@"), (Some(""), ""));
}

#[test]
fn version_from_lowered_names() {
    assert_eq!(version_if_same_name(Some("5"), "backup", "backup"), Some(5));
    assert_eq!(version_if_same_name(Some("v5"), "backup", "backup"), Some(0));
    assert_eq!(version_if_same_name(None, "backup", "backup"), Some(0));
    assert_eq!(version_if_same_name(Some("5"), "jobs", "backup"), None);
    assert_eq!(version_if_same_name(None, "Backup", "backup"), None);
}

#[test]
fn query_extension() {
    assert!(is_query_file("backup.sql"));
    assert!(is_query_file("5@backup.sql"));
    assert!(!is_query_file("backup.txt"));
    assert!(!is_query_file("backup"));
    assert!(!is_query_file(".sql"));
    assert!(!is_query_file("backup.sql.bak"));
}

#[test]
fn override_files_skipped_for_io_stats() {
    assert!(!Section::new(&SectionConfig::new("iostats"), 0).reads_override_files());
    assert!(Section::new(&SectionConfig::new("backup"), 0).reads_override_files());
}

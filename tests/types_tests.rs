use mk_oracle::types::{
    use_sep, InstanceName, Port, SectionName, Separator, ServiceName, ServiceType, SqlQuery,
};

#[test]
fn test_instance_name() {
    assert_eq!(&InstanceName::from("teST").to_string(), "TEST");
}

#[test]
fn test_sql_query() {
    assert_eq!(
        SqlQuery::new("a {sep} b", Separator::No).as_str(),
        "a {sep} b"
    );
    assert_eq!(
        SqlQuery::new("a {sep} b", Separator::Comma).as_str(),
        "a , b"
    );
    assert_eq!(
        SqlQuery::new("a {sep} b", Separator::default()).as_str(),
        "a || '|' || b"
    );
    assert_eq!(
        SqlQuery::new("a {sep} b", Separator::Decorated('x')).as_str(),
        "a || 'x' || b"
    );
}

#[test]
fn test_make_query() {
    const QUERY: &str = "a{sep}b{sep}c";
    assert_eq!(use_sep(QUERY, ","), "a,b,c");
}

#[test]
fn decorated_pipe_separator() {
    assert_eq!(
        SqlQuery::new("a {sep} b", Separator::Decorated('|')).as_str(),
        "a || '|' || b"
    );
}

#[test]
fn template_without_marker_is_kept() {
    assert_eq!(SqlQuery::new("select 1", Separator::Comma).as_str(), "select 1");
    assert_eq!(SqlQuery::new("", Separator::Comma).as_str(), "");
}

#[test]
fn partial_and_adjacent_markers() {
    assert_eq!(use_sep("{se{sep}{sep}p}", ";"), "{se;;p}");
    assert_eq!(use_sep("{sep", ";"), "{sep");
}

#[test]
fn query_separator_character() {
    assert_eq!(SqlQuery::new("x", Separator::No).sep(), None);
    assert_eq!(SqlQuery::new("x", Separator::Comma).sep(), None);
    assert_eq!(SqlQuery::new("x", Separator::Decorated('#')).sep(), Some('#'));
    assert_eq!(Separator::default(), Separator::Decorated('|'));
}

#[test]
fn names_keep_their_text() {
    assert_eq!(SectionName::new(String::from("backup")).as_str(), "backup");
    assert_eq!(InstanceName::from("orcl").as_str(), "ORCL");
    assert!(InstanceName::from("a") == InstanceName::from("A"));
    assert_eq!(Port(1521).value(), 1521);
}

#[test]
fn queries_compare_by_text_and_policy() {
    assert!(SqlQuery::new("a{sep}", Separator::Comma) == SqlQuery::new("a,", Separator::Comma));
    assert!(SqlQuery::new("a,", Separator::No) != SqlQuery::new("a,", Separator::Comma));
}

#[test]
fn port_and_service_text() {
    assert_eq!(Port(0).to_string(), "0");
    assert_eq!(Port(65535).to_string(), "65535");
    assert_eq!(ServiceName::from("orcl.example").as_str(), "orcl.example");
    assert_eq!(ServiceType::from("dedicated").as_str(), "dedicated");
}

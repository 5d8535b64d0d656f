use vstd::prelude::*;

verus! {

/// The extension that marks a query file.
pub const SQL_QUERY_EXTENSION: &'static str = "sql";

pub open spec fn sql_extension() -> Seq<char> {
    seq!['s', 'q', 'l']
}

/// The lower case form of `s`, as the standard library computes it.
pub uninterp spec fn lower_of(s: Seq<char>) -> Seq<char>;

/// Relies on `str::to_lowercase`: the result depends on the characters alone.
#[verifier::external_body]
fn to_lower(s: &str) -> (r: String)
    ensures
        r@ == lower_of(s@),
{
    s.to_lowercase()
}

/// Whether `i` is the position of the last `c` in `s`.
pub open spec fn is_last_index(s: Seq<char>, c: char, i: int) -> bool {
    0 <= i < s.len() && s[i] == c && forall|j: int| i < j < s.len() ==> s[j] != c
}

pub open spec fn digit_value(c: char) -> int {
    (c as u32) as int - ('0' as u32) as int
}

pub open spec fn is_digit(c: char) -> bool {
    '0' <= c && c <= '9'
}

/// The number that the decimal digits `s` spell.
pub open spec fn digits_value(s: Seq<char>) -> int
    decreases s.len(),
{
    if s.len() == 0 {
        0
    } else {
        digits_value(s.drop_last()) * 10 + digit_value(s.last())
    }
}

/// What reading `s` as an unsigned 32-bit number gives: an optional `+`, then one
/// or more decimal digits whose value fits.
pub open spec fn parse_u32_spec(s: Seq<char>) -> Option<u32> {
    d_result(if s.len() > 0 && s[0] == '+' { s.subrange(1, s.len() as int) } else { s })
}

/// What the digits part `d` of a number gives.
pub open spec fn d_result(d: Seq<char>) -> Option<u32> {
    if d.len() > 0 && (forall|i: int| 0 <= i < d.len() ==> is_digit(#[trigger] d[i]))
        && digits_value(d) <= u32::MAX {
        Some(digits_value(d) as u32)
    } else {
        None
    }
}

/// A file stem split at its last `@` into the version tag before it and the
/// name after it; a stem without `@` is all name.
pub open spec fn split_tag(stem: Seq<char>) -> (Option<Seq<char>>, Seq<char>) {
    if exists|i: int| is_last_index(stem, '@', i) {
        let i = choose|i: int| is_last_index(stem, '@', i);
        (Some(stem.subrange(0, i)), stem.subrange(i + 1, stem.len() as int))
    } else {
        (None, stem)
    }
}

/// The minimum version that a version tag gives: its number, or 0 where it has
/// none or does not read as a number.
pub open spec fn tag_version(tag: Option<Seq<char>>) -> u32 {
    match tag {
        Some(t) => match parse_u32_spec(t) {
            Some(v) => v,
            None => 0,
        },
        None => 0,
    }
}

/// The minimum version of a file of the section, given the file's version tag
/// and the lower case forms of the file's section name and of the section's.
pub open spec fn version_if_named(
    tag: Option<Seq<char>>,
    lowered_name: Seq<char>,
    lowered_section: Seq<char>,
) -> Option<u32> {
    if lowered_name == lowered_section {
        Some(tag_version(tag))
    } else {
        None
    }
}

/// The minimum version that the file stem `stem` gives for `section_name`, if the
/// stem names that section, matched without regard to case.
pub open spec fn stem_version(stem: Seq<char>, section_name: Seq<char>) -> Option<u32> {
    version_if_named(split_tag(stem).0, lower_of(split_tag(stem).1), lower_of(section_name))
}

/// The stem of a file name, as `Path::file_stem` gives it: the name up to its
/// last dot, unless that dot is the first character; else the whole name.
pub open spec fn file_stem_spec(file_name: Seq<char>) -> Seq<char> {
    if exists|i: int| is_last_index(file_name, '.', i) && i > 0 {
        let i = choose|i: int| is_last_index(file_name, '.', i) && i > 0;
        file_name.subrange(0, i)
    } else {
        file_name
    }
}

/// Whether a file name carries the query extension: the text after its last
/// dot, where that dot is not the first character, is `sql`.
pub open spec fn has_query_extension(file_name: Seq<char>) -> bool {
    exists|i: int|
        is_last_index(file_name, '.', i) && i > 0 && file_name.subrange(i + 1, file_name.len() as int)
            == sql_extension()
}

/// The minimum version of the directory entry `file_name` for `section_name`,
/// if it is a query file of that section.
pub open spec fn file_version_spec(file_name: Seq<char>, section_name: Seq<char>) -> Option<u32> {
    if has_query_extension(file_name) {
        stem_version(file_stem_spec(file_name), section_name)
    } else {
        None
    }
}

proof fn lemma_last_index_unique(s: Seq<char>, c: char, i: int, j: int)
    requires
        is_last_index(s, c, i),
        is_last_index(s, c, j),
    ensures
        i == j,
{
}

/// Finds the last `c` in `s`, whose length is `n`.
fn find_last(s: &str, n: usize, c: char) -> (r: Option<usize>)
    requires
        n == s@.len(),
    ensures
        match r {
            Some(i) => is_last_index(s@, c, i as int),
            None => forall|i: int| 0 <= i < s@.len() ==> s@[i] != c,
        },
{
    let mut k: usize = n;
    while k > 0
        invariant
            k <= n,
            n == s@.len(),
            forall|j: int| k <= j < n ==> s@[j] != c,
        decreases k,
    {
        if s.get_char(k - 1) == c {
            return Some(k - 1);
        }
        k = k - 1;
    }
    None
}

proof fn lemma_digits_value_bound(s: Seq<char>)
    requires
        forall|i: int| 0 <= i < s.len() ==> is_digit(#[trigger] s[i]),
    ensures
        digits_value(s) >= 0,
    decreases s.len(),
{
    if s.len() > 0 {
        assert forall|i: int| 0 <= i < s.drop_last().len() implies is_digit(
            #[trigger] s.drop_last()[i],
        ) by {
            assert(s.drop_last()[i] == s[i]);
        }
        lemma_digits_value_bound(s.drop_last());
        assert(is_digit(s[s.len() - 1]));
    }
}

/// Reads `s` as an unsigned 32-bit number, as `str::parse` does.
pub fn parse_u32(s: &str) -> (r: Option<u32>)
    ensures
        r == parse_u32_spec(s@),
{
    let n = s.unicode_len();
    let start: usize = if n > 0 && s.get_char(0) == '+' { 1 } else { 0 };
    let ghost d = if s@.len() > 0 && s@[0] == '+' { s@.subrange(1, s@.len() as int) } else { s@ };
    assert(d =~= s@.subrange(start as int, n as int));
    assert(parse_u32_spec(s@) == d_result(d));
    if start == n {
        return None;
    }
    let mut value: u32 = 0;
    let mut i: usize = start;
    while i < n
        invariant
            start <= i <= n,
            n == s@.len(),
            d =~= s@.subrange(start as int, n as int),
            parse_u32_spec(s@) == d_result(d),
            forall|j: int| start <= j < i ==> is_digit(#[trigger] s@[j]),
            value as int == digits_value(s@.subrange(start as int, i as int)),
        decreases n - i,
    {
        let c = s.get_char(i);
        if !('0' <= c && c <= '9') {
            proof {
                assert(d[i - start] == c);
                assert(!is_digit(d[i - start]));
                assert(!(forall|j: int| 0 <= j < d.len() ==> is_digit(#[trigger] d[j])));
            }
            return None;
        }
        let ghost prefix = s@.subrange(start as int, i as int + 1);
        assert(prefix.drop_last() =~= s@.subrange(start as int, i as int));
        assert(prefix.last() == c);
        let dv = (c as u32) - ('0' as u32);
        if value > 429496729 || (value == 429496729 && dv > 5) {
            proof {
                assert(digits_value(prefix) == value * 10 + dv);
                assert(digits_value(prefix) > u32::MAX) by (nonlinear_arith)
                    requires
                        digits_value(prefix) == value * 10 + dv,
                        value > 429496729 || (value == 429496729 && dv > 5),
                ;
                assert(prefix =~= d.subrange(0, i - start + 1));
                if forall|j: int| 0 <= j < d.len() ==> is_digit(#[trigger] d[j]) {
                    lemma_prefix_value_bound(d, (i - start + 1) as int);
                }
            }
            return None;
        }
        value = value * 10 + dv;
        i = i + 1;
    }
    assert(s@.subrange(start as int, n as int) =~= d);
    Some(value)
}

proof fn lemma_prefix_value_bound(d: Seq<char>, k: int)
    requires
        0 <= k <= d.len(),
        forall|i: int| 0 <= i < d.len() ==> is_digit(#[trigger] d[i]),
    ensures
        digits_value(d) >= digits_value(d.subrange(0, k)),
    decreases d.len(),
{
    if k < d.len() {
        assert(d.drop_last().len() == d.len() - 1);
        assert forall|i: int| 0 <= i < d.drop_last().len() implies is_digit(
            #[trigger] d.drop_last()[i],
        ) by {
            assert(d.drop_last()[i] == d[i]);
        }
        lemma_prefix_value_bound(d.drop_last(), k);
        assert(d.drop_last().subrange(0, k) =~= d.subrange(0, k));
        lemma_digits_value_bound(d.drop_last());
        assert(is_digit(d[d.len() - 1]));
    } else {
        assert(d.subrange(0, k) =~= d);
    }
}

pub open spec fn opt_str_view(o: Option<&str>) -> Option<Seq<char>> {
    match o {
        Some(t) => Some(t@),
        None => None,
    }
}

/// Splits a file stem into its version tag and its section name.
pub fn split_version_tag(stem: &str) -> (r: (Option<&str>, &str))
    ensures
        (opt_str_view(r.0), r.1@) == split_tag(stem@),
{
    let n = stem.unicode_len();
    match find_last(stem, n, '@') {
        Some(at) => {
            proof {
                let j = choose|j: int| is_last_index(stem@, '@', j);
                lemma_last_index_unique(stem@, '@', at as int, j);
            }
            (Some(stem.substring_char(0, at)), stem.substring_char(at + 1, n))
        },
        None => (None, stem),
    }
}

/// The minimum version of a file of the section: `None` where the lower case
/// names differ, else the number in `tag`, or 0 where there is none.
pub fn version_if_same_name(tag: Option<&str>, lowered_name: &str, lowered_section: &str) -> (r:
    Option<u32>)
    ensures
        r == version_if_named(opt_str_view(tag), lowered_name@, lowered_section@),
{
    if String::from_str(lowered_name) == String::from_str(lowered_section) {
        match tag {
            Some(t) => match parse_u32(t) {
                Some(v) => Some(v),
                None => Some(0),
            },
            None => Some(0),
        }
    } else {
        None
    }
}

/// The minimum version that the file stem `stem` gives for `section_name`.
fn stem_version_of(stem: &str, section_name: &str) -> (r: Option<u32>)
    ensures
        r == stem_version(stem@, section_name@),
{
    let (tag, name) = split_version_tag(stem);
    let lowered_name = to_lower(name);
    let lowered_section = to_lower(section_name);
    version_if_same_name(tag, lowered_name.as_str(), lowered_section.as_str())
}

/// Whether the file name `file_name` carries the query extension.
pub fn is_query_file(file_name: &str) -> (r: bool)
    ensures
        r == has_query_extension(file_name@),
{
    let n = file_name.unicode_len();
    match find_last(file_name, n, '.') {
        None => false,
        Some(dot) => {
            proof {
                reveal_strlit("sql");
                assert forall|j: int| is_last_index(file_name@, '.', j) implies j == dot by {
                    lemma_last_index_unique(file_name@, '.', dot as int, j);
                }
            }
            assert(SQL_QUERY_EXTENSION@ =~= sql_extension());
            if dot == 0 {
                return false;
            }
            let ext = String::from_str(file_name.substring_char(dot + 1, n));
            ext == String::from_str(SQL_QUERY_EXTENSION)
        },
    }
}

/// The minimum version that the file `file_name` gives for `section_name`, read
/// from its stem whatever its extension, or `None` where the stem names
/// another section.
pub fn get_file_version(file_name: &str, section_name: &str) -> (r: Option<u32>)
    ensures
        r == stem_version(file_stem_spec(file_name@), section_name@),
{
    let n = file_name.unicode_len();
    match find_last(file_name, n, '.') {
        Some(dot) if dot > 0 => {
            proof {
                let j = choose|j: int| is_last_index(file_name@, '.', j) && j > 0;
                lemma_last_index_unique(file_name@, '.', dot as int, j);
            }
            stem_version_of(file_name.substring_char(0, dot), section_name)
        },
        _ => {
            assert(file_stem_spec(file_name@) == file_name@);
            stem_version_of(file_name, section_name)
        },
    }
}

/// Whether candidate `a` is tried before candidate `b`: the higher minimum
/// version first, and of equal versions the one listed later.
pub open spec fn ranks_before(a: (u32, usize), b: (u32, usize)) -> bool {
    a.0 > b.0 || (a.0 == b.0 && a.1 > b.1)
}

/// Whether `c` lists, in the order they are tried, exactly the query files
/// among `names` of `section_name`, each as its minimum version and position.
pub open spec fn is_candidate_list(
    c: Seq<(u32, usize)>,
    names: Seq<Seq<char>>,
    section_name: Seq<char>,
) -> bool {
    &&& forall|i: int, j: int| 0 <= i < j < c.len() ==> ranks_before(#[trigger] c[i], #[trigger] c[j])
    &&& forall|i: int|
        0 <= i < c.len() ==> (#[trigger] c[i]).1 < names.len() && file_version_spec(names[c[i].1 as int], section_name)
            == Some(c[i].0)
    &&& forall|k: int|
        0 <= k < names.len() && (#[trigger] file_version_spec(names[k], section_name)) is Some
            ==> exists|i: int| 0 <= i < c.len() && c[i].1 == k
}

/// The character sequences of `v`.
pub open spec fn views(v: Seq<String>) -> Seq<Seq<char>> {
    v.map_values(|s: String| s@)
}

/// The query files among the directory entries `file_names` that belong to
/// `section_name`, as minimum version and position, highest version first.
pub fn find_sql_files(file_names: &Vec<String>, section_name: &str) -> (r: Vec<(u32, usize)>)
    ensures
        is_candidate_list(r@, views(file_names@), section_name@),
{
    let ghost names = views(file_names@);
    let mut r: Vec<(u32, usize)> = Vec::new();
    let mut k: usize = 0;
    while k < file_names.len()
        invariant
            k <= file_names.len(),
            names == views(file_names@),
            forall|i: int, j: int| 0 <= i < j < r@.len() ==> ranks_before(#[trigger] r@[i], #[trigger] r@[j]),
            forall|i: int|
                0 <= i < r@.len() ==> (#[trigger] r@[i]).1 < k && file_version_spec(names[r@[i].1 as int], section_name@)
                    == Some(r@[i].0),
            forall|k2: int|
                0 <= k2 < k && (#[trigger] file_version_spec(names[k2], section_name@)) is Some
                    ==> exists|i: int| 0 <= i < r@.len() && r@[i].1 == k2,
        decreases file_names.len() - k,
    {
        assert(names[k as int] == file_names@[k as int]@);
        let version = if is_query_file(file_names[k].as_str()) {
            get_file_version(file_names[k].as_str(), section_name)
        } else {
            None
        };
        if let Some(v) = version {
            let mut pos: usize = 0;
            while pos < r.len() && r[pos].0 > v
                invariant
                    pos <= r@.len(),
                    forall|i: int| 0 <= i < pos ==> (#[trigger] r@[i]).0 > v,
                decreases r@.len() - pos,
            {
                pos = pos + 1;
            }
            let ghost old_r = r@;
            r.insert(pos, (v, k));
            proof {
                old_r.insert_ensures(pos as int, (v, k));
                assert forall|i: int, j: int| 0 <= i < j < r@.len() implies ranks_before(
                    #[trigger] r@[i],
                    #[trigger] r@[j],
                ) by {
                    if j < pos {
                    } else if j == pos {
                        assert(r@[i] == old_r[i]);
                    } else if i < pos {
                        assert(r@[j] == old_r[j - 1]);
                        assert(ranks_before(old_r[i], old_r[j - 1]) || i == j - 1);
                        if old_r[j - 1].0 > v {
                            assert(ranks_before(old_r[j - 1], (v, k)) || j - 1 >= pos);
                        }
                    } else if i == pos {
                        assert(r@[j] == old_r[j - 1]);
                        assert(old_r[pos as int].0 <= v);
                        if j - 1 > pos {
                            assert(ranks_before(old_r[pos as int], old_r[j - 1]));
                        }
                    } else {
                        assert(r@[i] == old_r[i - 1]);
                        assert(r@[j] == old_r[j - 1]);
                    }
                }
                assert forall|i: int| 0 <= i < r@.len() implies (#[trigger] r@[i]).1 < k + 1
                    && file_version_spec(names[r@[i].1 as int], section_name@) == Some(r@[i].0) by {
                    if i < pos {
                        assert(r@[i] == old_r[i]);
                    } else if i > pos {
                        assert(r@[i] == old_r[i - 1]);
                    }
                }
                assert forall|k2: int|
                    0 <= k2 < k + 1 && (#[trigger] file_version_spec(names[k2], section_name@)) is Some
                        implies exists|i: int| 0 <= i < r@.len() && r@[i].1 == k2 by {
                    if k2 == k {
                        assert(r@[pos as int].1 == k2);
                    } else {
                        let i = choose|i: int| 0 <= i < old_r.len() && old_r[i].1 == k2;
                        if i < pos {
                            assert(r@[i] == old_r[i]);
                        } else {
                            assert(r@[i + 1] == old_r[i]);
                        }
                    }
                }
            }
        }
        k = k + 1;
    }
    r
}

} // verus!

use vstd::prelude::*;

use crate::files::{file_version_spec, find_sql_files, is_candidate_list, ranks_before, views};
use crate::text::{decimal, push_decimal};
use crate::types::{SectionName, DEFAULT_SEP};

verus! {

/// The key of the section that describes the instance itself.
pub const INSTANCE: &'static str = "instance";

/// The key of the I/O statistics section, whose query is always the compiled one.
pub const IO_STATS: &'static str = "iostats";

/// What every header name starts with.
pub const HEADER_PREFIX: &'static str = "oracle_";

pub open spec fn instance_name() -> Seq<char> {
    seq!['i', 'n', 's', 't', 'a', 'n', 'c', 'e']
}

pub open spec fn io_stats_name() -> Seq<char> {
    seq!['i', 'o', 's', 't', 'a', 't', 's']
}

pub open spec fn header_prefix() -> Seq<char> {
    seq!['o', 'r', 'a', 'c', 'l', 'e', '_']
}

/// `<<<name:sep(code)>>>` and a line break, where `code` is the separator's
/// code point in decimal.
pub open spec fn header_spec(name: Seq<char>, sep: char) -> Seq<char> {
    seq!['<', '<', '<'] + name + seq![':', 's', 'e', 'p', '('] + decimal((sep as u32) as nat)
        + seq![')', '>', '>', '>', '\n']
}

/// `:cached(now,age)`, both in decimal.
pub open spec fn cached_spec(now: nat, age: nat) -> Seq<char> {
    seq![':', 'c', 'a', 'c', 'h', 'e', 'd', '('] + decimal(now) + seq![','] + decimal(age) + seq![
        ')',
    ]
}

/// The header of a section that is due now, at `now` seconds since the epoch.
pub open spec fn work_header_spec(
    header_name: Seq<char>,
    sep: char,
    cache_age: Option<u32>,
    now: nat,
) -> Seq<char> {
    match cache_age {
        Some(age) => header_spec(header_name + cached_spec(now, age as nat), sep),
        None => header_spec(header_name, sep),
    }
}

/// Whether a section is computed on each run or served from a cache.
#[derive(Debug, Clone, Copy, PartialEq, Eq, Structural)]
pub enum SectionKind {
    Sync,
    Async,
}

pub open spec fn kind_of(cache_age: Option<u32>) -> SectionKind {
    if cache_age is Some {
        SectionKind::Async
    } else {
        SectionKind::Sync
    }
}

/// How a section is configured: its key, separator and kind.
#[derive(Debug, Clone)]
pub struct SectionConfig {
    pub name: String,
    pub sep: char,
    pub kind: SectionKind,
}

impl SectionConfig {
    /// A synchronous section `name` with the default separator.
    pub fn new(name: &str) -> (r: SectionConfig)
        ensures
            r.name@ == name@,
            r.sep == DEFAULT_SEP,
            r.kind == SectionKind::Sync,
    {
        SectionConfig { name: String::from_str(name), sep: DEFAULT_SEP, kind: SectionKind::Sync }
    }

    pub fn set_async(self, is_async: bool) -> (r: SectionConfig)
        ensures
            r.name@ == self.name@,
            r.sep == self.sep,
            r.kind == (if is_async { SectionKind::Async } else { SectionKind::Sync }),
    {
        SectionConfig {
            name: self.name,
            sep: self.sep,
            kind: if is_async { SectionKind::Async } else { SectionKind::Sync },
        }
    }
}

/// Identifiers of the compiled queries.
#[derive(Debug, Clone, Copy, PartialEq, Eq, Hash, Structural)]
pub enum Id {
    IoStats,
}

/// The compiled query that the section `name` falls back to.
pub open spec fn sql_id_of(name: Seq<char>) -> Option<Id> {
    if name == io_stats_name() {
        Some(Id::IoStats)
    } else {
        None
    }
}

/// The identifier of the compiled query for the section `section_name`.
pub fn get_sql_id(section_name: &str) -> (r: Option<Id>)
    ensures
        r == sql_id_of(section_name@),
{
    proof {
        reveal_strlit("iostats");
    }
    assert(IO_STATS@ =~= io_stats_name());
    if String::from_str(section_name) == String::from_str(IO_STATS) {
        Some(Id::IoStats)
    } else {
        None
    }
}

/// The text of the first entry of `entries` under `id`.
pub open spec fn catalog_find(entries: Seq<(Id, Seq<char>)>, id: Id) -> Option<Seq<char>>
    decreases entries.len(),
{
    if entries.len() == 0 {
        None
    } else if entries[0].0 == id {
        Some(entries[0].1)
    } else {
        catalog_find(entries.subrange(1, entries.len() as int), id)
    }
}

/// The compiled queries, each under its identifier.
#[derive(Debug, Clone)]
pub struct Catalog {
    entries: Vec<(Id, String)>,
}

pub open spec fn entry_views(v: Seq<(Id, String)>) -> Seq<(Id, Seq<char>)> {
    v.map_values(|e: (Id, String)| (e.0, e.1@))
}

impl View for Catalog {
    type V = Seq<(Id, Seq<char>)>;

    closed spec fn view(&self) -> Seq<(Id, Seq<char>)> {
        entry_views(self.entries@)
    }
}

/// The character sequence of an optional string.
pub open spec fn opt_view(o: Option<String>) -> Option<Seq<char>> {
    match o {
        Some(s) => Some(s@),
        None => None,
    }
}

impl Catalog {
    pub fn new(entries: Vec<(Id, String)>) -> (r: Catalog)
        ensures
            r@ == entry_views(entries@),
    {
        Catalog { entries }
    }

    /// The compiled query under `id`, or `None` where the catalog has none.
    pub fn find_known_query(&self, id: Id) -> (r: Option<String>)
        ensures
            opt_view(r) == catalog_find(self@, id),
    {
        let ghost all = self@;
        let mut i: usize = 0;
        while i < self.entries.len()
            invariant
                i <= self.entries@.len(),
                all == entry_views(self.entries@),
                catalog_find(all, id) == catalog_find(all.subrange(i as int, all.len() as int), id),
            decreases self.entries@.len() - i,
        {
            let ghost rest = all.subrange(i as int, all.len() as int);
            assert(rest[0] == all[i as int]);
            if self.entries[i].0 == id {
                return Some(self.entries[i].1.clone());
            }
            assert(rest.subrange(1, rest.len() as int) =~= all.subrange(i + 1, all.len() as int));
            i = i + 1;
        }
        None
    }
}

/// The query that the section `name` runs: for the I/O statistics section the
/// compiled one; else the query from the override directory, or failing that
/// the compiled one for the section, if any.
pub open spec fn selected_query(
    name: Seq<char>,
    provided: Option<Seq<char>>,
    catalog: Seq<(Id, Seq<char>)>,
) -> Option<Seq<char>> {
    if name == io_stats_name() {
        catalog_find(catalog, Id::IoStats)
    } else {
        match provided {
            Some(t) => Some(t),
            None => match sql_id_of(name) {
                Some(id) => catalog_find(catalog, id),
                None => None,
            },
        }
    }
}

/// Whether entry `k` of `names` is the override file that a section named
/// `section_name` reads at `instance_version`: of the section's query files
/// whose minimum version is at most `instance_version`, the one tried first.
pub open spec fn is_chosen_file(
    names: Seq<Seq<char>>,
    section_name: Seq<char>,
    instance_version: u32,
    k: int,
) -> bool {
    &&& 0 <= k < names.len()
    &&& file_version_spec(names[k], section_name) is Some
    &&& file_version_spec(names[k], section_name)->0 <= instance_version
    &&& forall|k2: int|
        0 <= k2 < names.len() && k2 != k && (#[trigger] file_version_spec(names[k2], section_name)) is Some
            && file_version_spec(names[k2], section_name)->0 <= instance_version ==> ranks_before(
            (file_version_spec(names[k], section_name)->0, k as usize),
            (file_version_spec(names[k2], section_name)->0, k2 as usize),
        )
}

/// Whether no query file of the section among `names` is eligible at
/// `instance_version`.
pub open spec fn no_eligible_file(
    names: Seq<Seq<char>>,
    section_name: Seq<char>,
    instance_version: u32,
) -> bool {
    forall|k: int|
        0 <= k < names.len() && (#[trigger] file_version_spec(names[k], section_name)) is Some
            ==> file_version_spec(names[k], section_name)->0 > instance_version
}

/// The output header `<<<name:sep(code)>>>` and a line break.
fn header(name: &str, sep: char) -> (r: String)
    ensures
        r@ == header_spec(name@, sep),
{
    proof {
        reveal_strlit("<<<");
        reveal_strlit(":sep(");
        reveal_strlit(")>>>\n");
    }
    let mut out = String::from_str("<<<");
    out.append(name);
    out.append(":sep(");
    push_decimal(&mut out, (sep as u32) as u64);
    out.append(")>>>\n");
    assert(out@ =~= header_spec(name@, sep));
    out
}

/// The per-section metadata that decides its query and its header.
#[derive(Debug, Clone)]
pub struct Section {
    name: SectionName,
    sep: char,
    cache_age: Option<u32>,
    header_name: String,
}

impl Section {
    pub closed spec fn spec_name(&self) -> Seq<char> {
        self.name@
    }

    pub closed spec fn spec_sep(&self) -> char {
        self.sep
    }

    pub closed spec fn spec_cache_age(&self) -> Option<u32> {
        self.cache_age
    }

    pub closed spec fn spec_header_name(&self) -> Seq<char> {
        self.header_name@
    }

    /// The synchronous instance section, with the default separator.
    pub fn make_instance_section() -> (r: Section)
        ensures
            r.spec_name() == instance_name(),
            r.spec_header_name() == header_prefix() + instance_name(),
            r.spec_sep() == DEFAULT_SEP,
            r.spec_cache_age() is None,
    {
        proof {
            reveal_strlit("instance");
        }
        assert(INSTANCE@ =~= instance_name());
        let config = SectionConfig::new(INSTANCE);
        Self::new(&config, 0)
    }

    /// The section that `section` configures; an asynchronous one is cached for
    /// `global_cache_age` seconds.
    pub fn new(section: &SectionConfig, global_cache_age: u32) -> (r: Section)
        ensures
            r.spec_name() == section.name@,
            r.spec_sep() == section.sep,
            r.spec_cache_age() == (if section.kind == SectionKind::Async {
                Some(global_cache_age)
            } else {
                None
            }),
            r.spec_header_name() == header_prefix() + section.name@,
    {
        let cache_age = if section.kind == SectionKind::Async {
            Some(global_cache_age)
        } else {
            None
        };
        proof {
            reveal_strlit("oracle_");
        }
        let mut header_name = String::from_str(HEADER_PREFIX);
        header_name.append(section.name.as_str());
        assert(header_name@ =~= header_prefix() + section.name@);
        Section {
            name: SectionName::new(section.name.clone()),
            sep: section.sep,
            cache_age,
            header_name,
        }
    }

    /// The header without any cache annotation.
    pub fn to_plain_header(&self) -> (r: String)
        ensures
            r@ == header_spec(self.spec_header_name(), self.spec_sep()),
    {
        header(self.header_name.as_str(), self.sep)
    }

    /// The header of a run at `utc_now` seconds since the epoch, or at 0 where
    /// the clock gave no time; a cached section notes the time and its age.
    pub fn to_work_header(&self, utc_now: Option<u64>) -> (r: String)
        ensures
            r@ == work_header_spec(
                self.spec_header_name(),
                self.spec_sep(),
                self.spec_cache_age(),
                match utc_now {
                    Some(t) => t as nat,
                    None => 0,
                },
            ),
    {
        let mut name = self.header_name.clone();
        let now: u64 = match utc_now {
            Some(t) => t,
            None => 0,
        };
        self.cached_header(&mut name, now);
        assert(self.cache_age is None ==> name@ =~= self.header_name@);
        header(name.as_str(), self.sep)
    }

    /// Appends the cache annotation, where the section is cached.
    fn cached_header(&self, out: &mut String, now: u64)
        ensures
            final(out)@ == old(out)@ + match self.cache_age {
                Some(age) => cached_spec(now as nat, age as nat),
                None => Seq::<char>::empty(),
            },
    {
        proof {
            reveal_strlit(":cached(");
            reveal_strlit(",");
            reveal_strlit(")");
        }
        match self.cache_age {
            Some(age) => {
                out.append(":cached(");
                push_decimal(out, now);
                out.append(",");
                push_decimal(out, age as u64);
                out.append(")");
                assert(final(out)@ =~= old(out)@ + cached_spec(now as nat, age as nat));
            },
            None => {
                assert(final(out)@ =~= old(out)@ + Seq::<char>::empty());
            },
        }
    }

    /// The query to run: for the I/O statistics section the compiled one;
    /// else `provided`, the text of the override file that was read, or failing
    /// that the compiled query for the section, if any.
    pub fn select_query(&self, provided: Option<String>, catalog: &Catalog) -> (r: Option<String>)
        ensures
            opt_view(r) == selected_query(self.spec_name(), opt_view(provided), catalog@),
    {
        proof {
            reveal_strlit("iostats");
        }
        assert(IO_STATS@ =~= io_stats_name());
        if String::from_str(self.name.as_str()) == String::from_str(IO_STATS) {
            catalog.find_known_query(Id::IoStats)
        } else {
            self.find_query(provided, catalog)
        }
    }

    /// Whether the section's query can come from the override directory: every
    /// section's but the I/O statistics one's, whose query is always compiled.
    pub fn reads_override_files(&self) -> (r: bool)
        ensures
            r == (self.spec_name() != io_stats_name()),
    {
        proof {
            reveal_strlit("iostats");
        }
        assert(IO_STATS@ =~= io_stats_name());
        !(String::from_str(self.name.as_str()) == String::from_str(IO_STATS))
    }

    fn find_query(&self, provided: Option<String>, catalog: &Catalog) -> (r: Option<String>)
        ensures
            opt_view(r) == match opt_view(provided) {
                Some(t) => Some(t),
                None => match sql_id_of(self.spec_name()) {
                    Some(id) => catalog_find(catalog@, id),
                    None => None,
                },
            },
    {
        match provided {
            Some(t) => Some(t),
            None => match get_sql_id(self.name.as_str()) {
                Some(id) => catalog.find_known_query(id),
                None => None,
            },
        }
    }

    /// The position in `file_names`, the entries of the override directory, of
    /// the file whose query this section runs at `instance_version`, or `None`
    /// where no query file of the section is eligible.
    pub fn find_provided_query(&self, file_names: &Vec<String>, instance_version: u32) -> (r:
        Option<usize>)
        ensures
            match r {
                Some(k) => is_chosen_file(
                    views(file_names@),
                    self.spec_name(),
                    instance_version,
                    k as int,
                ),
                None => no_eligible_file(views(file_names@), self.spec_name(), instance_version),
            },
    {
        let ghost names = views(file_names@);
        let ghost sn = self.spec_name();
        let candidates = find_sql_files(file_names, self.name.as_str());
        let mut i: usize = 0;
        while i < candidates.len()
            invariant
                i <= candidates@.len(),
                names == views(file_names@),
                sn == self.spec_name(),
                is_candidate_list(candidates@, names, sn),
                forall|j: int| 0 <= j < i ==> (#[trigger] candidates@[j]).0 > instance_version,
            decreases candidates@.len() - i,
        {
            let (min_version, k) = candidates[i];
            if instance_version >= min_version {
                proof {
                    assert(candidates@[i as int] == (min_version, k));
                    assert(file_version_spec(names[k as int], sn) == Some(min_version));
                    assert forall|k2: int|
                        0 <= k2 < names.len() && k2 != k && (#[trigger] file_version_spec(
                            names[k2],
                            sn,
                        )) is Some && file_version_spec(names[k2], sn)->0 <= instance_version
                        implies ranks_before(
                        (file_version_spec(names[k as int], sn)->0, k),
                        (file_version_spec(names[k2], sn)->0, k2 as usize),
                    ) by {
                        let j = choose|j: int| 0 <= j < candidates@.len() && candidates@[j].1 == k2;
                        if j < i {
                            assert(candidates@[j].0 > instance_version);
                        } else if j > i {
                            assert(ranks_before(candidates@[i as int], candidates@[j]));
                        }
                    }
                }
                return Some(k);
            }
            i = i + 1;
        }
        proof {
            assert forall|k: int|
                0 <= k < names.len() && (#[trigger] file_version_spec(names[k], sn)) is Some
                    implies file_version_spec(names[k], sn)->0 > instance_version by {
                let j = choose|j: int| 0 <= j < candidates@.len() && candidates@[j].1 == k;
                assert(candidates@[j].0 > instance_version);
            }
        }
        None
    }

    pub fn name(&self) -> (r: &SectionName)
        ensures
            r@ == self.spec_name(),
    {
        &self.name
    }

    pub fn header_name(&self) -> (r: &str)
        ensures
            r@ == self.spec_header_name(),
    {
        self.header_name.as_str()
    }

    pub fn sep(&self) -> (r: char)
        ensures
            r == self.spec_sep(),
    {
        self.sep
    }

    pub fn kind(&self) -> (r: SectionKind)
        ensures
            r == kind_of(self.spec_cache_age()),
    {
        if self.cache_age.is_some() {
            SectionKind::Async
        } else {
            SectionKind::Sync
        }
    }

    /// The cache age in seconds, 0 for a synchronous section.
    pub fn cache_age(&self) -> (r: u32)
        ensures
            r == match self.spec_cache_age() {
                Some(a) => a,
                None => 0,
            },
    {
        match self.cache_age {
            Some(a) => a,
            None => 0,
        }
    }
}

/// A section without a cache age is synchronous, and its header for a run is
/// its plain header, whatever the time.
pub proof fn lemma_sync_work_header_is_plain(s: Section, now: nat)
    requires
        s.spec_cache_age() is None,
    ensures
        kind_of(s.spec_cache_age()) == SectionKind::Sync,
        work_header_spec(s.spec_header_name(), s.spec_sep(), s.spec_cache_age(), now)
            == header_spec(s.spec_header_name(), s.spec_sep()),
{
}

/// A section with cache age `n` is asynchronous, and its header for a run holds
/// `:cached(` and ends with `,n):sep(code)>>>` and a line break.
pub proof fn lemma_async_work_header(s: Section, now: nat, n: u32)
    requires
        s.spec_cache_age() == Some(n),
    ensures
        kind_of(s.spec_cache_age()) == SectionKind::Async,
        ({
            let h = work_header_spec(s.spec_header_name(), s.spec_sep(), s.spec_cache_age(), now);
            let tail = seq![','] + decimal(n as nat) + seq![')', ':', 's', 'e', 'p', '('] + decimal(
                (s.spec_sep() as u32) as nat,
            ) + seq![')', '>', '>', '>', '\n'];
            let marker = seq![':', 'c', 'a', 'c', 'h', 'e', 'd', '('];
            &&& exists|i: int| 0 <= i && i + 8 <= h.len() && #[trigger] h.subrange(i, i + 8) == marker
            &&& h.len() >= tail.len()
            &&& h.subrange(h.len() - tail.len(), h.len() as int) == tail
        }),
{
    let hn = s.spec_header_name();
    let h = work_header_spec(hn, s.spec_sep(), s.spec_cache_age(), now);
    let tail = seq![','] + decimal(n as nat) + seq![')', ':', 's', 'e', 'p', '('] + decimal(
        (s.spec_sep() as u32) as nat,
    ) + seq![')', '>', '>', '>', '\n'];
    let marker = seq![':', 'c', 'a', 'c', 'h', 'e', 'd', '('];
    let head = seq!['<', '<', '<'] + hn + marker + decimal(now);
    assert(h =~= head + tail);
    let i: int = 3 + hn.len() as int;
    assert(h.subrange(i, i + 8) =~= marker);
    assert(h.subrange(h.len() - tail.len(), h.len() as int) =~= tail);
}

/// Where the override directory holds a query file of the section with minimum
/// version 0, some file is chosen at every instance version.
pub proof fn lemma_version_zero_always_eligible(
    names: Seq<Seq<char>>,
    section_name: Seq<char>,
    instance_version: u32,
    k: int,
)
    requires
        0 <= k < names.len(),
        file_version_spec(names[k], section_name) == Some(0u32),
    ensures
        !no_eligible_file(names, section_name, instance_version),
{
    assert(file_version_spec(names[k], section_name) is Some);
}

} // verus!

use vstd::prelude::*;

use crate::text::{char_to_string, decimal, push_decimal};

verus! {

/// The separator character that decorated queries use unless told otherwise.
pub const DEFAULT_SEP: char = '|';

/// The placeholder that a query template marks each separator with.
pub open spec fn sep_marker() -> Seq<char> {
    seq!['{', 's', 'e', 'p', '}']
}

/// Whether the placeholder starts at position `i` of `s`.
pub open spec fn marker_at(s: Seq<char>, i: int) -> bool {
    0 <= i && i + 5 <= s.len() && s.subrange(i, i + 5) == sep_marker()
}

/// `s` with every placeholder, scanned left to right, replaced by `rep`.
pub open spec fn replace_sep(s: Seq<char>, rep: Seq<char>) -> Seq<char>
    decreases s.len(),
{
    if s.len() == 0 {
        seq![]
    } else if marker_at(s, 0) {
        rep + replace_sep(s.subrange(5, s.len() as int), rep)
    } else {
        seq![s[0]] + replace_sep(s.subrange(1, s.len() as int), rep)
    }
}

/// How a separator policy rewrites queries.
#[derive(Debug, Clone, Copy, PartialEq, Eq, Structural)]
pub enum Separator {
    No,
    Comma,
    Decorated(char),
}

/// The concatenation fragment that embeds the literal `c` in a query result.
pub open spec fn decoration(c: char) -> Seq<char> {
    seq!['|', '|', ' ', '\''].push(c) + seq!['\'', ' ', '|', '|']
}

/// The query text that `template` becomes under `sep`.
pub open spec fn render(template: Seq<char>, sep: Separator) -> Seq<char> {
    match sep {
        Separator::No => template,
        Separator::Comma => replace_sep(template, seq![',']),
        Separator::Decorated(c) => replace_sep(template, decoration(c)),
    }
}

impl Default for Separator {
    fn default() -> (r: Separator)
        ensures
            r == Separator::Decorated(DEFAULT_SEP),
    {
        Separator::Decorated(DEFAULT_SEP)
    }
}

fn has_marker_at(s: &str, n: usize, i: usize) -> (r: bool)
    requires
        n == s@.len(),
        i <= n,
    ensures
        r == marker_at(s@, i as int),
{
    if n - i < 5 {
        return false;
    }
    let r = s.get_char(i) == '{' && s.get_char(i + 1) == 's' && s.get_char(i + 2) == 'e'
        && s.get_char(i + 3) == 'p' && s.get_char(i + 4) == '}';
    assert(r == (s@.subrange(i as int, i + 5) =~= sep_marker()));
    r
}

/// `s` with every `{sep}` placeholder replaced by `sep`.
pub fn use_sep(s: &str, sep: &str) -> (r: String)
    ensures
        r@ == replace_sep(s@, sep@),
{
    let n = s.unicode_len();
    let mut out = String::new();
    let mut i: usize = 0;
    assert(s@.subrange(0, n as int) =~= s@);
    assert(out@ + replace_sep(s@, sep@) =~= replace_sep(s@, sep@));
    while i < n
        invariant
            n == s@.len(),
            i <= n,
            out@ + replace_sep(s@.subrange(i as int, n as int), sep@) == replace_sep(s@, sep@),
        decreases n - i,
    {
        let ghost rest = s@.subrange(i as int, n as int);
        if has_marker_at(s, n, i) {
            assert(rest.subrange(0, 5) =~= s@.subrange(i as int, i + 5));
            assert(rest.subrange(5, rest.len() as int) =~= s@.subrange(i + 5, n as int));
            out.append(sep);
            i = i + 5;
            assert(out@ + replace_sep(s@.subrange(i as int, n as int), sep@) =~= replace_sep(
                s@,
                sep@,
            ));
        } else {
            assert(!marker_at(rest, 0)) by {
                if rest.len() >= 5 {
                    assert(rest.subrange(0, 5) =~= s@.subrange(i as int, i + 5));
                }
            }
            assert(rest.subrange(1, rest.len() as int) =~= s@.subrange(i + 1, n as int));
            let one = s.substring_char(i, i + 1);
            assert(one@ =~= seq![rest[0]]);
            out.append(one);
            i = i + 1;
            assert(out@ + replace_sep(s@.subrange(i as int, n as int), sep@) =~= replace_sep(
                s@,
                sep@,
            ));
        }
    }
    assert(s@.subrange(n as int, n as int) =~= Seq::<char>::empty());
    assert(out@ =~= replace_sep(s@, sep@));
    out
}

/// A query text with its separators already put in.
#[derive(Debug, Clone)]
pub struct SqlQuery {
    text: String,
    separator: Separator,
}

impl View for SqlQuery {
    type V = Seq<char>;

    closed spec fn view(&self) -> Seq<char> {
        self.text@
    }
}

impl PartialEq for SqlQuery {
    fn eq(&self, other: &SqlQuery) -> (r: bool) {
        self.text == other.text && self.separator == other.separator
    }
}

impl vstd::std_specs::cmp::PartialEqSpecImpl for SqlQuery {
    open spec fn obeys_eq_spec() -> bool {
        true
    }

    open spec fn eq_spec(&self, other: &SqlQuery) -> bool {
        self@ == other@ && self.separator_spec() == other.separator_spec()
    }
}

impl SqlQuery {
    /// The separator policy the query was built with.
    pub closed spec fn separator_spec(&self) -> Separator {
        self.separator
    }

    pub fn new(s: &str, separator: Separator) -> (r: SqlQuery)
        ensures
            r@ == render(s@, separator),
            r.separator_spec() == separator,
    {
        match separator {
            Separator::No => SqlQuery { text: String::from_str(s), separator: Separator::No },
            Separator::Comma => {
                proof {
                    reveal_strlit(",");
                }
                assert(","@ =~= seq![',']);
                SqlQuery { text: use_sep(s, ","), separator: Separator::Comma }
            },
            Separator::Decorated(c) => {
                proof {
                    reveal_strlit("|| '");
                    reveal_strlit("' ||");
                }
                let mut dec = String::from_str("|| '");
                dec.append(char_to_string(c).as_str());
                dec.append("' ||");
                assert(dec@ =~= decoration(c));
                SqlQuery { text: use_sep(s, dec.as_str()), separator: Separator::Decorated(c) }
            },
        }
    }

    pub fn as_str(&self) -> (r: &str)
        ensures
            r@ == self@,
    {
        self.text.as_str()
    }

    pub fn sep(&self) -> (r: Option<char>)
        ensures
            r == match self.separator_spec() {
                Separator::Decorated(c) => Some(c),
                _ => None,
            },
    {
        match self.separator {
            Separator::No => None,
            Separator::Comma => None,
            Separator::Decorated(c) => Some(c),
        }
    }
}

/// A TCP port.
#[derive(Debug, Clone, Copy, PartialEq, Eq, Structural)]
pub struct Port(pub u16);

impl Port {
    pub fn value(&self) -> (r: u16)
        ensures
            r == self.0,
    {
        self.0
    }

    /// The port number in decimal.
    pub fn to_string(&self) -> (r: String)
        ensures
            r@ == decimal(self.0 as nat),
    {
        let mut r = String::new();
        push_decimal(&mut r, self.0 as u64);
        assert(r@ =~= decimal(self.0 as nat));
        r
    }
}

/// The most connections that may be open at once.
#[derive(Debug, Clone, Copy, PartialEq, Eq, Structural)]
pub struct MaxConnections(pub u32);

/// The most queries that may run at once.
#[derive(Debug, Clone, Copy, PartialEq, Eq, Structural)]
pub struct MaxQueries(pub u32);

/// The upper case form of `s`, as the standard library computes it.
pub uninterp spec fn upper_of(s: Seq<char>) -> Seq<char>;

/// Relies on `str::to_uppercase`: the result depends on the characters alone.
#[verifier::external_body]
fn to_upper(s: &str) -> (r: String)
    ensures
        r@ == upper_of(s@),
{
    s.to_uppercase()
}

/// The name of a database instance, kept in upper case.
#[derive(Debug, Clone, Eq, Hash)]
pub struct InstanceName(String);

impl View for InstanceName {
    type V = Seq<char>;

    closed spec fn view(&self) -> Seq<char> {
        self.0@
    }
}

impl PartialEq for InstanceName {
    fn eq(&self, other: &InstanceName) -> (r: bool) {
        self.0 == other.0
    }
}

impl vstd::std_specs::cmp::PartialEqSpecImpl for InstanceName {
    open spec fn obeys_eq_spec() -> bool {
        true
    }

    open spec fn eq_spec(&self, other: &InstanceName) -> bool {
        self@ == other@
    }
}

impl InstanceName {
    /// The name `s`, in upper case.
    pub fn from(s: &str) -> (r: InstanceName)
        ensures
            r@ == upper_of(s@),
    {
        InstanceName(to_upper(s))
    }

    pub fn to_string(&self) -> (r: String)
        ensures
            r@ == self@,
    {
        self.0.clone()
    }

    pub fn as_str(&self) -> (r: &str)
        ensures
            r@ == self@,
    {
        self.0.as_str()
    }
}

/// The service name that a connection goes to.
#[derive(Debug, Clone, Eq, Hash)]
pub struct ServiceName(String);

impl View for ServiceName {
    type V = Seq<char>;

    closed spec fn view(&self) -> Seq<char> {
        self.0@
    }
}

impl PartialEq for ServiceName {
    fn eq(&self, other: &ServiceName) -> (r: bool) {
        self.0 == other.0
    }
}

impl vstd::std_specs::cmp::PartialEqSpecImpl for ServiceName {
    open spec fn obeys_eq_spec() -> bool {
        true
    }

    open spec fn eq_spec(&self, other: &ServiceName) -> bool {
        self@ == other@
    }
}

impl ServiceName {
    pub fn new(s: String) -> (r: ServiceName)
        ensures
            r@ == s@,
    {
        ServiceName(s)
    }

    pub fn from(s: &str) -> (r: ServiceName)
        ensures
            r@ == s@,
    {
        ServiceName(String::from_str(s))
    }

    pub fn as_str(&self) -> (r: &str)
        ensures
            r@ == self@,
    {
        self.0.as_str()
    }
}

/// The kind of service that a connection goes to.
#[derive(Debug, Clone)]
pub struct ServiceType(String);

impl View for ServiceType {
    type V = Seq<char>;

    closed spec fn view(&self) -> Seq<char> {
        self.0@
    }
}

impl PartialEq for ServiceType {
    fn eq(&self, other: &ServiceType) -> (r: bool) {
        self.0 == other.0
    }
}

impl vstd::std_specs::cmp::PartialEqSpecImpl for ServiceType {
    open spec fn obeys_eq_spec() -> bool {
        true
    }

    open spec fn eq_spec(&self, other: &ServiceType) -> bool {
        self@ == other@
    }
}

impl ServiceType {
    pub fn new(s: String) -> (r: ServiceType)
        ensures
            r@ == s@,
    {
        ServiceType(s)
    }

    pub fn from(s: &str) -> (r: ServiceType)
        ensures
            r@ == s@,
    {
        ServiceType(String::from_str(s))
    }

    pub fn as_str(&self) -> (r: &str)
        ensures
            r@ == self@,
    {
        self.0.as_str()
    }
}

/// The identifier of a database instance.
#[derive(Debug, Clone)]
pub struct InstanceId(String);

impl View for InstanceId {
    type V = Seq<char>;

    closed spec fn view(&self) -> Seq<char> {
        self.0@
    }
}

impl PartialEq for InstanceId {
    fn eq(&self, other: &InstanceId) -> (r: bool) {
        self.0 == other.0
    }
}

impl vstd::std_specs::cmp::PartialEqSpecImpl for InstanceId {
    open spec fn obeys_eq_spec() -> bool {
        true
    }

    open spec fn eq_spec(&self, other: &InstanceId) -> bool {
        self@ == other@
    }
}

impl InstanceId {
    pub fn new(s: String) -> (r: InstanceId)
        ensures
            r@ == s@,
    {
        InstanceId(s)
    }

    pub fn as_str(&self) -> (r: &str)
        ensures
            r@ == self@,
    {
        self.0.as_str()
    }
}

/// The edition that a database instance reports.
#[derive(Debug, Clone)]
pub struct InstanceEdition(String);

impl View for InstanceEdition {
    type V = Seq<char>;

    closed spec fn view(&self) -> Seq<char> {
        self.0@
    }
}

impl PartialEq for InstanceEdition {
    fn eq(&self, other: &InstanceEdition) -> (r: bool) {
        self.0 == other.0
    }
}

impl vstd::std_specs::cmp::PartialEqSpecImpl for InstanceEdition {
    open spec fn obeys_eq_spec() -> bool {
        true
    }

    open spec fn eq_spec(&self, other: &InstanceEdition) -> bool {
        self@ == other@
    }
}

impl InstanceEdition {
    pub fn new(s: String) -> (r: InstanceEdition)
        ensures
            r@ == s@,
    {
        InstanceEdition(s)
    }

    pub fn as_str(&self) -> (r: &str)
        ensures
            r@ == self@,
    {
        self.0.as_str()
    }
}

/// The version text that a database instance reports.
#[derive(Debug, Clone)]
pub struct InstanceVersion(String);

impl View for InstanceVersion {
    type V = Seq<char>;

    closed spec fn view(&self) -> Seq<char> {
        self.0@
    }
}

impl PartialEq for InstanceVersion {
    fn eq(&self, other: &InstanceVersion) -> (r: bool) {
        self.0 == other.0
    }
}

impl vstd::std_specs::cmp::PartialEqSpecImpl for InstanceVersion {
    open spec fn obeys_eq_spec() -> bool {
        true
    }

    open spec fn eq_spec(&self, other: &InstanceVersion) -> bool {
        self@ == other@
    }
}

impl InstanceVersion {
    pub fn new(s: String) -> (r: InstanceVersion)
        ensures
            r@ == s@,
    {
        InstanceVersion(s)
    }

    pub fn as_str(&self) -> (r: &str)
        ensures
            r@ == self@,
    {
        self.0.as_str()
    }
}

/// The cluster that a database instance belongs to.
#[derive(Debug, Clone)]
pub struct InstanceCluster(String);

impl View for InstanceCluster {
    type V = Seq<char>;

    closed spec fn view(&self) -> Seq<char> {
        self.0@
    }
}

impl PartialEq for InstanceCluster {
    fn eq(&self, other: &InstanceCluster) -> (r: bool) {
        self.0 == other.0
    }
}

impl vstd::std_specs::cmp::PartialEqSpecImpl for InstanceCluster {
    open spec fn obeys_eq_spec() -> bool {
        true
    }

    open spec fn eq_spec(&self, other: &InstanceCluster) -> bool {
        self@ == other@
    }
}

impl InstanceCluster {
    pub fn new(s: String) -> (r: InstanceCluster)
        ensures
            r@ == s@,
    {
        InstanceCluster(s)
    }

    pub fn as_str(&self) -> (r: &str)
        ensures
            r@ == self@,
    {
        self.0.as_str()
    }
}

/// The name of the computer that runs an instance.
#[derive(Debug, Clone)]
pub struct ComputerName(String);

impl View for ComputerName {
    type V = Seq<char>;

    closed spec fn view(&self) -> Seq<char> {
        self.0@
    }
}

impl PartialEq for ComputerName {
    fn eq(&self, other: &ComputerName) -> (r: bool) {
        self.0 == other.0
    }
}

impl vstd::std_specs::cmp::PartialEqSpecImpl for ComputerName {
    open spec fn obeys_eq_spec() -> bool {
        true
    }

    open spec fn eq_spec(&self, other: &ComputerName) -> bool {
        self@ == other@
    }
}

impl ComputerName {
    pub fn new(s: String) -> (r: ComputerName)
        ensures
            r@ == s@,
    {
        ComputerName(s)
    }

    pub fn as_str(&self) -> (r: &str)
        ensures
            r@ == self@,
    {
        self.0.as_str()
    }
}

/// A digest that identifies a configuration.
#[derive(Debug, Clone)]
pub struct ConfigHash(String);

impl View for ConfigHash {
    type V = Seq<char>;

    closed spec fn view(&self) -> Seq<char> {
        self.0@
    }
}

impl PartialEq for ConfigHash {
    fn eq(&self, other: &ConfigHash) -> (r: bool) {
        self.0 == other.0
    }
}

impl vstd::std_specs::cmp::PartialEqSpecImpl for ConfigHash {
    open spec fn obeys_eq_spec() -> bool {
        true
    }

    open spec fn eq_spec(&self, other: &ConfigHash) -> bool {
        self@ == other@
    }
}

impl ConfigHash {
    pub fn new(s: String) -> (r: ConfigHash)
        ensures
            r@ == s@,
    {
        ConfigHash(s)
    }

    pub fn as_str(&self) -> (r: &str)
        ensures
            r@ == self@,
    {
        self.0.as_str()
    }
}

/// The host that piggyback data is written for.
#[derive(Debug, Clone, Eq, Hash)]
pub struct PiggybackHostName(String);

impl View for PiggybackHostName {
    type V = Seq<char>;

    closed spec fn view(&self) -> Seq<char> {
        self.0@
    }
}

impl PartialEq for PiggybackHostName {
    fn eq(&self, other: &PiggybackHostName) -> (r: bool) {
        self.0 == other.0
    }
}

impl vstd::std_specs::cmp::PartialEqSpecImpl for PiggybackHostName {
    open spec fn obeys_eq_spec() -> bool {
        true
    }

    open spec fn eq_spec(&self, other: &PiggybackHostName) -> bool {
        self@ == other@
    }
}

impl PiggybackHostName {
    pub fn new(s: String) -> (r: PiggybackHostName)
        ensures
            r@ == s@,
    {
        PiggybackHostName(s)
    }

    pub fn as_str(&self) -> (r: &str)
        ensures
            r@ == self@,
    {
        self.0.as_str()
    }
}

/// An alias of a database instance.
#[derive(Debug, Clone)]
pub struct InstanceAlias(String);

impl View for InstanceAlias {
    type V = Seq<char>;

    closed spec fn view(&self) -> Seq<char> {
        self.0@
    }
}

impl PartialEq for InstanceAlias {
    fn eq(&self, other: &InstanceAlias) -> (r: bool) {
        self.0 == other.0
    }
}

impl vstd::std_specs::cmp::PartialEqSpecImpl for InstanceAlias {
    open spec fn obeys_eq_spec() -> bool {
        true
    }

    open spec fn eq_spec(&self, other: &InstanceAlias) -> bool {
        self@ == other@
    }
}

impl InstanceAlias {
    pub fn new(s: String) -> (r: InstanceAlias)
        ensures
            r@ == s@,
    {
        InstanceAlias(s)
    }

    pub fn as_str(&self) -> (r: &str)
        ensures
            r@ == self@,
    {
        self.0.as_str()
    }
}

/// The name of a monitored host.
#[derive(Debug, Clone)]
pub struct HostName(String);

impl View for HostName {
    type V = Seq<char>;

    closed spec fn view(&self) -> Seq<char> {
        self.0@
    }
}

impl PartialEq for HostName {
    fn eq(&self, other: &HostName) -> (r: bool) {
        self.0 == other.0
    }
}

impl vstd::std_specs::cmp::PartialEqSpecImpl for HostName {
    open spec fn obeys_eq_spec() -> bool {
        true
    }

    open spec fn eq_spec(&self, other: &HostName) -> bool {
        self@ == other@
    }
}

impl HostName {
    pub fn new(s: String) -> (r: HostName)
        ensures
            r@ == s@,
    {
        HostName(s)
    }

    pub fn as_str(&self) -> (r: &str)
        ensures
            r@ == self@,
    {
        self.0.as_str()
    }
}

/// The stable key of a monitoring section.
#[derive(Debug, Clone, Eq, Hash)]
pub struct SectionName(String);

impl View for SectionName {
    type V = Seq<char>;

    closed spec fn view(&self) -> Seq<char> {
        self.0@
    }
}

impl PartialEq for SectionName {
    fn eq(&self, other: &SectionName) -> (r: bool) {
        self.0 == other.0
    }
}

impl vstd::std_specs::cmp::PartialEqSpecImpl for SectionName {
    open spec fn obeys_eq_spec() -> bool {
        true
    }

    open spec fn eq_spec(&self, other: &SectionName) -> bool {
        self@ == other@
    }
}

impl SectionName {
    pub fn new(s: String) -> (r: SectionName)
        ensures
            r@ == s@,
    {
        SectionName(s)
    }

    pub fn as_str(&self) -> (r: &str)
        ensures
            r@ == self@,
    {
        self.0.as_str()
    }
}

/// The user and password that a connection logs in with.
#[derive(Debug)]
pub struct Credentials {
    pub user: String,
    pub password: String,
}

} // verus!

//! The shipper's configuration: which inputs there are, how large their queues
//! are, what syslog drops, and how the lines of each tailed file are read.

use vstd::prelude::*;

use crate::eqregex::EqRegex;
use crate::json::{members_view, Json, JsonValue};

verus! {

/// The queue size that is used where none is configured.
pub fn default_buffer_size() -> (r: usize)
    ensures
        r == 20_000,
{
    20_000
}

/// The queue towards the collector.
#[derive(Clone, Copy, Debug, PartialEq, Eq, Structural)]
pub struct GrpcOutConfig {
    /// Read once, when the queue is made at startup.
    pub max_buffer_size: usize,
}

impl Default for GrpcOutConfig {
    fn default() -> (r: Self)
        ensures
            r.max_buffer_size == 20_000,
    {
        GrpcOutConfig { max_buffer_size: 20_000 }
    }
}

/// What every input has.
#[derive(Clone, Copy, Debug, PartialEq, Eq, Structural)]
pub struct CommonInputConfig {
    /// Read once, when the queue is made at startup.
    pub max_buffer_size: usize,
}

impl Default for CommonInputConfig {
    fn default() -> (r: Self)
        ensures
            r.max_buffer_size == 20_000,
    {
        CommonInputConfig { max_buffer_size: 20_000 }
    }
}

/// The GELF input.
#[derive(Clone, Copy, Debug, PartialEq, Eq, Structural)]
pub struct GelfInputConfig {
    pub common: CommonInputConfig,
}

impl Default for GelfInputConfig {
    fn default() -> (r: Self)
        ensures
            r.common.max_buffer_size == 20_000,
    {
        GelfInputConfig { common: CommonInputConfig { max_buffer_size: 20_000 } }
    }
}

/// One exclusion filter for syslog: a pattern for each of the fields that it looks
/// at.
#[derive(Clone, Debug, PartialEq, Eq)]
pub struct SyslogExclusionFilter {
    pub appname: Option<EqRegex>,
    pub facility: Option<EqRegex>,
    pub message: Option<EqRegex>,
}

impl Default for SyslogExclusionFilter {
    fn default() -> (r: Self)
        ensures
            r.appname is None,
            r.facility is None,
            r.message is None,
    {
        SyslogExclusionFilter { appname: None, facility: None, message: None }
    }
}

/// The syslog input.
#[derive(Clone, Debug, PartialEq, Eq)]
pub struct SyslogInputConfig {
    pub common: CommonInputConfig,
    pub exclusion_filters: Vec<SyslogExclusionFilter>,
}

impl Default for SyslogInputConfig {
    fn default() -> (r: Self)
        ensures
            r.common.max_buffer_size == 20_000,
            r.exclusion_filters@.len() == 0,
    {
        SyslogInputConfig {
            common: CommonInputConfig { max_buffer_size: 20_000 },
            exclusion_filters: Vec::new(),
        }
    }
}

/// How the text of a capture group becomes the value of a field.
#[derive(Clone, Copy, Debug, PartialEq, Eq, Structural)]
pub enum FieldType {
    /// A point in time, written out again in RFC 3339.
    Timestamp,
    /// A JSON number.
    Number,
    /// The text as it is.
    String,
    /// The name of a syslog severity, kept as its number.
    SyslogLevelText,
}

/// The name and type of the field that one capture group fills.
#[derive(Clone, Debug, PartialEq, Eq)]
pub struct FieldMapping {
    pub name: String,
    pub field_type: FieldType,
}

/// How the fields are found in a line.
#[derive(Clone, Debug, PartialEq, Eq)]
pub enum FileMappingConfig {
    /// The line must match `pattern`; capture group `i + 1` fills `mapping[i]`.
    Regex { pattern: EqRegex, mapping: Vec<FieldMapping> },
}

/// How the lines of one tailed file are read.
#[derive(Debug)]
pub struct FileParseConfig {
    pub mapping: FileMappingConfig,
    /// Fields that every record of the file gets, by name; where a name occurs twice
    /// the later one counts.
    pub static_fields: Vec<(String, JsonValue)>,
}

/// The shipper's configuration. Files are kept by path; where a path occurs twice
/// the later entry counts.
#[derive(Debug)]
pub struct Config {
    pub syslog_in: Option<SyslogInputConfig>,
    pub gelf_in: Option<GelfInputConfig>,
    pub grpc_out: Option<GrpcOutConfig>,
    pub files_in: Vec<(String, FileParseConfig)>,
}

pub struct SyslogExclusionFilterView {
    pub appname: Option<Seq<char>>,
    pub facility: Option<Seq<char>>,
    pub message: Option<Seq<char>>,
}

/// The pattern of an optional expression.
pub open spec fn opt_pattern(o: Option<EqRegex>) -> Option<Seq<char>> {
    match o {
        Some(re) => Some(re@),
        None => None,
    }
}

impl View for SyslogExclusionFilter {
    type V = SyslogExclusionFilterView;

    open spec fn view(&self) -> SyslogExclusionFilterView {
        SyslogExclusionFilterView {
            appname: opt_pattern(self.appname),
            facility: opt_pattern(self.facility),
            message: opt_pattern(self.message),
        }
    }
}

/// The view of each filter.
pub open spec fn filters_view(filters: Seq<SyslogExclusionFilter>) -> Seq<
    SyslogExclusionFilterView,
> {
    Seq::new(filters.len(), |i: int| filters[i]@)
}

pub struct FieldMappingView {
    pub name: Seq<char>,
    pub field_type: FieldType,
}

impl View for FieldMapping {
    type V = FieldMappingView;

    open spec fn view(&self) -> FieldMappingView {
        FieldMappingView { name: self.name@, field_type: self.field_type }
    }
}

/// The view of each field mapping.
pub open spec fn mappings_view(mapping: Seq<FieldMapping>) -> Seq<FieldMappingView> {
    Seq::new(mapping.len(), |i: int| mapping[i]@)
}

pub struct FileParseConfigView {
    pub pattern: Seq<char>,
    pub mapping: Seq<FieldMappingView>,
    pub static_fields: Seq<(Seq<char>, Json)>,
}

impl View for FileParseConfig {
    type V = FileParseConfigView;

    open spec fn view(&self) -> FileParseConfigView {
        FileParseConfigView {
            pattern: self.mapping->pattern@,
            mapping: mappings_view(self.mapping->mapping@),
            static_fields: members_view(self.static_fields@),
        }
    }
}

/// The files of a configuration as a map from path to the entry that counts.
pub open spec fn files_map(files: Seq<(String, FileParseConfig)>) -> Map<
    Seq<char>,
    FileParseConfig,
>
    decreases files.len(),
{
    if files.len() == 0 {
        Map::empty()
    } else {
        files_map(files.drop_last()).insert(files.last().0@, files.last().1)
    }
}

/// Adding entries after the others sets each of their paths in the map, the later
/// ones over the earlier.
pub proof fn lemma_files_map_append(
    files: Seq<(String, FileParseConfig)>,
    more: Seq<(String, FileParseConfig)>,
)
    ensures
        files_map(files + more) == files_map(files).union_prefer_right(files_map(more)),
    decreases more.len(),
{
    if more.len() == 0 {
        assert(files + more =~= files);
        assert(files_map(files).union_prefer_right(files_map(more)) =~= files_map(files));
    } else {
        lemma_files_map_append(files, more.drop_last());
        assert((files + more).drop_last() =~= files + more.drop_last());
        assert((files + more).last() == more.last());
        assert(files_map(files + more) =~= files_map(files).union_prefer_right(files_map(more)));
    }
}

/// What an optional setting is after another configuration was laid over it: the
/// other one's where it has one.
pub open spec fn laid_over<T>(base: Option<T>, other: Option<T>) -> Option<T> {
    if other is Some {
        other
    } else {
        base
    }
}

impl Default for Config {
    fn default() -> (r: Self)
        ensures
            r.syslog_in is None,
            r.gelf_in is None,
            r.grpc_out is None,
            r.files_in@.len() == 0,
    {
        Config { syslog_in: None, gelf_in: None, grpc_out: None, files_in: Vec::new() }
    }
}

/// Replaces `base` by `other` where `other` holds something.
pub fn extend_option<T>(base: &mut Option<T>, other: Option<T>)
    ensures
        *final(base) == laid_over(*old(base), other),
{
    if other.is_some() {
        *base = other;
    }
}

impl Config {
    /// Lays another configuration over this one. Each input that the other one
    /// configures replaces this one's, and each of its files is added, in place of
    /// this one's entry for the same path.
    pub fn extend(&mut self, other: Config)
        ensures
            final(self).syslog_in == laid_over(old(self).syslog_in, other.syslog_in),
            final(self).gelf_in == laid_over(old(self).gelf_in, other.gelf_in),
            final(self).grpc_out == laid_over(old(self).grpc_out, other.grpc_out),
            final(self).files_in@ == old(self).files_in@ + other.files_in@,
            files_map(final(self).files_in@) == files_map(old(self).files_in@).union_prefer_right(
                files_map(other.files_in@),
            ),
    {
        let Config { syslog_in, gelf_in, grpc_out, files_in } = other;
        let mut files_in = files_in;
        proof {
            lemma_files_map_append(self.files_in@, files_in@);
        }
        extend_option(&mut self.syslog_in, syslog_in);
        extend_option(&mut self.gelf_in, gelf_in);
        extend_option(&mut self.grpc_out, grpc_out);
        self.files_in.append(&mut files_in);
    }

    /// The entry for a path: the last one, where the path occurs more than once.
    pub fn file<'a>(&'a self, path: &str) -> (r: Option<&'a FileParseConfig>)
        ensures
            r is Some <==> files_map(self.files_in@).dom().contains(path@),
            r is Some ==> *r->0 == files_map(self.files_in@)[path@],
    {
        let mut i: usize = self.files_in.len();
        assert(self.files_in@.take(i as int) =~= self.files_in@);
        while i > 0
            invariant
                i <= self.files_in.len(),
                files_map(self.files_in@).dom().contains(path@) <==> files_map(
                    self.files_in@.take(i as int),
                ).dom().contains(path@),
                files_map(self.files_in@).dom().contains(path@) ==> files_map(self.files_in@)[path@]
                    == files_map(self.files_in@.take(i as int))[path@],
            decreases i,
        {
            i -= 1;
            proof {
                let head = self.files_in@.take(i as int + 1);
                assert(head.drop_last() =~= self.files_in@.take(i as int));
                assert(head.last() == self.files_in@[i as int]);
            }
            if crate::text::str_eq(self.files_in[i].0.as_str(), path) {
                return Some(&self.files_in[i].1);
            }
        }
        None
    }

    /// The size of the syslog queue: the configured one, else the default.
    pub fn syslog_buffer_size(&self) -> (r: usize)
        ensures
            r == match self.syslog_in {
                Some(c) => c.common.max_buffer_size,
                None => 20_000,
            },
    {
        match &self.syslog_in {
            Some(c) => c.common.max_buffer_size,
            None => default_buffer_size(),
        }
    }

    /// The size of the GELF queue: the configured one, else the default.
    pub fn gelf_buffer_size(&self) -> (r: usize)
        ensures
            r == match self.gelf_in {
                Some(c) => c.common.max_buffer_size,
                None => 20_000,
            },
    {
        match &self.gelf_in {
            Some(c) => c.common.max_buffer_size,
            None => default_buffer_size(),
        }
    }

    /// The size of the queue towards the collector: the configured one, else the
    /// default.
    pub fn grpc_buffer_size(&self) -> (r: usize)
        ensures
            r == match self.grpc_out {
                Some(c) => c.max_buffer_size,
                None => 20_000,
            },
    {
        match &self.grpc_out {
            Some(c) => c.max_buffer_size,
            None => default_buffer_size(),
        }
    }
}

/// Merges configuration fragments in the order given, starting from the default:
/// each fragment is laid over what the earlier ones gave.
pub fn merge_fragments(fragments: Vec<Config>) -> (r: Config)
    ensures
        r.files_in@ == all_files(fragments@),
        r.syslog_in == last_set(Seq::new(fragments@.len(), |i: int| fragments@[i].syslog_in)),
        r.gelf_in == last_set(Seq::new(fragments@.len(), |i: int| fragments@[i].gelf_in)),
        r.grpc_out == last_set(Seq::new(fragments@.len(), |i: int| fragments@[i].grpc_out)),
{
    let mut fragments = fragments;
    let ghost all = fragments@;
    let mut reversed: Vec<Config> = Vec::new();
    while fragments.len() > 0
        invariant
            reversed@.len() + fragments@.len() == all.len(),
            fragments@ == all.take(fragments@.len() as int),
            forall|j: int|
                0 <= j < reversed@.len() ==> reversed@[j] == all[all.len() - 1 - j],
        decreases fragments.len(),
    {
        let ghost before = fragments@;
        let last = fragments.pop().unwrap();
        reversed.push(last);
        assert(fragments@ =~= all.take(fragments@.len() as int));
    }
    let mut root = Config::default();
    let ghost syslog = Seq::new(all.len(), |i: int| all[i].syslog_in);
    let ghost gelf = Seq::new(all.len(), |i: int| all[i].gelf_in);
    let ghost grpc = Seq::new(all.len(), |i: int| all[i].grpc_out);
    assert(root.files_in@ =~= all_files(all.take(0)));
    while reversed.len() > 0
        invariant
            reversed@.len() <= all.len(),
            syslog == Seq::new(all.len(), |i: int| all[i].syslog_in),
            gelf == Seq::new(all.len(), |i: int| all[i].gelf_in),
            grpc == Seq::new(all.len(), |i: int| all[i].grpc_out),
            forall|j: int|
                0 <= j < reversed@.len() ==> reversed@[j] == all[all.len() - 1 - j],
            root.files_in@ == all_files(all.take(all.len() - reversed@.len())),
            root.syslog_in == last_set(syslog.take(all.len() - reversed@.len())),
            root.gelf_in == last_set(gelf.take(all.len() - reversed@.len())),
            root.grpc_out == last_set(grpc.take(all.len() - reversed@.len())),
        decreases reversed.len(),
    {
        let ghost done = all.len() - reversed@.len();
        let next = reversed.pop().unwrap();
        proof {
            assert(next == all[done]);
            assert(all.take(done + 1).drop_last() =~= all.take(done));
            assert(syslog.take(done + 1).drop_last() =~= syslog.take(done));
            assert(gelf.take(done + 1).drop_last() =~= gelf.take(done));
            assert(grpc.take(done + 1).drop_last() =~= grpc.take(done));
        }
        root.extend(next);
    }
    proof {
        assert(all.take(all.len() as int) =~= all);
        assert(syslog.take(all.len() as int) =~= syslog);
        assert(gelf.take(all.len() as int) =~= gelf);
        assert(grpc.take(all.len() as int) =~= grpc);
    }
    root
}

/// The files of all fragments, one fragment after the other.
pub open spec fn all_files(fragments: Seq<Config>) -> Seq<(String, FileParseConfig)>
    decreases fragments.len(),
{
    if fragments.len() == 0 {
        Seq::empty()
    } else {
        all_files(fragments.drop_last()) + fragments.last().files_in@
    }
}

/// The last setting that is there, if any is.
pub open spec fn last_set<T>(settings: Seq<Option<T>>) -> Option<T>
    decreases settings.len(),
{
    if settings.len() == 0 {
        None
    } else {
        laid_over(last_set(settings.drop_last()), settings.last())
    }
}

/// Whether a glob pattern is absolute, which a pattern for configuration fragments
/// may not be: it is joined to the directory of the fragments.
pub fn is_absolute_pattern(glob: &str) -> (r: bool)
    ensures
        r == (glob@.len() > 0 && glob@[0] == '/'),
{
    glob.unicode_len() > 0 && glob.get_char(0) == '/'
}

} // verus!

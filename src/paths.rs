use vstd::prelude::*;

verus! {

/// `base` joined with `name` by one `/`: no separator is added after an empty
/// base or one that already ends in `/`.
pub open spec fn join_path_spec(base: Seq<char>, name: Seq<char>) -> Seq<char> {
    if base.len() == 0 || base.last() == '/' {
        base + name
    } else {
        base + seq!['/'] + name
    }
}

/// Path segments joined with the canonical separator `/`.
pub open spec fn joined_segments(segs: Seq<Seq<char>>) -> Seq<char>
    decreases segs.len(),
{
    if segs.len() == 0 {
        Seq::empty()
    } else if segs.len() == 1 {
        segs[0]
    } else {
        joined_segments(segs.drop_last()) + seq!['/'] + segs.last()
    }
}

/// A `..` segment stands at position `i` of the path text `s`.
pub open spec fn parent_segment_at(s: Seq<char>, i: int) -> bool {
    &&& 0 <= i
    &&& i + 2 <= s.len()
    &&& s[i] == '.'
    &&& s[i + 1] == '.'
    &&& (i == 0 || s[i - 1] == '/')
    &&& (i + 2 == s.len() || s[i + 2] == '/')
}

/// A relative path that resolves under the project root: not empty, not
/// absolute, and with no `..` segment.
pub open spec fn under_root(s: Seq<char>) -> bool {
    &&& s.len() > 0
    &&& s[0] != '/'
    &&& forall|i: int| !parent_segment_at(s, i)
}

/// Directory names whose whole subtree is left out of a backup: version-control
/// metadata and dependency or cache directories.
pub open spec fn stop_names() -> Seq<Seq<char>> {
    seq![".git"@, "__pycache__"@, ".pytest_cache"@, "node_modules"@]
}

/// No segment of the path names a pruned directory.
pub open spec fn kept_segments(segs: Seq<Seq<char>>) -> bool {
    forall|i: int| 0 <= i < segs.len() ==> !stop_names().contains(#[trigger] segs[i])
}

pub open spec fn segments_view(segs: Seq<String>) -> Seq<Seq<char>> {
    segs.map_values(|s: String| s@)
}

/// One place that a run looks for files, relative to the project root.
pub struct SourceEntry {
    pub name: String,
    /// A directory walked recursively (`true`) or a single file (`false`).
    pub recursive: bool,
}

/// The fixed inclusion rules: the core directories (the backup engine's own
/// directory is not among them), the top-level manifest files, then the
/// configuration and log directories where they are asked for.
pub open spec fn source_entries(include_logs: bool, include_config: bool) -> Seq<(Seq<char>, bool)> {
    seq![
        ("carma_core"@, true),
        ("data_core"@, true),
        ("dream_core"@, true),
        ("enterprise_core"@, true),
        ("luna_core"@, true),
        ("streamlit_core"@, true),
        ("support_core"@, true),
        ("utils_core"@, true),
        ("main.py"@, false),
        ("requirements.txt"@, false),
        ("README.md"@, false),
    ] + (if include_config {
        seq![("config"@, true)]
    } else {
        Seq::empty()
    }) + (if include_logs {
        seq![("log"@, true)]
    } else {
        Seq::empty()
    })
}

pub open spec fn entries_view(v: Seq<SourceEntry>) -> Seq<(Seq<char>, bool)> {
    v.map_values(|e: SourceEntry| (e.name@, e.recursive))
}

fn entry(name: &str, recursive: bool) -> (r: SourceEntry)
    ensures
        r.name@ == name@,
        r.recursive == recursive,
{
    SourceEntry { name: name.to_owned(), recursive }
}

/// The places to enumerate for a run. The data directory is one of the core
/// directories, so `include_data` adds nothing beyond them.
pub fn source_plan(include_data: bool, include_logs: bool, include_config: bool) -> (r: Vec<
    SourceEntry,
>)
    ensures
        entries_view(r@) == source_entries(include_logs, include_config),
{
    let mut v: Vec<SourceEntry> = Vec::new();
    v.push(entry("carma_core", true));
    v.push(entry("data_core", true));
    v.push(entry("dream_core", true));
    v.push(entry("enterprise_core", true));
    v.push(entry("luna_core", true));
    v.push(entry("streamlit_core", true));
    v.push(entry("support_core", true));
    v.push(entry("utils_core", true));
    v.push(entry("main.py", false));
    v.push(entry("requirements.txt", false));
    v.push(entry("README.md", false));
    if include_config {
        v.push(entry("config", true));
    }
    if include_logs {
        v.push(entry("log", true));
    }
    assert(entries_view(v@) =~= source_entries(include_logs, include_config));
    v
}

/// Whether a single path segment names a pruned directory.
pub fn is_pruned_name(name: &String) -> (r: bool)
    ensures
        r == stop_names().contains(name@),
{
    let stops: Vec<String> = vec![
        ".git".to_owned(),
        "__pycache__".to_owned(),
        ".pytest_cache".to_owned(),
        "node_modules".to_owned(),
    ];
    assert(segments_view(stops@) =~= stop_names());
    let mut i: usize = 0;
    while i < stops.len()
        invariant
            i <= stops@.len(),
            segments_view(stops@) == stop_names(),
            forall|j: int| 0 <= j < i ==> stops@[j]@ != name@,
        decreases stops.len() - i,
    {
        if stops[i] == *name {
            assert(stop_names()[i as int] == name@);
            return true;
        }
        i = i + 1;
    }
    proof {
        if stop_names().contains(name@) {
            let j = choose|j: int| 0 <= j < stop_names().len() && stop_names()[j] == name@;
            assert(stops@[j]@ == name@);
        }
    }
    false
}

/// Whether a file is kept: none of its path segments names a pruned directory.
pub fn keep_path(segments: &Vec<String>) -> (r: bool)
    ensures
        r == kept_segments(segments_view(segments@)),
{
    let mut i: usize = 0;
    while i < segments.len()
        invariant
            i <= segments@.len(),
            forall|j: int| 0 <= j < i ==> !stop_names().contains(#[trigger] segments@[j]@),
        decreases segments.len() - i,
    {
        if is_pruned_name(&segments[i]) {
            assert(segments_view(segments@)[i as int] == segments@[i as int]@);
            return false;
        }
        i = i + 1;
    }
    assert forall|j: int| 0 <= j < segments_view(segments@).len() implies !stop_names().contains(
        #[trigger] segments_view(segments@)[j],
    ) by {
        assert(segments_view(segments@)[j] == segments@[j]@);
    }
    true
}

/// The canonical text of a relative path: its segments joined by `/`.
pub fn canonical_path(segments: &Vec<String>) -> (r: String)
    ensures
        r@ == joined_segments(segments_view(segments@)),
{
    let ghost segs = segments_view(segments@);
    let mut r = String::new();
    let mut i: usize = 0;
    while i < segments.len()
        invariant
            i <= segments@.len(),
            segs == segments_view(segments@),
            r@ == joined_segments(segs.subrange(0, i as int)),
        decreases segments.len() - i,
    {
        let ghost before = r@;
        if i > 0 {
            r.append("/");
        }
        r.append(segments[i].as_str());
        proof {
            reveal_strlit("/");
            let s1 = segs.subrange(0, i + 1);
            assert(s1.drop_last() =~= segs.subrange(0, i as int));
            assert(s1.last() == segments@[i as int]@);
            if i == 0 {
                assert(before =~= Seq::<char>::empty());
                assert(r@ =~= joined_segments(s1));
            } else {
                assert(r@ =~= joined_segments(s1));
            }
        }
        i = i + 1;
    }
    assert(segs.subrange(0, segments@.len() as int) =~= segs);
    r
}

/// `base` joined with `name` by one `/` (see `join_path_spec`).
pub fn join_path(base: &str, name: &str) -> (r: String)
    ensures
        r@ == join_path_spec(base@, name@),
{
    proof {
        reveal_strlit("/");
    }
    let n = base.unicode_len();
    let mut r = base.to_owned();
    if n > 0 && base.get_char(n - 1) != '/' {
        r.append("/");
    }
    r.append(name);
    r
}

/// Whether a relative path resolves under the project root (see `under_root`).
pub fn is_under_root(path: &str) -> (r: bool)
    ensures
        r == under_root(path@),
{
    let n = path.unicode_len();
    if n == 0 {
        return false;
    }
    if path.get_char(0) == '/' {
        return false;
    }
    let mut i: usize = 0;
    while i < n
        invariant
            n == path@.len(),
            i <= n,
            forall|j: int| 0 <= j < i ==> !parent_segment_at(path@, j),
        decreases n - i,
    {
        if i + 1 < n && path.get_char(i) == '.' && path.get_char(i + 1) == '.' && (i == 0 || path.get_char(
            i - 1,
        ) == '/') && (i + 2 == n || path.get_char(i + 2) == '/') {
            assert(parent_segment_at(path@, i as int));
            return false;
        }
        i = i + 1;
    }
    assert forall|j: int| !parent_segment_at(path@, j) by {
        if 0 <= j < i {
        }
    }
    true
}

} // verus!

//! The version resolver: turns the installer and patch files of a game
//! directory into versions ordered by build, largest first.
use vstd::prelude::*;
use crate::game_info::{versions_view, FileType, GameFile, GameVersion, VersionView};
use crate::text::{
    captures_of, chars_of, contains_char, groups_view, leading_digits, lower_of, parse_u32,
    parse_u32_spec, regex_captures, seqs_view, split_chars, split_on, string_of,
    take_leading_digits, to_lower,
};

verus! {

// ---------------------------------------------------------------------------
// Version identification
// ---------------------------------------------------------------------------

/// A build-numbered name such as `build_2241b_(51706)`.
pub const BUILD_PATTERN: &'static str = r"build_(\d+[a-z]?)_?\(?(\d+)?\)?";

/// A `v`-prefixed dotted version such as `v1.2.3`.
pub const DOTTED_V_PATTERN: &'static str = r"v(\d+\.\d+(\.\d+)?)";

/// A bare dotted version such as `1.2`.
pub const DOTTED_PATTERN: &'static str = r"(\d+\.\d+(\.\d+)?)";

/// A patch that names the build it upgrades from and the one it leads to.
pub const FROM_TO_PATTERN: &'static str =
    r"(?:patch|update).*?(?:build|v)_?(\d+[a-z]?)(?:_|\s|-).*?(?:to|-).*?(?:build|v)_?(\d+[a-z]?)";

/// The captures of the first version pattern, in priority order, that
/// matches the lowercased file name.
pub open spec fn version_captures(lower: Seq<char>) -> Option<Seq<Option<Seq<char>>>> {
    if captures_of(BUILD_PATTERN@, lower) is Some {
        captures_of(BUILD_PATTERN@, lower)
    } else if captures_of(DOTTED_V_PATTERN@, lower) is Some {
        captures_of(DOTTED_V_PATTERN@, lower)
    } else {
        captures_of(DOTTED_PATTERN@, lower)
    }
}

/// The text of capture group `k`, or `default` where it did not take part.
pub open spec fn group_text(caps: Seq<Option<Seq<char>>>, k: int, default: Seq<char>) -> Seq<
    char,
> {
    if 0 <= k < caps.len() && caps[k] is Some {
        caps[k]->Some_0
    } else {
        default
    }
}

/// The version text captured from a file name.
pub open spec fn version_text(caps: Seq<Option<Seq<char>>>) -> Seq<char> {
    group_text(caps, 1, "Unknown"@)
}

/// A component of a dotted version, limited to the two digits of its slot;
/// one that does not parse counts as zero.
pub open spec fn component_value(part: Seq<char>) -> nat {
    match parse_u32_spec(part) {
        Some(n) => if n > 99 {
            99
        } else {
            n as nat
        },
        None => 0,
    }
}

/// The component at `k` of a split version, or nothing where there is none.
pub open spec fn component_at(parts: Seq<Seq<char>>, k: int) -> nat {
    if k < parts.len() {
        component_value(parts[k])
    } else {
        0
    }
}

/// The build number of a dotted version `a.b.c`: `a·10^6 + b·10^4 + c·10^2`.
pub open spec fn dotted_build(v: Seq<char>) -> nat {
    let parts = split_on(v, '.');
    component_at(parts, 0) * 1000000 + component_at(parts, 1) * 10000 + component_at(parts, 2)
        * 100
}

/// The build number of a build identifier: its leading digits, or zero
/// where they do not parse.
pub open spec fn numeric_body_build(v: Seq<char>) -> nat {
    match parse_u32_spec(leading_digits(v)) {
        Some(n) => n as nat,
        None => 0,
    }
}

/// The name of the group that collects files without a recognised version.
pub open spec fn default_label() -> Seq<char> {
    "Default Version"@
}

/// The display name (and grouping key) of the version of an installer file.
pub open spec fn version_label(file_name: Seq<char>) -> Seq<char> {
    match version_captures(lower_of(file_name)) {
        None => default_label(),
        Some(caps) => {
            let v = version_text(caps);
            if v.contains('.') {
                "Version "@ + v
            } else {
                "Build "@ + v
            }
        },
    }
}

/// The build number of the version of an installer file.
pub open spec fn version_build(file_name: Seq<char>) -> u32 {
    match version_captures(lower_of(file_name)) {
        None => 1,
        Some(caps) => {
            let v = version_text(caps);
            if v.contains('.') {
                dotted_build(v) as u32
            } else {
                numeric_body_build(v) as u32
            }
        },
    }
}

/// Tries the version patterns in priority order on a lowercased name.
pub fn match_version_patterns(lower: &str) -> (r: Option<Vec<Option<String>>>)
    ensures
        r is None <==> version_captures(lower@) is None,
        r matches Some(v) ==> version_captures(lower@) == Some(groups_view(v@)),
{
    let r = regex_captures(BUILD_PATTERN, lower);
    if r.is_some() {
        return r;
    }
    let r = regex_captures(DOTTED_V_PATTERN, lower);
    if r.is_some() {
        return r;
    }
    regex_captures(DOTTED_PATTERN, lower)
}

/// The text of capture group `k`, or `default`.
pub fn capture_text(caps: &Vec<Option<String>>, k: usize, default: &str) -> (r: Vec<char>)
    ensures
        r@ == group_text(groups_view(caps@), k as int, default@),
{
    if k < caps.len() {
        match &caps[k] {
            Some(s) => {
                return chars_of(s.as_str());
            },
            None => {},
        }
    }
    chars_of(default)
}

/// Computes `dotted_build` of a version text.
pub fn encode_dotted(v: &Vec<char>) -> (r: u32)
    ensures
        r as nat == dotted_build(v@),
{
    let parts = split_chars(v, '.');
    let mut total: u32 = 0;
    let mut k: usize = 0;
    let ghost ps = seqs_view(parts@);
    while k < 3
        invariant
            k <= 3,
            ps == seqs_view(parts@),
            ps == split_on(v@, '.'),
            total as nat == (if k > 0 {
                component_at(ps, 0) * 1000000
            } else {
                0
            }) + (if k > 1 {
                component_at(ps, 1) * 10000
            } else {
                0
            }) + (if k > 2 {
                component_at(ps, 2) * 100
            } else {
                0
            }),
        decreases 3 - k,
    {
        let mut c: u32 = 0;
        if k < parts.len() {
            match parse_u32(&parts[k]) {
                Some(n) => {
                    c = if n > 99 { 99 } else { n };
                },
                None => {},
            }
        }
        assert(c as nat == component_at(ps, k as int));
        let slot: u32 = if k == 0 { 1000000 } else if k == 1 { 10000 } else { 100 };
        total = total + c * slot;
        k = k + 1;
    }
    total
}

/// The display name and build number of an installer file's version.
pub fn identify_version(file_name: &str) -> (r: (String, u32))
    ensures
        r.0@ == version_label(file_name@),
        r.1 == version_build(file_name@),
{
    let lower = to_lower(file_name);
    match match_version_patterns(lower.as_str()) {
        None => (string_of(&chars_of("Default Version")), 1),
        Some(caps) => {
            let v = capture_text(&caps, 1, "Unknown");
            let ghost gv = groups_view(caps@);
            assert(v@ == version_text(gv));
            if contains_char(&v, '.') {
                let mut label = chars_of("Version ");
                let mut tail = v.clone();
                assert(tail@ == v@);
                label.append(&mut tail);
                (string_of(&label), encode_dotted(&v))
            } else {
                let mut label = chars_of("Build ");
                let digits = take_leading_digits(&v);
                let build: u32 = match parse_u32(&digits) {
                    Some(n) => n,
                    None => 0,
                };
                let mut tail = v.clone();
                assert(tail@ == v@);
                label.append(&mut tail);
                (string_of(&label), build)
            }
        },
    }
}

// ---------------------------------------------------------------------------
// Grouping, patch assignment and ordering
// ---------------------------------------------------------------------------

/// The index of the first version at or after `i` named `label`, or the
/// length of the list where there is none.
pub open spec fn find_label(vs: Seq<VersionView>, label: Seq<char>, i: int) -> int
    decreases vs.len() - i,
{
    if i < 0 || i >= vs.len() {
        vs.len() as int
    } else if vs[i].name == label {
        i
    } else {
        find_label(vs, label, i + 1)
    }
}

/// A fresh version holding a single installer.
pub open spec fn new_group(label: Seq<char>, build: u32, f: GameFile) -> VersionView {
    VersionView { name: label, build, files: seq![f], required_patches: Seq::empty() }
}

/// Adds an installer to the version it names, creating it where it is new.
pub open spec fn add_installer(vs: Seq<VersionView>, f: GameFile) -> Seq<VersionView> {
    let label = version_label(f.name@);
    let i = find_label(vs, label, 0);
    if i < vs.len() {
        vs.update(i, VersionView { files: vs[i].files.push(f), ..vs[i] })
    } else {
        vs.push(new_group(label, version_build(f.name@), f))
    }
}

/// The versions named by the installers among `files`, in order of first
/// appearance, each holding its installers in file order.
pub open spec fn group_installers(files: Seq<GameFile>) -> Seq<VersionView>
    decreases files.len(),
{
    if files.len() == 0 {
        Seq::empty()
    } else {
        let prev = group_installers(files.drop_last());
        if files.last().file_type == FileType::Installer {
            add_installer(prev, files.last())
        } else {
            prev
        }
    }
}

/// The installers among `files`, in order.
pub open spec fn installer_files(files: Seq<GameFile>) -> Seq<GameFile>
    decreases files.len(),
{
    if files.len() == 0 {
        Seq::empty()
    } else if files.last().file_type == FileType::Installer {
        installer_files(files.drop_last()).push(files.last())
    } else {
        installer_files(files.drop_last())
    }
}

/// The build that a patch upgrades from, where its name states one; a
/// stated build that does not parse counts as zero.
pub open spec fn patch_from_build(name: Seq<char>) -> Option<u32> {
    match captures_of(FROM_TO_PATTERN@, lower_of(name)) {
        None => None,
        Some(caps) => Some(
            match parse_u32_spec(group_text(caps, 1, Seq::empty())) {
                Some(n) => n,
                None => 0,
            },
        ),
    }
}

/// Whether a patch upgrading from `from` is listed for a version of `build`:
/// a patch of unknown origin is listed for every version.
pub open spec fn patch_applies(from: Option<u32>, build: u32) -> bool {
    match from {
        Some(b) => b == build,
        None => true,
    }
}

/// The version with one more required patch.
pub open spec fn with_patch(v: VersionView, p: GameFile) -> VersionView {
    VersionView { required_patches: v.required_patches.push(p), ..v }
}

/// Lists a patch for every version it applies to.
pub open spec fn attach_patch(vs: Seq<VersionView>, p: GameFile) -> Seq<VersionView> {
    let from = patch_from_build(p.name@);
    Seq::new(
        vs.len(),
        |k: int|
            if patch_applies(from, vs[k].build) {
                with_patch(vs[k], p)
            } else {
                vs[k]
            },
    )
}

/// Lists every patch among `files`, in file order.
pub open spec fn attach_patches(vs: Seq<VersionView>, files: Seq<GameFile>) -> Seq<VersionView>
    decreases files.len(),
{
    if files.len() == 0 {
        vs
    } else {
        let prev = attach_patches(vs, files.drop_last());
        if files.last().file_type == FileType::Patch {
            attach_patch(prev, files.last())
        } else {
            prev
        }
    }
}

/// The index of the first version at or after `i` whose build is below `b`.
pub open spec fn first_below(vs: Seq<VersionView>, b: u32, i: int) -> int
    decreases vs.len() - i,
{
    if i < 0 || i >= vs.len() {
        vs.len() as int
    } else if vs[i].build < b {
        i
    } else {
        first_below(vs, b, i + 1)
    }
}

/// Inserts a version after every version whose build is at least its own.
pub open spec fn insert_by_build(vs: Seq<VersionView>, v: VersionView) -> Seq<VersionView> {
    vs.insert(first_below(vs, v.build, 0), v)
}

/// The versions ordered by build, largest first, equal builds keeping their
/// relative order.
pub open spec fn sort_by_build(vs: Seq<VersionView>) -> Seq<VersionView>
    decreases vs.len(),
{
    if vs.len() == 0 {
        Seq::empty()
    } else {
        insert_by_build(sort_by_build(vs.drop_last()), vs.last())
    }
}

/// Whether the builds never increase along the list.
pub open spec fn builds_descending(vs: Seq<VersionView>) -> bool {
    forall|i: int, j: int| 0 <= i < j < vs.len() ==> vs[i].build >= vs[j].build
}

/// The version list of a game with these files: grouped installers with
/// their patches, a default version where installers exist but no group was
/// formed, ordered by build, largest first.
pub open spec fn resolved_versions(files: Seq<GameFile>) -> Seq<VersionView> {
    let grouped = attach_patches(group_installers(files), files);
    let complete = if grouped.len() == 0 && installer_files(files).len() > 0 {
        seq![
            VersionView {
                name: default_label(),
                build: 1,
                files: installer_files(files),
                required_patches: Seq::empty(),
            },
        ]
    } else {
        grouped
    };
    sort_by_build(complete)
}

/// `first_below` lies in range, everything before it from `i` on has a
/// build of at least `b`, and what stands there has a smaller one.
proof fn lemma_first_below(vs: Seq<VersionView>, b: u32, i: int)
    requires
        0 <= i <= vs.len(),
    ensures
        i <= first_below(vs, b, i) <= vs.len(),
        forall|k: int| i <= k < first_below(vs, b, i) ==> vs[k].build >= b,
        first_below(vs, b, i) < vs.len() ==> vs[first_below(vs, b, i)].build < b,
    decreases vs.len() - i,
{
    if i < vs.len() && vs[i].build >= b {
        lemma_first_below(vs, b, i + 1);
    }
}

/// `find_label` lies in range, and finds the first version so named.
proof fn lemma_find_label(vs: Seq<VersionView>, label: Seq<char>, i: int)
    requires
        0 <= i <= vs.len(),
    ensures
        i <= find_label(vs, label, i) <= vs.len(),
        forall|k: int| i <= k < find_label(vs, label, i) ==> vs[k].name != label,
        find_label(vs, label, i) < vs.len() ==> vs[find_label(vs, label, i)].name == label,
    decreases vs.len() - i,
{
    if i < vs.len() && vs[i].name != label {
        lemma_find_label(vs, label, i + 1);
    }
}

/// Inserting by build keeps a list ordered.
proof fn lemma_insert_by_build_sorted(vs: Seq<VersionView>, v: VersionView)
    requires
        builds_descending(vs),
    ensures
        builds_descending(insert_by_build(vs, v)),
        insert_by_build(vs, v).len() == vs.len() + 1,
{
    lemma_first_below(vs, v.build, 0);
    let p = first_below(vs, v.build, 0);
    let r = insert_by_build(vs, v);
    assert forall|i: int, j: int| 0 <= i < j < r.len() implies r[i].build >= r[j].build by {
        if j < p {
        } else if j == p {
        } else if i < p {
            assert(r[j] == vs[j - 1]);
            if p < vs.len() {
                assert(vs[p].build < v.build);
            }
        } else if i == p {
            assert(r[j] == vs[j - 1]);
            assert(vs[p].build < v.build);
        } else {
            assert(r[i] == vs[i - 1]);
            assert(r[j] == vs[j - 1]);
        }
    }
}

/// `sort_by_build` orders its result.
pub proof fn lemma_sort_by_build_sorted(vs: Seq<VersionView>)
    ensures
        builds_descending(sort_by_build(vs)),
        sort_by_build(vs).len() == vs.len(),
    decreases vs.len(),
{
    if vs.len() > 0 {
        lemma_sort_by_build_sorted(vs.drop_last());
        lemma_insert_by_build_sorted(sort_by_build(vs.drop_last()), vs.last());
    }
}

/// Whatever the files, the versions they resolve to are ordered by build,
/// largest first.
pub proof fn lemma_resolved_versions_descending(files: Seq<GameFile>)
    ensures
        builds_descending(resolved_versions(files)),
{
    let grouped = attach_patches(group_installers(files), files);
    let complete = if grouped.len() == 0 && installer_files(files).len() > 0 {
        seq![
            VersionView {
                name: default_label(),
                build: 1,
                files: installer_files(files),
                required_patches: Seq::empty(),
            },
        ]
    } else {
        grouped
    };
    lemma_sort_by_build_sorted(complete);
}

/// A game with at least one installer has at least one version.
pub proof fn lemma_installers_give_versions(files: Seq<GameFile>)
    requires
        installer_files(files).len() > 0,
    ensures
        resolved_versions(files).len() > 0,
{
    let grouped = attach_patches(group_installers(files), files);
    let complete = if grouped.len() == 0 {
        seq![
            VersionView {
                name: default_label(),
                build: 1,
                files: installer_files(files),
                required_patches: Seq::empty(),
            },
        ]
    } else {
        grouped
    };
    lemma_sort_by_build_sorted(complete);
}

/// The position of the version named `label`, or the length of the list.
fn find_group(groups: &Vec<GameVersion>, label: &String) -> (r: usize)
    ensures
        r as int == find_label(versions_view(groups@), label@, 0),
{
    let ghost vs = versions_view(groups@);
    let mut i: usize = 0;
    while i < groups.len()
        invariant
            i <= groups@.len(),
            vs == versions_view(groups@),
            find_label(vs, label@, 0) == find_label(vs, label@, i as int),
        decreases groups.len() - i,
    {
        if groups[i].name == *label {
            return i;
        }
        i = i + 1;
    }
    i
}

/// Groups the installers among `files` by the version their names state.
fn group_files(files: &Vec<GameFile>) -> (r: Vec<GameVersion>)
    ensures
        versions_view(r@) == group_installers(files@),
{
    let mut groups: Vec<GameVersion> = Vec::new();
    let mut i: usize = 0;
    assert(files@.take(0) =~= Seq::<GameFile>::empty());
    assert(versions_view(groups@) =~= group_installers(files@.take(0)));
    while i < files.len()
        invariant
            i <= files@.len(),
            versions_view(groups@) == group_installers(files@.take(i as int)),
        decreases files.len() - i,
    {
        let f = &files[i];
        assert(files@.take(i + 1).drop_last() =~= files@.take(i as int));
        if f.file_type == FileType::Installer {
            let (label, build) = identify_version(f.name.as_str());
            let pos = find_group(&groups, &label);
            let ghost before = groups@;
            proof {
                lemma_find_label(versions_view(before), label@, 0);
            }
            if pos < groups.len() {
                let mut g = groups.remove(pos);
                g.files.push(f.duplicate());
                groups.insert(pos, g);
                assert(versions_view(groups@) =~= versions_view(before).update(
                    pos as int,
                    VersionView { files: versions_view(before)[pos as int].files.push(*f), ..versions_view(before)[pos as int] },
                ));
            } else {
                let mut fs: Vec<GameFile> = Vec::new();
                fs.push(f.duplicate());
                groups.push(
                    GameVersion { name: label, build, files: fs, required_patches: Vec::new() },
                );
                assert(versions_view(groups@) =~= versions_view(before).push(
                    new_group(version_label(f.name@), version_build(f.name@), *f),
                ));
            }
        }
        i = i + 1;
    }
    assert(files@.take(files@.len() as int) =~= files@);
    groups
}

/// The build a patch upgrades from, where its name states one.
pub fn patch_source_build(name: &str) -> (r: Option<u32>)
    ensures
        r == patch_from_build(name@),
{
    let lower = to_lower(name);
    match regex_captures(FROM_TO_PATTERN, lower.as_str()) {
        None => None,
        Some(caps) => {
            let from = capture_text(&caps, 1, "");
            proof {
                reveal_strlit("");
                assert(""@ =~= Seq::<char>::empty());
            }
            match parse_u32(&from) {
                Some(n) => Some(n),
                None => Some(0),
            }
        },
    }
}

/// Lists `patch` for every version it applies to.
fn add_patch(groups: &mut Vec<GameVersion>, patch: &GameFile)
    ensures
        versions_view(final(groups)@) == attach_patch(versions_view(old(groups)@), *patch),
{
    let from = patch_source_build(patch.name.as_str());
    let ghost start = versions_view(groups@);
    let ghost target = attach_patch(start, *patch);
    let mut k: usize = 0;
    while k < groups.len()
        invariant
            k <= groups@.len(),
            groups@.len() == start.len(),
            from == patch_from_build(patch.name@),
            target == attach_patch(start, *patch),
            forall|j: int| 0 <= j < k ==> #[trigger] versions_view(groups@)[j] == target[j],
            forall|j: int| k <= j < groups@.len() ==> #[trigger] versions_view(groups@)[j] == start[j],
        decreases groups.len() - k,
    {
        let ghost before = groups@;
        let applies = match from {
            Some(b) => groups[k].build == b,
            None => true,
        };
        assert(versions_view(before)[k as int] == start[k as int]);
        if applies {
            let mut g = groups.remove(k);
            g.required_patches.push(patch.duplicate());
            groups.insert(k, g);
            assert(groups@ =~= before.update(k as int, g));
            assert(versions_view(groups@)[k as int] == target[k as int]);
        } else {
            assert(versions_view(groups@)[k as int] == target[k as int]);
        }
        assert forall|j: int| 0 <= j < groups@.len() && j != k implies #[trigger] versions_view(
            groups@,
        )[j] == versions_view(before)[j] by {
            assert(groups@[j] == before[j]);
        }
        k = k + 1;
    }
    assert(versions_view(groups@) =~= target);
}

/// Lists every patch among `files` for the versions it applies to.
fn add_patches(groups: &mut Vec<GameVersion>, files: &Vec<GameFile>)
    ensures
        versions_view(final(groups)@) == attach_patches(versions_view(old(groups)@), files@),
{
    let ghost start = versions_view(groups@);
    let mut i: usize = 0;
    assert(files@.take(0) =~= Seq::<GameFile>::empty());
    while i < files.len()
        invariant
            i <= files@.len(),
            versions_view(groups@) == attach_patches(start, files@.take(i as int)),
        decreases files.len() - i,
    {
        assert(files@.take(i + 1).drop_last() =~= files@.take(i as int));
        if files[i].file_type == FileType::Patch {
            add_patch(groups, &files[i]);
        }
        i = i + 1;
    }
    assert(files@.take(files@.len() as int) =~= files@);
}

/// The installers among `files`, copied.
fn collect_installers(files: &Vec<GameFile>) -> (r: Vec<GameFile>)
    ensures
        r@ == installer_files(files@),
{
    let mut r: Vec<GameFile> = Vec::new();
    let mut i: usize = 0;
    assert(files@.take(0) =~= Seq::<GameFile>::empty());
    while i < files.len()
        invariant
            i <= files@.len(),
            r@ == installer_files(files@.take(i as int)),
        decreases files.len() - i,
    {
        assert(files@.take(i + 1).drop_last() =~= files@.take(i as int));
        if files[i].file_type == FileType::Installer {
            r.push(files[i].duplicate());
        }
        i = i + 1;
    }
    assert(files@.take(files@.len() as int) =~= files@);
    r
}

/// Orders versions by build, largest first, keeping the relative order of
/// equal builds.
pub fn sort_versions(vs: Vec<GameVersion>) -> (r: Vec<GameVersion>)
    ensures
        versions_view(r@) == sort_by_build(versions_view(vs@)),
{
    let ghost all = versions_view(vs@);
    let mut src = vs;
    let mut out: Vec<GameVersion> = Vec::new();
    let n = src.len();
    let mut i: usize = 0;
    assert(all.take(0) =~= Seq::<VersionView>::empty());
    assert(versions_view(src@) =~= all.subrange(0, n as int));
    while i < n
        invariant
            n == all.len(),
            i <= n,
            versions_view(src@) == all.subrange(i as int, n as int),
            versions_view(out@) == sort_by_build(all.take(i as int)),
            src@.len() == n - i,
        decreases n - i,
    {
        let ghost before_src = src@;
        let v = src.remove(0);
        assert(versions_view(before_src)[0] == all[i as int]);
        assert forall|j: int| 0 <= j < src@.len() implies #[trigger] versions_view(src@)[j]
            == all.subrange(i + 1, n as int)[j] by {
            assert(src@[j] == before_src[j + 1]);
            assert(versions_view(before_src)[j + 1] == all[i + 1 + j]);
        }
        assert(versions_view(src@) =~= all.subrange(i + 1, n as int));
        let b = v.build;
        let ghost cur = versions_view(out@);
        let mut p: usize = 0;
        while p < out.len() && out[p].build >= b
            invariant
                p <= out@.len(),
                cur == versions_view(out@),
                first_below(cur, b, 0) == first_below(cur, b, p as int),
            decreases out.len() - p,
        {
            p = p + 1;
        }
        out.insert(p, v);
        assert(all.take(i + 1).drop_last() =~= all.take(i as int));
        assert(all.take(i + 1).last() == all[i as int]);
        assert(versions_view(out@) =~= cur.insert(p as int, v@));
        i = i + 1;
    }
    assert(all.take(n as int) =~= all);
    out
}

/// Resolves the files of a game directory into its versions.
pub fn resolve_versions(files: &Vec<GameFile>) -> (r: Vec<GameVersion>)
    ensures
        versions_view(r@) == resolved_versions(files@),
        builds_descending(versions_view(r@)),
{
    let mut groups = group_files(files);
    add_patches(&mut groups, files);
    let installers = collect_installers(files);
    if groups.len() == 0 && installers.len() > 0 {
        groups.push(
            GameVersion {
                name: string_of(&chars_of("Default Version")),
                build: 1,
                files: installers,
                required_patches: Vec::new(),
            },
        );
    }
    let ghost grouped_view = versions_view(groups@);
    proof {
        let g = attach_patches(group_installers(files@), files@);
        if g.len() == 0 && installer_files(files@).len() > 0 {
            assert(grouped_view =~= seq![
                VersionView {
                    name: default_label(),
                    build: 1,
                    files: installer_files(files@),
                    required_patches: Seq::empty(),
                },
            ]);
        }
        lemma_resolved_versions_descending(files@);
    }
    sort_versions(groups)
}

} // verus!

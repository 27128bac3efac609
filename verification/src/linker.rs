//! Maintains the linker crate's manifest: discovers plugin manifests under
//! a plugin tree, reads each plugin's package name, computes the relative
//! path from the linker to the plugin, and rewrites the auto-generated
//! dependency block between its two marker lines. Paths are handled as
//! their component lists; reading and writing files is the embedder's job.

use vstd::prelude::*;

verus! {

/// The marker line that opens the auto-generated dependency block.
pub open spec fn begin_mark() -> Seq<char> {
    "# BEGIN AUTO-PLUGINS"@
}

/// The marker line that closes the auto-generated dependency block.
pub open spec fn end_mark() -> Seq<char> {
    "# END AUTO-PLUGINS"@
}

/// The marker line that opens the auto-generated dependency block.
pub fn begin_mark_line() -> (s: String)
    ensures
        s@ == begin_mark(),
{
    String::from_str("# BEGIN AUTO-PLUGINS")
}

/// The marker line that closes the auto-generated dependency block.
pub fn end_mark_line() -> (s: String)
    ensures
        s@ == end_mark(),
{
    String::from_str("# END AUTO-PLUGINS")
}

/// An error of the manifest tools.
#[derive(Debug)]
pub struct Error {
    msg: String,
}

impl Error {
    /// The error's message.
    pub closed spec fn spec_message(self) -> Seq<char> {
        self.msg@
    }

    /// The error's message.
    pub fn message(&self) -> (m: &String)
        ensures
            m@ == self.spec_message(),
    {
        &self.msg
    }
}

/// Builds an error from a message.
pub fn err(msg: &str) -> (e: Error)
    ensures
        e.spec_message() == msg@,
{
    Error { msg: String::from_str(msg) }
}

/// The characters of each string of a list.
pub open spec fn strings_view(v: Seq<String>) -> Seq<Seq<char>> {
    Seq::new(v.len(), |i: int| v[i]@)
}

/// How many leading components two paths share.
pub open spec fn common_prefix_len(a: Seq<Seq<char>>, b: Seq<Seq<char>>) -> int
    decreases a.len(),
{
    if a.len() == 0 || b.len() == 0 || a[0] != b[0] {
        0
    } else {
        1 + common_prefix_len(a.drop_first(), b.drop_first())
    }
}

/// The shared prefix is never longer than either path.
pub proof fn lemma_common_prefix_len_bounds(a: Seq<Seq<char>>, b: Seq<Seq<char>>)
    ensures
        0 <= common_prefix_len(a, b),
        common_prefix_len(a, b) <= a.len(),
        common_prefix_len(a, b) <= b.len(),
    decreases a.len(),
{
    if !(a.len() == 0 || b.len() == 0 || a[0] != b[0]) {
        lemma_common_prefix_len_bounds(a.drop_first(), b.drop_first());
    }
}

/// The relative path from `base` to `path`: one `..` for each component of
/// `base` past the shared prefix, then the components of `path` past it; a
/// path relative to itself is `.`.
pub open spec fn spec_diff_paths(a: Seq<Seq<char>>, b: Seq<Seq<char>>) -> Seq<Seq<char>> {
    let c = common_prefix_len(a, b);
    let out = Seq::new((b.len() - c) as nat, |i: int| ".."@) + a.skip(c);
    if out.len() == 0 {
        seq!["."@]
    } else {
        out
    }
}

/// Computes the relative path that reaches `path` from `base`, both given
/// as component lists.
pub fn diff_paths(path: &Vec<String>, base: &Vec<String>) -> (r: Option<Vec<String>>)
    ensures
        r is Some,
        r matches Some(v) ==> strings_view(v@) == spec_diff_paths(
            strings_view(path@),
            strings_view(base@),
        ),
{
    let ghost a = strings_view(path@);
    let ghost b = strings_view(base@);
    proof {
        lemma_common_prefix_len_bounds(a, b);
    }
    let mut c: usize = 0;
    proof {
        assert(a.skip(0) =~= a);
        assert(b.skip(0) =~= b);
    }
    #[verifier::loop_isolation(false)]
    while c < path.len() && c < base.len() && path[c].eq(&base[c])
        invariant
            c <= path.len(),
            c <= base.len(),
            common_prefix_len(a, b) == c + common_prefix_len(a.skip(c as int), b.skip(c as int)),
        decreases path.len() - c,
    {
        proof {
            assert(a.skip(c as int)[0] == a[c as int]);
            assert(b.skip(c as int)[0] == b[c as int]);
            assert(a.skip(c as int).drop_first() =~= a.skip(c + 1));
            assert(b.skip(c as int).drop_first() =~= b.skip(c + 1));
        }
        c = c + 1;
    }
    proof {
        if c < a.len() && c < b.len() {
            assert(a.skip(c as int)[0] == a[c as int]);
            assert(b.skip(c as int)[0] == b[c as int]);
        }
        assert(common_prefix_len(a, b) == c as int);
    }
    let mut out: Vec<String> = Vec::new();
    let mut k: usize = c;
    #[verifier::loop_isolation(false)]
    while k < base.len()
        invariant
            c <= k <= base.len(),
            out@.len() == k - c,
            forall|i: int| 0 <= i < out@.len() ==> (#[trigger] out@[i])@ == ".."@,
        decreases base.len() - k,
    {
        out.push(String::from_str(".."));
        k = k + 1;
    }
    let mut j: usize = c;
    #[verifier::loop_isolation(false)]
    while j < path.len()
        invariant
            c <= j <= path.len(),
            out@.len() == (base@.len() - c) + (j - c),
            forall|i: int| 0 <= i < base@.len() - c ==> (#[trigger] out@[i])@ == ".."@,
            forall|i: int|
                base@.len() - c <= i < out@.len() ==> (#[trigger] out@[i])@ == a[c + i - (
                base@.len() - c)],
        decreases path.len() - j,
    {
        out.push(crate::video::clone_string(&path[j]));
        j = j + 1;
    }
    if out.len() == 0 {
        out.push(String::from_str("."));
        proof {
            assert(strings_view(out@) =~= spec_diff_paths(a, b));
        }
        return Option::Some(out);
    }
    proof {
        assert(strings_view(out@) =~= spec_diff_paths(a, b));
    }
    Option::Some(out)
}

/// A path's components joined with `/`: how a component list is written
/// into a manifest.
pub open spec fn spec_join(v: Seq<Seq<char>>) -> Seq<char>
    decreases v.len(),
{
    if v.len() == 0 {
        Seq::empty()
    } else if v.len() == 1 {
        v[0]
    } else {
        spec_join(v.drop_last()) + "/"@ + v.last()
    }
}

/// Joins a path's components with `/`.
pub fn join_components(v: &Vec<String>) -> (s: String)
    ensures
        s@ == spec_join(strings_view(v@)),
{
    let mut s = String::new();
    let mut i: usize = 0;
    #[verifier::loop_isolation(false)]
    while i < v.len()
        invariant
            i <= v.len(),
            s@ == spec_join(strings_view(v@).subrange(0, i as int)),
        decreases v.len() - i,
    {
        proof {
            assert(strings_view(v@).subrange(0, i + 1).drop_last() =~= strings_view(
                v@,
            ).subrange(0, i as int));
            assert(strings_view(v@).subrange(0, i + 1).last() == v@[i as int]@);
        }
        if i > 0 {
            s.append("/");
        }
        s.append(v[i].as_str());
        i = i + 1;
    }
    proof {
        assert(strings_view(v@).subrange(0, v@.len() as int) =~= strings_view(v@));
    }
    s
}

/// One rendered dependency line of the auto-generated block.
pub open spec fn spec_dep_line(name: Seq<char>, path: Seq<char>) -> Seq<char> {
    name + " = { path = \""@ + path + "\" }\n"@
}

/// The whole auto-generated dependency block for a list of plugins, each
/// with its package name and its path's components.
pub open spec fn spec_deps_text(entries: Seq<(Seq<char>, Seq<Seq<char>>)>) -> Seq<char>
    decreases entries.len(),
{
    if entries.len() == 0 {
        Seq::empty()
    } else {
        spec_deps_text(entries.drop_last()) + spec_dep_line(
            entries.last().0,
            spec_join(entries.last().1),
        )
    }
}

/// The view of a dependency entry list: each package name with its path
/// components.
pub open spec fn entries_view(v: Seq<(String, Vec<String>)>) -> Seq<(Seq<char>, Seq<Seq<char>>)> {
    Seq::new(v.len(), |i: int| (v[i].0@, strings_view(v[i].1@)))
}

/// Renders the auto-generated dependency block: one `name = { path = .. }`
/// line per plugin, in the given order.
pub fn render_deps(entries: &Vec<(String, Vec<String>)>) -> (s: String)
    ensures
        s@ == spec_deps_text(entries_view(entries@)),
{
    let mut s = String::new();
    let mut i: usize = 0;
    #[verifier::loop_isolation(false)]
    while i < entries.len()
        invariant
            i <= entries.len(),
            s@ == spec_deps_text(entries_view(entries@).subrange(0, i as int)),
        decreases entries.len() - i,
    {
        proof {
            assert(entries_view(entries@).subrange(0, i + 1).drop_last() =~= entries_view(
                entries@,
            ).subrange(0, i as int));
            assert(entries_view(entries@).subrange(0, i + 1).last() == entries_view(entries@)[
                i as int
            ]);
        }
        s.append(entries[i].0.as_str());
        s.append(" = { path = \"");
        let joined = join_components(&entries[i].1);
        s.append(joined.as_str());
        s.append("\" }\n");
        i = i + 1;
    }
    proof {
        assert(entries_view(entries@).subrange(0, entries@.len() as int) =~= entries_view(
            entries@,
        ));
    }
    s
}

/// What a line holds once its trailing whitespace is removed: how the
/// marker lines are recognized.
pub uninterp spec fn trimmed_end(s: Seq<char>) -> Seq<char>;

/// Relies on `str::trim_end`: the line without its trailing whitespace.
/// The result is a function of the characters alone.
#[verifier::external_body]
fn trim_end_line(s: &str) -> (r: &str)
    ensures
        r@ == trimmed_end(s@),
{
    s.trim_end()
}

/// The lines that replace an existing auto-generated block: outside the
/// markers every line is kept; a line that is the opening marker (up to
/// trailing whitespace) is written back in its bare form with the new
/// block after it; the lines between the markers are dropped; the closing
/// marker is kept, in its bare form.
pub open spec fn spec_replace_block(
    lines: Seq<Seq<char>>,
    block: Seq<Seq<char>>,
    in_block: bool,
) -> Seq<Seq<char>>
    decreases lines.len(),
{
    if lines.len() == 0 {
        Seq::empty()
    } else {
        let l = lines[0];
        let rest = lines.drop_first();
        if trimmed_end(l) == begin_mark() {
            seq![begin_mark()] + block + spec_replace_block(rest, block, true)
        } else if trimmed_end(l) == end_mark() {
            seq![end_mark()] + spec_replace_block(rest, block, false)
        } else if in_block {
            spec_replace_block(rest, block, true)
        } else {
            seq![l] + spec_replace_block(rest, block, false)
        }
    }
}

/// Appends every line of `lines` to `out`, in order.
fn append_lines(out: &mut Vec<String>, lines: &Vec<String>)
    ensures
        strings_view(final(out)@) == strings_view(old(out)@) + strings_view(lines@),
{
    let mut j: usize = 0;
    #[verifier::loop_isolation(false)]
    while j < lines.len()
        invariant
            j <= lines.len(),
            out@.len() == old(out)@.len() + j,
            forall|k: int|
                0 <= k < old(out)@.len() ==> (#[trigger] out@[k])@ == old(out)@[k]@,
            forall|k: int|
                old(out)@.len() <= k < out@.len() ==> (#[trigger] out@[k])@ == lines@[k - old(
                    out,
                )@.len()]@,
        decreases lines.len() - j,
    {
        out.push(crate::video::clone_string(&lines[j]));
        j = j + 1;
    }
    proof {
        assert(strings_view(out@) =~= strings_view(old(out)@) + strings_view(lines@));
    }
}

/// Replaces the auto-generated block between the two marker lines with the
/// given block, keeping everything outside the markers. Both the content
/// and the new block are handled as lines.
pub fn replace_block(content: &Vec<String>, deps_block: &Vec<String>) -> (r: Vec<String>)
    ensures
        strings_view(r@) == spec_replace_block(
            strings_view(content@),
            strings_view(deps_block@),
            false,
        ),
{
    let ghost full = strings_view(content@);
    let ghost block = strings_view(deps_block@);
    let begin = begin_mark_line();
    let end = end_mark_line();
    let mut out: Vec<String> = Vec::new();
    let mut in_block = false;
    let mut i: usize = 0;
    proof {
        assert(full.skip(0) =~= full);
    }
    #[verifier::loop_isolation(false)]
    while i < content.len()
        invariant
            i <= content.len(),
            begin@ == begin_mark(),
            end@ == end_mark(),
            spec_replace_block(full, block, false) == strings_view(out@) + spec_replace_block(
                full.skip(i as int),
                block,
                in_block,
            ),
        decreases content.len() - i,
    {
        let ghost out0 = strings_view(out@);
        proof {
            assert(full.skip(i as int)[0] == full[i as int]);
            assert(full.skip(i as int).drop_first() =~= full.skip(i + 1));
        }
        let line = &content[i];
        let trimmed = String::from_str(trim_end_line(line.as_str()));
        if trimmed.eq(&begin) {
            out.push(crate::video::clone_string(&begin));
            append_lines(&mut out, deps_block);
            in_block = true;
            proof {
                assert(strings_view(out@) =~= out0 + seq![begin_mark()] + block);
                assert(out0 + (seq![begin_mark()] + block + spec_replace_block(
                    full.skip(i + 1),
                    block,
                    true,
                )) =~= (out0 + seq![begin_mark()] + block) + spec_replace_block(
                    full.skip(i + 1),
                    block,
                    true,
                ));
            }
        } else if trimmed.eq(&end) {
            out.push(crate::video::clone_string(&end));
            in_block = false;
            proof {
                assert(strings_view(out@) =~= out0 + seq![end_mark()]);
                assert(out0 + (seq![end_mark()] + spec_replace_block(
                    full.skip(i + 1),
                    block,
                    false,
                )) =~= (out0 + seq![end_mark()]) + spec_replace_block(
                    full.skip(i + 1),
                    block,
                    false,
                ));
            }
        } else if in_block {
        } else {
            out.push(crate::video::clone_string(line));
            proof {
                assert(strings_view(out@) =~= out0 + seq![full[i as int]]);
                assert(out0 + (seq![full[i as int]] + spec_replace_block(
                    full.skip(i + 1),
                    block,
                    false,
                )) =~= (out0 + seq![full[i as int]]) + spec_replace_block(
                    full.skip(i + 1),
                    block,
                    false,
                ));
            }
        }
        i = i + 1;
    }
    proof {
        assert(full.skip(content@.len() as int).len() == 0);
        assert(strings_view(out@) + Seq::<Seq<char>>::empty() =~= strings_view(out@));
    }
    out
}

/// Selects, in order, the candidate paths that end in a manifest file:
/// which of the walked files are crate manifests.
pub open spec fn spec_manifest_paths(paths: Seq<Seq<Seq<char>>>) -> Seq<Seq<Seq<char>>>
    decreases paths.len(),
{
    if paths.len() == 0 {
        Seq::empty()
    } else {
        let rest = spec_manifest_paths(paths.drop_last());
        let p = paths.last();
        if p.len() > 0 && p.last() == "Cargo.toml"@ {
            rest.push(p)
        } else {
            rest
        }
    }
}

/// The components of each path of a list.
pub open spec fn paths_view(v: Seq<Vec<String>>) -> Seq<Seq<Seq<char>>> {
    Seq::new(v.len(), |i: int| strings_view(v[i]@))
}

/// Keeps, in order, the walked paths whose last component is `Cargo.toml`.
pub fn manifest_paths(paths: &Vec<Vec<String>>) -> (r: Vec<Vec<String>>)
    ensures
        paths_view(r@) == spec_manifest_paths(paths_view(paths@)),
{
    let mut out: Vec<Vec<String>> = Vec::new();
    let mut i: usize = 0;
    let manifest = String::from_str("Cargo.toml");
    #[verifier::loop_isolation(false)]
    while i < paths.len()
        invariant
            i <= paths.len(),
            manifest@ == "Cargo.toml"@,
            paths_view(out@) =~= spec_manifest_paths(paths_view(paths@).subrange(0, i as int)),
        decreases paths.len() - i,
    {
        proof {
            assert(paths_view(paths@).subrange(0, i + 1).drop_last() =~= paths_view(
                paths@,
            ).subrange(0, i as int));
            assert(paths_view(paths@).subrange(0, i + 1).last() == paths_view(paths@)[i as int]);
        }
        let p = &paths[i];
        if p.len() > 0 && p[p.len() - 1].eq(&manifest) {
            out.push(clone_components(p));
            proof {
                assert(paths_view(out@) =~= spec_manifest_paths(
                    paths_view(paths@).subrange(0, i + 1),
                ));
            }
        } else {
            proof {
                assert(paths_view(out@) =~= spec_manifest_paths(
                    paths_view(paths@).subrange(0, i + 1),
                ));
            }
        }
        i = i + 1;
    }
    proof {
        assert(paths_view(paths@).subrange(0, paths@.len() as int) =~= paths_view(paths@));
    }
    out
}

/// An exact copy of a path's components.
pub fn clone_components(v: &Vec<String>) -> (r: Vec<String>)
    ensures
        strings_view(r@) == strings_view(v@),
{
    let mut out: Vec<String> = Vec::new();
    let mut i: usize = 0;
    #[verifier::loop_isolation(false)]
    while i < v.len()
        invariant
            i <= v.len(),
            out@.len() == i,
            forall|k: int| 0 <= k < i ==> (#[trigger] out@[k])@ == v@[k]@,
        decreases v.len() - i,
    {
        out.push(crate::video::clone_string(&v[i]));
        i = i + 1;
    }
    proof {
        assert(strings_view(out@) =~= strings_view(v@));
    }
    out
}

/// The manifest paths of the plugin crates under a plugin tree: for each
/// crate directory that holds a manifest, the directory's components with
/// `Cargo.toml` appended, in the given (sorted) order.
pub open spec fn spec_discover_plugins(candidates: Seq<(Seq<Seq<char>>, bool)>) -> Seq<
    Seq<Seq<char>>,
>
    decreases candidates.len(),
{
    if candidates.len() == 0 {
        Seq::empty()
    } else {
        let rest = spec_discover_plugins(candidates.drop_last());
        let c = candidates.last();
        if c.1 {
            rest.push(c.0.push("Cargo.toml"@))
        } else {
            rest
        }
    }
}

/// The view of a candidate list: each crate directory's components with
/// whether the directory holds a manifest.
pub open spec fn candidates_view(v: Seq<(Vec<String>, bool)>) -> Seq<(Seq<Seq<char>>, bool)> {
    Seq::new(v.len(), |i: int| (strings_view(v[i].0@), v[i].1))
}

/// Discovers the plugin crates of a plugin tree: given each candidate
/// crate directory and whether it holds a manifest, returns the manifest
/// paths of those that do, in order.
pub fn discover_plugins(candidates: &Vec<(Vec<String>, bool)>) -> (r: Vec<Vec<String>>)
    ensures
        paths_view(r@) == spec_discover_plugins(candidates_view(candidates@)),
{
    let mut out: Vec<Vec<String>> = Vec::new();
    let mut i: usize = 0;
    #[verifier::loop_isolation(false)]
    while i < candidates.len()
        invariant
            i <= candidates.len(),
            paths_view(out@) =~= spec_discover_plugins(
                candidates_view(candidates@).subrange(0, i as int),
            ),
        decreases candidates.len() - i,
    {
        proof {
            assert(candidates_view(candidates@).subrange(0, i + 1).drop_last() =~= candidates_view(
                candidates@,
            ).subrange(0, i as int));
            assert(candidates_view(candidates@).subrange(0, i + 1).last() == candidates_view(
                candidates@,
            )[i as int]);
        }
        if candidates[i].1 {
            let mut p = clone_components(&candidates[i].0);
            p.push(String::from_str("Cargo.toml"));
            proof {
                assert(strings_view(p@) =~= strings_view(candidates@[i as int].0@).push(
                    "Cargo.toml"@,
                ));
                assert(paths_view(out@.push(p)) =~= paths_view(out@).push(strings_view(p@)));
            }
            out.push(p);
        }
        proof {
            assert(paths_view(out@) =~= spec_discover_plugins(
                candidates_view(candidates@).subrange(0, i + 1),
            ));
        }
        i = i + 1;
    }
    proof {
        assert(candidates_view(candidates@).subrange(0, candidates@.len() as int)
            =~= candidates_view(candidates@));
    }
    out
}

/// What a manifest text holds: nothing when it is not valid TOML; an
/// empty result when it parses but carries no `package.name` string; else
/// that name.
pub uninterp spec fn toml_pkg_name(s: Seq<char>) -> Option<Option<Seq<char>>>;

/// Relies on `toml::from_str` and the `Table` and `Value` lookups `get`
/// and `as_str`: parses a manifest and reads the `package.name` string,
/// telling "not valid TOML" (`None`) apart from "parses, but no name"
/// (`Some(None)`). The result is a function of the text alone.
#[verifier::external_body]
fn toml_package_name(text: &str) -> (r: Option<Option<String>>)
    ensures
        r is Some <==> toml_pkg_name(text@) is Some,
        r matches Some(inner) ==> (toml_pkg_name(text@) matches Some(spec_inner) && (inner
            is Some <==> spec_inner is Some) && (inner matches Some(n) ==> spec_inner
            == Option::Some(n@))),
{
    let table: toml::Table = match toml::from_str(text) {
        Ok(t) => t,
        Err(_) => return None,
    };
    let name = table
        .get("package")
        .and_then(|p| p.get("name"))
        .and_then(|n| n.as_str());
    Some(name.map(str::to_owned))
}

/// Reads a plugin manifest: its package name, and the directory that holds
/// it (the manifest path without its file name, or `.` when there is
/// none). A text that is not valid TOML is an error; one that parses but
/// carries no `package.name` string yields nothing.
pub fn read_package_name(cargo_toml_path: &Vec<String>, text: &str) -> (r: Result<
    Option<(String, Vec<String>)>,
    Error,
>)
    ensures
        r is Err <==> toml_pkg_name(text@) is None,
        toml_pkg_name(text@) matches Some(inner) ==> (r matches Ok(ro) && (ro is Some <==> inner
            is Some)),
        r matches Ok(ro) ==> ro matches Some(p) ==> {
            &&& toml_pkg_name(text@) == Option::Some(Option::Some(p.0@))
            &&& (cargo_toml_path@.len() > 0 ==> strings_view(p.1@) == strings_view(
                cargo_toml_path@,
            ).drop_last())
            &&& (cargo_toml_path@.len() == 0 ==> strings_view(p.1@) =~= seq!["."@])
        },
{
    let name = match toml_package_name(text) {
        Option::Some(Option::Some(n)) => n,
        Option::Some(Option::None) => {
            return Ok(Option::None);
        },
        Option::None => {
            return Err(err("manifest is not valid TOML"));
        },
    };
    let mut dir: Vec<String> = Vec::new();
    if cargo_toml_path.len() == 0 {
        dir.push(String::from_str("."));
        proof {
            assert(strings_view(dir@) =~= seq!["."@]);
        }
        return Ok(Option::Some((name, dir)));
    }
    let mut i: usize = 0;
    #[verifier::loop_isolation(false)]
    while i < cargo_toml_path.len() - 1
        invariant
            i <= cargo_toml_path@.len() - 1,
            dir@.len() == i,
            forall|k: int| 0 <= k < i ==> (#[trigger] dir@[k])@ == cargo_toml_path@[k]@,
        decreases cargo_toml_path.len() - 1 - i,
    {
        dir.push(crate::video::clone_string(&cargo_toml_path[i]));
        i = i + 1;
    }
    proof {
        assert(strings_view(dir@) =~= strings_view(cargo_toml_path@).drop_last());
    }
    Ok(Option::Some((name, dir)))
}

} // verus!

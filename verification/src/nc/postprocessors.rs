use vstd::prelude::*;
use crate::domain::postprocessors::strings_view;
use crate::nc::ir::text_view;

verus! {

/// The user's configuration directory, if the platform has one.
///
/// Calls `dirs::config_dir`, which reads the environment (such as
/// `XDG_CONFIG_HOME` and `HOME`); the path is handed back as text, with
/// characters that are not UTF-8 replaced. Nothing is stated of the result.
#[verifier::external_body]
fn config_dir() -> (r: Option<String>) {
    match dirs::config_dir() {
        Some(p) => Some(p.to_string_lossy().into_owned()),
        None => None,
    }
}

/// Whether a file or directory exists at `path`.
///
/// Calls `std::path::Path::exists`, which asks the file system; nothing is
/// stated of the result.
#[verifier::external_body]
fn path_exists(path: &String) -> (r: bool) {
    std::path::Path::new(path).exists()
}

/// `path` appended to `base` as a path: an absolute `path` (one that starts
/// with `/`) replaces `base`; otherwise a `/` separates the two unless
/// `base` is empty or already ends with one.
pub open spec fn spec_join(base: Seq<char>, path: Seq<char>) -> Seq<char> {
    if path.len() > 0 && path[0] == '/' {
        path
    } else if base.len() == 0 || base.last() == '/' {
        base + path
    } else {
        base + seq!['/'] + path
    }
}

/// `path` appended to `base` as a path (see [`spec_join`]).
pub fn join_path(base: &str, path: &str) -> (r: String)
    ensures
        r@ == spec_join(base@, path@),
{
    if path.unicode_len() > 0 && path.get_char(0) == '/' {
        return path.to_owned();
    }
    let n = base.unicode_len();
    let mut joined = base.to_owned();
    if n == 0 || base.get_char(n - 1) == '/' {
        joined.append(path);
    } else {
        joined.append("/");
        proof {
            reveal_strlit("/");
        }
        joined.append(path);
    }
    joined
}

/// The directories searched for post-processors, in order:
/// `postprocessors` (next to where the program runs), then
/// `chipmunk/postprocessors` in the user's configuration directory, if
/// there is one.
pub open spec fn search_dirs(config: Option<Seq<char>>) -> Seq<Seq<char>> {
    seq!["postprocessors"@] + match config {
        Some(c) => seq![spec_join(c, "chipmunk/postprocessors"@)],
        None => Seq::<Seq<char>>::empty(),
    }
}

/// The directories searched for post-processors, given the user's
/// configuration directory (see [`search_dirs`]).
pub fn postprocessor_search_dirs(config: &Option<String>) -> (r: Vec<String>)
    ensures
        strings_view(r@) == search_dirs(
            text_view(*config),
        ),
{
    let mut dirs: Vec<String> = Vec::new();
    dirs.push(String::from_str("postprocessors"));
    match config {
        Some(c) => {
            dirs.push(join_path(c.as_str(), "chipmunk/postprocessors"));
        },
        None => {},
    }
    proof {
        let expected = search_dirs(
            text_view(*config),
        );
        assert(strings_view(dirs@) =~= expected);
    }
    dirs
}

/// The directories searched for post-processors on this machine: the
/// first is `postprocessors`; the second, if any, is
/// `chipmunk/postprocessors` in the user's configuration directory.
pub fn postprocessor_dirs() -> (r: Vec<String>)
    ensures
        exists|config: Option<Seq<char>>| strings_view(r@) == search_dirs(config),
        exists|config: Option<String>|
            {
                &&& #[trigger] reported_config_dir(config)
                &&& strings_view(r@) == search_dirs(text_view(config))
                &&& r@.len() == (if config is Some { 2int } else { 1int })
                &&& r@[0]@ == "postprocessors"@
                &&& config matches Some(c) ==> r@[1]@ == spec_join(c@, "chipmunk/postprocessors"@)
            },
{
    let config = ask_config_dir(config_dir);
    let dirs = postprocessor_search_dirs(&config);
    proof {
        let c = text_view(config);
        assert(strings_view(dirs@) == search_dirs(c));
        lemma_search_dirs_shape(c);
        assert(dirs@[0]@ == strings_view(dirs@)[0]);
        if config is Some {
            assert(dirs@[1]@ == strings_view(dirs@)[1]);
        }
        assert(reported_config_dir(config));
    }
    dirs
}

/// `config` is a value that the platform's lookup of the user's
/// configuration directory ([`config_dir`]) can hand back.
pub closed spec fn reported_config_dir(config: Option<String>) -> bool {
    call_ensures(config_dir, (), config)
}

/// `answer` is what the file system can answer, asked whether something
/// exists at `path` ([`path_exists`]).
pub closed spec fn reported_exists(path: String, answer: bool) -> bool {
    call_ensures(path_exists, (&path,), answer)
}

/// The search directories start with `postprocessors`; the one in the
/// user's configuration directory follows exactly when there is such a
/// directory, and then it is `chipmunk/postprocessors` joined to it.
pub proof fn lemma_search_dirs_shape(config: Option<Seq<char>>)
    ensures
        search_dirs(config).len() == (if config is Some { 2int } else { 1int }),
        search_dirs(config)[0] == "postprocessors"@,
        config matches Some(c) ==> search_dirs(config)[1] == spec_join(c, "chipmunk/postprocessors"@),
        config matches Some(c) ==> search_dirs(config).contains(spec_join(c, "chipmunk/postprocessors"@)),
{
    if let Some(c) = config {
        assert(search_dirs(config)[1] == spec_join(c, "chipmunk/postprocessors"@));
    }
}

/// Asks `source` for the configuration directory, once.
fn ask_config_dir<F: Fn() -> Option<String>>(source: F) -> (r: Option<String>)
    requires
        call_requires(source, ()),
    ensures
        call_ensures(source, (), r),
{
    source()
}

/// The file name of the post-processor called `name`.
pub open spec fn postprocessor_file(name: Seq<char>) -> Seq<char> {
    name + ".lua"@
}

/// The paths at which the post-processor `name` is looked for, one in each
/// of `dirs`, in order.
pub open spec fn candidate_paths(dirs: Seq<Seq<char>>, name: Seq<char>) -> Seq<Seq<char>> {
    dirs.map_values(|d: Seq<char>| spec_join(d, postprocessor_file(name)))
}

/// The path of the post-processor `name` in the first of `dirs` where a
/// file of that name exists, if there is one: one of the paths of
/// [`candidate_paths`].
pub fn find_postprocessor_in(dirs: &Vec<String>, name: &str) -> (r: Option<String>)
    ensures
        r matches Some(path) ==> candidate_paths(strings_view(dirs@), name@).contains(path@),
        exists|candidates: Seq<String>, answers: Seq<bool>|
            {
                &&& strings_view(candidates) == candidate_paths(strings_view(dirs@), name@)
                &&& answers.len() == candidates.len()
                &&& forall|i: int|
                    0 <= i < candidates.len() ==> reported_exists(
                        #[trigger] candidates[i],
                        answers[i],
                    )
                &&& r is None <==> forall|i: int| 0 <= i < answers.len() ==> !#[trigger] answers[i]
                &&& r matches Some(path) ==> exists|k: int|
                    {
                        &&& 0 <= k < candidates.len()
                        &&& #[trigger] answers[k]
                        &&& path@ == candidates[k]@
                        &&& forall|j: int| 0 <= j < k ==> !#[trigger] answers[j]
                    }
            },
{
    let candidates = postprocessor_candidates(dirs, name);
    let (r, present) = first_found(&candidates, path_exists);
    proof {
        lemma_first_existing_is_a_path(strings_view(candidates@), present@);
        lemma_first_existing_is_first(strings_view(candidates@), present@);
        assert forall|i: int| 0 <= i < candidates@.len() implies reported_exists(
            #[trigger] candidates@[i],
            present@[i],
        ) by {
            assert(call_ensures(path_exists, (&candidates@[i],), present@[i]));
        }
        if r is Some {
            let path = r->0;
            let k = choose|k: int|
                0 <= k < present@.len() && present@[k] && strings_view(candidates@)[k] == path@
                    && forall|j: int| 0 <= j < k ==> !present@[j];
            assert(present@[k] && path@ == candidates@[k]@);
        }
    }
    r
}

/// Asks `check` about each of `paths`, in order, and hands back the first
/// that it answers yes for, with all the answers.
fn first_found<F: Fn(&String) -> bool>(paths: &Vec<String>, check: F) -> (r: (Option<String>, Vec<bool>))
    requires
        forall|i: int| 0 <= i < paths@.len() ==> call_requires(check, (&paths@[i],)),
    ensures
        r.1@.len() == paths@.len(),
        forall|i: int|
            0 <= i < paths@.len() ==> call_ensures(check, (&paths@[i],), #[trigger] r.1@[i]),
        text_view(r.0) == spec_first_existing(strings_view(paths@), r.1@),
{
    let mut present: Vec<bool> = Vec::new();
    let n = paths.len();
    for i in 0..n
        invariant
            n == paths@.len(),
            present@.len() == i,
            forall|k: int| 0 <= k < paths@.len() ==> call_requires(check, (&paths@[k],)),
            forall|k: int|
                0 <= k < i ==> call_ensures(check, (&paths@[k],), #[trigger] present@[k]),
    {
        let answer = check(&paths[i]);
        present.push(answer);
    }
    let r = first_existing(paths, &present);
    (r, present)
}

/// The path of the post-processor `name`, if it is found in one of the
/// directories searched for post-processors: the first directory where a
/// file `name.lua` exists.
pub fn find_postprocessor(name: &str) -> (r: Option<String>)
    ensures
        r matches Some(path) ==> exists|config: Option<Seq<char>>|
            #[trigger] candidate_paths(search_dirs(config), name@).contains(path@),
        exists|config: Option<String>|
            #[trigger] reported_config_dir(config) && exists|candidates: Seq<String>, answers: Seq<bool>|
            {
                &&& strings_view(candidates) == candidate_paths(
                    search_dirs(text_view(config)),
                    name@,
                )
                &&& answers.len() == candidates.len()
                &&& forall|i: int|
                    0 <= i < candidates.len() ==> reported_exists(
                        #[trigger] candidates[i],
                        answers[i],
                    )
                &&& r is None <==> forall|i: int| 0 <= i < answers.len() ==> !#[trigger] answers[i]
                &&& r matches Some(path) ==> exists|k: int|
                    {
                        &&& 0 <= k < candidates.len()
                        &&& #[trigger] answers[k]
                        &&& path@ == candidates[k]@
                        &&& forall|j: int| 0 <= j < k ==> !#[trigger] answers[j]
                    }
            },
{
    let dirs = postprocessor_dirs();
    let r = find_postprocessor_in(&dirs, name);
    proof {
        let config = choose|config: Option<String>|
            #[trigger] reported_config_dir(config) && strings_view(dirs@) == search_dirs(
                text_view(config),
            );
        let (candidates, answers) = choose|candidates: Seq<String>, answers: Seq<bool>|
            {
                &&& strings_view(candidates) == candidate_paths(strings_view(dirs@), name@)
                &&& answers.len() == candidates.len()
                &&& forall|i: int|
                    0 <= i < candidates.len() ==> reported_exists(
                        #[trigger] candidates[i],
                        answers[i],
                    )
                &&& r is None <==> forall|i: int| 0 <= i < answers.len() ==> !#[trigger] answers[i]
                &&& r matches Some(path) ==> exists|k: int|
                    {
                        &&& 0 <= k < candidates.len()
                        &&& #[trigger] answers[k]
                        &&& path@ == candidates[k]@
                        &&& forall|j: int| 0 <= j < k ==> !#[trigger] answers[j]
                    }
            };
        assert(reported_config_dir(config));
    }
    r
}

/// The paths at which the post-processor `name` is looked for, one in each
/// of `dirs`, in order (see [`candidate_paths`]).
pub fn postprocessor_candidates(dirs: &Vec<String>, name: &str) -> (r: Vec<String>)
    ensures
        strings_view(r@) == candidate_paths(strings_view(dirs@), name@),
{
    let mut file = name.to_owned();
    file.append(".lua");
    let mut paths: Vec<String> = Vec::new();
    let n = dirs.len();
    for i in 0..n
        invariant
            n == dirs@.len(),
            file@ == postprocessor_file(name@),
            paths@.len() == i,
            forall|k: int|
                0 <= k < i ==> #[trigger] paths@[k]@ == spec_join(dirs@[k]@, postprocessor_file(name@)),
    {
        paths.push(join_path(dirs[i].as_str(), file.as_str()));
    }
    proof {
        assert(strings_view(paths@) =~= candidate_paths(strings_view(dirs@), name@));
    }
    paths
}

/// The first of `paths` that is marked present in `present` (the marks
/// taken index by index), if any.
pub open spec fn spec_first_existing(paths: Seq<Seq<char>>, present: Seq<bool>) -> Option<Seq<char>>
    decreases paths.len(),
{
    if paths.len() == 0 || present.len() == 0 {
        None
    } else if present[0] {
        Some(paths[0])
    } else {
        spec_first_existing(paths.drop_first(), present.drop_first())
    }
}

/// The path found is one of the paths.
pub proof fn lemma_first_existing_is_a_path(paths: Seq<Seq<char>>, present: Seq<bool>)
    ensures
        spec_first_existing(paths, present) matches Some(p) ==> paths.contains(p),
    decreases paths.len(),
{
    if paths.len() > 0 && present.len() > 0 {
        if present[0] {
            assert(paths[0] == paths[0]);
        } else {
            lemma_first_existing_is_a_path(paths.drop_first(), present.drop_first());
            if let Some(p) = spec_first_existing(paths.drop_first(), present.drop_first()) {
                let k = choose|k: int| 0 <= k < paths.drop_first().len() && paths.drop_first()[k] == p;
                assert(paths[k + 1] == p);
            }
        }
    }
}

/// Of paths marked one by one, the first one marked present is found:
/// nothing is found exactly when none is marked, and what is found is the
/// path at the first mark.
pub proof fn lemma_first_existing_is_first(paths: Seq<Seq<char>>, present: Seq<bool>)
    requires
        paths.len() == present.len(),
    ensures
        spec_first_existing(paths, present) is None <==> forall|i: int|
            0 <= i < present.len() ==> !#[trigger] present[i],
        spec_first_existing(paths, present) matches Some(p) ==> exists|k: int|
            0 <= k < present.len() && #[trigger] present[k] && paths[k] == p && forall|j: int|
                0 <= j < k ==> !#[trigger] present[j],
    decreases paths.len(),
{
    if paths.len() > 0 {
        if present[0] {
            assert(present[0] && paths[0] == paths[0]);
        } else {
            let ps = paths.drop_first();
            let fs = present.drop_first();
            lemma_first_existing_is_first(ps, fs);
            assert forall|i: int| 0 < i < present.len() implies present[i] == fs[i - 1] by {}
            if forall|i: int| 0 <= i < fs.len() ==> !#[trigger] fs[i] {
                assert forall|i: int| 0 <= i < present.len() implies !#[trigger] present[i] by {
                    if i > 0 {
                        assert(!fs[i - 1]);
                    }
                }
            } else {
                let i = choose|i: int| 0 <= i < fs.len() && fs[i];
                assert(present[i + 1]);
            }
            if let Some(p) = spec_first_existing(ps, fs) {
                let k = choose|k: int|
                    0 <= k < fs.len() && #[trigger] fs[k] && ps[k] == p && forall|j: int|
                        0 <= j < k ==> !#[trigger] fs[j];
                assert(present[k + 1] && paths[k + 1] == p);
                assert forall|j: int| 0 <= j < k + 1 implies !#[trigger] present[j] by {
                    if j > 0 {
                        assert(!fs[j - 1]);
                    }
                }
            }
        }
    }
}

/// The first of `paths` that `present` marks as existing, if any (see
/// [`spec_first_existing`]).
pub fn first_existing(paths: &Vec<String>, present: &Vec<bool>) -> (r: Option<String>)
    ensures
        text_view(r) == spec_first_existing(strings_view(paths@), present@),
{
    let n = paths.len();
    let m = present.len();
    let mut i: usize = 0;
    proof {
        assert(strings_view(paths@).skip(0) =~= strings_view(paths@));
        assert(present@.skip(0) =~= present@);
    }
    while i < n && i < m
        invariant
            n == paths@.len(),
            m == present@.len(),
            i <= n,
            i <= m,
            spec_first_existing(strings_view(paths@), present@) == spec_first_existing(
                strings_view(paths@).skip(i as int),
                present@.skip(i as int),
            ),
        decreases n - i,
    {
        let ghost ps = strings_view(paths@).skip(i as int);
        let ghost fs = present@.skip(i as int);
        assert(ps[0] == paths@[i as int]@);
        assert(fs[0] == present@[i as int]);
        if present[i] {
            return Some(paths[i].clone());
        }
        assert(ps.drop_first() =~= strings_view(paths@).skip(i + 1));
        assert(fs.drop_first() =~= present@.skip(i + 1));
        i = i + 1;
    }
    None
}

/// The post-processor that a file of this name holds, if any: files
/// named `<name>.lua` with a non-empty `<name>` hold the post-processor
/// `<name>`, except `base.lua`, which holds what post-processors share.
pub open spec fn spec_postprocessor_name(file: Seq<char>) -> Option<Seq<char>> {
    let n = file.len();
    if n > 4 && file.subrange(n - 4, n as int) == seq!['.', 'l', 'u', 'a'] && file.subrange(0, n - 4)
        != seq!['b', 'a', 's', 'e'] {
        Some(file.subrange(0, n - 4))
    } else {
        None
    }
}

/// The post-processor that the file `file` holds (see
/// [`spec_postprocessor_name`]).
pub fn postprocessor_name(file: &str) -> (r: Option<String>)
    ensures
        text_view(r) == spec_postprocessor_name(file@),
{
    let n = file.unicode_len();
    if n <= 4 {
        return None;
    }
    let is_lua = file.get_char(n - 4) == '.' && file.get_char(n - 3) == 'l' && file.get_char(n - 2)
        == 'u' && file.get_char(n - 1) == 'a';
    if !is_lua {
        proof {
            let tail = file@.subrange(n - 4, n as int);
            if tail == seq!['.', 'l', 'u', 'a'] {
                assert(tail[0] == file@[n - 4]);
                assert(tail[1] == file@[n - 3]);
                assert(tail[2] == file@[n - 2]);
                assert(tail[3] == file@[n - 1]);
            }
        }
        return None;
    }
    let stem = file.substring_char(0, n - 4).to_owned();
    let base = String::from_str("base");
    proof {
        reveal_strlit("base");
        assert(file@.subrange(n - 4, n as int) =~= seq!['.', 'l', 'u', 'a']);
        assert(base@ =~= seq!['b', 'a', 's', 'e']);
    }
    if stem.eq(&base) {
        None
    } else {
        Some(stem)
    }
}

/// `a` comes before `b` in lexicographic order of characters, which is the
/// order of `str` (byte-wise order of UTF-8 is the order of code points).
pub open spec fn lex_lt(a: Seq<char>, b: Seq<char>) -> bool
    decreases a.len(),
{
    if a.len() == 0 {
        b.len() > 0
    } else if b.len() == 0 {
        false
    } else if a[0] == b[0] {
        lex_lt(a.drop_first(), b.drop_first())
    } else {
        (a[0] as int) < (b[0] as int)
    }
}

/// No sequence comes before itself.
pub proof fn lemma_lex_lt_irreflexive(a: Seq<char>)
    ensures
        !lex_lt(a, a),
    decreases a.len(),
{
    if a.len() > 0 {
        lemma_lex_lt_irreflexive(a.drop_first());
    }
}

/// Of two different sequences, one comes before the other, and not both.
pub proof fn lemma_lex_lt_total(a: Seq<char>, b: Seq<char>)
    ensures
        a != b ==> lex_lt(a, b) || lex_lt(b, a),
        !(lex_lt(a, b) && lex_lt(b, a)),
    decreases a.len(),
{
    if a.len() > 0 && b.len() > 0 {
        lemma_lex_lt_total(a.drop_first(), b.drop_first());
        if a[0] == b[0] && a != b {
            assert(a =~= seq![a[0]] + a.drop_first());
            assert(b =~= seq![b[0]] + b.drop_first());
        }
        if a[0] != b[0] {
            assert((a[0] as int) != (b[0] as int));
        }
    } else if a.len() == 0 && b.len() == 0 {
        assert(a =~= b);
    }
}

/// Order is transitive.
pub proof fn lemma_lex_lt_transitive(a: Seq<char>, b: Seq<char>, c: Seq<char>)
    requires
        lex_lt(a, b),
        lex_lt(b, c),
    ensures
        lex_lt(a, c),
    decreases a.len(),
{
    if a.len() > 0 && b.len() > 0 && c.len() > 0 {
        if a[0] == b[0] && b[0] == c[0] {
            lemma_lex_lt_transitive(a.drop_first(), b.drop_first(), c.drop_first());
        }
    }
}

/// Whether `a` comes before `b` (see [`lex_lt`]).
pub fn str_lt(a: &str, b: &str) -> (r: bool)
    ensures
        r == lex_lt(a@, b@),
{
    let la = a.unicode_len();
    let lb = b.unicode_len();
    let mut i: usize = 0;
    assert(a@.skip(0) =~= a@);
    assert(b@.skip(0) =~= b@);
    while i < la && i < lb
        invariant
            la == a@.len(),
            lb == b@.len(),
            i <= la,
            i <= lb,
            lex_lt(a@, b@) == lex_lt(a@.skip(i as int), b@.skip(i as int)),
        decreases la - i,
    {
        let ca = a.get_char(i);
        let cb = b.get_char(i);
        let ghost sa = a@.skip(i as int);
        let ghost sb = b@.skip(i as int);
        assert(sa[0] == ca && sb[0] == cb);
        if ca != cb {
            return (ca as u32) < (cb as u32);
        }
        assert(sa.drop_first() =~= a@.skip(i + 1));
        assert(sb.drop_first() =~= b@.skip(i + 1));
        i = i + 1;
    }
    i == la && i < lb
}

/// The sequences are in strictly increasing order.
pub open spec fn strictly_sorted(s: Seq<Seq<char>>) -> bool {
    forall|i: int, j: int| 0 <= i < j < s.len() ==> lex_lt(#[trigger] s[i], #[trigger] s[j])
}

/// Inserts `name` at its place in the strictly sorted `names`, unless it
/// is there already.
fn insert_sorted(names: &mut Vec<String>, name: String)
    requires
        strictly_sorted(strings_view(old(names)@)),
    ensures
        strictly_sorted(strings_view(final(names)@)),
        forall|s: Seq<char>|
            #[trigger] strings_view(final(names)@).contains(s) == (strings_view(
                old(names)@,
            ).contains(s) || s == name@),
{
    let ghost before = strings_view(names@);
    let n = names.len();
    let mut i: usize = 0;
    while i < n && str_lt(names[i].as_str(), name.as_str())
        invariant
            n == names@.len(),
            i <= n,
            before == strings_view(names@),
            forall|k: int| 0 <= k < i ==> lex_lt(#[trigger] before[k], name@),
        decreases n - i,
    {
        i = i + 1;
    }
    if i < n && names[i].eq(&name) {
        assert(before[i as int] == name@);
        return;
    }
    proof {
        if i < n {
            lemma_lex_lt_total(before[i as int], name@);
        }
    }
    names.insert(i, name);
    let ghost after = strings_view(names@);
    proof {
        assert(after =~= before.insert(i as int, name@));
        assert forall|a: int, b: int| 0 <= a < b < after.len() implies lex_lt(
            #[trigger] after[a],
            #[trigger] after[b],
        ) by {
            if b < i {
            } else if a < i && b == i {
            } else if a < i && b > i {
                assert(lex_lt(after[a], name@));
                assert(lex_lt(name@, before[i as int]));
                if b - 1 > i {
                    lemma_lex_lt_transitive(name@, before[i as int], before[b - 1]);
                }
                lemma_lex_lt_transitive(after[a], name@, after[b]);
            } else if a == i {
                if b - 1 > i {
                    lemma_lex_lt_transitive(name@, before[i as int], before[b - 1]);
                }
            } else {
                assert(after[a] == before[a - 1]);
                assert(after[b] == before[b - 1]);
            }
        }
        assert forall|s: Seq<char>| #[trigger] after.contains(s) == (before.contains(s) || s == name@) by {
            if after.contains(s) {
                let k = choose|k: int| 0 <= k < after.len() && after[k] == s;
                if k < i {
                    assert(before[k] == s);
                } else if k > i {
                    assert(before[k - 1] == s);
                }
            }
            if before.contains(s) {
                let k = choose|k: int| 0 <= k < before.len() && before[k] == s;
                if k < i {
                    assert(after[k] == s);
                } else {
                    assert(after[k + 1] == s);
                }
            }
            if s == name@ {
                assert(after[i as int] == s);
            }
        }
    }
}

/// The post-processors that files of these names hold (see
/// [`spec_postprocessor_name`]), each once, in order.
pub fn postprocessor_names(files: &Vec<String>) -> (r: Vec<String>)
    ensures
        strictly_sorted(strings_view(r@)),
        forall|s: Seq<char>|
            #[trigger] strings_view(r@).contains(s) == exists|i: int|
                0 <= i < files@.len() && spec_postprocessor_name(#[trigger] files@[i]@) == Some(s),
{
    let mut names: Vec<String> = Vec::new();
    let n = files.len();
    for i in 0..n
        invariant
            n == files@.len(),
            strictly_sorted(strings_view(names@)),
            forall|s: Seq<char>|
                #[trigger] strings_view(names@).contains(s) == exists|k: int|
                    0 <= k < i && spec_postprocessor_name(#[trigger] files@[k]@) == Some(s),
    {
        let ghost before = strings_view(names@);
        match postprocessor_name(files[i].as_str()) {
            Some(name) => {
                insert_sorted(&mut names, name);
            },
            None => {},
        }
        proof {
            assert forall|s: Seq<char>| #[trigger] strings_view(names@).contains(s) == exists|k: int|
                0 <= k < i + 1 && spec_postprocessor_name(#[trigger] files@[k]@) == Some(s) by {
                if spec_postprocessor_name(files@[i as int]@) == Some(s) {
                    assert(strings_view(names@).contains(s));
                }
                if before.contains(s) {
                    let k = choose|k: int| 0 <= k < i && spec_postprocessor_name(#[trigger] files@[k]@) == Some(s);
                    assert(0 <= k < i + 1);
                }
                if exists|k: int| 0 <= k < i + 1 && spec_postprocessor_name(#[trigger] files@[k]@) == Some(s) {
                    let k = choose|k: int| 0 <= k < i + 1 && spec_postprocessor_name(#[trigger] files@[k]@) == Some(s);
                    if k < i {
                        assert(before.contains(s));
                    }
                }
            }
        }
    }
    names
}

} // verus!

use vstd::prelude::*;

verus! {

/// The character that separates the segments of a path.
pub open spec fn sep() -> char {
    '/'
}

/// `a/b`: the path `b` taken relative to the directory `a`.
pub open spec fn join(a: Seq<char>, b: Seq<char>) -> Seq<char> {
    a + seq![sep()] + b
}

/// A single path segment: text that holds no separator.
pub open spec fn is_segment(s: Seq<char>) -> bool {
    forall|i: int| 0 <= i < s.len() ==> s[i] != sep()
}

/// The character of the decimal digit `d`.
pub open spec fn digit_char(d: nat) -> char
    recommends
        d < 10,
{
    seq!['0', '1', '2', '3', '4', '5', '6', '7', '8', '9'][d as int]
}

/// The decimal form of `n`, without leading zeros.
pub open spec fn decimal(n: nat) -> Seq<char>
    decreases n,
{
    if n < 10 {
        seq![digit_char(n)]
    } else {
        decimal(n / 10).push(digit_char(n % 10))
    }
}

/// The view of an optional string.
pub open spec fn opt_view(s: Option<&str>) -> Option<Seq<char>> {
    match s {
        Some(t) => Some(t@),
        None => None,
    }
}

/// Where the tarball of version `version` of `name` is cached under `root`:
/// `<root>/globals/<name>/<version>` without an environment,
/// `<root>/environments/<env>/<name>/<version>` with one.
pub open spec fn cache_dir_of(root: Seq<char>, name: Seq<char>, version: u32, env: Option<Seq<char>>) -> Seq<char> {
    let scope = match env {
        None => join(root, "globals"@),
        Some(e) => join(join(root, "environments"@), e),
    };
    join(join(scope, name), decimal(version as nat))
}

/// The file name of the tarball of the component `name`: `<name>.tar`.
pub open spec fn tarball_name(name: Seq<char>) -> Seq<char> {
    name + ".tar"@
}

/// The file name of a stashed tarball of `name`: `<name>.tar.gz`.
pub open spec fn stashed_tarball_name(name: Seq<char>) -> Seq<char> {
    name + ".tar.gz"@
}

/// The directory that holds what was stashed for `name` under `code`:
/// `<root>/stash/<name>/<code>`.
pub open spec fn stash_dir_of(root: Seq<char>, name: Seq<char>, code: Seq<char>) -> Seq<char> {
    join(join(join(root, "stash"@), name), code)
}

/// The directory a component is unpacked into: `./INPUT/<name>`.
pub open spec fn input_dir_of(name: Seq<char>) -> Seq<char> {
    join("./INPUT"@, name)
}

/// What follows `<root>/` in a cache directory, before `/<version>`.
pub open spec fn scoped_name(name: Seq<char>, env: Option<Seq<char>>) -> Seq<char> {
    match env {
        None => join("globals"@, name),
        Some(e) => join(join("environments"@, e), name),
    }
}

proof fn lemma_decimal_is_segment(n: nat)
    ensures
        decimal(n).len() >= 1,
        is_segment(decimal(n)),
        forall|i: int| 0 <= i < decimal(n).len() ==> #[trigger] decimal(n)[i] != sep(),
    decreases n,
{
    if n >= 10 {
        lemma_decimal_is_segment(n / 10);
    }
}

proof fn lemma_digit_char_injective(a: nat, b: nat)
    requires
        a < 10,
        b < 10,
        digit_char(a) == digit_char(b),
    ensures
        a == b,
{
}

proof fn lemma_decimal_injective(a: nat, b: nat)
    requires
        decimal(a) == decimal(b),
    ensures
        a == b,
    decreases a,
{
    lemma_decimal_is_segment(a / 10);
    lemma_decimal_is_segment(b / 10);
    if a < 10 && b < 10 {
        assert(decimal(a)[0] == digit_char(a));
        assert(decimal(b)[0] == digit_char(b));
        lemma_digit_char_injective(a, b);
    } else if a < 10 {
        assert(decimal(b).len() >= 2);
    } else if b < 10 {
        assert(decimal(a).len() >= 2);
    } else {
        let da = decimal(a);
        assert(da.last() == digit_char(a % 10));
        assert(decimal(b).last() == digit_char(b % 10));
        lemma_digit_char_injective(a % 10, b % 10);
        assert(da.drop_last() =~= decimal(a / 10));
        assert(decimal(b).drop_last() =~= decimal(b / 10));
        lemma_decimal_injective(a / 10, b / 10);
    }
}

proof fn lemma_join_cancel_prefix(p: Seq<char>, x: Seq<char>, y: Seq<char>)
    requires
        join(p, x) == join(p, y),
    ensures
        x == y,
{
    let n = p.len() + 1;
    assert(join(p, x).subrange(n as int, join(p, x).len() as int) =~= x);
    assert(join(p, y).subrange(n as int, join(p, y).len() as int) =~= y);
}

proof fn lemma_join_split_last(a1: Seq<char>, b1: Seq<char>, a2: Seq<char>, b2: Seq<char>)
    requires
        is_segment(b1),
        is_segment(b2),
        join(a1, b1) == join(a2, b2),
    ensures
        a1 == a2,
        b1 == b2,
{
    let s = join(a1, b1);
    if b1.len() < b2.len() {
        let k = a1.len() as int;
        assert(s.len() == a1.len() + 1 + b1.len());
        assert(s.len() == a2.len() + 1 + b2.len());
        assert(a2.len() < k);
        assert(s[k] == sep());
        assert(join(a2, b2)[k] == b2[k - a2.len() - 1]);
    } else if b2.len() < b1.len() {
        let k = a2.len() as int;
        assert(s.len() == a1.len() + 1 + b1.len());
        assert(s.len() == a2.len() + 1 + b2.len());
        assert(a1.len() < k);
        assert(join(a2, b2)[k] == sep());
        assert(s[k] == b1[k - a1.len() - 1]);
    }
    assert(a1 =~= s.subrange(0, a1.len() as int));
    assert(a2 =~= join(a2, b2).subrange(0, a2.len() as int));
    assert(b1 =~= s.subrange(a1.len() as int + 1, s.len() as int));
    assert(b2 =~= join(a2, b2).subrange(a2.len() as int + 1, s.len() as int));
}

proof fn lemma_join_split_first(a1: Seq<char>, b1: Seq<char>, a2: Seq<char>, b2: Seq<char>)
    requires
        is_segment(a1),
        is_segment(a2),
        join(a1, b1) == join(a2, b2),
    ensures
        a1 == a2,
        b1 == b2,
{
    let s = join(a1, b1);
    if a1.len() < a2.len() {
        let k = a1.len() as int;
        assert(s[k] == sep());
        assert(join(a2, b2)[k] == a2[k]);
    } else if a2.len() < a1.len() {
        let k = a2.len() as int;
        assert(join(a2, b2)[k] == sep());
        assert(s[k] == a1[k]);
    }
    assert(a1 =~= s.subrange(0, a1.len() as int));
    assert(a2 =~= join(a2, b2).subrange(0, a2.len() as int));
    assert(b1 =~= s.subrange(a1.len() as int + 1, s.len() as int));
    assert(b2 =~= join(a2, b2).subrange(a2.len() as int + 1, s.len() as int));
}

proof fn lemma_cache_dir_shape(root: Seq<char>, name: Seq<char>, version: u32, env: Option<Seq<char>>)
    ensures
        cache_dir_of(root, name, version, env) == join(join(root, scoped_name(name, env)), decimal(version as nat)),
{
    match env {
        None => {
            assert(join(join(root, "globals"@), name) =~= join(root, join("globals"@, name)));
        },
        Some(e) => {
            assert(join(join(join(root, "environments"@), e), name) =~= join(
                root,
                join(join("environments"@, e), name),
            ));
        },
    }
}

/// A cache directory names its key: under one root, two keys have the same
/// directory exactly when they are the same key. Where both keys carry an
/// environment, the environments are single path segments.
pub proof fn lemma_cache_dir_injective(
    root: Seq<char>,
    name1: Seq<char>,
    version1: u32,
    env1: Option<Seq<char>>,
    name2: Seq<char>,
    version2: u32,
    env2: Option<Seq<char>>,
)
    requires
        env1 is Some && env2 is Some ==> is_segment(env1->0) && is_segment(env2->0),
    ensures
        cache_dir_of(root, name1, version1, env1) == cache_dir_of(root, name2, version2, env2) <==> (
        name1 == name2 && version1 == version2 && env1 == env2),
{
    if cache_dir_of(root, name1, version1, env1) == cache_dir_of(root, name2, version2, env2) {
        lemma_cache_dir_shape(root, name1, version1, env1);
        lemma_cache_dir_shape(root, name2, version2, env2);
        lemma_decimal_is_segment(version1 as nat);
        lemma_decimal_is_segment(version2 as nat);
        lemma_join_split_last(
            join(root, scoped_name(name1, env1)),
            decimal(version1 as nat),
            join(root, scoped_name(name2, env2)),
            decimal(version2 as nat),
        );
        lemma_decimal_injective(version1 as nat, version2 as nat);
        lemma_join_cancel_prefix(root, scoped_name(name1, env1), scoped_name(name2, env2));
        let r1 = scoped_name(name1, env1);
        let r2 = scoped_name(name2, env2);
        reveal_strlit("globals");
        reveal_strlit("environments");
        match (env1, env2) {
            (None, None) => {
                lemma_join_cancel_prefix("globals"@, name1, name2);
            },
            (None, Some(e2)) => {
                assert(r1[0] == 'g');
                assert(r2[0] == 'e');
            },
            (Some(e1), None) => {
                assert(r1[0] == 'e');
                assert(r2[0] == 'g');
            },
            (Some(e1), Some(e2)) => {
                assert(join(join("environments"@, e1), name1) =~= join("environments"@, join(e1, name1)));
                assert(join(join("environments"@, e2), name2) =~= join("environments"@, join(e2, name2)));
                lemma_join_cancel_prefix("environments"@, join(e1, name1), join(e2, name2));
                lemma_join_split_first(e1, name1, e2, name2);
            },
        }
    }
}

/// `a/b` on strings.
pub fn join_path(a: &str, b: &str) -> (r: String)
    ensures
        r@ == join(a@, b@),
{
    let mut s = String::from_str(a);
    proof {
        reveal_strlit("/");
    }
    s.append("/");
    s.append(b);
    s
}

fn digit_str(d: u32) -> (r: &'static str)
    requires
        d < 10,
    ensures
        r@ == seq![digit_char(d as nat)],
{
    proof {
        reveal_strlit("0");
        reveal_strlit("1");
        reveal_strlit("2");
        reveal_strlit("3");
        reveal_strlit("4");
        reveal_strlit("5");
        reveal_strlit("6");
        reveal_strlit("7");
        reveal_strlit("8");
        reveal_strlit("9");
    }
    let r = if d == 0 {
        "0"
    } else if d == 1 {
        "1"
    } else if d == 2 {
        "2"
    } else if d == 3 {
        "3"
    } else if d == 4 {
        "4"
    } else if d == 5 {
        "5"
    } else if d == 6 {
        "6"
    } else if d == 7 {
        "7"
    } else if d == 8 {
        "8"
    } else {
        "9"
    };
    assert(r@ =~= seq![digit_char(d as nat)]);
    r
}

/// The decimal form of `n`.
pub fn decimal_string(n: u32) -> (r: String)
    ensures
        r@ == decimal(n as nat),
    decreases n,
{
    if n < 10 {
        String::from_str(digit_str(n))
    } else {
        let mut s = decimal_string(n / 10);
        s.append(digit_str(n % 10));
        s
    }
}

/// The directory where version `version` of `name` is cached under `root`.
pub fn cache_dir(root: &str, name: &str, version: u32, env: Option<&str>) -> (r: String)
    ensures
        r@ == cache_dir_of(root@, name@, version, opt_view(env)),
{
    let scope = match env {
        None => join_path(root, "globals"),
        Some(e) => {
            let envs = join_path(root, "environments");
            join_path(envs.as_str(), e)
        },
    };
    let dir = join_path(scope.as_str(), name);
    let v = decimal_string(version);
    join_path(dir.as_str(), v.as_str())
}

/// `<name>.tar`.
pub fn tarball_file(name: &str) -> (r: String)
    ensures
        r@ == tarball_name(name@),
{
    String::from_str(name).concat(".tar")
}

/// Where the tarball of version `version` of `name`, fetched as `requested`,
/// is kept in the cache: `<cache dir>/<requested>.tar`.
pub fn cache_tarball(root: &str, name: &str, version: u32, env: Option<&str>, requested: &str) -> (r: String)
    ensures
        r@ == join(cache_dir_of(root@, name@, version, opt_view(env)), tarball_name(requested@)),
{
    let dir = cache_dir(root, name, version, env);
    let file = tarball_file(requested);
    join_path(dir.as_str(), file.as_str())
}

/// Where a download of `name` lands before it is moved into the cache:
/// `./<name>.tar`.
pub fn staging_tarball(name: &str) -> (r: String)
    ensures
        r@ == join("."@, tarball_name(name@)),
{
    let file = tarball_file(name);
    join_path(".", file.as_str())
}

/// The stash directory of `name` under `code`.
pub fn stash_dir(root: &str, name: &str, code: &str) -> (r: String)
    ensures
        r@ == stash_dir_of(root@, name@, code@),
{
    let stash = join_path(root, "stash");
    let by_name = join_path(stash.as_str(), name);
    join_path(by_name.as_str(), code)
}

/// The stashed tarball of `name` under `code`: `<stash dir>/<name>.tar.gz`.
pub fn stash_tarball(root: &str, name: &str, code: &str) -> (r: String)
    ensures
        r@ == join(stash_dir_of(root@, name@, code@), stashed_tarball_name(name@)),
{
    let dir = stash_dir(root, name, code);
    let file = String::from_str(name).concat(".tar.gz");
    join_path(dir.as_str(), file.as_str())
}

/// The copy of the lockfile kept beside a stashed tarball:
/// `<stash dir>/lockfile.json`.
pub fn stash_lockfile(root: &str, name: &str, code: &str) -> (r: String)
    ensures
        r@ == join(stash_dir_of(root@, name@, code@), "lockfile.json"@),
{
    let dir = stash_dir(root, name, code);
    join_path(dir.as_str(), "lockfile.json")
}

/// The directory that `name` is unpacked into.
pub fn input_dir(name: &str) -> (r: String)
    ensures
        r@ == input_dir_of(name@),
{
    join_path("./INPUT", name)
}

} // verus!

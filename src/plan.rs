use vstd::prelude::*;
use vstd::string::*;

verus! {

/// A list of strings seen as a sequence of character sequences.
pub open spec fn strs(v: Seq<String>) -> Seq<Seq<char>> {
    v.map_values(|s: String| s@)
}

/// The arguments of the build phase: `build`, then `--no-cache` when asked.
pub open spec fn build_argv_spec(no_cache: bool) -> Seq<Seq<char>> {
    if no_cache {
        seq!["build"@, "--no-cache"@]
    } else {
        seq!["build"@]
    }
}

/// Each value preceded by the flag: `flag v0 flag v1 ...`.
pub open spec fn flagged(flag: Seq<char>, vals: Seq<Seq<char>>) -> Seq<Seq<char>> {
    Seq::new(2 * vals.len(), |k: int| if k % 2 == 0 { flag } else { vals[k / 2] })
}

/// Where the passthrough pairs begin in the run arguments: after `run --rm`
/// and the optional `--service-ports`.
pub open spec fn run_offset(ports: bool) -> int {
    if ports {
        3
    } else {
        2
    }
}

/// The arguments of the run phase: `run --rm [--service-ports] [-e E]... [-v V]... name`.
pub open spec fn run_argv_spec(
    environ: Seq<Seq<char>>,
    volume: Seq<Seq<char>>,
    ports: bool,
    name: Seq<char>,
) -> Seq<Seq<char>> {
    seq!["run"@, "--rm"@] + (if ports {
        seq!["--service-ports"@]
    } else {
        Seq::empty()
    }) + flagged("-e"@, environ) + flagged("-v"@, volume) + seq![name]
}

/// `pat` occurs in `hay` as a contiguous run of characters.
pub open spec fn contains_seq(hay: Seq<char>, pat: Seq<char>) -> bool {
    exists|i: int|
        0 <= i && i + pat.len() <= hay.len() && #[trigger] hay.subrange(i, i + pat.len()) == pat
}

/// The manifest text asks for published ports: it holds `ports:` somewhere.
pub open spec fn publishes_ports_spec(text: Seq<char>) -> bool {
    contains_seq(text, "ports:"@)
}

/// The arguments of the build phase.
pub fn build_argv(no_cache: bool) -> (r: Vec<String>)
    ensures
        strs(r@) == build_argv_spec(no_cache),
{
    let mut r: Vec<String> = Vec::new();
    r.push(String::from_str("build"));
    if no_cache {
        r.push(String::from_str("--no-cache"));
    }
    proof {
        assert(strs(r@) =~= build_argv_spec(no_cache));
    }
    r
}

/// Appends `flag v` for each value, in order.
fn push_flagged(out: &mut Vec<String>, flag: &str, vals: &Vec<String>)
    ensures
        strs(final(out)@) == strs(old(out)@) + flagged(flag@, strs(vals@)),
{
    let ghost start = strs(out@);
    let mut j: usize = 0;
    while j < vals.len()
        invariant
            j <= vals.len(),
            strs(out@) == start + flagged(flag@, strs(vals@).take(j as int)),
        decreases vals.len() - j,
    {
        let ghost before = strs(out@);
        out.push(String::from_str(flag));
        out.push(vals[j].clone());
        proof {
            let f = flag@;
            let vs = strs(vals@);
            assert(flagged(f, vs.take(j + 1)) =~= flagged(f, vs.take(j as int)).push(f).push(
                vs[j as int],
            ));
            assert(strs(out@) =~= before.push(f).push(vs[j as int]));
        }
        j += 1;
    }
    proof {
        assert(strs(vals@).take(vals.len() as int) =~= strs(vals@));
    }
}

/// The arguments of the run phase for the given passthrough lists, ports flag
/// and service name.
pub fn run_argv(environ: &Vec<String>, volume: &Vec<String>, ports: bool, name: &String) -> (r:
    Vec<String>)
    ensures
        strs(r@) == run_argv_spec(strs(environ@), strs(volume@), ports, name@),
{
    let mut r: Vec<String> = Vec::new();
    r.push(String::from_str("run"));
    r.push(String::from_str("--rm"));
    if ports {
        r.push(String::from_str("--service-ports"));
    }
    let ghost head = strs(r@);
    proof {
        assert(head =~= seq!["run"@, "--rm"@] + (if ports {
            seq!["--service-ports"@]
        } else {
            Seq::empty()
        }));
    }
    push_flagged(&mut r, "-e", environ);
    push_flagged(&mut r, "-v", volume);
    let ghost body = strs(r@);
    r.push(name.clone());
    proof {
        assert(strs(r@) =~= body.push(name@));
        assert(strs(r@) =~= run_argv_spec(strs(environ@), strs(volume@), ports, name@));
    }
    r
}

/// Whether `pat` occurs in `text` starting at character `i`.
fn matches_at(text: &str, pat: &str, i: usize, n: usize, m: usize) -> (r: bool)
    requires
        n == text@.len(),
        m == pat@.len(),
        i + m <= n,
    ensures
        r == (text@.subrange(i as int, i + m) == pat@),
{
    let mut j: usize = 0;
    while j < m
        invariant
            j <= m,
            i + m <= n,
            n == text@.len(),
            m == pat@.len(),
            forall|l: int| 0 <= l < j ==> text@[i + l] == pat@[l],
        decreases m - j,
    {
        if text.get_char(i + j) != pat.get_char(j) {
            proof {
                assert(text@.subrange(i as int, i + m)[j as int] != pat@[j as int]);
            }
            return false;
        }
        j += 1;
    }
    proof {
        assert(text@.subrange(i as int, i + m) =~= pat@);
    }
    true
}

/// Whether `pat` occurs in `text` as a contiguous run of characters.
pub fn text_contains(text: &str, pat: &str) -> (r: bool)
    ensures
        r == contains_seq(text@, pat@),
{
    let n = text.unicode_len();
    let m = pat.unicode_len();
    if m > n {
        return false;
    }
    if m == 0 {
        proof {
            assert(text@.subrange(0, 0 + pat@.len() as int) =~= pat@);
        }
        return true;
    }
    let mut i: usize = 0;
    while i <= n - m
        invariant
            m <= n,
            i <= n - m + 1,
            n == text@.len(),
            m == pat@.len(),
            0 < m,
            forall|k: int| 0 <= k < i ==> #[trigger] text@.subrange(k, k + m) != pat@,
        decreases n - m + 1 - i,
    {
        if matches_at(text, pat, i, n, m) {
            return true;
        }
        i += 1;
    }
    false
}

/// The ports heuristic: the manifest text holds `ports:`. This is a plain
/// substring test, not a reading of the manifest, and it also fires on
/// comments and string values.
pub fn publishes_ports(text: &str) -> (r: bool)
    ensures
        r == publishes_ports_spec(text@),
{
    text_contains(text, "ports:")
}

/// Position `2k` of `flagged` is the flag and position `2k + 1` the `k`-th value.
proof fn lemma_flagged_at(flag: Seq<char>, vals: Seq<Seq<char>>, k: int)
    requires
        0 <= k < vals.len(),
    ensures
        flagged(flag, vals)[2 * k] == flag,
        flagged(flag, vals)[2 * k + 1] == vals[k],
{
    assert((2 * k) % 2 == 0 && (2 * k) / 2 == k);
    assert((2 * k + 1) % 2 == 1 && (2 * k + 1) / 2 == k);
}

/// Every element of `flagged` is the flag or one of the values.
proof fn lemma_flagged_elem(flag: Seq<char>, vals: Seq<Seq<char>>, i: int)
    requires
        0 <= i < flagged(flag, vals).len(),
    ensures
        flagged(flag, vals)[i] == flag || (0 <= i / 2 < vals.len() && flagged(flag, vals)[i]
            == vals[i / 2]),
{
}

/// The run arguments, cut into their parts.
proof fn lemma_run_parts(
    environ: Seq<Seq<char>>,
    volume: Seq<Seq<char>>,
    ports: bool,
    name: Seq<char>,
)
    ensures
        ({
            let a = run_argv_spec(environ, volume, ports, name);
            let o = run_offset(ports);
            let w = o + 2 * environ.len();
            &&& a.len() == w + 2 * volume.len() + 1
            &&& a[0] == "run"@
            &&& a[1] == "--rm"@
            &&& ports ==> a[2] == "--service-ports"@
            &&& forall|j: int|
                0 <= j < 2 * environ.len() ==> a[o + j] == #[trigger] flagged("-e"@, environ)[j]
            &&& forall|j: int|
                0 <= j < 2 * volume.len() ==> a[w + j] == #[trigger] flagged("-v"@, volume)[j]
            &&& a[w + 2 * volume.len()] == name
        }),
{
}

/// In the run arguments each environment value stands right after its own
/// `-e` and each volume value right after its own `-v`, both in the order
/// given, every environment pair before every volume pair, all of them after
/// `run --rm` and the optional `--service-ports`; the service name is last.
#[verifier::spinoff_prover]
#[verifier::rlimit(40)]
pub proof fn lemma_passthrough_order(
    environ: Seq<Seq<char>>,
    volume: Seq<Seq<char>>,
    ports: bool,
    name: Seq<char>,
)
    ensures
        ({
            let a = run_argv_spec(environ, volume, ports, name);
            let o = run_offset(ports);
            let w = o + 2 * environ.len();
            &&& a.len() == w + 2 * volume.len() + 1
            &&& forall|k: int|
                #![trigger environ[k]]
                0 <= k < environ.len() ==> a[o + 2 * k] == "-e"@ && a[o + 2 * k + 1] == environ[k]
            &&& forall|k: int|
                #![trigger volume[k]]
                0 <= k < volume.len() ==> a[w + 2 * k] == "-v"@ && a[w + 2 * k + 1] == volume[k]
            &&& a.last() == name
        }),
{
    lemma_run_parts(environ, volume, ports, name);
    let a = run_argv_spec(environ, volume, ports, name);
    let o = run_offset(ports);
    let w = o + 2 * environ.len();
    assert forall|k: int| #![trigger environ[k]] 0 <= k < environ.len() implies a[o + 2 * k]
        == "-e"@ && a[o + 2 * k + 1] == environ[k] by {
        lemma_flagged_at("-e"@, environ, k);
        assert(a[o + 2 * k] == flagged("-e"@, environ)[2 * k]);
        assert(a[o + 2 * k + 1] == flagged("-e"@, environ)[2 * k + 1]);
    }
    assert forall|k: int| #![trigger volume[k]] 0 <= k < volume.len() implies a[w + 2 * k]
        == "-v"@ && a[w + 2 * k + 1] == volume[k] by {
        lemma_flagged_at("-v"@, volume, k);
        assert(a[w + 2 * k] == flagged("-v"@, volume)[2 * k]);
        assert(a[w + 2 * k + 1] == flagged("-v"@, volume)[2 * k + 1]);
    }
}

/// `--no-cache` is among the build arguments exactly when it was asked for,
/// and never among the run arguments, unless a passthrough value or the
/// service name is itself that very string.
pub proof fn lemma_no_cache_build_only(
    no_cache: bool,
    environ: Seq<Seq<char>>,
    volume: Seq<Seq<char>>,
    ports: bool,
    name: Seq<char>,
)
    requires
        forall|k: int| 0 <= k < environ.len() ==> environ[k] != "--no-cache"@,
        forall|k: int| 0 <= k < volume.len() ==> volume[k] != "--no-cache"@,
        name != "--no-cache"@,
    ensures
        build_argv_spec(no_cache).contains("--no-cache"@) <==> no_cache,
        !run_argv_spec(environ, volume, ports, name).contains("--no-cache"@),
{
    reveal_strlit("build");
    reveal_strlit("--no-cache");
    reveal_strlit("run");
    reveal_strlit("--rm");
    reveal_strlit("--service-ports");
    reveal_strlit("-e");
    reveal_strlit("-v");
    let nc = "--no-cache"@;
    assert(nc.len() == 10);
    assert("build"@.len() == 5 && "run"@.len() == 3 && "--rm"@.len() == 4);
    assert("--service-ports"@.len() == 15 && "-e"@.len() == 2 && "-v"@.len() == 2);
    let b = build_argv_spec(no_cache);
    if no_cache {
        assert(b[1] == nc);
    } else {
        assert(b[0] != nc);
    }
    lemma_run_parts(environ, volume, ports, name);
    let a = run_argv_spec(environ, volume, ports, name);
    let o = run_offset(ports);
    let w = o + 2 * environ.len();
    assert forall|i: int| 0 <= i < a.len() implies a[i] != nc by {
        if o <= i < w {
            lemma_flagged_elem("-e"@, environ, i - o);
        } else if w <= i < a.len() - 1 {
            lemma_flagged_elem("-v"@, volume, i - w);
        }
    }
}

/// `--service-ports` stands right after `--rm` in the run arguments exactly
/// when the manifest text holds `ports:`, unless the service name is itself
/// `--service-ports`.
pub proof fn lemma_service_ports(
    environ: Seq<Seq<char>>,
    volume: Seq<Seq<char>>,
    text: Seq<char>,
    name: Seq<char>,
)
    requires
        name != "--service-ports"@,
    ensures
        ({
            let a = run_argv_spec(environ, volume, publishes_ports_spec(text), name);
            &&& a[1] == "--rm"@
            &&& (a[2] == "--service-ports"@ <==> publishes_ports_spec(text))
        }),
{
    reveal_strlit("--service-ports");
    reveal_strlit("-e");
    reveal_strlit("-v");
    assert("--service-ports"@.len() == 15 && "-e"@.len() == 2 && "-v"@.len() == 2);
    let p = publishes_ports_spec(text);
    lemma_run_parts(environ, volume, p, name);
    if !p {
        if environ.len() > 0 {
            lemma_flagged_at("-e"@, environ, 0);
        } else if volume.len() > 0 {
            lemma_flagged_at("-v"@, volume, 0);
        }
    }
}

} // verus!

//! File-system paths computed as text: where the tracker and the ingester look.
use vstd::prelude::*;
use crate::text::concat;

verus! {

/// `base` joined with `rel` the way a Unix `PathBuf::push` joins them: an
/// absolute `rel` replaces `base`; otherwise a `/` goes between the two unless
/// `base` is empty or already ends with one.
pub open spec fn spec_join_path(base: Seq<char>, rel: Seq<char>) -> Seq<char> {
    if rel.len() > 0 && rel[0] == '/' {
        rel
    } else if base.len() == 0 || base.last() == '/' {
        base + rel
    } else {
        base + seq!['/'] + rel
    }
}

/// `Path::join` of `base` and `rel` on Unix.
pub fn join_path(base: &str, rel: &str) -> (r: String)
    ensures
        r@ == spec_join_path(base@, rel@),
{
    let rl = rel.unicode_len();
    if rl > 0 && rel.get_char(0) == '/' {
        return rel.to_owned();
    }
    let bl = base.unicode_len();
    if bl == 0 || base.get_char(bl - 1) == '/' {
        concat(base, rel)
    } else {
        let mut r = base.to_owned();
        r.append("/");
        r.append(rel);
        proof {
            reveal_strlit("/");
            assert("/"@ =~= seq!['/']);
        }
        r
    }
}

/// The places an opencode database is looked for, in order: three under the
/// working directory (in `.opencode/` and in `opencode/`), two under the home
/// directory when one is known, and one under the XDG data directory when one
/// is set.
pub open spec fn spec_database_candidates(home: Option<Seq<char>>, xdg: Option<Seq<char>>) -> Seq<
    Seq<char>,
> {
    let local = seq![".opencode/data.db"@, ".opencode/db.sqlite"@, "opencode/data.db"@];
    let in_home = match home {
        Some(h) => seq![h + "/.opencode/data.db"@, h + "/.local/share/opencode/data.db"@],
        None => Seq::empty(),
    };
    let in_xdg = match xdg {
        Some(x) => seq![spec_join_path(x, "opencode/data.db"@)],
        None => Seq::empty(),
    };
    local + in_home + in_xdg
}

/// The search order: the three working-directory paths first; then, whenever
/// `$HOME` is known (whatever `$XDG_DATA_HOME` is), its two paths; then,
/// whenever `$XDG_DATA_HOME` is set, the `opencode/data.db` inside it, last.
pub proof fn law_database_search_order(home: Option<Seq<char>>, xdg: Option<Seq<char>>)
    ensures
        ({
            let c = spec_database_candidates(home, xdg);
            let n_home: int = if home is Some {
                2
            } else {
                0
            };
            let n_xdg: int = if xdg is Some {
                1
            } else {
                0
            };
            &&& c.len() == 3 + n_home + n_xdg
            &&& c[0] == ".opencode/data.db"@
            &&& c[1] == ".opencode/db.sqlite"@
            &&& c[2] == "opencode/data.db"@
            &&& home is Some ==> c[3] == home->0 + "/.opencode/data.db"@ && c[4] == home->0
                + "/.local/share/opencode/data.db"@
            &&& xdg is Some ==> c[c.len() - 1] == spec_join_path(xdg->0, "opencode/data.db"@)
        }),
{
}

/// The candidate database paths, given `$HOME` and `$XDG_DATA_HOME` when set.
pub fn default_database_candidates(home: Option<&str>, xdg: Option<&str>) -> (r: Vec<String>)
    ensures
        r.deep_view() == spec_database_candidates(
            match home {
                Some(h) => Some(h@),
                None => None,
            },
            match xdg {
                Some(x) => Some(x@),
                None => None,
            },
        ),
{
    let mut r: Vec<String> = Vec::new();
    r.push(".opencode/data.db".to_owned());
    r.push(".opencode/db.sqlite".to_owned());
    r.push("opencode/data.db".to_owned());
    match home {
        Some(h) => {
            r.push(concat(h, "/.opencode/data.db"));
            r.push(concat(h, "/.local/share/opencode/data.db"));
        },
        None => {},
    }
    match xdg {
        Some(x) => r.push(join_path(x, "opencode/data.db")),
        None => {},
    }
    proof {
        let hv = match home {
            Some(h) => Some(h@),
            None => None,
        };
        let xv = match xdg {
            Some(x) => Some(x@),
            None => None,
        };
        assert(r.deep_view() =~= spec_database_candidates(hv, xv));
    }
    r
}

/// Whether `i` is the first index at which both lists have an entry and
/// `exists` marks the candidate as present.
pub open spec fn is_first_present(present: Seq<bool>, n: int, i: int) -> bool {
    &&& 0 <= i < n
    &&& present[i]
    &&& forall|j: int| 0 <= j < i ==> !present[j]
}

/// The smaller of two lengths.
pub open spec fn shorter(a: nat, b: nat) -> int {
    if a < b {
        a as int
    } else {
        b as int
    }
}

/// The first of `candidates` that `present` marks as present (entries beyond
/// the shorter of the two lists are not considered).
pub fn first_present(candidates: &Vec<String>, present: &Vec<bool>) -> (r: Option<String>)
    ensures
        match r {
            Some(p) => exists|i: int|
                #[trigger] is_first_present(present@, shorter(candidates@.len(), present@.len()), i)
                    && p@ == candidates@[i]@,
            None => forall|i: int|
                0 <= i < shorter(candidates@.len(), present@.len()) ==> !present@[i],
        },
{
    let n = if candidates.len() < present.len() {
        candidates.len()
    } else {
        present.len()
    };
    let mut i: usize = 0;
    while i < n
        invariant
            n <= candidates@.len(),
            n <= present@.len(),
            n == shorter(candidates@.len(), present@.len()),
            i <= n,
            forall|j: int| 0 <= j < i ==> !present@[j],
        decreases n - i,
    {
        if present[i] {
            let found = candidates[i].clone();
            assert(is_first_present(present@, n as int, i as int));
            return Some(found);
        }
        i += 1;
    }
    None
}

} // verus!

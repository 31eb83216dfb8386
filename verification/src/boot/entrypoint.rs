//! Start-up decisions: which project to open and the initial render sizes.
use vstd::prelude::*;

use super::pixel_perfect::{PixelPerfectConfig, integer_scale};

verus! {

/// The scenes of the engine.
#[derive(Debug, Clone, Copy, PartialEq, Eq, Hash, Structural)]
pub enum SceneState {
    Title,
    Options,
    Battle,
    Result,
}

impl Default for SceneState {
    fn default() -> (r: Self)
        ensures
            r == SceneState::Title,
    {
        SceneState::Title
    }
}

/// Options of a run.
#[derive(Debug, Clone)]
pub struct RunOptions {
    /// The project to open.
    pub project_name: Option<String>,
}

impl Default for RunOptions {
    fn default() -> (r: Self)
        ensures
            r.project_name is None,
    {
        RunOptions { project_name: None }
    }
}

/// Viewport used when no project is loaded.
pub const FALLBACK_VIEWPORT_WIDTH: u32 = 384;
pub const FALLBACK_VIEWPORT_HEIGHT: u32 = 216;
/// The initial window is the viewport times this factor.
pub const WINDOW_INTEGER_SCALE_FALLBACK: u32 = 3;

/// `s` with every leading copy of `p` removed, as `str::trim_start_matches`
/// does for a non-empty pattern.
pub open spec fn strip_all_prefixes(s: Seq<char>, p: Seq<char>) -> Seq<char>
    decreases s.len(),
{
    if p.len() > 0 && p.len() <= s.len() && s.subrange(0, p.len() as int) == p {
        strip_all_prefixes(s.subrange(p.len() as int, s.len() as int), p)
    } else {
        s
    }
}

pub open spec fn project_flag() -> Seq<char> {
    seq!['-', '-', 'p', 'r', 'o', 'j', 'e', 'c', 't']
}

pub open spec fn project_eq_flag() -> Seq<char> {
    project_flag().push('=')
}

/// The project named on the command line, scanning left to right from
/// `acc`: `--project NAME` takes the next argument (none when it is
/// missing), `--project=NAME` takes what follows the `=` signs' prefix, and
/// a later option overrides an earlier one.
pub open spec fn spec_project_arg(args: Seq<Seq<char>>, acc: Option<Seq<char>>) -> Option<Seq<char>>
    decreases args.len(),
{
    if args.len() == 0 {
        acc
    } else if args[0] == project_flag() {
        if args.len() >= 2 {
            spec_project_arg(args.subrange(2, args.len() as int), Some(args[1]))
        } else {
            None
        }
    } else if project_eq_flag().len() <= args[0].len() && args[0].subrange(0, project_eq_flag().len() as int)
        == project_eq_flag() {
        spec_project_arg(args.drop_first(), Some(strip_all_prefixes(args[0], project_eq_flag())))
    } else {
        spec_project_arg(args.drop_first(), acc)
    }
}

/// Arguments with no project option leave the scan's result as it was.
proof fn lemma_no_project_arg(args: Seq<Seq<char>>, acc: Option<Seq<char>>)
    requires
        forall|i: int| 0 <= i < args.len() ==> #[trigger] args[i] != project_flag() && !(project_eq_flag().len()
            <= args[i].len() && args[i].subrange(0, project_eq_flag().len() as int) == project_eq_flag()),
    ensures
        spec_project_arg(args, acc) == acc,
    decreases args.len(),
{
    if args.len() > 0 {
        assert(args[0] != project_flag());
        let rest = args.drop_first();
        assert forall|i: int| 0 <= i < rest.len() implies #[trigger] rest[i] != project_flag() && !(project_eq_flag().len()
            <= rest[i].len() && rest[i].subrange(0, project_eq_flag().len() as int) == project_eq_flag()) by {
            assert(rest[i] == args[i + 1]);
        }
        lemma_no_project_arg(rest, acc);
    }
}

/// The project to open: the command line's choice, else a non-empty
/// `BEATEMUP_PROJECT` value, else `main`.
pub open spec fn spec_project_name(args: Seq<Seq<char>>, env_project: Option<Seq<char>>) -> Seq<char> {
    match spec_project_arg(args, None) {
        Some(n) => n,
        None => match env_project {
            Some(e) => if e.len() > 0 { e } else { seq!['m', 'a', 'i', 'n'] },
            None => seq!['m', 'a', 'i', 'n'],
        },
    }
}

fn has_prefix(s: &str, p: &str) -> (r: bool)
    ensures
        r == (p@.len() <= s@.len() && s@.subrange(0, p@.len() as int) == p@),
{
    let n = p.unicode_len();
    if n > s.unicode_len() {
        return false;
    }
    let mut i: usize = 0;
    while i < n
        invariant
            n == p@.len(),
            n <= s@.len(),
            i <= n,
            forall|j: int| 0 <= j < i ==> s@[j] == p@[j],
        decreases n - i,
    {
        if s.get_char(i) != p.get_char(i) {
            assert(s@.subrange(0, n as int)[i as int] != p@[i as int]);
            return false;
        }
        i = i + 1;
    }
    assert(s@.subrange(0, n as int) =~= p@);
    true
}

fn strip_all(s: &str, p: &str) -> (r: String)
    ensures
        r@ == strip_all_prefixes(s@, p@),
{
    let n = p.unicode_len();
    let len = s.unicode_len();
    let mut start: usize = 0;
    if n == 0 {
        return String::from_str(s);
    }
    assert(s@.subrange(0, len as int) =~= s@);
    while n <= len - start && has_prefix(s.substring_char(start, len), p)
        invariant
            n == p@.len(),
            n > 0,
            len == s@.len(),
            start <= len,
            strip_all_prefixes(s@, p@) == strip_all_prefixes(s@.subrange(start as int, len as int), p@),
        decreases len - start,
    {
        proof {
            let t = s@.subrange(start as int, len as int);
            assert(t.subrange(n as int, t.len() as int) =~= s@.subrange(start + n, len as int));
        }
        start = start + n;
    }
    let rest = s.substring_char(start, len);
    proof {
        let t = s@.subrange(start as int, len as int);
        if n > len - start {
            assert(!(p@.len() <= t.len()));
        }
    }
    String::from_str(rest)
}

fn str_equal(a: &str, b: &str) -> (r: bool)
    ensures
        r == (a@ == b@),
{
    crate::shared::text::str_eq(a, b)
}

/// Finds the project on the command line (see [`spec_project_arg`]).
pub fn project_arg(args: &Vec<String>) -> (r: Option<String>)
    ensures
        match r {
            Some(s) => spec_project_arg(args@.map_values(|a: String| a@), None) == Some(s@),
            None => spec_project_arg(args@.map_values(|a: String| a@), None) is None,
        },
{
    let ghost views = args@.map_values(|a: String| a@);
    let mut acc: Option<String> = None;
    let mut i: usize = 0;
    proof {
        reveal_strlit("--project");
        reveal_strlit("--project=");
        assert("--project"@ =~= project_flag());
        assert("--project="@ =~= project_eq_flag());
        assert(views.subrange(0, views.len() as int) =~= views);
    }
    while i < args.len()
        invariant
            i <= args.len(),
            views == args@.map_values(|a: String| a@),
            "--project"@ == project_flag(),
            "--project="@ == project_eq_flag(),
            spec_project_arg(views, None) == spec_project_arg(
                views.subrange(i as int, views.len() as int),
                match acc {
                    Some(a) => Some(a@),
                    None => None,
                },
            ),
        decreases args.len() - i,
    {
        let a = args[i].as_str();
        let ghost rest = views.subrange(i as int, views.len() as int);
        assert(rest[0] == a@);
        if str_equal(a, "--project") {
            if i + 1 < args.len() {
                assert(rest.subrange(2, rest.len() as int) =~= views.subrange(i + 2, views.len() as int));
                assert(rest[1] == args@[i + 1]@);
                acc = Some(args[i + 1].clone());
                i = i + 2;
            } else {
                return None;
            }
        } else if has_prefix(a, "--project=") {
            assert(rest.drop_first() =~= views.subrange(i + 1, views.len() as int));
            acc = Some(strip_all(a, "--project="));
            i = i + 1;
        } else {
            assert(rest.drop_first() =~= views.subrange(i + 1, views.len() as int));
            i = i + 1;
        }
    }
    acc
}

/// The run options: the project from the command line (`args` without the
/// program name), else from a non-empty `BEATEMUP_PROJECT` value
/// (`env_project`), else `main`.
pub fn parse_run_options(args: &Vec<String>, env_project: Option<String>) -> (r: RunOptions)
    ensures
        r.project_name is Some,
        r.project_name->0@ == spec_project_name(args@.map_values(|a: String| a@), match env_project {
            Some(e) => Some(e@),
            None => None,
        }),
        // With no project option on the command line, a non-empty environment
        // value names the project, and otherwise it is `main`.
        (forall|i: int|
            0 <= i < args@.len() ==> #[trigger] args@[i]@ != project_flag() && !(project_eq_flag().len() <= args@[i]@.len()
                && args@[i]@.subrange(0, project_eq_flag().len() as int) == project_eq_flag())) ==> r.project_name->0@
            == (match env_project {
            Some(e) => if e@.len() > 0 { e@ } else { seq!['m', 'a', 'i', 'n'] },
            None => seq!['m', 'a', 'i', 'n'],
        }),
        // `--project NAME` names the project, whatever the environment says.
        args@.len() == 2 && args@[0]@ == project_flag() ==> r.project_name->0@ == args@[1]@,
{
    proof {
        let views = args@.map_values(|a: String| a@);
        if forall|i: int|
            0 <= i < args@.len() ==> #[trigger] args@[i]@ != project_flag() && !(project_eq_flag().len() <= args@[i]@.len()
                && args@[i]@.subrange(0, project_eq_flag().len() as int) == project_eq_flag()) {
            assert forall|i: int| 0 <= i < views.len() implies #[trigger] views[i] != project_flag() && !(
            project_eq_flag().len() <= views[i].len() && views[i].subrange(0, project_eq_flag().len() as int)
                == project_eq_flag()) by {
                assert(views[i] == args@[i]@);
            }
            lemma_no_project_arg(views, None);
        }
        if args@.len() == 2 && args@[0]@ == project_flag() {
            assert(views[0] == args@[0]@ && views[1] == args@[1]@);
            assert(views.subrange(2, 2).len() == 0);
            assert(spec_project_arg(views.subrange(2, 2), Some(views[1])) == Some(views[1]));
            assert(spec_project_arg(views, None) == Some(views[1]));
        }
    }
    match project_arg(args) {
        Some(n) => RunOptions { project_name: Some(n) },
        None => {
            proof {
                reveal_strlit("main");
                assert("main"@ =~= seq!['m', 'a', 'i', 'n']);
            }
            match env_project {
                Some(e) => if e.as_str().unicode_len() > 0 {
                    RunOptions { project_name: Some(e) }
                } else {
                    RunOptions { project_name: Some(String::from_str("main")) }
                },
                None => RunOptions { project_name: Some(String::from_str("main")) },
            }
        },
    }
}

/// The render sizes at start-up: the project's resolution (or the fallback
/// viewport when no project is loaded) in a window three times as large.
pub fn initial_pixel_perfect_config(resolution: Option<(u32, u32)>) -> (r: PixelPerfectConfig)
    requires
        match resolution {
            Some((w, h)) => 0 < w && 0 < h && w * WINDOW_INTEGER_SCALE_FALLBACK <= u32::MAX && h
                * WINDOW_INTEGER_SCALE_FALLBACK <= u32::MAX,
            None => true,
        },
    ensures
        ({
            let vp = match resolution {
                Some(v) => v,
                None => (FALLBACK_VIEWPORT_WIDTH, FALLBACK_VIEWPORT_HEIGHT),
            };
            &&& r.viewport == vp
            &&& r.window == ((vp.0 * 3) as u32, (vp.1 * 3) as u32)
            &&& r.intermediate == r.window
        }),
{
    let (vw, vh) = match resolution {
        Some(v) => v,
        None => (FALLBACK_VIEWPORT_WIDTH, FALLBACK_VIEWPORT_HEIGHT),
    };
    let window = (vw * WINDOW_INTEGER_SCALE_FALLBACK, vh * WINDOW_INTEGER_SCALE_FALLBACK);
    let r = PixelPerfectConfig::from_viewport_and_window((vw, vh), window);
    assert(integer_scale((vw, vh), window) == 3) by (nonlinear_arith)
        requires
            vw > 0,
            vh > 0,
            window.0 == vw * 3,
            window.1 == vh * 3,
    {
        assert((vw * 3) as int / vw as int == 3);
        assert((vh * 3) as int / vh as int == 3);
    }
    r
}

} // verus!

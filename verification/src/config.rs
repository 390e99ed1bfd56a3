//! Parsing of raw command-line arguments into a listing configuration.

use vstd::prelude::*;

verus! {

/// The sequences of characters of a sequence of strings.
pub open spec fn views_of(args: Seq<String>) -> Seq<Seq<char>> {
    args.map_values(|s: String| s@)
}

/// The token that turns long-listing mode on.
pub open spec fn flag_token() -> Seq<char> {
    "-l"@
}

/// The argument tokens that are paths: every token except the
/// long-listing flag, in order.
pub open spec fn path_args(args: Seq<Seq<char>>) -> Seq<Seq<char>>
    decreases args.len(),
{
    if args.len() == 0 {
        Seq::empty()
    } else if args.last() == flag_token() {
        path_args(args.drop_last())
    } else {
        path_args(args.drop_last()).push(args.last())
    }
}

/// Whether some argument token is the long-listing flag.
pub open spec fn has_flag(args: Seq<Seq<char>>) -> bool {
    exists|i: int| 0 <= i < args.len() && args[i] == flag_token()
}

/// The paths a configuration holds for the given argument tokens: the
/// path arguments, or the current directory alone when there are none.
pub open spec fn config_paths(args: Seq<Seq<char>>) -> Seq<Seq<char>> {
    if path_args(args).len() == 0 {
        seq!["."@]
    } else {
        path_args(args)
    }
}

/// With no argument tokens at all, a configuration lists exactly the
/// current directory.
pub proof fn lemma_empty_args_list_current_dir(args: Seq<Seq<char>>)
    requires
        args.len() == 0,
    ensures
        config_paths(args) == seq!["."@],
        !has_flag(args),
{
    assert(path_args(args).len() == 0);
}

/// A parsed command line: the paths to list and the long-listing flag.
pub struct Config {
    paths: Vec<String>,
    long_listing: bool,
}

impl Config {
    /// The paths to list, as sequences of characters.
    pub closed spec fn paths_view(&self) -> Seq<Seq<char>> {
        views_of(self.paths@)
    }

    /// Whether long-listing mode is on.
    pub closed spec fn long_view(&self) -> bool {
        self.long_listing
    }

    /// A configuration always holds at least one path.
    pub open spec fn wf(&self) -> bool {
        self.paths_view().len() > 0
    }

    /// The paths to list.
    pub fn paths(&self) -> (r: &Vec<String>)
        ensures
            views_of(r@) == self.paths_view(),
    {
        &self.paths
    }

    /// Whether long-listing mode is on.
    pub fn long_listing(&self) -> (r: bool)
        ensures
            r == self.long_view(),
    {
        self.long_listing
    }

    /// Parses raw process arguments. The first token (the program name)
    /// is discarded; `-l` turns long-listing mode on; every other token
    /// is a path; when no path is left, the current directory is listed.
    pub fn new(args: &mut Vec<String>) -> (r: Result<Config, &'static str>)
        requires
            old(args)@.len() >= 1,
        ensures
            final(args)@ == old(args)@.skip(1),
            r matches Ok(c) && {
                let rest = views_of(old(args)@).skip(1);
                &&& c.paths_view() == config_paths(rest)
                &&& c.long_view() == has_flag(rest)
                &&& c.wf()
            },
    {
        args.remove(0);
        proof {
            assert(args@ =~= old(args)@.skip(1));
        }
        let ghost rest = views_of(args@);
        proof {
            assert(views_of(old(args)@).skip(1) =~= rest);
        }

        let mut paths: Vec<String> = Vec::new();
        let mut long_listing = false;
        let flag = "-l".to_owned();
        let mut i: usize = 0;
        while i < args.len()
            invariant
                rest == views_of(args@),
                flag@ == flag_token(),
                i <= args@.len(),
                views_of(paths@) == path_args(rest.take(i as int)),
                long_listing == has_flag(rest.take(i as int)),
            decreases args@.len() - i,
        {
            let ghost prev_paths = views_of(paths@);
            if args[i] == flag {
                long_listing = true;
            } else {
                paths.push(args[i].clone());
            }
            proof {
                let t = rest.take(i + 1int);
                let tp = rest.take(i as int);
                assert(t.drop_last() =~= tp);
                assert(t.last() == rest[i as int]);
                if rest[i as int] == flag_token() {
                    assert(t[i as int] == flag_token());
                    assert(has_flag(t));
                    assert(views_of(paths@) == prev_paths);
                } else {
                    assert(views_of(paths@) =~= prev_paths.push(rest[i as int]));
                    assert(has_flag(t) == has_flag(tp)) by {
                        if has_flag(t) {
                            let j = choose|j: int| 0 <= j < t.len() && t[j] == flag_token();
                            if j < i {
                                assert(tp[j] == flag_token());
                            }
                        }
                        if has_flag(tp) {
                            let j = choose|j: int| 0 <= j < tp.len() && tp[j] == flag_token();
                            assert(t[j] == flag_token());
                        }
                    }
                }
            }
            i += 1;
        }
        proof {
            assert(rest.take(args@.len() as int) =~= rest);
        }

        if paths.len() == 0 {
            paths.push(".".to_owned());
            proof {
                assert(views_of(paths@) =~= seq!["."@]);
            }
        }

        Ok(Config { paths, long_listing })
    }
}

} // verus!

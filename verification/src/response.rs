//! Response files: text whose quoted tokens take the place of an argument.
//!
//! An argument `@file` names a response file, and so does the argument
//! behind the flag `--response`. Reading files is the caller's part. The
//! library says which file is wanted next, and puts the tokens of its text
//! in the place of the argument.

use vstd::prelude::*;
use crate::argv::{absent, first_at, flag_with_value_at};
use crate::state::State;
use crate::text::{is_space, is_whitespace, to_chars, to_string, views};

verus! {

/// Why the text of a response file has no tokens to give.
#[derive(Clone, Copy, PartialEq, Eq, Structural, Debug)]
pub enum ResponseError {
    /// A quote is still open at the end of its line, or at the end of the
    /// text.
    UnclosedQuote,
    /// Text stands outside quotes.
    StrayText,
}

/// The tokens of `s[i..]`, where `i` stands outside quotes. White space is
/// passed over, a quote opens a token, and anything else is an error.
pub open spec fn tokens_from(s: Seq<char>, i: int) -> Result<Seq<Seq<char>>, ResponseError>
    decreases s.len() - i, 0nat,
{
    if i < 0 || i >= s.len() {
        Ok(Seq::empty())
    } else if is_space(s[i]) {
        tokens_from(s, i + 1)
    } else if s[i] == '"' {
        quoted_from(s, i + 1, i + 1)
    } else {
        Err(ResponseError::StrayText)
    }
}

/// The tokens of `s[start..]`, where a quote was opened just before `start`
/// and no quote or line end stands in `s[start..i]`. The token runs to the
/// next quote, character for character; a line end or the end of the text
/// before that is an error.
pub open spec fn quoted_from(s: Seq<char>, start: int, i: int) -> Result<
    Seq<Seq<char>>,
    ResponseError,
>
    decreases s.len() - i, 1nat,
{
    if i < 0 || i >= s.len() || s[i] == '\n' {
        Err(ResponseError::UnclosedQuote)
    } else if s[i] == '"' {
        match tokens_from(s, i + 1) {
            Ok(rest) => Ok(seq![s.subrange(start, i)] + rest),
            Err(e) => Err(e),
        }
    } else {
        quoted_from(s, start, i + 1)
    }
}

/// The tokens of the text of a response file.
pub open spec fn response_tokens(s: Seq<char>) -> Result<Seq<Seq<char>>, ResponseError> {
    tokens_from(s, 0)
}

/// `args` with `tokens` in the place of the argument at `i`. Where `i` is
/// behind the last argument, the tokens follow the arguments.
pub open spec fn spliced(args: Seq<Seq<char>>, i: int, tokens: Seq<Seq<char>>) -> Seq<Seq<char>> {
    if 0 <= i < args.len() {
        args.subrange(0, i) + tokens + args.subrange(i + 1, args.len() as int)
    } else {
        args + tokens
    }
}

/// The tokens of the text of a response file.
pub fn tokenize(text: &str) -> (r: Result<Vec<String>, ResponseError>)
    ensures
        match r {
            Ok(tokens) => response_tokens(text@) == Ok::<_, ResponseError>(views(tokens@)),
            Err(e) => response_tokens(text@) == Err::<Seq<Seq<char>>, _>(e),
        },
{
    let s = to_chars(text);
    let mut tokens: Vec<String> = Vec::new();
    let mut k: usize = 0;
    assert(views(tokens@) =~= Seq::<Seq<char>>::empty());
    while k < s.len()
        invariant
            k <= s.len(),
            s@ == text@,
            response_tokens(s@) == match tokens_from(s@, k as int) {
                Ok(rest) => Ok::<_, ResponseError>(views(tokens@) + rest),
                Err(e) => Err(e),
            },
        decreases s.len() - k,
    {
        if is_whitespace(s[k]) {
            k += 1;
        } else if s[k] == '"' {
            let start: usize = k + 1;
            let mut e: usize = start;
            while e < s.len() && s[e] != '"' && s[e] != '\n'
                invariant
                    start <= e <= s.len(),
                    quoted_from(s@, start as int, start as int) == quoted_from(
                        s@,
                        start as int,
                        e as int,
                    ),
                decreases s.len() - e,
            {
                e += 1;
            }
            if e >= s.len() || s[e] == '\n' {
                return Err(ResponseError::UnclosedQuote);
            }
            let ghost before = tokens@;
            tokens.push(to_string(&s, start, e));
            proof {
                let token = s@.subrange(start as int, e as int);
                assert(views(tokens@) =~= views(before).push(token));
                match tokens_from(s@, e + 1) {
                    Ok(rest) => {
                        assert(views(before) + (seq![token] + rest) =~= views(tokens@) + rest);
                    },
                    Err(_) => {},
                }
            }
            k = e + 1;
        } else {
            return Err(ResponseError::StrayText);
        }
    }
    proof {
        assert(views(tokens@) + Seq::<Seq<char>>::empty() =~= views(tokens@));
    }
    Ok(tokens)
}

impl State {
    /// Puts the tokens of `text`, the text of a response file, in the place
    /// of the argument at `arg_index`. The arguments before and behind it
    /// stay. Where the text has no tokens to give, the error says why and
    /// the state is as it was.
    pub fn load_response_file(&mut self, arg_index: usize, text: &str) -> (r: Result<
        (),
        ResponseError,
    >)
        ensures
            match r {
                Ok(_) => {
                    &&& response_tokens(text@) is Ok
                    &&& views(final(self).args@) == spliced(
                        views(old(self).args@),
                        arg_index as int,
                        response_tokens(text@)->Ok_0,
                    )
                    &&& *final(self) == old(self).with_args(final(self).args, old(self).iwad_found)
                },
                Err(e) => response_tokens(text@) == Err::<Seq<Seq<char>>, _>(e) && *final(self)
                    == *old(self),
            },
    {
        let tokens = match tokenize(text) {
            Ok(tokens) => tokens,
            Err(e) => {
                return Err(e);
            },
        };
        let n = self.args.len();
        let ghost args = views(self.args@);
        let mut new_args: Vec<String> = Vec::new();
        let head: usize = if arg_index < n {
            arg_index
        } else {
            n
        };
        let mut i: usize = 0;
        while i < head
            invariant
                i <= head <= n,
                n == self.args@.len(),
                *self == *old(self),
                args == views(self.args@),
                views(new_args@) == args.subrange(0, i as int),
            decreases head - i,
        {
            let ghost before = new_args@;
            new_args.push(self.args[i].clone());
            assert(views(new_args@) =~= views(before).push(args[i as int]));
            assert(views(new_args@) =~= args.subrange(0, i + 1));
            i += 1;
        }
        let mut j: usize = 0;
        while j < tokens.len()
            invariant
                j <= tokens@.len(),
                views(new_args@) == args.subrange(0, head as int) + views(tokens@).subrange(
                    0,
                    j as int,
                ),
            decreases tokens@.len() - j,
        {
            let ghost before = new_args@;
            new_args.push(tokens[j].clone());
            assert(views(new_args@) =~= views(before).push(views(tokens@)[j as int]));
            assert(views(new_args@) =~= args.subrange(0, head as int) + views(tokens@).subrange(
                0,
                j + 1,
            ));
            j += 1;
        }
        assert(views(tokens@).subrange(0, tokens@.len() as int) =~= views(tokens@));
        let mut i: usize = if arg_index < n {
            arg_index + 1
        } else {
            n
        };
        let ghost tail = i;
        while i < n
            invariant
                tail <= i <= n,
                n == self.args@.len(),
                *self == *old(self),
                args == views(self.args@),
                views(new_args@) == args.subrange(0, head as int) + views(tokens@) + args.subrange(
                    tail as int,
                    i as int,
                ),
            decreases n - i,
        {
            let ghost before = new_args@;
            new_args.push(self.args[i].clone());
            assert(views(new_args@) =~= views(before).push(args[i as int]));
            assert(views(new_args@) =~= args.subrange(0, head as int) + views(tokens@)
                + args.subrange(tail as int, i + 1));
            i += 1;
        }
        assert(views(new_args@) =~= spliced(args, arg_index as int, views(tokens@)));
        self.args = new_args;
        Ok(())
    }
}

/// Whether `arg` names a response file: it starts with `@`.
pub open spec fn is_at_token(arg: Seq<char>) -> bool {
    arg.len() > 0 && arg[0] == '@'
}

/// Whether the first `@` argument from `from` on stands at `i`.
pub open spec fn first_at_token(args: Seq<Seq<char>>, from: int, i: int) -> bool {
    &&& from <= i < args.len()
    &&& is_at_token(args[i])
    &&& forall|j: int| from <= j < i ==> !is_at_token(#[trigger] args[j])
}

/// Whether the flag `--response` stands first at `p`, with an argument
/// behind it.
pub open spec fn response_flag_at(args: Seq<Seq<char>>, p: int) -> bool {
    flag_with_value_at(args, "--response"@, p)
}

/// Where the search for `@` arguments starts when the last `unread`
/// arguments have not been looked at. The program's name is never looked at.
pub open spec fn scan_start(len: int, unread: int) -> int {
    if len - unread < 1 {
        1
    } else {
        len - unread
    }
}

/// What the expansion does next.
pub enum Step {
    /// The argument at `index` names a response file with `@`.
    At { index: int },
    /// The flag `--response` stands at `index`, and the argument behind it
    /// names a response file.
    Flag { index: int },
    /// Nothing is left to expand.
    Done,
}

/// The next step of the expansion on `args`, of which the last `unread`
/// have not been looked at for `@`. The `@` arguments come first, from the
/// front; the flag `--response` is taken up when none is left.
pub open spec fn next_step(args: Seq<Seq<char>>, unread: int) -> Step {
    let start = scan_start(args.len() as int, unread);
    if exists|i: int| first_at_token(args, start, i) {
        Step::At { index: choose|i: int| first_at_token(args, start, i) }
    } else if exists|p: int| response_flag_at(args, p) {
        Step::Flag { index: choose|p: int| response_flag_at(args, p) }
    } else {
        Step::Done
    }
}

/// The arguments after `step`: a flag `--response` that is taken up becomes
/// `-_`, which nothing matches.
pub open spec fn args_after(args: Seq<Seq<char>>, step: Step) -> Seq<Seq<char>> {
    match step {
        Step::Flag { index } => args.update(index, "-_"@),
        _ => args,
    }
}

/// How many arguments are still to be looked at for `@` after `step`: those
/// behind the `@` argument that was found, and none once the `@` arguments
/// are done.
pub open spec fn unread_after(args: Seq<Seq<char>>, step: Step) -> int {
    match step {
        Step::At { index } => args.len() - index - 1,
        _ => 0,
    }
}

/// How far the search for `@` arguments has come.
#[derive(Debug, PartialEq, Eq)]
pub struct ResponseScan {
    /// The number of arguments, counted from the end, that have not been
    /// looked at. What a response file puts in stands in front of them and
    /// is not looked at.
    pub unread: usize,
}

/// A response file that the expansion asks for.
#[derive(Debug, PartialEq, Eq)]
pub struct ResponseRequest {
    /// The place of the argument that the tokens of the file replace.
    pub index: usize,
    /// The path of the file.
    pub path: String,
}

/// The step that finds the `@` argument at `i`.
proof fn lemma_step_at(args: Seq<Seq<char>>, unread: int, i: int)
    requires
        first_at_token(args, scan_start(args.len() as int, unread), i),
    ensures
        next_step(args, unread) == (Step::At { index: i }),
{
    let start = scan_start(args.len() as int, unread);
    let c = choose|k: int| first_at_token(args, start, k);
    assert(first_at_token(args, start, c));
    if c < i {
        assert(!is_at_token(args[c]));
    }
    if i < c {
        assert(!is_at_token(args[i]));
    }
}

/// The step that takes up the flag at `p`, where no `@` argument is left.
proof fn lemma_step_flag(args: Seq<Seq<char>>, unread: int, p: int)
    requires
        forall|j: int|
            scan_start(args.len() as int, unread) <= j < args.len() ==> !is_at_token(
                #[trigger] args[j],
            ),
        response_flag_at(args, p),
    ensures
        next_step(args, unread) == (Step::Flag { index: p }),
{
    let start = scan_start(args.len() as int, unread);
    assert forall|i: int| !first_at_token(args, start, i) by {
        if start <= i < args.len() {
            assert(!is_at_token(args[i]));
        }
    }
    let c = choose|k: int| response_flag_at(args, k);
    assert(response_flag_at(args, c));
}

/// The step where neither an `@` argument nor a flag is left.
proof fn lemma_step_done(args: Seq<Seq<char>>, unread: int)
    requires
        forall|j: int|
            scan_start(args.len() as int, unread) <= j < args.len() ==> !is_at_token(
                #[trigger] args[j],
            ),
        absent(args, "--response"@) || exists|p: int|
            first_at(args, "--response"@, p) && p + 1 >= args.len(),
    ensures
        next_step(args, unread) == Step::Done,
{
    let start = scan_start(args.len() as int, unread);
    assert forall|i: int| !first_at_token(args, start, i) by {
        if start <= i < args.len() {
            assert(!is_at_token(args[i]));
        }
    }
    assert forall|p: int| !response_flag_at(args, p) by {
        if response_flag_at(args, p) {
            if !absent(args, "--response"@) {
                let q = choose|q: int| first_at(args, "--response"@, q) && q + 1 >= args.len();
                assert(q == p);
            }
        }
    }
}

impl State {
    /// The scan with which the expansion of response files starts: every
    /// argument behind the program's name is still to be looked at.
    pub fn start_response_scan(&self) -> (scan: ResponseScan)
        ensures
            scan.unread == if self.args@.len() == 0 {
                0
            } else {
                self.args@.len() - 1
            },
    {
        let n = self.args.len();
        ResponseScan { unread: if n == 0 {
            0
        } else {
            n - 1
        } }
    }

    /// Finds the next response file that the command line asks for: the
    /// step `next_step`.
    ///
    /// An `@` argument is left in place. A flag `--response` is made
    /// harmless, so that it is not found again, and the request speaks of the
    /// argument behind it. The caller reads the file and hands its text to
    /// `load_response_file` with the index of the request, then asks again.
    /// When nothing is returned, the expansion is done and the state is as it
    /// was.
    pub fn find_response_file(&mut self, scan: &mut ResponseScan) -> (r: Option<ResponseRequest>)
        ensures
            views(final(self).args@) == args_after(
                views(old(self).args@),
                next_step(views(old(self).args@), old(scan).unread as int),
            ),
            final(scan).unread == unread_after(
                views(old(self).args@),
                next_step(views(old(self).args@), old(scan).unread as int),
            ),
            *final(self) == old(self).with_args(final(self).args, old(self).iwad_found),
            next_step(views(old(self).args@), old(scan).unread as int) is Done ==> *final(self)
                == *old(self),
            match next_step(views(old(self).args@), old(scan).unread as int) {
                Step::At { index } => r matches Some(request) && request.index == index
                    && request.path@ == views(old(self).args@)[index].skip(1),
                Step::Flag { index } => r matches Some(request) && request.index == index + 1
                    && request.path@ == views(old(self).args@)[index + 1],
                Step::Done => r is None,
            },
    {
        let n = self.args.len();
        let ghost args = views(self.args@);
        let ghost unread = scan.unread as int;
        let start: usize = if scan.unread >= n || n - scan.unread < 1 {
            1
        } else {
            n - scan.unread
        };
        let mut i: usize = start;
        while i < n
            invariant
                start == scan_start(n as int, unread),
                unread == old(scan).unread,
                start <= i,
                n == self.args@.len(),
                args == views(self.args@),
                *self == *old(self),
                forall|j: int| start <= j < i && j < n ==> !is_at_token(#[trigger] args[j]),
            decreases n - i,
        {
            let c = to_chars(self.args[i].as_str());
            if c.len() > 0 && c[0] == '@' {
                proof {
                    lemma_step_at(args, unread, i as int);
                }
                scan.unread = n - i - 1;
                return Some(ResponseRequest { index: i, path: to_string(&c, 1, c.len()) });
            }
            i += 1;
        }
        scan.unread = 0;
        match self.check_parm_with_args("--response", 1) {
            Some(p) => {
                proof {
                    lemma_step_flag(args, unread, p as int);
                }
                let path = self.args[p + 1].clone();
                self.args.set(p, "-_".to_owned());
                assert(views(self.args@) =~= args.update(p as int, "-_"@));
                Some(ResponseRequest { index: p + 1, path })
            },
            None => {
                proof {
                    lemma_step_done(args, unread);
                }
                None
            },
        }
    }
}

/// The expansion of `--response` comes to rest and stays there: on arguments
/// where it finds nothing to do, a second run finds nothing to do either and
/// leaves every argument as it is.
pub proof fn lemma_response_expansion_idempotent(args: Seq<Seq<char>>)
    requires
        next_step(args, 0) is Done,
    ensures
        args_after(args, next_step(args, 0)) == args,
        unread_after(args, next_step(args, 0)) == 0,
        next_step(args_after(args, next_step(args, 0)), unread_after(args, next_step(args, 0)))
            is Done,
{
}

/// A flag that the expansion has taken up is not found again: after the
/// step, no `--response` stands at its place or in front of it.
pub proof fn lemma_response_flag_stays_taken(args: Seq<Seq<char>>, unread: int)
    requires
        next_step(args, unread) is Flag,
    ensures
        forall|q: int|
            0 <= q <= next_step(args, unread)->Flag_index ==> args_after(
                args,
                next_step(args, unread),
            )[q] != "--response"@,
{
    let p = next_step(args, unread)->Flag_index;
    assert(response_flag_at(args, p));
    reveal_strlit("--response");
    reveal_strlit("-_");
    assert("-_"@.len() != "--response"@.len());
}

} // verus!

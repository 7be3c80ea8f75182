use vstd::prelude::*;

verus! {

/// The token list joined back with single spaces between tokens.
pub open spec fn join_spaces(tokens: Seq<Seq<char>>) -> Seq<char>
    decreases tokens.len(),
{
    if tokens.len() == 0 {
        Seq::empty()
    } else if tokens.len() == 1 {
        tokens[0]
    } else {
        join_spaces(tokens.drop_last()) + seq![' '] + tokens.last()
    }
}

pub open spec fn no_spaces(tokens: Seq<Seq<char>>) -> bool {
    forall|k: int, j: int|
        0 <= k < tokens.len() && 0 <= j < tokens[k].len() ==> #[trigger] tokens[k][j] != ' '
}

/// `tokens` is the split of `s` on single spaces: space-free tokens (empty
/// ones included) that joined with spaces give `s` back.
pub open spec fn is_split_spaces(s: Seq<char>, tokens: Seq<Seq<char>>) -> bool {
    &&& tokens.len() >= 1
    &&& join_spaces(tokens) == s
    &&& no_spaces(tokens)
}

/// Splits a string on single space characters, keeping empty tokens.
pub fn split_spaces(s: &str) -> (tokens: Vec<String>)
    ensures
        is_split_spaces(s@, tokens.deep_view()),
{
    let n = s.unicode_len();
    let mut tokens: Vec<String> = Vec::new();
    let mut start: usize = 0;
    let mut i: usize = 0;
    while i < n
        invariant
            0 <= start <= i <= n,
            n == s@.len(),
            no_spaces(tokens.deep_view()),
            forall|j: int| start <= j < i ==> s@[j] != ' ',
            tokens.len() == 0 ==> start == 0,
            tokens.len() >= 1 ==> start >= 1 && s@[start - 1] == ' ' && join_spaces(
                tokens.deep_view(),
            ) == s@.subrange(0, start - 1),
        decreases n - i,
    {
        let c = s.get_char(i);
        if c == ' ' {
            let ghost old_deep = tokens.deep_view();
            let tok = s.substring_char(start, i).to_owned();
            tokens.push(tok);
            proof {
                assert(tokens.deep_view() =~= old_deep.push(s@.subrange(start as int, i as int)));
                let deep = tokens.deep_view();
                if old_deep.len() == 0 {
                    assert(join_spaces(deep) == deep[0]);
                    assert(deep[0] =~= s@.subrange(0, i as int));
                } else {
                    assert(deep.drop_last() =~= old_deep);
                    assert(join_spaces(deep) == join_spaces(old_deep) + seq![' '] + deep.last());
                    assert(join_spaces(deep) =~= s@.subrange(0, i as int));
                }
            }
            start = i + 1;
        }
        i = i + 1;
    }
    let ghost old_deep = tokens.deep_view();
    let tok = s.substring_char(start, n).to_owned();
    tokens.push(tok);
    proof {
        assert(tokens.deep_view() =~= old_deep.push(s@.subrange(start as int, n as int)));
        let deep = tokens.deep_view();
        if old_deep.len() == 0 {
            assert(join_spaces(deep) == deep[0]);
            assert(deep[0] =~= s@);
        } else {
            assert(deep.drop_last() =~= old_deep);
            assert(join_spaces(deep) == join_spaces(old_deep) + seq![' '] + deep.last());
            assert(join_spaces(deep) =~= s@);
        }
    }
    tokens
}

/// An argument token equal to the `{path}` placeholder stands for the
/// persisted image's path; any other token stands for itself.
pub open spec fn subst_placeholder(token: Seq<char>, path: Seq<char>) -> Seq<char> {
    if token == "{path}"@ {
        path
    } else {
        token
    }
}

/// The external apply command: a program and its arguments, ready to run.
#[derive(Debug)]
pub struct ApplyCommand {
    pub program: String,
    pub args: Vec<String>,
}

/// `(program, args)` is the apply command that `template` and `path`
/// describe, witnessed by the template's token list: the first token names
/// the program, the remaining tokens are the arguments after placeholder
/// substitution.
pub open spec fn apply_command_from(
    template: Seq<char>,
    path: Seq<char>,
    program: Seq<char>,
    args: Seq<Seq<char>>,
    tokens: Seq<Seq<char>>,
) -> bool {
    &&& is_split_spaces(template, tokens)
    &&& program == tokens[0]
    &&& args.len() == tokens.len() - 1
    &&& forall|k: int|
        0 <= k < args.len() ==> #[trigger] args[k] == subst_placeholder(tokens[k + 1], path)
}

/// Builds the external apply command from the configured template: the
/// template is split on single spaces, the first token is the program, the
/// rest are its arguments with each `{path}` token replaced by the persisted
/// path. Quoted arguments with embedded spaces are not supported.
pub fn build_apply_command(template: &str, path: &str) -> (cmd: ApplyCommand)
    ensures
        exists|tokens: Seq<Seq<char>>|
            apply_command_from(template@, path@, cmd.program@, cmd.args.deep_view(), tokens),
{
    let tokens = split_spaces(template);
    let ghost gtokens = tokens.deep_view();
    let placeholder = String::from_str("{path}");
    let program = tokens[0].clone();
    let mut args: Vec<String> = Vec::new();
    let mut k: usize = 1;
    while k < tokens.len()
        invariant
            1 <= k <= tokens.len(),
            gtokens == tokens.deep_view(),
            placeholder@ == "{path}"@,
            args.len() == k - 1,
            forall|p: int|
                0 <= p < args.len() ==> #[trigger] args.deep_view()[p] == subst_placeholder(
                    gtokens[p + 1],
                    path@,
                ),
        decreases tokens.len() - k,
    {
        let ghost old_args = args.deep_view();
        if tokens[k] == placeholder {
            args.push(path.to_owned());
            proof {
                assert(gtokens[k as int] == "{path}"@);
                assert(args.deep_view() =~= old_args.push(path@));
            }
        } else {
            args.push(tokens[k].clone());
            proof {
                assert(gtokens[k as int] != "{path}"@);
                assert(args.deep_view() =~= old_args.push(gtokens[k as int]));
            }
        }
        proof {
            assert forall|p: int| 0 <= p < args.len() implies #[trigger] args.deep_view()[p]
                == subst_placeholder(gtokens[p + 1], path@) by {
                if p < old_args.len() {
                    assert(args.deep_view()[p] == old_args[p]);
                } else {
                    assert(args.deep_view()[p] == subst_placeholder(gtokens[k as int], path@));
                }
            }
        }
        k = k + 1;
    }
    let cmd = ApplyCommand { program, args };
    proof {
        assert(apply_command_from(template@, path@, cmd.program@, cmd.args.deep_view(), gtokens));
    }
    cmd
}

} // verus!

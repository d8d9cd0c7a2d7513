//! The control-socket line grammar: a line is `TOKEN` or `TOKEN SPACE REST`,
//! where `TOKEN` is everything before the first whitespace character and
//! `REST` is the remainder with leading whitespace trimmed.  `EXIT`, `EXEC`
//! and `FLIP` decode to actions; any other line decodes to nothing.

use vstd::prelude::*;

verus! {

/// A command decoded from one control-socket line.
#[derive(Debug, PartialEq)]
pub enum Action {
    /// `EXIT`: ask the focused window to close.
    Exit,
    /// `EXEC <command-line>`: spawn the command line.
    Exec(String),
    /// `FLIP`: toggle the render-flip flag.
    Flip,
}

/// The mathematical shape of an `Action`: the command line is a character
/// sequence.
pub ghost enum ActionModel {
    Exit,
    Exec(Seq<char>),
    Flip,
}

impl View for Action {
    type V = ActionModel;

    open spec fn view(&self) -> ActionModel {
        match self {
            Action::Exit => ActionModel::Exit,
            Action::Exec(cmd) => ActionModel::Exec(cmd@),
            Action::Flip => ActionModel::Flip,
        }
    }
}

/// The model of an optional action, for contracts that return one.
pub open spec fn opt_action_view(o: Option<Action>) -> Option<ActionModel> {
    match o {
        Some(a) => Some(a@),
        None => None,
    }
}

/// A character the line grammar treats as whitespace: the Unicode
/// `White_Space` set.
pub open spec fn is_space(c: char) -> bool {
    let v = c as u32;
    ||| v == 0x20
    ||| (0x09 <= v && v <= 0x0D)
    ||| v == 0x85
    ||| v == 0xA0
    ||| v == 0x1680
    ||| (0x2000 <= v && v <= 0x200A)
    ||| v == 0x2028
    ||| v == 0x2029
    ||| v == 0x202F
    ||| v == 0x205F
    ||| v == 0x3000
}

fn is_space_char(c: char) -> (r: bool)
    ensures
        r == is_space(c),
{
    let v = c as u32;
    v == 0x20 || (0x09 <= v && v <= 0x0D) || v == 0x85 || v == 0xA0 || v == 0x1680 || (0x2000
        <= v && v <= 0x200A) || v == 0x2028 || v == 0x2029 || v == 0x202F || v == 0x205F || v
        == 0x3000
}

/// How many characters stand before the first whitespace of `s`.
pub open spec fn token_len(s: Seq<char>) -> int
    decreases s.len(),
{
    if s.len() == 0 {
        0
    } else if is_space(s.first()) {
        0
    } else {
        1 + token_len(s.drop_first())
    }
}

/// How many whitespace characters `s` starts with.
pub open spec fn space_len(s: Seq<char>) -> int
    decreases s.len(),
{
    if s.len() == 0 {
        0
    } else if is_space(s.first()) {
        1 + space_len(s.drop_first())
    } else {
        0
    }
}

pub proof fn lemma_token_len_bounds(s: Seq<char>)
    ensures
        0 <= token_len(s) <= s.len(),
    decreases s.len(),
{
    if s.len() > 0 && !is_space(s.first()) {
        lemma_token_len_bounds(s.drop_first());
    }
}

pub proof fn lemma_space_len_bounds(s: Seq<char>)
    ensures
        0 <= space_len(s) <= s.len(),
    decreases s.len(),
{
    if s.len() > 0 && is_space(s.first()) {
        lemma_space_len_bounds(s.drop_first());
    }
}

/// The token of a line: everything before the first whitespace character, or
/// the whole line when it holds none.
pub open spec fn line_token(s: Seq<char>) -> Seq<char> {
    s.take(token_len(s))
}

/// The rest of a line: what follows the first whitespace character, with the
/// leading whitespace trimmed; empty for a lone token.
pub open spec fn line_rest(s: Seq<char>) -> Seq<char> {
    let after = s.skip(token_len(s));
    after.skip(space_len(after))
}

/// What one control-socket line decodes to.
pub open spec fn parse_action_spec(s: Seq<char>) -> Option<ActionModel> {
    if line_token(s) == "EXIT"@ {
        Some(ActionModel::Exit)
    } else if line_token(s) == "EXEC"@ {
        Some(ActionModel::Exec(line_rest(s)))
    } else if line_token(s) == "FLIP"@ {
        Some(ActionModel::Flip)
    } else {
        None
    }
}

/// Decode one line.  Unknown or malformed lines decode to `None` and are
/// dropped by the caller, never reported as errors.
pub fn parse_action(input: &str) -> (r: Option<Action>)
    ensures
        opt_action_view(r) == parse_action_spec(input@),
{
    let ghost s = input@;
    let n: usize = input.unicode_len();
    proof {
        lemma_token_len_bounds(s);
        assert(s.skip(0) =~= s);
    }
    let mut i: usize = 0;
    while i < n && !is_space_char(input.get_char(i))
        invariant
            n == s.len(),
            s == input@,
            0 <= i <= n,
            token_len(s) == i + token_len(s.skip(i as int)),
            token_len(s.skip(i as int)) >= 0,
        decreases n - i,
    {
        proof {
            assert(s.skip(i as int).first() == s[i as int]);
            assert(s.skip(i as int).drop_first() =~= s.skip(i + 1));
            lemma_token_len_bounds(s.skip(i + 1));
        }
        i = i + 1;
    }
    proof {
        if i < n {
            assert(s.skip(i as int).first() == s[i as int]);
            assert(token_len(s.skip(i as int)) == 0);
        } else {
            assert(s.skip(i as int).len() == 0);
        }
        assert(token_len(s) == i);
        reveal_strlit("EXIT");
        reveal_strlit("EXEC");
        reveal_strlit("FLIP");
    }
    if i != 4 {
        proof {
            assert(line_token(s).len() == i);
        }
        return None;
    }
    let c0 = input.get_char(0);
    let c1 = input.get_char(1);
    let c2 = input.get_char(2);
    let c3 = input.get_char(3);
    proof {
        assert(line_token(s).len() == 4);
        assert(line_token(s)[0] == c0 && line_token(s)[1] == c1 && line_token(s)[2] == c2
            && line_token(s)[3] == c3);
    }
    if c0 == 'E' && c1 == 'X' && c2 == 'I' && c3 == 'T' {
        proof {
            assert(line_token(s) =~= "EXIT"@);
        }
        Some(Action::Exit)
    } else if c0 == 'E' && c1 == 'X' && c2 == 'E' && c3 == 'C' {
        proof {
            assert(line_token(s) =~= "EXEC"@);
            lemma_space_len_bounds(s.skip(4));
        }
        let mut j: usize = i;
        while j < n && is_space_char(input.get_char(j))
            invariant
                n == s.len(),
                s == input@,
                4 <= j <= n,
                space_len(s.skip(4)) == (j - 4) + space_len(s.skip(j as int)),
                space_len(s.skip(j as int)) >= 0,
            decreases n - j,
        {
            proof {
                assert(s.skip(j as int).first() == s[j as int]);
                assert(s.skip(j as int).drop_first() =~= s.skip(j + 1));
                lemma_space_len_bounds(s.skip(j + 1));
            }
            j = j + 1;
        }
        proof {
            if j < n {
                assert(s.skip(j as int).first() == s[j as int]);
                assert(space_len(s.skip(j as int)) == 0);
            } else {
                assert(s.skip(j as int).len() == 0);
            }
            assert(space_len(s.skip(4)) == j - 4);
            assert(s.skip(4).skip(j - 4) =~= s.skip(j as int));
            assert(line_rest(s) == s.skip(j as int));
            assert(s.skip(j as int) =~= s.subrange(j as int, n as int));
        }
        let rest = input.substring_char(j, n);
        Some(Action::Exec(rest.to_owned()))
    } else if c0 == 'F' && c1 == 'L' && c2 == 'I' && c3 == 'P' {
        proof {
            assert(line_token(s) =~= "FLIP"@);
        }
        Some(Action::Flip)
    } else {
        None
    }
}

} // verus!

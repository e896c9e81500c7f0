//! Splitting source text into lines, and a line into whitespace-separated
//! tokens.
//!
//! Both operations are defined by a single left-to-right pass.  [`lines_of`]
//! follows the usual convention for line-oriented text: lines are cut at each
//! line feed, a carriage return sitting immediately before a line feed is
//! dropped, and a final line feed does not open an empty last line.
//! [`tokens_of`] cuts a line at every run of whitespace; tokens are never
//! empty.

use vstd::prelude::*;

use crate::chars::is_newline;
use crate::chars::is_space;
use crate::chars::newline_char;
use crate::chars::space_char;

verus! {

/// The pending token, as a sequence to append: empty if no token is open.
pub open spec fn close_token(cur: Seq<char>) -> Seq<Seq<char>> {
    if cur.len() == 0 {
        Seq::empty()
    } else {
        seq![cur]
    }
}

/// Tokens of `s`, given that the characters of `cur` directly precede `s`
/// inside one token slot.
pub open spec fn tokens_acc(s: Seq<char>, cur: Seq<char>) -> Seq<Seq<char>>
    decreases s.len(),
{
    if s.len() == 0 {
        close_token(cur)
    } else if is_space(s[0]) {
        close_token(cur) + tokens_acc(s.drop_first(), Seq::empty())
    } else {
        tokens_acc(s.drop_first(), cur.push(s[0]))
    }
}

/// The whitespace-separated tokens of one line.
pub open spec fn tokens_of(s: Seq<char>) -> Seq<Seq<char>> {
    tokens_acc(s, Seq::empty())
}

/// `s` without a trailing carriage return, if it carries one.
pub open spec fn strip_cr(s: Seq<char>) -> Seq<char> {
    if s.len() > 0 && s.last() as u32 == 13 {
        s.drop_last()
    } else {
        s
    }
}

/// Lines of `s`, given that the characters of `cur` directly precede `s`
/// inside the current line.
pub open spec fn lines_acc(s: Seq<char>, cur: Seq<char>) -> Seq<Seq<char>>
    decreases s.len(),
{
    if s.len() == 0 {
        if cur.len() == 0 {
            Seq::empty()
        } else {
            seq![cur]
        }
    } else if is_newline(s[0]) {
        seq![strip_cr(cur)] + lines_acc(s.drop_first(), Seq::empty())
    } else {
        lines_acc(s.drop_first(), cur.push(s[0]))
    }
}

/// The lines of the source text.
pub open spec fn lines_of(s: Seq<char>) -> Seq<Seq<char>> {
    lines_acc(s, Seq::empty())
}

/// Splits one line into its whitespace-separated tokens.
pub fn tokenize(s: &str) -> (r: Vec<String>)
    ensures
        r.deep_view() == tokens_of(s@),
{
    let n = s.unicode_len();
    let mut toks: Vec<String> = Vec::new();
    let mut start: usize = 0;
    let mut i: usize = 0;
    proof {
        assert(s@.skip(0) =~= s@);
        assert(s@.subrange(0, 0) =~= Seq::<char>::empty());
        assert(toks.deep_view() =~= Seq::<Seq<char>>::empty());
        assert(toks.deep_view() + tokens_acc(s@, Seq::empty()) =~= tokens_of(s@));
    }
    while i < n
        invariant
            start <= i <= n,
            n == s@.len(),
            tokens_of(s@) == toks.deep_view() + tokens_acc(
                s@.skip(i as int),
                s@.subrange(start as int, i as int),
            ),
        decreases n - i,
    {
        let ghost cur = s@.subrange(start as int, i as int);
        proof {
            assert(s@.skip(i as int)[0] == s@[i as int]);
            assert(s@.skip(i as int).drop_first() =~= s@.skip(i as int + 1));
        }
        let c = s.get_char(i);
        if space_char(c) {
            let ghost pre = toks.deep_view();
            if start < i {
                let t = s.substring_char(start, i).to_owned();
                toks.push(t);
            }
            proof {
                assert(toks.deep_view() =~= pre + close_token(cur));
                assert(s@.subrange(i as int + 1, i as int + 1) =~= Seq::<char>::empty());
                assert(pre + tokens_acc(s@.skip(i as int), cur) =~= toks.deep_view()
                    + tokens_acc(s@.skip(i as int + 1), Seq::empty()));
            }
            start = i + 1;
        } else {
            proof {
                assert(cur.push(s@[i as int]) =~= s@.subrange(start as int, i as int + 1));
            }
        }
        i = i + 1;
    }
    proof {
        assert(s@.skip(n as int) =~= Seq::<char>::empty());
    }
    let ghost pre = toks.deep_view();
    let ghost cur = s@.subrange(start as int, n as int);
    if start < n {
        let t = s.substring_char(start, n).to_owned();
        toks.push(t);
    }
    proof {
        assert(toks.deep_view() =~= pre + close_token(cur));
    }
    toks
}

/// Splits the source text into its lines.
pub fn split_lines(s: &str) -> (r: Vec<String>)
    ensures
        r.deep_view() == lines_of(s@),
{
    let n = s.unicode_len();
    let mut lines: Vec<String> = Vec::new();
    let mut start: usize = 0;
    let mut i: usize = 0;
    proof {
        assert(s@.skip(0) =~= s@);
        assert(s@.subrange(0, 0) =~= Seq::<char>::empty());
        assert(lines.deep_view() =~= Seq::<Seq<char>>::empty());
        assert(lines.deep_view() + lines_acc(s@, Seq::empty()) =~= lines_of(s@));
    }
    while i < n
        invariant
            start <= i <= n,
            n == s@.len(),
            lines_of(s@) == lines.deep_view() + lines_acc(
                s@.skip(i as int),
                s@.subrange(start as int, i as int),
            ),
        decreases n - i,
    {
        let ghost cur = s@.subrange(start as int, i as int);
        proof {
            assert(s@.skip(i as int)[0] == s@[i as int]);
            assert(s@.skip(i as int).drop_first() =~= s@.skip(i as int + 1));
        }
        let c = s.get_char(i);
        if newline_char(c) {
            let line_end = if i > start && s.get_char(i - 1) as u32 == 13 {
                i - 1
            } else {
                i
            };
            proof {
                if cur.len() > 0 && cur.last() as u32 == 13 {
                    assert(cur.drop_last() =~= s@.subrange(start as int, i as int - 1));
                }
                assert(strip_cr(cur) == s@.subrange(start as int, line_end as int));
            }
            let ghost pre = lines.deep_view();
            let t = s.substring_char(start, line_end).to_owned();
            lines.push(t);
            proof {
                assert(lines.deep_view() =~= pre.push(strip_cr(cur)));
                assert(s@.subrange(i as int + 1, i as int + 1) =~= Seq::<char>::empty());
                assert(pre + lines_acc(s@.skip(i as int), cur) =~= lines.deep_view()
                    + lines_acc(s@.skip(i as int + 1), Seq::empty()));
            }
            start = i + 1;
        } else {
            proof {
                assert(cur.push(s@[i as int]) =~= s@.subrange(start as int, i as int + 1));
            }
        }
        i = i + 1;
    }
    proof {
        assert(s@.skip(n as int) =~= Seq::<char>::empty());
    }
    let ghost pre = lines.deep_view();
    let ghost cur = s@.subrange(start as int, n as int);
    if start < n {
        let t = s.substring_char(start, n).to_owned();
        lines.push(t);
        proof {
            assert(lines.deep_view() =~= pre.push(cur));
        }
    } else {
        proof {
            assert(pre + lines_acc(Seq::empty(), cur) =~= pre);
        }
    }
    lines
}

} // verus!

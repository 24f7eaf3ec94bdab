//! The text of an AT command line: `AT`, the command, its arguments and
//! the line ending.

use crate::text::{chars_of, digits_value, is_decimal};
use vstd::prelude::*;

verus! {

/// The character of the decimal digit `d`.
pub open spec fn digit_char(d: nat) -> char {
    (48 + d) as char
}

/// The decimal text of `n`, without leading zeros.
pub open spec fn decimal_text(n: nat) -> Seq<char>
    decreases n,
{
    if n < 10 {
        seq![digit_char(n)]
    } else {
        decimal_text(n / 10) + seq![digit_char(n % 10)]
    }
}

/// The decimal text of `n` is a run of digits that writes `n`, with no
/// leading zero unless `n` is zero, and at most three digits below 1000.
pub(crate) proof fn lemma_decimal_text_reads(n: nat)
    ensures
        is_decimal(decimal_text(n)),
        digits_value(decimal_text(n)) == n,
        n >= 1 ==> decimal_text(n)[0] != '0',
        n < 10 ==> decimal_text(n).len() == 1,
        n < 100 ==> decimal_text(n).len() <= 2,
        n < 1000 ==> decimal_text(n).len() <= 3,
    decreases n,
{
    let d = digit_char(n % 10);
    assert(d as nat == 48 + n % 10);
    assert('0' as nat == 48);
    if n < 10 {
        assert(decimal_text(n).drop_last() =~= Seq::<char>::empty());
        assert(digits_value(Seq::<char>::empty()) == 0);
    } else {
        lemma_decimal_text_reads(n / 10);
        let t = decimal_text(n);
        let front = decimal_text(n / 10);
        assert(t.drop_last() =~= front);
        assert(t.last() == d);
        assert(t[0] == front[0]);
        assert forall|i: int| 0 <= i < t.len() implies crate::text::is_digit(#[trigger] t[i]) by {
            if i < front.len() {
                assert(t[i] == front[i]);
            }
        }
    }
}

/// Append the decimal text of `n` to `out`.
pub fn push_decimal(out: &mut Vec<char>, n: u128)
    ensures
        final(out)@ == old(out)@ + decimal_text(n as nat),
    decreases n,
{
    if n >= 10 {
        push_decimal(out, n / 10);
    }
    let d: u8 = (n % 10) as u8;
    out.push((48 + d) as char);
    proof {
        assert(old(out)@ + decimal_text(n as nat) =~= if n < 10 {
            old(out)@ + seq![digit_char(n as nat)]
        } else {
            old(out)@ + decimal_text((n / 10) as nat) + seq![digit_char((n % 10) as nat)]
        });
    }
}

/// The character of the upper case hexadecimal digit `d`.
pub open spec fn hex_char(d: nat) -> char {
    if d < 10 {
        (48 + d) as char
    } else {
        (55 + d) as char
    }
}

/// The text that stands for the character `c` inside a quoted string:
/// a backslash, a quote and the control characters are written as a
/// backslash and their code in two upper case hexadecimal digits.
pub open spec fn escaped_char(c: char) -> Seq<char> {
    if c == '\\' || c == '"' || (c as u32) < 32 {
        seq!['\\', hex_char((c as u32 / 16) as nat), hex_char((c as u32 % 16) as nat)]
    } else {
        seq![c]
    }
}

/// The characters of `s`, each as [escaped_char] writes it.
pub open spec fn escaped(s: Seq<char>) -> Seq<char>
    decreases s.len(),
{
    if s.len() == 0 {
        Seq::empty()
    } else {
        escaped(s.drop_last()) + escaped_char(s.last())
    }
}

/// The string `s` as an argument: between quotes, with its special
/// characters escaped.
pub open spec fn quoted(s: Seq<char>) -> Seq<char> {
    seq!['"'] + escaped(s) + seq!['"']
}

fn push_hex_digit(out: &mut Vec<char>, d: u32)
    requires
        d < 16,
    ensures
        final(out)@ == old(out)@.push(hex_char(d as nat)),
{
    if d < 10 {
        out.push(((48 + d) as u8) as char);
    } else {
        out.push(((55 + d) as u8) as char);
    }
}

/// Append the string `s`, as a quoted argument, to `out`.
pub fn push_quoted(out: &mut Vec<char>, s: &str)
    ensures
        final(out)@ == old(out)@ + quoted(s@),
{
    let c = chars_of(s);
    push_quoted_chars(out, c.as_slice());
}

/// Append the characters `c`, as a quoted argument, to `out`.
pub fn push_quoted_chars(out: &mut Vec<char>, c: &[char])
    ensures
        final(out)@ == old(out)@ + quoted(c@),
{
    out.push('"');
    let ghost start = out@;
    let mut i: usize = 0;
    while i < c.len()
        invariant
            0 <= i <= c@.len(),
            out@ == start + escaped(c@.subrange(0, i as int)),
        decreases c@.len() - i,
    {
        let ch = c[i];
        let ghost before = out@;
        let v = ch as u32;
        if ch == '\\' || ch == '"' || v < 32 {
            out.push('\\');
            push_hex_digit(out, v / 16);
            push_hex_digit(out, v % 16);
        } else {
            out.push(ch);
        }
        proof {
            assert(c@.subrange(0, i + 1).drop_last() =~= c@.subrange(0, i as int));
            assert(out@ =~= before + escaped_char(ch));
        }
        i = i + 1;
    }
    out.push('"');
    proof {
        assert(c@.subrange(0, c@.len() as int) =~= c@);
        assert(out@ =~= old(out)@ + quoted(c@));
    }
}

/// The arguments `args`, separated by commas.
pub open spec fn joined(args: Seq<Seq<char>>) -> Seq<char>
    decreases args.len(),
{
    if args.len() == 0 {
        Seq::empty()
    } else if args.len() == 1 {
        args[0]
    } else {
        joined(args.drop_last()) + seq![','] + args.last()
    }
}

/// The command line of the command `cmd` with the arguments `args`: `AT`,
/// the command, then (when there are arguments) `=` where the command
/// takes one (`value_sep`) and the arguments separated by commas, and the
/// line ending `\r\n`.
pub open spec fn at_text(cmd: Seq<char>, args: Seq<Seq<char>>, value_sep: bool) -> Seq<char> {
    seq!['A', 'T'] + cmd + (if args.len() == 0 {
        Seq::empty()
    } else {
        (if value_sep {
            seq!['=']
        } else {
            Seq::empty()
        }) + joined(args)
    }) + seq!['\r', '\n']
}

/// The command line of the command `cmd` with the arguments `args`.
pub fn at_line(cmd: &str, args: &Vec<Vec<char>>, value_sep: bool) -> (r: Vec<char>)
    ensures
        r@ == at_text(cmd@, args@.map_values(|a: Vec<char>| a@), value_sep),
{
    let ghost views = args@.map_values(|a: Vec<char>| a@);
    let mut out: Vec<char> = Vec::new();
    out.push('A');
    out.push('T');
    let c = chars_of(cmd);
    let mut k: usize = 0;
    while k < c.len()
        invariant
            0 <= k <= c@.len(),
            c@ == cmd@,
            out@ == seq!['A', 'T'] + c@.subrange(0, k as int),
        decreases c@.len() - k,
    {
        out.push(c[k]);
        proof {
            assert(c@.subrange(0, k + 1) =~= c@.subrange(0, k as int).push(c@[k as int]));
        }
        k = k + 1;
    }
    assert(c@.subrange(0, c@.len() as int) =~= c@);
    let ghost head = out@;
    if args.len() > 0 && value_sep {
        out.push('=');
    }
    let ghost sep_start = out@;
    let mut i: usize = 0;
    while i < args.len()
        invariant
            0 <= i <= args@.len(),
            views == args@.map_values(|a: Vec<char>| a@),
            out@ == sep_start + joined(views.subrange(0, i as int)),
        decreases args@.len() - i,
    {
        let ghost before = out@;
        if i > 0 {
            out.push(',');
        }
        let a = &args[i];
        let mut j: usize = 0;
        while j < a.len()
            invariant
                0 <= j <= a@.len(),
                out@ == before + (if i > 0 {
                    seq![',']
                } else {
                    Seq::empty()
                }) + a@.subrange(0, j as int),
            decreases a@.len() - j,
        {
            out.push(a[j]);
            proof {
                assert(a@.subrange(0, j + 1) =~= a@.subrange(0, j as int).push(a@[j as int]));
            }
            j = j + 1;
        }
        proof {
            assert(a@.subrange(0, a@.len() as int) =~= a@);
            assert(views[i as int] == a@);
            let vs = views.subrange(0, i + 1);
            assert(vs.drop_last() =~= views.subrange(0, i as int));
            if i == 0 {
                assert(vs.len() == 1);
                assert(out@ =~= sep_start + joined(vs));
            } else {
                assert(out@ =~= sep_start + joined(vs));
            }
        }
        i = i + 1;
    }
    assert(views.subrange(0, args@.len() as int) =~= views);
    out.push('\r');
    out.push('\n');
    proof {
        assert(out@ =~= at_text(cmd@, views, value_sep));
    }
    out
}

/// Whether no character of `s` is a control character (below a space).
pub open spec fn printable(s: Seq<char>) -> bool {
    forall|i: int| 0 <= i < s.len() ==> (#[trigger] s[i]) as u32 >= 32
}

proof fn lemma_printable_concat(a: Seq<char>, b: Seq<char>)
    requires
        printable(a),
        printable(b),
    ensures
        printable(a + b),
{
    assert forall|i: int| 0 <= i < (a + b).len() implies ((#[trigger] (a + b)[i]) as u32 >= 32) by {
        if i < a.len() {
            assert((a + b)[i] == a[i]);
        } else {
            assert((a + b)[i] == b[i - a.len()]);
        }
    }
}

/// The decimal text of a number is printable.
pub proof fn lemma_decimal_text_printable(n: nat)
    ensures
        printable(decimal_text(n)),
        decimal_text(n).len() > 0,
    decreases n,
{
    if n >= 10 {
        lemma_decimal_text_printable(n / 10);
        lemma_printable_concat(decimal_text(n / 10), seq![digit_char(n % 10)]);
    }
}

/// A quoted string is printable, whatever it holds: its control
/// characters are escaped.
pub proof fn lemma_quoted_printable(s: Seq<char>)
    ensures
        printable(quoted(s)),
    decreases s.len(),
{
    lemma_escaped_printable(s);
    lemma_printable_concat(seq!['"'], escaped(s));
    lemma_printable_concat(seq!['"'] + escaped(s), seq!['"']);
}

proof fn lemma_escaped_printable(s: Seq<char>)
    ensures
        printable(escaped(s)),
    decreases s.len(),
{
    if s.len() > 0 {
        lemma_escaped_printable(s.drop_last());
        let c = s.last();
        if c == '\\' || c == '"' || (c as u32) < 32 {
            let hi = (c as u32 / 16) as nat;
            let lo = (c as u32 % 16) as nat;
            assert(hex_char(hi) as u32 >= 48);
            assert(hex_char(lo) as u32 >= 48);
        }
        lemma_printable_concat(escaped(s.drop_last()), escaped_char(c));
    }
}

proof fn lemma_joined_printable(args: Seq<Seq<char>>)
    requires
        forall|i: int| 0 <= i < args.len() ==> printable(#[trigger] args[i]),
    ensures
        printable(joined(args)),
    decreases args.len(),
{
    if args.len() > 1 {
        lemma_joined_printable(args.drop_last());
        lemma_printable_concat(joined(args.drop_last()), seq![',']);
        lemma_printable_concat(joined(args.drop_last()) + seq![','], args.last());
    }
}

/// A command line is a single line: when the command and its arguments
/// are printable (as decimal numbers and quoted strings always are), its
/// only control characters are the `\r\n` that end it.
pub proof fn lemma_command_line_is_one_line(cmd: Seq<char>, args: Seq<Seq<char>>, value_sep: bool)
    requires
        printable(cmd),
        forall|i: int| 0 <= i < args.len() ==> printable(#[trigger] args[i]),
    ensures
        ({
            let t = at_text(cmd, args, value_sep);
            &&& t.len() >= 4
            &&& printable(t.subrange(0, t.len() - 2))
            &&& t[t.len() - 2] == '\r'
            &&& t[t.len() - 1] == '\n'
        }),
{
    let sep: Seq<char> = if value_sep {
        seq!['=']
    } else {
        Seq::empty()
    };
    let tail: Seq<char> = if args.len() == 0 {
        Seq::empty()
    } else {
        sep + joined(args)
    };
    lemma_joined_printable(args);
    lemma_printable_concat(sep, joined(args));
    lemma_printable_concat(seq!['A', 'T'], cmd);
    lemma_printable_concat(seq!['A', 'T'] + cmd, tail);
    let body = seq!['A', 'T'] + cmd + tail;
    let t = at_text(cmd, args, value_sep);
    assert(t =~= body + seq!['\r', '\n']);
    assert(t.subrange(0, t.len() - 2) =~= body);
}

} // verus!

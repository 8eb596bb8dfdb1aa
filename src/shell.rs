//! Quoting of command lines for a POSIX shell.
use vstd::prelude::*;

use crate::chars::{chars_of, push_char};

verus! {

/// A character that a shell reads as itself outside quotes.
pub open spec fn is_plain_char(c: char) -> bool {
    ('a' <= c && c <= 'z') || ('A' <= c && c <= 'Z') || ('0' <= c && c <= '9') || c == '-' || c
        == '_' || c == '.' || c == '/'
}

/// A non-empty token made of plain characters only: it needs no quoting.
pub open spec fn is_plain_token(t: Seq<char>) -> bool {
    t.len() > 0 && forall|i: int| 0 <= i < t.len() ==> is_plain_char(#[trigger] t[i])
}

/// What one character becomes inside single quotes: a single quote closes
/// the quotes, adds a double-quoted single quote, and opens them again.
pub open spec fn quoted_piece(c: char) -> Seq<char> {
    if c == '\'' {
        seq!['\'', '"', '\'', '"', '\'']
    } else {
        seq![c]
    }
}

/// The text between the outer single quotes for token `t`.
pub open spec fn quoted_body(t: Seq<char>) -> Seq<char>
    decreases t.len(),
{
    if t.len() == 0 {
        Seq::empty()
    } else {
        quoted_piece(t[0]) + quoted_body(t.drop_first())
    }
}

/// The shell form of one token.
pub open spec fn escaped(t: Seq<char>) -> Seq<char> {
    if is_plain_token(t) {
        t
    } else {
        seq!['\''] + quoted_body(t) + seq!['\'']
    }
}

/// The shell forms of `tokens`, separated by single spaces.
pub open spec fn joined(tokens: Seq<Seq<char>>) -> Seq<char>
    decreases tokens.len(),
{
    if tokens.len() == 0 {
        Seq::empty()
    } else if tokens.len() == 1 {
        escaped(tokens[0])
    } else {
        joined(tokens.drop_last()) + seq![' '] + escaped(tokens.last())
    }
}

/// The quoting state of a shell reading a word.
pub enum QuoteMode {
    Bare,
    Single,
    Double,
}

/// The words of a command line as a POSIX shell splits and reads them,
/// for lines made of plain characters, single-quoted text, double-quoted
/// text free of `$`, backquote and backslash, and spaces. `cur` is the
/// word read so far and `started` says whether one has begun (an empty
/// quoted word counts); `None` stands for any other text.
pub open spec fn shell_line(s: Seq<char>, mode: QuoteMode, cur: Seq<char>, started: bool) -> Option<
    Seq<Seq<char>>,
>
    decreases s.len(),
{
    if s.len() == 0 {
        match mode {
            QuoteMode::Bare => Some(if started {
                seq![cur]
            } else {
                Seq::empty()
            }),
            _ => None,
        }
    } else {
        let c = s[0];
        let rest = s.drop_first();
        match mode {
            QuoteMode::Bare => if c == ' ' {
                if started {
                    prepend_word(cur, shell_line(rest, QuoteMode::Bare, Seq::empty(), false))
                } else {
                    shell_line(rest, QuoteMode::Bare, cur, false)
                }
            } else if c == '\'' {
                shell_line(rest, QuoteMode::Single, cur, true)
            } else if c == '"' {
                shell_line(rest, QuoteMode::Double, cur, true)
            } else if is_plain_char(c) {
                shell_line(rest, QuoteMode::Bare, cur.push(c), true)
            } else {
                None
            },
            QuoteMode::Single => if c == '\'' {
                shell_line(rest, QuoteMode::Bare, cur, true)
            } else {
                shell_line(rest, QuoteMode::Single, cur.push(c), true)
            },
            QuoteMode::Double => if c == '"' {
                shell_line(rest, QuoteMode::Bare, cur, true)
            } else if c == '$' || c == '`' || c == '\\' {
                None
            } else {
                shell_line(rest, QuoteMode::Double, cur.push(c), true)
            },
        }
    }
}

/// The word `w` put in front of parsed words.
pub open spec fn prepend_word(w: Seq<char>, o: Option<Seq<Seq<char>>>) -> Option<Seq<Seq<char>>> {
    match o {
        Some(ws) => Some(seq![w] + ws),
        None => None,
    }
}

proof fn lemma_line_plain(t: Seq<char>, tail: Seq<char>, cur: Seq<char>)
    requires
        forall|i: int| 0 <= i < t.len() ==> is_plain_char(#[trigger] t[i]),
        t.len() > 0,
    ensures
        shell_line(t + tail, QuoteMode::Bare, cur, false) == shell_line(tail, QuoteMode::Bare, cur + t, true),
    decreases t.len(),
{
    let s = t + tail;
    assert(s[0] == t[0]);
    assert(s.drop_first() =~= t.drop_first() + tail);
    assert(cur.push(t[0]) + t.drop_first() =~= cur + t);
    if t.len() > 1 {
        lemma_line_plain_started(t.drop_first(), tail, cur.push(t[0]));
    } else {
        assert(t.drop_first() + tail =~= tail);
    }
}

proof fn lemma_line_plain_started(t: Seq<char>, tail: Seq<char>, cur: Seq<char>)
    requires
        forall|i: int| 0 <= i < t.len() ==> is_plain_char(#[trigger] t[i]),
    ensures
        shell_line(t + tail, QuoteMode::Bare, cur, true) == shell_line(tail, QuoteMode::Bare, cur + t, true),
    decreases t.len(),
{
    if t.len() == 0 {
        assert(t + tail =~= tail);
        assert(cur + t =~= cur);
    } else {
        let s = t + tail;
        assert(s[0] == t[0]);
        assert(s.drop_first() =~= t.drop_first() + tail);
        assert forall|i: int| 0 <= i < t.drop_first().len() implies is_plain_char(#[trigger] t.drop_first()[i]) by {
            assert(t.drop_first()[i] == t[i + 1]);
        }
        lemma_line_plain_started(t.drop_first(), tail, cur.push(t[0]));
        assert(cur.push(t[0]) + t.drop_first() =~= cur + t);
    }
}

proof fn lemma_line_body(t: Seq<char>, tail: Seq<char>, cur: Seq<char>)
    ensures
        shell_line(quoted_body(t) + tail, QuoteMode::Single, cur, true) == shell_line(
            tail,
            QuoteMode::Single,
            cur + t,
            true,
        ),
    decreases t.len(),
{
    if t.len() == 0 {
        assert(quoted_body(t) =~= Seq::<char>::empty());
        assert(quoted_body(t) + tail =~= tail);
        assert(cur + t =~= cur);
    } else {
        let c = t[0];
        let rest = t.drop_first();
        let after = quoted_body(rest) + tail;
        assert(quoted_body(t) + tail =~= quoted_piece(c) + after);
        let cur2 = cur.push(c);
        lemma_line_body(rest, tail, cur2);
        assert(cur2 + rest =~= cur + t);
        if c == '\'' {
            let s0 = quoted_piece(c) + after;
            let s1 = seq!['"', '\'', '"', '\''] + after;
            let s2 = seq!['\'', '"', '\''] + after;
            let s3 = seq!['"', '\''] + after;
            let s4 = seq!['\''] + after;
            assert(s0.drop_first() =~= s1);
            assert(s1.drop_first() =~= s2);
            assert(s2.drop_first() =~= s3);
            assert(s3.drop_first() =~= s4);
            assert(s4.drop_first() =~= after);
            assert(s0[0] == '\'' && s1[0] == '"' && s2[0] == '\'' && s3[0] == '"' && s4[0] == '\'');
            assert(shell_line(s4, QuoteMode::Bare, cur2, true) == shell_line(after, QuoteMode::Single, cur2, true));
            assert(shell_line(s3, QuoteMode::Double, cur2, true) == shell_line(s4, QuoteMode::Bare, cur2, true));
            assert(shell_line(s2, QuoteMode::Double, cur, true) == shell_line(s3, QuoteMode::Double, cur2, true));
            assert(shell_line(s1, QuoteMode::Bare, cur, true) == shell_line(s2, QuoteMode::Double, cur, true));
            assert(shell_line(s0, QuoteMode::Single, cur, true) == shell_line(s1, QuoteMode::Bare, cur, true));
        } else {
            let s0 = quoted_piece(c) + after;
            assert(s0.drop_first() =~= after);
            assert(s0[0] == c);
        }
    }
}

/// A token in shell form, then `tail`: the token is read as one word,
/// then `tail` is read from scratch, once a space ends the word.
proof fn lemma_line_token(t: Seq<char>, tail: Seq<char>)
    ensures
        shell_line(escaped(t) + seq![' '] + tail, QuoteMode::Bare, Seq::empty(), false) == prepend_word(
            t,
            shell_line(tail, QuoteMode::Bare, Seq::empty(), false),
        ),
        shell_line(escaped(t), QuoteMode::Bare, Seq::empty(), false) == Some(seq![t]),
{
    let sp = seq![' '] + tail;
    assert(escaped(t) + seq![' '] + tail =~= escaped(t) + sp);
    assert(sp[0] == ' ' && sp.drop_first() =~= tail);
    let e: Seq<char> = Seq::empty();
    let after = shell_line(tail, QuoteMode::Bare, e, false);
    assert(shell_line(sp, QuoteMode::Bare, t, true) == prepend_word(t, after));
    assert(shell_line(e, QuoteMode::Bare, t, true) == Some(seq![t]));
    assert(e + t =~= t);
    if is_plain_token(t) {
        lemma_line_plain(t, sp, e);
        lemma_line_plain(t, e, e);
        assert(t + e =~= t);
    } else {
        let close = seq!['\''];
        let s0 = seq!['\''] + (quoted_body(t) + (close + sp));
        assert(escaped(t) + sp =~= s0);
        assert(s0[0] == '\'' && s0.drop_first() =~= quoted_body(t) + (close + sp));
        lemma_line_body(t, close + sp, e);
        let s2 = close + sp;
        assert(s2[0] == '\'' && s2.drop_first() =~= sp);
        assert(shell_line(s2, QuoteMode::Single, t, true) == shell_line(sp, QuoteMode::Bare, t, true));
        assert(shell_line(s0, QuoteMode::Bare, e, false) == shell_line(
            quoted_body(t) + (close + sp),
            QuoteMode::Single,
            e,
            true,
        ));
        let s3 = seq!['\''] + (quoted_body(t) + close);
        assert(escaped(t) =~= s3);
        assert(s3[0] == '\'' && s3.drop_first() =~= quoted_body(t) + close);
        lemma_line_body(t, close, e);
        assert(close[0] == '\'' && close.drop_first() =~= e);
        assert(shell_line(close, QuoteMode::Single, t, true) == shell_line(e, QuoteMode::Bare, t, true));
        assert(shell_line(s3, QuoteMode::Bare, e, false) == shell_line(
            quoted_body(t) + close,
            QuoteMode::Single,
            e,
            true,
        ));
    }
}

/// A token in shell form reads back as one word: the token itself, an
/// empty token included.
pub proof fn lemma_escape_round_trip(t: Seq<char>)
    ensures
        shell_line(escaped(t), QuoteMode::Bare, Seq::empty(), false) == Some(seq![t]),
{
    lemma_line_token(t, Seq::empty());
}

proof fn lemma_joined_front(tokens: Seq<Seq<char>>)
    requires
        tokens.len() >= 2,
    ensures
        joined(tokens) == escaped(tokens[0]) + seq![' '] + joined(tokens.drop_first()),
    decreases tokens.len(),
{
    let d = tokens.drop_last();
    let f = tokens.drop_first();
    if tokens.len() > 2 {
        lemma_joined_front(d);
        assert(d.drop_first() =~= f.drop_last());
        assert(f.last() == tokens.last());
        assert(d[0] == tokens[0]);
        assert(joined(f) == joined(f.drop_last()) + seq![' '] + escaped(f.last()));
        assert(joined(tokens) == joined(d) + seq![' '] + escaped(tokens.last()));
        assert(joined(tokens) =~= escaped(tokens[0]) + seq![' '] + joined(f));
    } else {
        assert(d =~= seq![tokens[0]]);
        assert(f =~= seq![tokens[1]]);
        assert(joined(d) == escaped(tokens[0]));
        assert(joined(f) == escaped(tokens[1]));
        assert(tokens.last() == tokens[1]);
    }
}

/// A command line made of tokens in shell form reads back as exactly the
/// tokens: as many words as tokens, each one the token itself, an empty
/// token included.
pub proof fn lemma_command_round_trip(tokens: Seq<Seq<char>>)
    requires
        tokens.len() >= 1,
    ensures
        shell_line(joined(tokens), QuoteMode::Bare, Seq::empty(), false) == Some(tokens),
    decreases tokens.len(),
{
    if tokens.len() == 1 {
        lemma_line_token(tokens[0], Seq::empty());
        assert(seq![tokens[0]] =~= tokens);
    } else {
        lemma_joined_front(tokens);
        lemma_command_round_trip(tokens.drop_first());
        lemma_line_token(tokens[0], joined(tokens.drop_first()));
        assert(seq![tokens[0]] + tokens.drop_first() =~= tokens);
    }
}

proof fn lemma_quoted_body_push(t: Seq<char>, c: char)
    ensures
        quoted_body(t.push(c)) == quoted_body(t) + quoted_piece(c),
    decreases t.len(),
{
    if t.len() == 0 {
        assert(t.push(c).drop_first() =~= Seq::<char>::empty());
        assert(quoted_body(Seq::<char>::empty()) =~= Seq::<char>::empty());
        assert(t.push(c)[0] == c);
        assert(quoted_body(t.push(c)) =~= quoted_piece(c));
    } else {
        lemma_quoted_body_push(t.drop_first(), c);
        assert(t.push(c).drop_first() =~= t.drop_first().push(c));
        assert(quoted_body(t.push(c)) =~= quoted_body(t) + quoted_piece(c));
    }
}

fn is_plain(c: char) -> (r: bool)
    ensures
        r == is_plain_char(c),
{
    ('a' <= c && c <= 'z') || ('A' <= c && c <= 'Z') || ('0' <= c && c <= '9') || c == '-' || c
        == '_' || c == '.' || c == '/'
}

/// Appends the shell form of `token` to `out`.
pub fn push_escaped(out: &mut String, token: &str)
    ensures
        final(out)@ == old(out)@ + escaped(token@),
{
    let cs = chars_of(token);
    let mut plain = cs.len() > 0;
    let mut i: usize = 0;
    while i < cs.len()
        invariant
            cs@ == token@,
            i <= cs.len(),
            plain <==> (cs.len() > 0 && forall|j: int| 0 <= j < i ==> is_plain_char(#[trigger] cs@[j])),
        decreases cs.len() - i,
    {
        if !is_plain(cs[i]) {
            plain = false;
        }
        i += 1;
    }
    if plain {
        out.append(token);
        return;
    }
    let ghost start = out@;
    push_char(out, '\'');
    let mut k: usize = 0;
    while k < cs.len()
        invariant
            cs@ == token@,
            k <= cs.len(),
            out@ == start + seq!['\''] + quoted_body(cs@.take(k as int)),
        decreases cs.len() - k,
    {
        let c = cs[k];
        proof {
            lemma_quoted_body_push(cs@.take(k as int), c);
            assert(cs@.take(k as int).push(c) =~= cs@.take(k + 1));
        }
        if c == '\'' {
            push_char(out, '\'');
            push_char(out, '"');
            push_char(out, '\'');
            push_char(out, '"');
            push_char(out, '\'');
        } else {
            push_char(out, c);
        }
        k += 1;
        assert(out@ =~= start + seq!['\''] + quoted_body(cs@.take(k as int)));
    }
    push_char(out, '\'');
    assert(cs@.take(cs.len() as int) =~= cs@);
    assert(out@ =~= start + escaped(token@));
}

/// The shell form of one token: kept as it is when it is made of plain
/// characters, else put in single quotes.
pub fn escape_token(token: &str) -> (r: String)
    ensures
        r@ == escaped(token@),
        shell_line(r@, QuoteMode::Bare, Seq::empty(), false) == Some(seq![token@]),
{
    proof {
        lemma_escape_round_trip(token@);
    }
    let mut r = String::new();
    push_escaped(&mut r, token);
    assert(r@ =~= escaped(token@));
    r
}

/// The command line that runs `program` with `args`, each token in shell
/// form, separated by single spaces.
pub fn escape_command(program: &str, args: &Vec<String>) -> (r: String)
    ensures
        r@ == joined(seq![program@] + args@.map_values(|a: String| a@)),
        shell_line(r@, QuoteMode::Bare, Seq::empty(), false) == Some(
            seq![program@] + args@.map_values(|a: String| a@),
        ),
{
    proof {
        lemma_command_round_trip(seq![program@] + args@.map_values(|a: String| a@));
    }
    let ghost toks = seq![program@] + args@.map_values(|a: String| a@);
    let mut r = String::new();
    push_escaped(&mut r, program);
    proof {
        assert(toks.take(1) =~= seq![program@]);
        assert(joined(toks.take(1)) == escaped(program@));
        assert(r@ =~= escaped(program@));
    }
    let mut i: usize = 0;
    while i < args.len()
        invariant
            toks == seq![program@] + args@.map_values(|a: String| a@),
            i <= args.len(),
            r@ == joined(toks.take(i + 1)),
        decreases args.len() - i,
    {
        push_char(&mut r, ' ');
        push_escaped(&mut r, args[i].as_str());
        proof {
            let t = toks.take(i + 2);
            assert(t.drop_last() =~= toks.take(i + 1));
            assert(t.last() == args@[i as int]@);
        }
        i += 1;
    }
    assert(toks.take(args.len() + 1) =~= toks);
    r
}

} // verus!

//! Why jobs stored by the older convention keep working.
//!
//! A task scheduled from chat used to be stored as a run command, whatever
//! the task. Today a task that reads as a reminder is stored as a reminder
//! command. The scheduler rewrites a stored run command when it runs it, and
//! this module proves that the rewrite gives exactly the command that would
//! be stored for the same task today.

use vstd::prelude::*;
use crate::chat_actions::{is_reminder, quoted_argument, run_task_command,
    scheduled_task_command};
use crate::pattern::{has_prefix, occurs_at, replaced_char};
use crate::scheduler::{effective_command, run_message, unescaped};
use crate::text::{is_space, leading_spaces, trailing_spaces, trimmed, trimmed_end, trimmed_start};
use crate::words::{ascii_lower, lowered_ascii, single_line, unbroken};

verus! {

// ---------------------------------------------------------------------------
// Escaping, character by character
// ---------------------------------------------------------------------------

/// A character as it stands between double quotes: a backslash and a double
/// quote get a backslash in front.
pub open spec fn escaped_char(c: char) -> Seq<char> {
    if c == '\\' {
        seq!['\\', '\\']
    } else if c == '"' {
        seq!['\\', '"']
    } else {
        seq![c]
    }
}

/// A text as it stands between double quotes.
pub open spec fn escaped(s: Seq<char>) -> Seq<char>
    decreases s.len(),
{
    if s.len() == 0 {
        Seq::empty()
    } else {
        escaped_char(s[0]) + escaped(s.skip(1))
    }
}

/// Replacing one character works on the first character and then on the
/// rest.
pub proof fn lemma_replaced_char_step(s: Seq<char>, c: char, to: Seq<char>)
    requires
        s.len() > 0,
    ensures
        replaced_char(s, c, to) == (if s[0] == c {
            to
        } else {
            seq![s[0]]
        }) + replaced_char(s.skip(1), c, to),
{
    let from = seq![c];
    assert(from.len() == 1);
    if s[0] == c {
        assert(s.subrange(0, 1) =~= from);
        assert(occurs_at(s, from, 0));
    } else {
        assert(s.subrange(0, 1)[0] != from[0]);
        assert(!occurs_at(s, from, 0));
    }
}

/// Replacing one character in a text of two parts works on each part.
pub proof fn lemma_replaced_char_parts(a: Seq<char>, b: Seq<char>, c: char, to: Seq<char>)
    ensures
        replaced_char(a + b, c, to) == replaced_char(a, c, to) + replaced_char(b, c, to),
    decreases a.len(),
{
    if a.len() == 0 {
        assert(a + b =~= b);
        assert(replaced_char(a, c, to) =~= Seq::<char>::empty());
        assert(Seq::<char>::empty() + replaced_char(b, c, to) =~= replaced_char(b, c, to));
    } else {
        let whole = a + b;
        lemma_replaced_char_step(whole, c, to);
        lemma_replaced_char_step(a, c, to);
        assert(whole.skip(1) =~= a.skip(1) + b);
        lemma_replaced_char_parts(a.skip(1), b, c, to);
        let head = if a[0] == c {
            to
        } else {
            seq![a[0]]
        };
        assert(whole[0] == a[0]);
        assert(head + (replaced_char(a.skip(1), c, to) + replaced_char(b, c, to)) =~= (head
            + replaced_char(a.skip(1), c, to)) + replaced_char(b, c, to));
    }
}

/// Putting a backslash before each backslash and then before each double
/// quote escapes the text character by character.
pub proof fn lemma_two_passes_escape(s: Seq<char>)
    ensures
        replaced_char(replaced_char(s, '\\', "\\\\"@), '"', "\\\""@) == escaped(s),
    decreases s.len(),
{
    reveal_strlit("\\\\");
    reveal_strlit("\\\"");
    let two = "\\\\"@;
    let quote = "\\\""@;
    assert(two =~= seq!['\\', '\\']);
    assert(quote =~= seq!['\\', '"']);
    if s.len() == 0 {
        assert(replaced_char(s, '\\', two) =~= s);
        assert(replaced_char(s, '"', quote) =~= s);
    } else {
        let h = s[0];
        let t = s.skip(1);
        lemma_two_passes_escape(t);
        lemma_replaced_char_step(s, '\\', two);
        let first = if h == '\\' {
            two
        } else {
            seq![h]
        };
        let inner_rest = replaced_char(t, '\\', two);
        lemma_replaced_char_parts(first, inner_rest, '"', quote);
        // the first part, after the second pass
        let none = Seq::<char>::empty();
        assert(replaced_char(none, '"', quote) =~= none);
        if h == '\\' {
            lemma_replaced_char_step(two, '"', quote);
            assert(two.skip(1) =~= seq!['\\']);
            lemma_replaced_char_step(seq!['\\'], '"', quote);
            assert(seq!['\\'].skip(1) =~= none);
            assert(replaced_char(two, '"', quote) =~= seq!['\\', '\\']);
        } else {
            lemma_replaced_char_step(seq![h], '"', quote);
            assert(seq![h].skip(1) =~= none);
            if h == '"' {
                assert(replaced_char(seq![h], '"', quote) =~= seq!['\\', '"']);
            } else {
                assert(replaced_char(seq![h], '"', quote) =~= seq![h]);
            }
        }
        assert(replaced_char(first, '"', quote) == escaped_char(h));
    }
}

/// Escaping a text of two parts escapes each part.
pub proof fn lemma_escaped_parts(a: Seq<char>, b: Seq<char>)
    ensures
        escaped(a + b) == escaped(a) + escaped(b),
    decreases a.len(),
{
    if a.len() == 0 {
        assert(a + b =~= b);
        assert(escaped(a) + escaped(b) =~= escaped(b));
    } else {
        let whole = a + b;
        assert(whole[0] == a[0]);
        assert(whole.skip(1) =~= a.skip(1) + b);
        lemma_escaped_parts(a.skip(1), b);
        assert(escaped_char(a[0]) + (escaped(a.skip(1)) + escaped(b)) =~= (escaped_char(a[0])
            + escaped(a.skip(1))) + escaped(b));
    }
}

/// Escaping one character.
pub proof fn lemma_escaped_one(c: char)
    ensures
        escaped(seq![c]) == escaped_char(c),
{
    let one = seq![c];
    let none = Seq::<char>::empty();
    assert(one.skip(1) =~= none);
    assert(escaped(none) =~= none);
    assert(escaped_char(c) + none =~= escaped_char(c));
}

/// Undoing the escapes of an escaped text gives the text back.
pub proof fn lemma_unescape_escaped(s: Seq<char>)
    ensures
        unescaped(escaped(s)) == s,
    decreases s.len(),
{
    if s.len() == 0 {
    } else {
        let h = s[0];
        let t = s.skip(1);
        lemma_unescape_escaped(t);
        let rest = escaped(t);
        let w = escaped(s);
        assert(w == escaped_char(h) + rest);
        if h == '\\' || h == '"' {
            assert(w[0] == '\\');
            assert(w[1] == h);
            assert(w.skip(2) =~= rest);
            assert(unescaped(w) == seq![w[1]] + unescaped(w.skip(2)));
        } else {
            assert(w[0] == h);
            assert(w.skip(1) =~= rest);
            assert(unescaped(w) == seq![w[0]] + unescaped(w.skip(1)));
        }
        assert(seq![h] + t =~= s);
    }
}

// ---------------------------------------------------------------------------
// Trimming
// ---------------------------------------------------------------------------

/// The leading white space ends at a character that is not white space, or
/// at the end of the text.
pub proof fn lemma_leading_spaces_end(s: Seq<char>)
    ensures
        leading_spaces(s) <= s.len(),
        leading_spaces(s) < s.len() ==> !is_space(s[leading_spaces(s) as int]),
    decreases s.len(),
{
    if s.len() > 0 && is_space(s[0]) {
        lemma_leading_spaces_end(s.drop_first());
        let k = leading_spaces(s.drop_first()) as int;
        if k < s.drop_first().len() {
            assert(s.drop_first()[k] == s[k + 1]);
        }
    }
}

/// The trailing white space begins after a character that is not white
/// space, or at the start of the text.
pub proof fn lemma_trailing_spaces_end(s: Seq<char>)
    ensures
        trailing_spaces(s) <= s.len(),
        trailing_spaces(s) < s.len() ==> !is_space(s[s.len() - trailing_spaces(s) - 1]),
    decreases s.len(),
{
    if s.len() > 0 && is_space(s.last()) {
        lemma_trailing_spaces_end(s.drop_last());
        let k = trailing_spaces(s.drop_last()) as int;
        if k < s.drop_last().len() {
            assert(s.drop_last()[s.drop_last().len() - k - 1] == s[s.len() - k - 2]);
        }
    }
}

/// A text that neither begins nor ends with white space is its own trimmed
/// form.
pub proof fn lemma_trimmed_fixed(s: Seq<char>)
    requires
        s.len() == 0 || (!is_space(s[0]) && !is_space(s.last())),
    ensures
        trimmed(s) == s,
{
    assert(leading_spaces(s) == 0);
    assert(s.skip(0) =~= s);
    assert(trailing_spaces(s) == 0);
    assert(s.take(s.len() as int) =~= s);
}

/// A trimmed text is empty, or it neither begins nor ends with white space.
pub proof fn lemma_trimmed_ends(s: Seq<char>)
    ensures
        trimmed(s).len() == 0 || (!is_space(trimmed(s)[0]) && !is_space(trimmed(s).last())),
{
    lemma_leading_spaces_end(s);
    let u = trimmed_start(s);
    lemma_trailing_spaces_end(u);
    let t = trimmed(s);
    if t.len() > 0 {
        assert(t[0] == u[0]);
        assert(u[0] == s[leading_spaces(s) as int]);
        assert(t.last() == u[u.len() - trailing_spaces(u) - 1]);
    }
}

/// Trimming a trimmed text changes nothing.
pub proof fn lemma_trimmed_twice(s: Seq<char>)
    ensures
        trimmed(trimmed(s)) == trimmed(s),
{
    lemma_trimmed_ends(s);
    lemma_trimmed_fixed(trimmed(s));
}

/// Two texts of one length with white space in the same places begin and end
/// with equally much white space.
pub proof fn lemma_same_spaces(a: Seq<char>, b: Seq<char>)
    requires
        a.len() == b.len(),
        forall|i: int| 0 <= i < a.len() ==> is_space(#[trigger] a[i]) == is_space(b[i]),
    ensures
        leading_spaces(a) == leading_spaces(b),
        trailing_spaces(a) == trailing_spaces(b),
    decreases a.len(),
{
    if a.len() > 0 {
        assert(is_space(a[0]) == is_space(b[0]));
        assert(is_space(a[a.len() - 1]) == is_space(b[a.len() - 1]));
        assert forall|i: int| 0 <= i < a.drop_first().len() implies is_space(
            #[trigger] a.drop_first()[i],
        ) == is_space(b.drop_first()[i]) by {
            assert(a.drop_first()[i] == a[i + 1]);
            assert(is_space(a[i + 1]) == is_space(b[i + 1]));
        }
        assert forall|i: int| 0 <= i < a.drop_last().len() implies is_space(
            #[trigger] a.drop_last()[i],
        ) == is_space(b.drop_last()[i]) by {
            assert(a.drop_last()[i] == a[i]);
            assert(is_space(a[i]) == is_space(b[i]));
        }
        lemma_same_spaces(a.drop_first(), b.drop_first());
        lemma_same_spaces(a.drop_last(), b.drop_last());
    }
}

/// Trimming and turning line breaks into spaces can be done in either order.
pub proof fn lemma_trim_single_line(s: Seq<char>)
    ensures
        trimmed(single_line(s)) == single_line(trimmed(s)),
{
    let f = single_line(s);
    assert forall|i: int| 0 <= i < f.len() implies is_space(#[trigger] f[i]) == is_space(s[i]) by {
        assert(f[i] == unbroken(s[i]));
    }
    lemma_same_spaces(f, s);
    lemma_leading_spaces_end(s);
    let a = leading_spaces(s) as int;
    let fu = f.skip(a);
    let su = s.skip(a);
    assert(fu =~= single_line(su));
    assert forall|i: int| 0 <= i < fu.len() implies is_space(#[trigger] fu[i]) == is_space(
        su[i],
    ) by {
        assert(fu[i] == unbroken(su[i]));
    }
    lemma_same_spaces(fu, su);
    lemma_trailing_spaces_end(su);
    let keep = su.len() - trailing_spaces(su);
    assert(fu.take(keep) =~= single_line(su.take(keep)));
}

/// Escaping changes neither the white space a text begins with nor what
/// follows it.
pub proof fn lemma_escaped_leading(s: Seq<char>)
    ensures
        leading_spaces(escaped(s)) == leading_spaces(s),
        trimmed_start(escaped(s)) == escaped(trimmed_start(s)),
    decreases s.len(),
{
    let e = escaped(s);
    if s.len() == 0 {
        assert(s.skip(0) =~= s);
        assert(e.skip(0) =~= e);
    } else {
        let t = s.skip(1);
        assert(e == escaped_char(s[0]) + escaped(t));
        if is_space(s[0]) {
            lemma_escaped_leading(t);
            assert(escaped_char(s[0]) =~= seq![s[0]]);
            assert(e[0] == s[0]);
            assert(e.drop_first() =~= escaped(t));
            assert(s.drop_first() =~= t);
            let k = leading_spaces(t) as int;
            lemma_leading_spaces_end(t);
            lemma_leading_spaces_end(escaped(t));
            assert(e.skip(k + 1) =~= escaped(t).skip(k));
            assert(s.skip(k + 1) =~= t.skip(k));
        } else {
            assert(!is_space(e[0]));
            assert(s.skip(0) =~= s);
            assert(e.skip(0) =~= e);
        }
    }
}

/// Escaping changes neither the white space a text ends with nor what stands
/// before it.
pub proof fn lemma_escaped_trailing(s: Seq<char>)
    ensures
        trailing_spaces(escaped(s)) == trailing_spaces(s),
        trimmed_end(escaped(s)) == escaped(trimmed_end(s)),
    decreases s.len(),
{
    let e = escaped(s);
    if s.len() == 0 {
        assert(s.take(0) =~= s);
        assert(e.take(0) =~= e);
    } else {
        let init = s.drop_last();
        let last = s.last();
        assert(init + seq![last] =~= s);
        lemma_escaped_parts(init, seq![last]);
        lemma_escaped_one(last);
        assert(e == escaped(init) + escaped_char(last));
        if is_space(last) {
            lemma_escaped_trailing(init);
            assert(escaped_char(last) =~= seq![last]);
            assert(e.last() == last);
            assert(e.drop_last() =~= escaped(init));
            let k = trailing_spaces(init) as int;
            lemma_trailing_spaces_end(init);
            lemma_trailing_spaces_end(escaped(init));
            assert(e.take(e.len() - (k + 1)) =~= escaped(init).take(escaped(init).len() - k));
            assert(s.take(s.len() - (k + 1)) =~= init.take(init.len() - k));
        } else {
            assert(!is_space(e.last()));
            assert(s.take(s.len() as int) =~= s);
            assert(e.take(e.len() as int) =~= e);
        }
    }
}

/// Trimming and escaping can be done in either order.
pub proof fn lemma_trim_escaped(s: Seq<char>)
    ensures
        trimmed(escaped(s)) == escaped(trimmed(s)),
{
    lemma_escaped_leading(s);
    lemma_escaped_trailing(trimmed_start(s));
}

// ---------------------------------------------------------------------------
// Reminders
// ---------------------------------------------------------------------------

/// A text that holds neither a space nor a line break begins a text exactly
/// if it begins that text with its line breaks turned into spaces.
pub proof fn lemma_prefix_single_line(t: Seq<char>, p: Seq<char>)
    requires
        forall|i: int| 0 <= i < p.len() ==> (#[trigger] p[i]) != ' ' && p[i] != '\r' && p[i] != '\n',
    ensures
        has_prefix(single_line(t), p) == has_prefix(t, p),
{
    let f = single_line(t);
    if p.len() <= t.len() {
        let n = p.len() as int;
        if t.subrange(0, n) == p {
            assert forall|i: int| 0 <= i < n implies f.subrange(0, n)[i] == p[i] by {
                assert(t.subrange(0, n)[i] == p[i]);
                assert(f[i] == unbroken(t[i]));
            }
            assert(f.subrange(0, n) =~= p);
        }
        if f.subrange(0, n) == p {
            assert forall|i: int| 0 <= i < n implies t.subrange(0, n)[i] == p[i] by {
                assert(f.subrange(0, n)[i] == p[i]);
                assert(f[i] == unbroken(t[i]));
            }
            assert(t.subrange(0, n) =~= p);
        }
    }
}

/// Whether a text reads as a reminder does not depend on its line breaks
/// being turned into spaces, nor on its being trimmed.
pub proof fn lemma_reminder_single_line(task: Seq<char>)
    ensures
        is_reminder(trimmed(single_line(task))) == is_reminder(task),
{
    reveal_strlit("提醒");
    reveal_strlit("到点");
    reveal_strlit("remind");
    let t = trimmed(task);
    let m = trimmed(single_line(task));
    lemma_trim_single_line(task);
    lemma_trimmed_twice(single_line(task));
    assert(trimmed(m) == single_line(t));
    lemma_prefix_single_line(t, "提醒"@);
    lemma_prefix_single_line(t, "到点"@);
    let low = lowered_ascii(t);
    assert(lowered_ascii(single_line(t)) =~= single_line(low)) by {
        assert forall|i: int| 0 <= i < t.len() implies lowered_ascii(single_line(t))[i]
            == single_line(low)[i] by {
            assert(single_line(t)[i] == unbroken(t[i]));
            assert(low[i] == ascii_lower(t[i]));
        }
    }
    lemma_prefix_single_line(low, "remind"@);
}

// ---------------------------------------------------------------------------
// The law
// ---------------------------------------------------------------------------

/// The argument of a task's command is the escaped form of the task on one
/// line, trimmed.
pub proof fn lemma_quoted_argument_escapes(task: Seq<char>)
    ensures
        quoted_argument(task) == escaped(trimmed(single_line(task))),
{
    lemma_two_passes_escape(single_line(task));
    lemma_trim_escaped(single_line(task));
}

/// The task text read back from a run command is the task on one line,
/// trimmed.
pub proof fn lemma_run_message_of_run_command(task: Seq<char>)
    ensures
        run_message(run_task_command(task)) == Some(trimmed(single_line(task))),
{
    reveal_strlit("goldagent run \"");
    reveal_strlit("\"");
    let opening = "goldagent run \""@;
    let closing = "\""@;
    let q = quoted_argument(task);
    let c = run_task_command(task);
    assert(c == opening + q + closing);
    assert(c[0] == opening[0]);
    assert(c.last() == closing[0]);
    lemma_trimmed_fixed(c);
    assert(c.subrange(0, opening.len() as int) =~= opening);
    let quoted = c.skip(opening.len() as int);
    assert(quoted =~= q + closing);
    assert(quoted.subrange(quoted.len() - closing.len(), quoted.len() as int) =~= closing);
    assert(quoted.take(quoted.len() - closing.len()) =~= q);
    lemma_quoted_argument_escapes(task);
    lemma_unescape_escaped(trimmed(single_line(task)));
}

/// A run command stored for a task by the older convention runs as exactly
/// the command that is stored for that task today: a reminder command if the
/// task reads as a reminder, and the run command itself if not.
pub proof fn lemma_stored_run_command_runs_as_scheduled(task: Seq<char>)
    ensures
        effective_command(run_task_command(task)) == scheduled_task_command(task),
{
    let m = trimmed(single_line(task));
    lemma_run_message_of_run_command(task);
    lemma_reminder_single_line(task);
    if is_reminder(task) {
        // the reminder command for the text read back is the one for the task
        lemma_quoted_argument_escapes(task);
        lemma_quoted_argument_escapes(m);
        lemma_trim_single_line(task);
        assert(single_line(m) =~= m) by {
            let t = trimmed(task);
            assert(m == single_line(t));
            assert forall|i: int| 0 <= i < m.len() implies single_line(m)[i] == m[i] by {
                assert(m[i] == unbroken(t[i]));
            }
        }
        lemma_trimmed_twice(single_line(task));
        assert(quoted_argument(m) == quoted_argument(task));
    }
}

} // verus!

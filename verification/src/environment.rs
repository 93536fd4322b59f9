//! Environment assignments and the rule by which later layers override earlier ones.

use crate::keyed::{distinct_keys, key_index, lemma_key_index, lemma_key_index_is, sets_key};
use crate::text::{chars_of, lemma_prefix_before, occurrences, prefix_before, trim, trim_range};
use vstd::prelude::*;

verus! {

/// A line of custom environment text that starts with this character is a comment.
pub const COMMENT_MARK: char = '#';

/// The character between the key and the value of an assignment.
pub const SEPARATOR: char = '=';

/// The character that ends a line.
pub const LINE_END: char = '\n';

/// One assignment as contracts see it: the key, then the value.
pub type Assignment = (Seq<char>, Seq<char>);

/// One environment assignment.
#[derive(Clone, Debug, PartialEq, Eq)]
pub struct EnvVar {
    pub key: String,
    pub value: String,
}

impl View for EnvVar {
    type V = Assignment;

    open spec fn view(&self) -> Assignment {
        (self.key@, self.value@)
    }
}

/// The views of the assignments of `v`, in order.
pub open spec fn assignments(v: Seq<EnvVar>) -> Seq<Assignment> {
    v.map_values(|e: EnvVar| e@)
}

/// The value that `env` gives `key` when its assignments are applied in order,
/// so that a later one replaces an earlier one.
pub open spec fn lookup(env: Seq<Assignment>, key: Seq<char>) -> Option<Seq<char>>
    decreases env.len(),
{
    if env.len() == 0 {
        None
    } else if env.last().0 == key {
        Some(env.last().1)
    } else {
        lookup(env.drop_last(), key)
    }
}

/// `env` after one more assignment: the new value takes the place of the old one
/// where the key is set already, and goes to the end where it is not.
pub open spec fn assign(env: Seq<Assignment>, a: Assignment) -> Seq<Assignment> {
    let i = key_index(env, a.0);
    if i < env.len() {
        env.update(i as int, a)
    } else {
        env.push(a)
    }
}

/// `base` with the layer `over` put on top of it, one assignment after the other.
pub open spec fn overlay(base: Seq<Assignment>, over: Seq<Assignment>) -> Seq<Assignment>
    decreases over.len(),
{
    if over.len() == 0 {
        base
    } else {
        assign(overlay(base, over.drop_last()), over.last())
    }
}

/// Where no key is set twice, `lookup` gives the value of the one assignment.
pub proof fn lemma_lookup_distinct(env: Seq<Assignment>, i: int)
    requires
        distinct_keys(env),
        0 <= i < env.len(),
    ensures
        lookup(env, env[i].0) == Some(env[i].1),
    decreases env.len(),
{
    if i < env.len() - 1 {
        let front = env.drop_last();
        assert(env.last().0 != env[i].0);
        assert(front[i] == env[i]);
        assert forall|a: int, b: int| 0 <= a < b < front.len() implies (#[trigger] front[a]).0 != (
        #[trigger] front[b]).0 by {
            assert(front[a] == env[a] && front[b] == env[b]);
        }
        lemma_lookup_distinct(front, i);
    }
}

/// A key that no assignment sets has no value.
pub proof fn lemma_lookup_unset(env: Seq<Assignment>, key: Seq<char>)
    ensures
        lookup(env, key) is Some <==> sets_key(env, key),
    decreases env.len(),
{
    if env.len() > 0 {
        let front = env.drop_last();
        lemma_lookup_unset(front, key);
        if env.last().0 == key {
            assert(env[env.len() - 1].0 == key);
        } else {
            if sets_key(env, key) {
                let i = choose|i: int| 0 <= i < env.len() && (#[trigger] env[i]).0 == key;
                assert(front[i] == env[i]);
            }
            if sets_key(front, key) {
                let i = choose|i: int| 0 <= i < front.len() && (#[trigger] front[i]).0 == key;
                assert(front[i] == env[i]);
            }
        }
    }
}

/// One assignment on top of an environment without repeated keys: the
/// environment still has none, the assigned key has the new value, and every
/// other key has the value it had.
pub proof fn lemma_assign(env: Seq<Assignment>, a: Assignment, key: Seq<char>)
    requires
        distinct_keys(env),
    ensures
        distinct_keys(assign(env, a)),
        lookup(assign(env, a), key) == if key == a.0 {
            Some(a.1)
        } else {
            lookup(env, key)
        },
{
    let i = key_index(env, a.0);
    let next = assign(env, a);
    lemma_key_index(env, a.0);
    if i < env.len() {
        assert forall|x: int, y: int| 0 <= x < y < next.len() implies (#[trigger] next[x]).0 != (
        #[trigger] next[y]).0 by {
            assert(next[x].0 == env[x].0 && next[y].0 == env[y].0);
        }
        if key == a.0 {
            lemma_lookup_distinct(next, i as int);
        } else {
            lemma_lookup_unset(env, key);
            lemma_lookup_unset(next, key);
            if sets_key(env, key) {
                let j = choose|j: int| 0 <= j < env.len() && (#[trigger] env[j]).0 == key;
                assert(next[j] == env[j]);
                lemma_lookup_distinct(env, j);
                lemma_lookup_distinct(next, j);
            } else if sets_key(next, key) {
                let j = choose|j: int| 0 <= j < next.len() && (#[trigger] next[j]).0 == key;
                assert(env[j].0 == key);
            }
        }
    } else {
        assert(next.drop_last() =~= env);
        assert forall|x: int, y: int| 0 <= x < y < next.len() implies (#[trigger] next[x]).0 != (
        #[trigger] next[y]).0 by {
            if y < env.len() {
                assert(next[x] == env[x] && next[y] == env[y]);
            } else {
                assert(next[x] == env[x]);
                assert(env[x].0 != a.0);
            }
        }
    }
}

/// Later layers override earlier ones: on top of a base without repeated keys,
/// a key that the upper layer sets has the value that the upper layer gives it
/// last, and every other key keeps the value of the base. No key is set twice
/// in the result.
pub proof fn law_upper_layer_overrides(base: Seq<Assignment>, over: Seq<Assignment>, key: Seq<char>)
    requires
        distinct_keys(base),
    ensures
        distinct_keys(overlay(base, over)),
        lookup(overlay(base, over), key) == match lookup(over, key) {
            Some(v) => Some(v),
            None => lookup(base, key),
        },
    decreases over.len(),
{
    if over.len() > 0 {
        law_upper_layer_overrides(base, over.drop_last(), key);
        lemma_assign(overlay(base, over.drop_last()), over.last(), key);
    }
}

/// A layer whose keys are new, and differ from each other, goes behind the
/// base as it is.
pub proof fn lemma_overlay_fresh(base: Seq<Assignment>, over: Seq<Assignment>)
    requires
        distinct_keys(base + over),
    ensures
        overlay(base, over) == base + over,
    decreases over.len(),
{
    if over.len() == 0 {
        assert(base + over =~= base);
    } else {
        let front = over.drop_last();
        let all = base + over;
        assert forall|i: int, j: int| 0 <= i < j < (base + front).len() implies (#[trigger] (base
            + front)[i]).0 != (#[trigger] (base + front)[j]).0 by {
            assert((base + front)[i] == all[i] && (base + front)[j] == all[j]);
        }
        lemma_overlay_fresh(base, front);
        let key = over.last().0;
        assert forall|i: int| 0 <= i < (base + front).len() implies (#[trigger] (base + front)[i]).0
            != key by {
            assert((base + front)[i] == all[i]);
            assert(all[all.len() - 1] == over.last());
        }
        lemma_key_index_is(base + front, key, (base + front).len() as int);
        assert((base + front).push(over.last()) =~= base + over);
    }
}

/// What one line of custom environment text assigns. A line that is blank, that
/// starts with the comment mark, or that does not hold the separator exactly once
/// assigns nothing; any other assigns the trimmed text after the separator to the
/// trimmed text before it.
pub open spec fn parse_line(line: Seq<char>) -> Option<Assignment> {
    let t = trim(line);
    if t.len() == 0 || t[0] == COMMENT_MARK || occurrences(t, SEPARATOR) != 1 {
        None
    } else {
        let i = prefix_before(t, SEPARATOR);
        Some((trim(t.take(i as int)), trim(t.skip(i + 1int))))
    }
}

/// The assignments of a custom environment text, line by line and in order.
pub open spec fn custom_layer(text: Seq<char>) -> Seq<Assignment>
    decreases text.len(),
{
    let n = prefix_before(text, LINE_END);
    let head = match parse_line(text.take(n as int)) {
        Some(a) => seq![a],
        None => Seq::empty(),
    };
    if n < text.len() {
        head + custom_layer(text.skip(n + 1int))
    } else {
        head
    }
}

/// Each line of a custom environment text counts by itself: the assignments of
/// a text are what its first line assigns, if anything, followed by the
/// assignments of the text behind that line.
pub proof fn law_lines_count_one_by_one(line: Seq<char>, rest: Seq<char>)
    requires
        forall|i: int| 0 <= i < line.len() ==> #[trigger] line[i] != LINE_END,
    ensures
        custom_layer(line + seq![LINE_END] + rest) == match parse_line(line) {
            Some(a) => seq![a] + custom_layer(rest),
            None => custom_layer(rest),
        },
        custom_layer(line) == match parse_line(line) {
            Some(a) => seq![a],
            None => Seq::empty(),
        },
{
    let text = line + seq![LINE_END] + rest;
    assert forall|i: int| 0 <= i < line.len() implies #[trigger] text[i] != LINE_END by {
        assert(text[i] == line[i]);
    }
    assert(text[line.len() as int] == LINE_END);
    lemma_prefix_before(text, LINE_END, line.len() as int);
    assert(text.take(line.len() as int) =~= line);
    assert(text.skip(line.len() + 1int) =~= rest);
    lemma_prefix_before(line, LINE_END, line.len() as int);
    assert(line.take(line.len() as int) =~= line);
    assert(Seq::<Assignment>::empty() + custom_layer(rest) =~= custom_layer(rest));
}

/// A line that is blank, that starts with the comment mark, or that holds no
/// separator assigns nothing, wherever it stands: the text has the assignments
/// that it has without the line.
pub proof fn law_ignored_line_assigns_nothing(line: Seq<char>, rest: Seq<char>)
    requires
        forall|i: int| 0 <= i < line.len() ==> #[trigger] line[i] != LINE_END,
        trim(line).len() == 0 || trim(line)[0] == COMMENT_MARK || occurrences(
            trim(line),
            SEPARATOR,
        ) == 0,
    ensures
        parse_line(line) is None,
        custom_layer(line + seq![LINE_END] + rest) == custom_layer(rest),
        custom_layer(line) == Seq::<Assignment>::empty(),
{
    law_lines_count_one_by_one(line, rest);
}

impl EnvVar {
    /// The assignment of `value` to `key`.
    pub fn new(key: &str, value: &str) -> (var: EnvVar)
        ensures
            var@ == (key@, value@),
    {
        EnvVar { key: key.to_owned(), value: value.to_owned() }
    }

    /// A copy of this assignment.
    pub fn duplicate(&self) -> (var: EnvVar)
        ensures
            var@ == self@,
    {
        EnvVar { key: self.key.clone(), value: self.value.clone() }
    }
}

/// Puts one assignment on top of `env`.
pub fn set_var(env: &mut Vec<EnvVar>, var: EnvVar)
    ensures
        assignments(final(env)@) == assign(assignments(old(env)@), var@),
{
    let ghost before = assignments(env@);
    let mut i: usize = 0;
    while i < env.len() && !(env[i].key == var.key)
        invariant
            i <= env.len(),
            env@ == old(env)@,
            before == assignments(env@),
            forall|j: int| 0 <= j < i ==> (#[trigger] before[j]).0 != var@.0,
        decreases env.len() - i,
    {
        i += 1;
    }
    proof {
        if i < env.len() {
            assert(before[i as int].0 == var@.0);
        }
        lemma_key_index_is(before, var@.0, i as int);
    }
    if i < env.len() {
        env.set(i, var);
        proof {
            assert(assignments(env@) =~= before.update(i as int, var@));
        }
    } else {
        env.push(var);
        proof {
            assert(assignments(env@) =~= before.push(var@));
        }
    }
}

/// Puts the layer `over` on top of `base`: later assignments override earlier
/// ones with the same key, and no key is set twice in the result.
pub fn layer(base: Vec<EnvVar>, over: &Vec<EnvVar>) -> (out: Vec<EnvVar>)
    ensures
        assignments(out@) == overlay(assignments(base@), assignments(over@)),
{
    let mut out = base;
    let mut i: usize = 0;
    while i < over.len()
        invariant
            i <= over.len(),
            assignments(out@) == overlay(assignments(base@), assignments(over@).take(i as int)),
        decreases over.len() - i,
    {
        let var = over[i].duplicate();
        proof {
            let upto = assignments(over@).take(i + 1);
            assert(upto.drop_last() =~= assignments(over@).take(i as int));
            assert(upto.last() == var@);
        }
        set_var(&mut out, var);
        i += 1;
    }
    proof {
        assert(assignments(over@).take(i as int) =~= assignments(over@));
    }
    out
}

/// What the line `[from, to)` of `text` assigns, if anything.
fn parse_range(text: &str, chars: &Vec<char>, from: usize, to: usize) -> (r: Option<EnvVar>)
    requires
        chars@ == text@,
        from <= to <= chars.len(),
    ensures
        match r {
            Some(var) => parse_line(text@.subrange(from as int, to as int)) == Some(var@),
            None => parse_line(text@.subrange(from as int, to as int)) is None,
        },
{
    let (a, b) = trim_range(chars, from, to);
    let ghost t = chars@.subrange(a as int, b as int);
    if a == b {
        return None;
    }
    assert(t[0] == chars@[a as int]);
    if chars[a] == COMMENT_MARK {
        return None;
    }
    let mut count: usize = 0;
    let mut first: usize = b;
    let mut i: usize = a;
    proof {
        assert(chars@.subrange(a as int, a as int) =~= Seq::<char>::empty());
    }
    while i < b
        invariant
            a <= i <= b <= chars.len(),
            count <= i - a,
            count as nat == occurrences(chars@.subrange(a as int, i as int), SEPARATOR),
            count == 0 <==> first == b,
            count > 0 ==> a <= first < i && chars@[first as int] == SEPARATOR,
            forall|j: int| a <= j < i && j < first ==> #[trigger] chars@[j] != SEPARATOR,
        decreases b - i,
    {
        proof {
            let upto = chars@.subrange(a as int, i + 1);
            assert(upto.drop_last() =~= chars@.subrange(a as int, i as int));
            assert(upto.last() == chars@[i as int]);
        }
        if chars[i] == SEPARATOR {
            if count == 0 {
                first = i;
            }
            count += 1;
        }
        i += 1;
    }
    if count != 1 {
        return None;
    }
    let (ka, kb) = trim_range(chars, a, first);
    let (va, vb) = trim_range(chars, first + 1, b);
    let key = text.substring_char(ka, kb).to_owned();
    let value = text.substring_char(va, vb).to_owned();
    proof {
        assert forall|j: int| 0 <= j < first - a implies #[trigger] t[j] != SEPARATOR by {
            assert(t[j] == chars@[a + j]);
        }
        assert(t[first - a] == chars@[first as int]);
        lemma_prefix_before(t, SEPARATOR, first - a);
        assert(t.take(first - a) =~= chars@.subrange(a as int, first as int));
        assert(t.skip(first - a + 1) =~= chars@.subrange(first + 1, b as int));
    }
    Some(EnvVar { key, value })
}

/// What one line of custom environment text assigns, if anything. No line is an
/// error: one that is blank, a comment or malformed assigns nothing.
pub fn parse_env_line(line: &str) -> (r: Option<EnvVar>)
    ensures
        match r {
            Some(var) => parse_line(line@) == Some(var@),
            None => parse_line(line@) is None,
        },
{
    let chars = chars_of(line);
    proof {
        assert(line@.subrange(0, line@.len() as int) =~= line@);
    }
    parse_range(line, &chars, 0, chars.len())
}

/// The assignments of a custom environment text, line by line and in order.
pub fn parse_custom_env(text: &str) -> (out: Vec<EnvVar>)
    ensures
        assignments(out@) == custom_layer(text@),
{
    let chars = chars_of(text);
    let n = chars.len();
    let mut out: Vec<EnvVar> = Vec::new();
    let mut pos: usize = 0;
    proof {
        assert(text@.skip(0) =~= text@);
        assert(assignments(out@) + custom_layer(text@) =~= custom_layer(text@));
    }
    loop
        invariant_except_break
            pos <= n,
            custom_layer(text@) == assignments(out@) + custom_layer(text@.skip(pos as int)),
        invariant
            n == chars.len(),
            chars@ == text@,
        ensures
            assignments(out@) == custom_layer(text@),
        decreases n - pos,
    {
        let ghost rest = text@.skip(pos as int);
        let ghost before = assignments(out@);
        let mut end: usize = pos;
        while end < n && chars[end] != LINE_END
            invariant
                pos <= end <= n,
                n == chars.len(),
                forall|j: int| pos <= j < end ==> #[trigger] chars@[j] != LINE_END,
            decreases n - end,
        {
            end += 1;
        }
        proof {
            assert forall|j: int| 0 <= j < end - pos implies #[trigger] rest[j] != LINE_END by {
                assert(rest[j] == chars@[pos + j]);
            }
            if end < n {
                assert(rest[end - pos] == chars@[end as int]);
            }
            lemma_prefix_before(rest, LINE_END, end - pos);
            assert(rest.take(end - pos) =~= text@.subrange(pos as int, end as int));
        }
        match parse_range(text, &chars, pos, end) {
            Some(var) => {
                proof {
                    assert(assignments(out@.push(var)) =~= before + seq![var@]);
                }
                out.push(var);
            },
            None => {
                proof {
                    assert(before + Seq::<Assignment>::empty() =~= before);
                }
            },
        }
        if end >= n {
            break;
        }
        proof {
            assert(rest.skip(end - pos + 1) =~= text@.skip(end + 1));
            let head = assignments(out@).skip(before.len() as int);
            assert(assignments(out@) =~= before + head);
            assert(before + (head + custom_layer(text@.skip(end + 1))) =~= assignments(out@)
                + custom_layer(text@.skip(end + 1)));
        }
        pos = end + 1;
    }
    out
}

} // verus!

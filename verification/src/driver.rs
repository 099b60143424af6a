//! The driver: the entry point of the adapter, and the rewriting of generic `?`
//! placeholders into the engine's positional bind markers `:1`, `:2`, ...

use vstd::prelude::*;
use vstd::string::StrSliceExecFns;
use crate::text::{decimal_text, is_digit, lemma_decimal_text_digits, push_decimal};

verus! {

/// Whether position `i` of `s` holds a placeholder: a `?` that no `\` stands
/// directly in front of.
pub open spec fn is_placeholder(s: Seq<char>, i: int) -> bool {
    0 <= i < s.len() && s[i] == '?' && (i == 0 || s[i - 1] != '\\')
}

/// The number of placeholders among the first `n` characters of `s`.
pub open spec fn placeholder_count(s: Seq<char>, n: int) -> nat
    decreases n,
{
    if n <= 0 {
        0
    } else if is_placeholder(s, n - 1) {
        placeholder_count(s, n - 1) + 1
    } else {
        placeholder_count(s, n - 1)
    }
}

/// The bind marker of the `k`-th placeholder: a colon and the decimal text of `k`.
pub open spec fn marker(k: nat) -> Seq<char> {
    seq![':'] + decimal_text(k)
}

/// What the first `n` characters of `s` are rewritten to: each placeholder
/// becomes the marker of its ordinal, every other character stays.
pub open spec fn exchange_prefix(s: Seq<char>, n: int) -> Seq<char>
    decreases n,
{
    if n <= 0 {
        Seq::empty()
    } else if is_placeholder(s, n - 1) {
        exchange_prefix(s, n - 1) + marker(placeholder_count(s, n))
    } else {
        exchange_prefix(s, n - 1).push(s[n - 1])
    }
}

/// The statement `s` with its placeholders rewritten.
pub open spec fn exchanged(s: Seq<char>) -> Seq<char> {
    exchange_prefix(s, s.len() as int)
}

/// A text without placeholders is rewritten to itself, prefix by prefix.
proof fn lemma_prefix_without_placeholders(s: Seq<char>, n: int)
    requires
        0 <= n <= s.len(),
        placeholder_count(s, n) == 0,
    ensures
        exchange_prefix(s, n) == s.subrange(0, n),
    decreases n,
{
    if n > 0 {
        lemma_prefix_without_placeholders(s, n - 1);
        assert(s.subrange(0, n) =~= s.subrange(0, n - 1).push(s[n - 1]));
    } else {
        assert(s.subrange(0, n) =~= Seq::<char>::empty());
    }
}

/// Rewriting is the identity on a statement that holds no placeholder: every `?`
/// of it, if any, is escaped and stays.
pub proof fn lemma_exchange_without_placeholders(s: Seq<char>)
    requires
        placeholder_count(s, s.len() as int) == 0,
    ensures
        exchanged(s) == s,
{
    lemma_prefix_without_placeholders(s, s.len() as int);
    assert(s.subrange(0, s.len() as int) =~= s);
}

/// The ordinals count up: there are never more placeholders than characters, and
/// a longer prefix holds at least as many as a shorter one.
pub proof fn lemma_placeholder_count_monotonic(s: Seq<char>, m: int, n: int)
    requires
        0 <= m <= n,
    ensures
        placeholder_count(s, m) <= placeholder_count(s, n),
        placeholder_count(s, n) <= n,
    decreases n,
{
    if n > 0 {
        if m < n {
            lemma_placeholder_count_monotonic(s, m, n - 1);
        } else {
            lemma_placeholder_count_monotonic(s, n - 1, n - 1);
        }
    }
}

/// What is written for a shorter prefix stays in front of what is written for a
/// longer one: the pieces come out in the order of the input.
pub proof fn lemma_exchange_prefix_grows(s: Seq<char>, m: int, n: int)
    requires
        0 <= m <= n,
    ensures
        exchange_prefix(s, m).is_prefix_of(exchange_prefix(s, n)),
    decreases n - m,
{
    if m < n {
        lemma_exchange_prefix_grows(s, m, n - 1);
        assert(exchange_prefix(s, n - 1).is_prefix_of(exchange_prefix(s, n)));
    }
}

/// The layout of the rewritten statement. The character at position `i` of the
/// input is answered at the offset that the rewriting of the `i` characters before
/// it fills: a placeholder by the marker of its ordinal, which is one more than the
/// number of placeholders before it, and any other character, an escaped `?`
/// among them, by itself.
pub proof fn lemma_exchange_layout(s: Seq<char>, i: int)
    requires
        0 <= i < s.len(),
    ensures
        ({
            let out = exchanged(s);
            let at = exchange_prefix(s, i).len() as int;
            let k = (placeholder_count(s, i) + 1) as nat;
            if is_placeholder(s, i) {
                &&& at + marker(k).len() <= out.len()
                &&& out.subrange(at, at + marker(k).len() as int) == marker(k)
                &&& 1 <= k <= placeholder_count(s, s.len() as int)
            } else {
                &&& at < out.len()
                &&& out[at] == s[i]
            }
        }),
{
    let out = exchanged(s);
    let before = exchange_prefix(s, i);
    let upto = exchange_prefix(s, i + 1);
    lemma_exchange_prefix_grows(s, i + 1, s.len() as int);
    lemma_placeholder_count_monotonic(s, i + 1, s.len() as int);
    assert(upto =~= out.subrange(0, upto.len() as int));
    assert forall|j: int| 0 <= j < upto.len() implies out[j] == upto[j] by {
        assert(out.subrange(0, upto.len() as int)[j] == out[j]);
    }
    if is_placeholder(s, i) {
        let k = (placeholder_count(s, i) + 1) as nat;
        assert(upto == before + marker(k));
        let piece = out.subrange(before.len() as int, before.len() as int + marker(k).len() as int);
        assert forall|j: int| 0 <= j < marker(k).len() implies piece[j] == marker(k)[j] by {
            assert(upto[before.len() + j] == marker(k)[j]);
        }
        assert(piece =~= marker(k));
    } else {
        assert(upto == before.push(s[i]));
        assert(upto[before.len() as int] == s[i]);
    }
}

/// A rewritten prefix holds no placeholder, and it ends in the escape character
/// only where the input prefix does.
proof fn lemma_prefix_output_has_no_placeholder(s: Seq<char>, n: int)
    requires
        0 <= n <= s.len(),
    ensures
        placeholder_count(exchange_prefix(s, n), exchange_prefix(s, n).len() as int) == 0,
        n > 0 && !is_placeholder(s, n - 1) ==> exchange_prefix(s, n).len() > 0
            && exchange_prefix(s, n).last() == s[n - 1],
        n > 0 && is_placeholder(s, n - 1) ==> exchange_prefix(s, n).len() > 0 && is_digit(
            exchange_prefix(s, n).last(),
        ),
    decreases n,
{
    if n > 0 {
        let before = exchange_prefix(s, n - 1);
        let out = exchange_prefix(s, n);
        lemma_prefix_output_has_no_placeholder(s, n - 1);
        if is_placeholder(s, n - 1) {
            let k = placeholder_count(s, n);
            lemma_decimal_text_digits(k);
            assert(out == before + marker(k));
            assert forall|j: int| 0 <= j < out.len() implies !is_placeholder(out, j) by {
                if j < before.len() {
                    lemma_position_kept(before, out, j);
                } else {
                    assert(out[j] == marker(k)[j - before.len()]);
                }
            }
            lemma_count_zero(out, out.len() as int);
        } else {
            assert(out == before.push(s[n - 1]));
            assert forall|j: int| 0 <= j < out.len() implies !is_placeholder(out, j) by {
                if j < before.len() {
                    lemma_position_kept(before, out, j);
                } else if s[n - 1] == '?' {
                    assert(n - 1 > 0 && s[n - 2] == '\\');
                    assert(!is_placeholder(s, n - 2));
                    assert(before.last() == '\\');
                }
            }
            lemma_count_zero(out, out.len() as int);
        }
    }
}

/// A position of a text with no placeholder holds none in a longer text either.
proof fn lemma_position_kept(before: Seq<char>, out: Seq<char>, j: int)
    requires
        before.is_prefix_of(out),
        0 <= j < before.len(),
        placeholder_count(before, before.len() as int) == 0,
    ensures
        !is_placeholder(out, j),
{
    lemma_no_placeholder_at(before, before.len() as int, j);
    assert(out[j] == before[j]);
    if j > 0 {
        assert(out[j - 1] == before[j - 1]);
    }
}

/// Where the count is zero, no position is a placeholder.
proof fn lemma_no_placeholder_at(s: Seq<char>, n: int, j: int)
    requires
        0 <= j < n,
        placeholder_count(s, n) == 0,
    ensures
        !is_placeholder(s, j),
    decreases n,
{
    if j < n - 1 {
        lemma_no_placeholder_at(s, n - 1, j);
    }
}

/// Where no position is a placeholder, the count is zero.
proof fn lemma_count_zero(s: Seq<char>, n: int)
    requires
        n <= s.len(),
        forall|j: int| 0 <= j < s.len() ==> !is_placeholder(s, j),
    ensures
        placeholder_count(s, n) == 0,
    decreases n,
{
    if n > 0 {
        lemma_count_zero(s, n - 1);
    }
}

/// Rewriting is idempotent: what it returns holds no placeholder, so rewriting it
/// once more changes nothing.
pub proof fn lemma_exchange_idempotent(s: Seq<char>)
    ensures
        placeholder_count(exchanged(s), exchanged(s).len() as int) == 0,
        exchanged(exchanged(s)) == exchanged(s),
{
    lemma_prefix_output_has_no_placeholder(s, s.len() as int);
    lemma_exchange_without_placeholders(exchanged(s));
}

/// A statement without a question mark is rewritten to itself. The three
/// statements that control a transaction are of this kind.
pub proof fn lemma_exchange_without_question_mark(s: Seq<char>)
    requires
        forall|i: int| 0 <= i < s.len() ==> #[trigger] s[i] != '?',
    ensures
        exchanged(s) == s,
{
    lemma_count_zero(s, s.len() as int);
    lemma_exchange_without_placeholders(s);
}

/// The driver of the adapter. It holds no state.
#[derive(Debug)]
pub struct OracleDriver {}

impl OracleDriver {
    /// The name under which the driver is registered.
    pub fn name(&self) -> (r: &'static str)
        ensures
            r@ == "oracle"@,
    {
        "oracle"
    }

    /// Rewrites the generic placeholders of `sql` into positional bind markers.
    pub fn exchange(&self, sql: &str) -> (r: String)
        ensures
            r@ == exchanged(sql@),
    {
        let n: usize = sql.unicode_len();
        let mut out = String::new();
        let mut count: usize = 0;
        let mut escaped = false;
        for c in it: sql.chars()
            invariant
                it.seq() == sql@,
                n == sql@.len(),
                count == placeholder_count(sql@, it.index() as int),
                count <= it.index(),
                out@ == exchange_prefix(sql@, it.index() as int),
                escaped <==> (it.index() > 0 && sql@[it.index() - 1] == '\\'),
        {
            if c == '?' && !escaped {
                count = count + 1;
                out.push(':');
                push_decimal(&mut out, count);
                assert(out@ =~= exchange_prefix(sql@, it.index() as int) + marker(count as nat));
            } else {
                out.push(c);
            }
            escaped = c == '\\';
        }
        out
    }

    /// Rewrites the generic placeholders of `sql` into positional bind markers.
    pub fn pub_exchange(&self, sql: &str) -> (r: String)
        ensures
            r@ == exchanged(sql@),
    {
        self.exchange(sql)
    }
}

} // verus!

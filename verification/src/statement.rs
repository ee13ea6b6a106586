//! The statement buffer: an append-only sequence of text fragments and bound
//! values.  Rendering the buffer assigns each bound value, in order, a
//! positional placeholder `$1`, `$2`, ... in the emitted text.

use vstd::prelude::*;
use vstd::string::StringExecFns;

use crate::general::{sql_view, SqlValue, SqlView};

verus! {

/// One fragment of a statement under construction: literal text, or one bound value.
#[derive(Debug)]
pub enum Part {
    Text(String),
    Bind(SqlValue),
}

/// Mathematical view of a `Part`.
pub enum PartView {
    Text(Seq<char>),
    Bind(SqlView),
}

pub open spec fn part_view(p: Part) -> PartView {
    match p {
        Part::Text(s) => PartView::Text(s@),
        Part::Bind(v) => PartView::Bind(sql_view(v)),
    }
}

impl View for Part {
    type V = PartView;

    open spec fn view(&self) -> PartView {
        part_view(*self)
    }
}

/// The decimal digit characters.
pub open spec fn dec_digit(d: nat) -> char {
    if d == 0 {
        '0'
    } else if d == 1 {
        '1'
    } else if d == 2 {
        '2'
    } else if d == 3 {
        '3'
    } else if d == 4 {
        '4'
    } else if d == 5 {
        '5'
    } else if d == 6 {
        '6'
    } else if d == 7 {
        '7'
    } else if d == 8 {
        '8'
    } else {
        '9'
    }
}

/// The decimal rendering of `n`, most significant digit first, no leading zeros.
pub open spec fn dec_str(n: nat) -> Seq<char>
    decreases n,
{
    if n < 10 {
        seq![dec_digit(n)]
    } else {
        dec_str(n / 10).push(dec_digit(n % 10))
    }
}

/// The text of the `k`-th positional placeholder: a dollar sign followed by `k` in decimal.
pub open spec fn placeholder(k: nat) -> Seq<char> {
    seq!['$'] + dec_str(k)
}

/// The bound values of a part sequence, in order of appearance.
pub open spec fn binds_of(parts: Seq<PartView>) -> Seq<SqlView>
    decreases parts.len(),
{
    if parts.len() == 0 {
        Seq::empty()
    } else {
        binds_of(parts.drop_last()) + (match parts.last() {
            PartView::Bind(v) => seq![v],
            PartView::Text(_) => Seq::empty(),
        })
    }
}

/// The text one part contributes when its bound value, if any, gets ordinal `k`.
pub open spec fn seg_text(p: PartView, k: nat) -> Seq<char> {
    match p {
        PartView::Text(t) => t,
        PartView::Bind(_) => placeholder(k),
    }
}

/// The rendered text of a part sequence whose first bound value gets ordinal `k`.
pub open spec fn text_from(parts: Seq<PartView>, k: nat) -> Seq<char>
    decreases parts.len(),
{
    if parts.len() == 0 {
        Seq::empty()
    } else {
        text_from(parts.drop_last(), k) + seg_text(
            parts.last(),
            (k + binds_of(parts.drop_last()).len()) as nat,
        )
    }
}

/// The rendered text of a whole statement: ordinals start at 1.
pub open spec fn text_of(parts: Seq<PartView>) -> Seq<char> {
    text_from(parts, 1)
}

/// The number of bound values in one part.
pub open spec fn part_binds(p: PartView) -> nat {
    match p {
        PartView::Text(_) => 0,
        PartView::Bind(_) => 1,
    }
}

/// The rendered text with each bound value's literal rendering, under `lit`,
/// standing where its placeholder would stand.
pub open spec fn literal_text(parts: Seq<PartView>, lit: spec_fn(SqlView) -> Seq<char>) -> Seq<
    char,
>
    decreases parts.len(),
{
    if parts.len() == 0 {
        Seq::empty()
    } else {
        literal_text(parts.drop_last(), lit) + (match parts.last() {
            PartView::Text(t) => t,
            PartView::Bind(v) => lit(v),
        })
    }
}

/// Whether `s` contains no dollar sign.
pub open spec fn dollar_free(s: Seq<char>) -> bool {
    forall|i: int| 0 <= i < s.len() ==> s[i] != '$'
}

/// Whether every text fragment of `parts` is dollar-free.
pub open spec fn parts_dollar_free(parts: Seq<PartView>) -> bool {
    forall|i: int|
        0 <= i < parts.len() ==> (#[trigger] parts[i] matches PartView::Text(t) ==> dollar_free(t))
}

/// One left-to-right pass over `text` that replaces the placeholders `$k`,
/// `$k+1`, ... in order by the entries of `lits` (`$1` maps to `lits[0]`).
/// Replaced text is not rescanned.
pub open spec fn substitute(text: Seq<char>, lits: Seq<Seq<char>>, k: nat) -> Seq<char>
    decreases text.len(),
{
    if text.len() == 0 {
        Seq::empty()
    } else if k <= lits.len() && placeholder(k).is_prefix_of(text) {
        lits[k - 1] + substitute(text.skip(placeholder(k).len() as int), lits, (k + 1) as nat)
    } else {
        seq![text[0]] + substitute(text.drop_first(), lits, k)
    }
}

/// Decimal renderings are never empty.
pub proof fn lemma_dec_str_len(n: nat)
    ensures
        dec_str(n).len() >= 1,
    decreases n,
{
    if n >= 10 {
        lemma_dec_str_len(n / 10);
    }
}

/// A placeholder starts with a dollar sign and has at least two characters.
pub proof fn lemma_placeholder_shape(k: nat)
    ensures
        placeholder(k).len() >= 2,
        placeholder(k)[0] == '$',
{
    lemma_dec_str_len(k);
}

proof fn lemma_binds_of_first(parts: Seq<PartView>)
    requires
        parts.len() > 0,
    ensures
        binds_of(parts) == (match parts.first() {
            PartView::Bind(v) => seq![v],
            PartView::Text(_) => Seq::<SqlView>::empty(),
        }) + binds_of(parts.drop_first()),
    decreases parts.len(),
{
    let first_binds = (match parts.first() {
        PartView::Bind(v) => seq![v],
        PartView::Text(_) => Seq::<SqlView>::empty(),
    });
    if parts.len() == 1 {
        assert(parts.drop_last() =~= Seq::<PartView>::empty());
        assert(parts.drop_first() =~= Seq::<PartView>::empty());
        assert(parts.last() == parts.first());
        assert(binds_of(parts) =~= first_binds + binds_of(parts.drop_first()));
    } else {
        let front = parts.drop_last();
        lemma_binds_of_first(front);
        assert(parts.drop_first().drop_last() =~= front.drop_first());
        assert(parts.drop_first().last() == parts.last());
        assert(front.first() == parts.first());
        assert(binds_of(parts) =~= first_binds + binds_of(parts.drop_first()));
    }
}

proof fn lemma_text_from_first(parts: Seq<PartView>, k: nat)
    requires
        parts.len() > 0,
    ensures
        text_from(parts, k) == seg_text(parts.first(), k) + text_from(
            parts.drop_first(),
            (k + part_binds(parts.first())) as nat,
        ),
    decreases parts.len(),
{
    if parts.len() == 1 {
        assert(parts.drop_last() =~= Seq::<PartView>::empty());
        assert(parts.drop_first() =~= Seq::<PartView>::empty());
        assert(parts.last() == parts.first());
        assert(text_from(parts, k) == text_from(parts.drop_last(), k) + seg_text(
            parts.last(),
            (k + binds_of(parts.drop_last()).len()) as nat,
        ));
        assert(text_from(parts.drop_last(), k) =~= Seq::<char>::empty());
        assert(binds_of(parts.drop_last()).len() == 0);
        assert(text_from(parts.drop_first(), (k + part_binds(parts.first())) as nat)
            =~= Seq::<char>::empty());
        assert(text_from(parts, k) =~= seg_text(parts.first(), k) + text_from(
            parts.drop_first(),
            (k + part_binds(parts.first())) as nat,
        ));
    } else {
        let front = parts.drop_last();
        let last = parts.last();
        lemma_text_from_first(front, k);
        lemma_binds_of_first(front);
        let k1 = (k + part_binds(parts.first())) as nat;
        assert(parts.drop_first().drop_last() =~= front.drop_first());
        assert(parts.drop_first().last() == last);
        assert(front.first() == parts.first());
        assert(binds_of(front).len() == part_binds(parts.first()) + binds_of(
            front.drop_first(),
        ).len());
        assert(text_from(parts, k) == text_from(front, k) + seg_text(
            last,
            (k + binds_of(front).len()) as nat,
        ));
        assert(text_from(parts.drop_first(), k1) == text_from(front.drop_first(), k1) + seg_text(
            parts.drop_first().last(),
            (k1 + binds_of(parts.drop_first().drop_last()).len()) as nat,
        ));
        assert((k + binds_of(front).len()) as nat == (k1 + binds_of(
            parts.drop_first().drop_last(),
        ).len()) as nat);
        assert(text_from(parts, k) =~= seg_text(parts.first(), k) + text_from(
            parts.drop_first(),
            k1,
        ));
    }
}

proof fn lemma_literal_text_first(parts: Seq<PartView>, lit: spec_fn(SqlView) -> Seq<char>)
    requires
        parts.len() > 0,
    ensures
        literal_text(parts, lit) == (match parts.first() {
            PartView::Text(t) => t,
            PartView::Bind(v) => lit(v),
        }) + literal_text(parts.drop_first(), lit),
    decreases parts.len(),
{
    let first_text = (match parts.first() {
        PartView::Text(t) => t,
        PartView::Bind(v) => lit(v),
    });
    if parts.len() == 1 {
        assert(parts.drop_last() =~= Seq::<PartView>::empty());
        assert(parts.drop_first() =~= Seq::<PartView>::empty());
        assert(parts.last() == parts.first());
        assert(literal_text(parts, lit) =~= first_text + literal_text(parts.drop_first(), lit));
    } else {
        let front = parts.drop_last();
        lemma_literal_text_first(front, lit);
        assert(parts.drop_first().drop_last() =~= front.drop_first());
        assert(parts.drop_first().last() == parts.last());
        assert(front.first() == parts.first());
        assert(literal_text(parts, lit) =~= first_text + literal_text(parts.drop_first(), lit));
    }
}

proof fn lemma_substitute_skips_text(t: Seq<char>, rest: Seq<char>, lits: Seq<Seq<char>>, k: nat)
    requires
        dollar_free(t),
    ensures
        substitute(t + rest, lits, k) == t + substitute(rest, lits, k),
    decreases t.len(),
{
    if t.len() == 0 {
        assert(t + rest =~= rest);
        assert(t + substitute(rest, lits, k) =~= substitute(rest, lits, k));
    } else {
        lemma_placeholder_shape(k);
        let whole = t + rest;
        assert(whole[0] == t[0]);
        assert(t[0] != '$');
        if k <= lits.len() && placeholder(k).is_prefix_of(whole) {
            assert(whole[0] == placeholder(k)[0]);
            assert(false);
        }
        assert(whole.drop_first() =~= t.drop_first() + rest);
        assert(dollar_free(t.drop_first())) by {
            assert forall|i: int| 0 <= i < t.drop_first().len() implies t.drop_first()[i]
                != '$' by {
                assert(t.drop_first()[i] == t[i + 1]);
            }
        }
        lemma_substitute_skips_text(t.drop_first(), rest, lits, k);
        assert(substitute(whole, lits, k) =~= t + substitute(rest, lits, k));
    }
}

proof fn lemma_substitute_literals_general(
    parts: Seq<PartView>,
    lits: Seq<Seq<char>>,
    lit: spec_fn(SqlView) -> Seq<char>,
    k: nat,
)
    requires
        k >= 1,
        parts_dollar_free(parts),
        forall|v: SqlView| #[trigger] dollar_free(lit(v)),
        lits.len() == k - 1 + binds_of(parts).len(),
        forall|j: int|
            0 <= j < binds_of(parts).len() ==> lits[k - 1 + j] == lit(#[trigger] binds_of(
                parts,
            )[j]),
    ensures
        substitute(text_from(parts, k), lits, k) == literal_text(parts, lit),
    decreases parts.len(),
{
    if parts.len() == 0 {
        assert(substitute(text_from(parts, k), lits, k) =~= literal_text(parts, lit));
    } else {
        let first = parts.first();
        let rest = parts.drop_first();
        lemma_text_from_first(parts, k);
        lemma_binds_of_first(parts);
        lemma_literal_text_first(parts, lit);
        assert(parts_dollar_free(rest)) by {
            assert forall|i: int|
                0 <= i < rest.len() implies (#[trigger] rest[i] matches PartView::Text(t)
                ==> dollar_free(t)) by {
                assert(rest[i] == parts[i + 1]);
            }
        }
        match first {
            PartView::Text(t) => {
                assert(parts[0] == first);
                assert(dollar_free(t));
                assert(binds_of(parts) =~= binds_of(rest));
                lemma_substitute_skips_text(t, text_from(rest, k), lits, k);
                lemma_substitute_literals_general(rest, lits, lit, k);
                assert(substitute(text_from(parts, k), lits, k) =~= literal_text(parts, lit));
            },
            PartView::Bind(v) => {
                lemma_placeholder_shape(k);
                let ph = placeholder(k);
                let tail = text_from(rest, (k + 1) as nat);
                assert(text_from(parts, k) == ph + tail);
                assert(binds_of(parts) =~= seq![v] + binds_of(rest));
                assert(binds_of(parts).len() == 1 + binds_of(rest).len());
                assert(k <= lits.len());
                assert(ph.is_prefix_of(ph + tail)) by {
                    assert((ph + tail).subrange(0, ph.len() as int) =~= ph);
                }
                assert((ph + tail).len() > 0);
                assert((ph + tail).skip(ph.len() as int) =~= tail);
                assert(lits[k - 1] == lit(binds_of(parts)[0]));
                assert(binds_of(parts)[0] == v);
                assert(forall|j: int|
                    0 <= j < binds_of(rest).len() ==> #[trigger] binds_of(rest)[j] == binds_of(
                        parts,
                    )[j + 1]);
                lemma_substitute_literals_general(rest, lits, lit, (k + 1) as nat);
                assert(substitute(text_from(parts, k), lits, k) =~= literal_text(parts, lit));
            },
        }
    }
}

/// The placeholder/value pairing round-trips: substituting each bound value's
/// literal rendering for its placeholder, in placeholder order, reproduces
/// the statement rendered with those literals in place directly.  This holds
/// whenever the statement's own text fragments and the literal renderings
/// contain no dollar sign.
pub proof fn lemma_substitute_literals(parts: Seq<PartView>, lit: spec_fn(SqlView) -> Seq<char>)
    requires
        parts_dollar_free(parts),
        forall|v: SqlView| #[trigger] dollar_free(lit(v)),
    ensures
        substitute(text_of(parts), binds_of(parts).map_values(lit), 1) == literal_text(parts, lit),
{
    lemma_substitute_literals_general(parts, binds_of(parts).map_values(lit), lit, 1);
}

/// A statement under construction: final SQL text plus the ordered bind-value
/// list, kept as the sequence of fragments that produced them.
#[derive(Debug)]
pub struct Statement {
    parts: Vec<Part>,
}

impl View for Statement {
    type V = Seq<PartView>;

    closed spec fn view(&self) -> Seq<PartView> {
        self.parts@.map_values(|p: Part| part_view(p))
    }
}

fn digit_str(d: usize) -> (r: &'static str)
    requires
        d < 10,
    ensures
        r@ == seq![dec_digit(d as nat)],
{
    match d {
        0 => {
            proof {
                reveal_strlit("0");
                assert("0"@ =~= seq![dec_digit(0)]);
            }
            "0"
        },
        1 => {
            proof {
                reveal_strlit("1");
                assert("1"@ =~= seq![dec_digit(1)]);
            }
            "1"
        },
        2 => {
            proof {
                reveal_strlit("2");
                assert("2"@ =~= seq![dec_digit(2)]);
            }
            "2"
        },
        3 => {
            proof {
                reveal_strlit("3");
                assert("3"@ =~= seq![dec_digit(3)]);
            }
            "3"
        },
        4 => {
            proof {
                reveal_strlit("4");
                assert("4"@ =~= seq![dec_digit(4)]);
            }
            "4"
        },
        5 => {
            proof {
                reveal_strlit("5");
                assert("5"@ =~= seq![dec_digit(5)]);
            }
            "5"
        },
        6 => {
            proof {
                reveal_strlit("6");
                assert("6"@ =~= seq![dec_digit(6)]);
            }
            "6"
        },
        7 => {
            proof {
                reveal_strlit("7");
                assert("7"@ =~= seq![dec_digit(7)]);
            }
            "7"
        },
        8 => {
            proof {
                reveal_strlit("8");
                assert("8"@ =~= seq![dec_digit(8)]);
            }
            "8"
        },
        _ => {
            proof {
                reveal_strlit("9");
                assert("9"@ =~= seq![dec_digit(9)]);
            }
            "9"
        },
    }
}

/// Appends the decimal rendering of `n` to `out`.
fn push_dec(out: &mut String, n: usize)
    ensures
        final(out)@ == old(out)@ + dec_str(n as nat),
    decreases n,
{
    if n < 10 {
        out.append(digit_str(n));
    } else {
        push_dec(out, n / 10);
        out.append(digit_str(n % 10));
        proof {
            assert(final(out)@ =~= old(out)@ + dec_str(n as nat));
        }
    }
}

impl Statement {
    /// A fresh statement holding only the given prefix text.
    pub fn new(init: &str) -> (s: Statement)
        ensures
            s@ == seq![PartView::Text(init@)],
    {
        let mut parts: Vec<Part> = Vec::new();
        parts.push(Part::Text(String::from_str(init)));
        let s = Statement { parts };
        proof {
            assert(s@ =~= seq![PartView::Text(init@)]);
        }
        s
    }

    /// Appends literal text.
    pub fn push(&mut self, text: &str)
        ensures
            final(self)@ == old(self)@.push(PartView::Text(text@)),
    {
        self.parts.push(Part::Text(String::from_str(text)));
        proof {
            assert(final(self)@ =~= old(self)@.push(PartView::Text(text@)));
        }
    }

    /// Appends one bound value; rendering will give it the next placeholder ordinal.
    pub fn push_bind(&mut self, value: SqlValue)
        ensures
            final(self)@ == old(self)@.push(PartView::Bind(sql_view(value))),
    {
        let ghost vv = sql_view(value);
        self.parts.push(Part::Bind(value));
        proof {
            assert(final(self)@ =~= old(self)@.push(PartView::Bind(vv)));
        }
    }

    /// Renders the final SQL text, numbering placeholders from `$1` in bind order.
    pub fn into_sql(self) -> (r: String)
        ensures
            r@ == text_of(self@),
    {
        let mut out = String::new();
        let mut count: usize = 0;
        let mut i: usize = 0;
        while i < self.parts.len()
            invariant
                i <= self.parts@.len(),
                count == binds_of(self@.take(i as int)).len(),
                count <= i,
                out@ == text_from(self@.take(i as int), 1),
            decreases self.parts@.len() - i,
        {
            proof {
                assert(self@.take(i + 1).drop_last() =~= self@.take(i as int));
                assert(self@.take(i + 1).last() == self@[i as int]);
            }
            match &self.parts[i] {
                Part::Text(t) => {
                    out.append(t.as_str());
                },
                Part::Bind(_) => {
                    count = count + 1;
                    proof {
                        reveal_strlit("$");
                    }
                    out.append("$");
                    push_dec(&mut out, count);
                    proof {
                        assert(out@ =~= text_from(self@.take(i as int), 1) + placeholder(
                            count as nat,
                        ));
                    }
                },
            }
            proof {
                assert(out@ =~= text_from(self@.take(i + 1), 1));
            }
            i = i + 1;
        }
        proof {
            assert(self@.take(self.parts@.len() as int) =~= self@);
        }
        out
    }

    /// The ordered fragments this statement is made of.
    pub fn parts(&self) -> (r: &Vec<Part>)
        ensures
            r@.map_values(|p: Part| part_view(p)) == self@,
    {
        &self.parts
    }

    /// The ordered list of bound values, in placeholder order.
    pub fn bound_values(&self) -> (r: Vec<SqlValue>)
        ensures
            r@.map_values(|v: SqlValue| sql_view(v)) == binds_of(self@),
    {
        let mut out: Vec<SqlValue> = Vec::new();
        let mut i: usize = 0;
        while i < self.parts.len()
            invariant
                i <= self.parts@.len(),
                out@.map_values(|v: SqlValue| sql_view(v)) == binds_of(self@.take(i as int)),
            decreases self.parts@.len() - i,
        {
            proof {
                assert(self@.take(i + 1).drop_last() =~= self@.take(i as int));
                assert(self@.take(i + 1).last() == self@[i as int]);
            }
            match &self.parts[i] {
                Part::Text(_) => {
                    proof {
                        assert(binds_of(self@.take(i + 1)) =~= binds_of(self@.take(i as int)));
                    }
                },
                Part::Bind(v) => {
                    out.push(v.clone());
                    proof {
                        assert(out@.map_values(|v: SqlValue| sql_view(v)) =~= binds_of(
                            self@.take(i + 1),
                        ));
                    }
                },
            }
            i = i + 1;
        }
        proof {
            assert(self@.take(self.parts@.len() as int) =~= self@);
        }
        out
    }
}

} // verus!

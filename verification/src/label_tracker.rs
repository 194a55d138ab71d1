//! Generation of globally-unique, human-readable labels for control-flow
//! constructs: one monotonically increasing counter per label kind, and a
//! proof that no two distinct (kind, counter) pairs ever share label text.

use vstd::prelude::*;
use vstd::string::StringExecFns;
use crate::decimal::{dec_chars, is_dec_digit, lemma_dec_chars_digits, lemma_dec_chars_injective, u64_to_string};

verus! {

/// The kinds of control-flow labels. `If` statements reuse the ternary
/// kinds (`cond_else`/`cond_end`); the dedicated `If` kinds exist and are
/// counted but the code generator does not draw from them.
#[derive(Debug, Clone, Copy, PartialEq, Eq, Hash, Structural)]
pub enum LabelKind {
    Or,
    OrShortCircuit,
    And,
    AndShortCircuit,
    TernaryElse,
    TernaryEnd,
    IfElse,
    IfEnd,
}

/// The textual prefix of each label kind.
pub open spec fn label_prefix(k: LabelKind) -> Seq<char> {
    match k {
        LabelKind::Or => seq!['o', 'r'],
        LabelKind::OrShortCircuit => seq!['o', 'r', '_', 's', 's'],
        LabelKind::And => seq!['a', 'n', 'd'],
        LabelKind::AndShortCircuit => seq!['a', 'n', 'd', '_', 's', 's'],
        LabelKind::TernaryElse => seq!['c', 'o', 'n', 'd', '_', 'e', 'l', 's', 'e'],
        LabelKind::TernaryEnd => seq!['c', 'o', 'n', 'd', '_', 'e', 'n', 'd'],
        LabelKind::IfElse => seq!['i', 'f', '_', 'e', 'l', 's', 'e'],
        LabelKind::IfEnd => seq!['i', 'f', '_', 'e', 'n', 'd'],
    }
}

/// The full text of the label minted for kind `k` at counter value `c`:
/// the kind's prefix, an underscore, and the counter in decimal.
pub open spec fn label_chars(k: LabelKind, c: nat) -> Seq<char> {
    label_prefix(k) + seq!['_'] + dec_chars(c)
}

/// The abstract state of a label tracker: one counter per kind.
pub struct LabelCounts {
    pub or_n: nat,
    pub or_ss_n: nat,
    pub and_n: nat,
    pub and_ss_n: nat,
    pub ternary_else_n: nat,
    pub ternary_end_n: nat,
    pub if_else_n: nat,
    pub if_end_n: nat,
}

impl LabelCounts {
    /// The counter for one kind.
    pub open spec fn get(self, k: LabelKind) -> nat {
        match k {
            LabelKind::Or => self.or_n,
            LabelKind::OrShortCircuit => self.or_ss_n,
            LabelKind::And => self.and_n,
            LabelKind::AndShortCircuit => self.and_ss_n,
            LabelKind::TernaryElse => self.ternary_else_n,
            LabelKind::TernaryEnd => self.ternary_end_n,
            LabelKind::IfElse => self.if_else_n,
            LabelKind::IfEnd => self.if_end_n,
        }
    }

    /// The counter value after one more mint of kind `k`: one higher,
    /// saturating at the largest representable count.
    pub open spec fn bumped(self, k: LabelKind) -> nat {
        if self.get(k) < usize::MAX as nat {
            self.get(k) + 1
        } else {
            self.get(k)
        }
    }

    /// The state after bumping one kind's counter.
    pub open spec fn inc(self, k: LabelKind) -> LabelCounts {
        match k {
            LabelKind::Or => LabelCounts { or_n: self.bumped(k), ..self },
            LabelKind::OrShortCircuit => LabelCounts { or_ss_n: self.bumped(k), ..self },
            LabelKind::And => LabelCounts { and_n: self.bumped(k), ..self },
            LabelKind::AndShortCircuit => LabelCounts { and_ss_n: self.bumped(k), ..self },
            LabelKind::TernaryElse => LabelCounts { ternary_else_n: self.bumped(k), ..self },
            LabelKind::TernaryEnd => LabelCounts { ternary_end_n: self.bumped(k), ..self },
            LabelKind::IfElse => LabelCounts { if_else_n: self.bumped(k), ..self },
            LabelKind::IfEnd => LabelCounts { if_end_n: self.bumped(k), ..self },
        }
    }

    /// All counters zero.
    pub open spec fn zero() -> LabelCounts {
        LabelCounts {
            or_n: 0,
            or_ss_n: 0,
            and_n: 0,
            and_ss_n: 0,
            ternary_else_n: 0,
            ternary_end_n: 0,
            if_else_n: 0,
            if_end_n: 0,
        }
    }
}

/// Mints label names, one counter per label kind, so that no two
/// control-flow constructs of one compilation ever share a label.
pub struct LabelTracker {
    or_count: usize,
    or_ss_count: usize,
    and_count: usize,
    and_ss_count: usize,
    ternary_else_count: usize,
    ternary_end_count: usize,
    if_else_count: usize,
    if_end_count: usize,
}

impl View for LabelTracker {
    type V = LabelCounts;

    closed spec fn view(&self) -> LabelCounts {
        LabelCounts {
            or_n: self.or_count as nat,
            or_ss_n: self.or_ss_count as nat,
            and_n: self.and_count as nat,
            and_ss_n: self.and_ss_count as nat,
            ternary_else_n: self.ternary_else_count as nat,
            ternary_end_n: self.ternary_end_count as nat,
            if_else_n: self.if_else_count as nat,
            if_end_n: self.if_end_count as nat,
        }
    }
}

fn prefix_str(kind: LabelKind) -> (r: &'static str)
    ensures
        r@ == label_prefix(kind),
{
    match kind {
        LabelKind::Or => {
            proof {
                reveal_strlit("or");
                assert("or"@ =~= label_prefix(LabelKind::Or));
            }
            "or"
        },
        LabelKind::OrShortCircuit => {
            proof {
                reveal_strlit("or_ss");
                assert("or_ss"@ =~= label_prefix(LabelKind::OrShortCircuit));
            }
            "or_ss"
        },
        LabelKind::And => {
            proof {
                reveal_strlit("and");
                assert("and"@ =~= label_prefix(LabelKind::And));
            }
            "and"
        },
        LabelKind::AndShortCircuit => {
            proof {
                reveal_strlit("and_ss");
                assert("and_ss"@ =~= label_prefix(LabelKind::AndShortCircuit));
            }
            "and_ss"
        },
        LabelKind::TernaryElse => {
            proof {
                reveal_strlit("cond_else");
                assert("cond_else"@ =~= label_prefix(LabelKind::TernaryElse));
            }
            "cond_else"
        },
        LabelKind::TernaryEnd => {
            proof {
                reveal_strlit("cond_end");
                assert("cond_end"@ =~= label_prefix(LabelKind::TernaryEnd));
            }
            "cond_end"
        },
        LabelKind::IfElse => {
            proof {
                reveal_strlit("if_else");
                assert("if_else"@ =~= label_prefix(LabelKind::IfElse));
            }
            "if_else"
        },
        LabelKind::IfEnd => {
            proof {
                reveal_strlit("if_end");
                assert("if_end"@ =~= label_prefix(LabelKind::IfEnd));
            }
            "if_end"
        },
    }
}

/// The rendered text of the label for kind `kind` at counter value `c`.
pub fn label_string(kind: LabelKind, c: usize) -> (r: String)
    ensures
        r@ == label_chars(kind, c as nat),
{
    let mut s = prefix_str(kind).to_owned();
    s.append("_");
    s.append(u64_to_string(c as u64).as_str());
    proof {
        reveal_strlit("_");
        assert(s@ =~= label_chars(kind, c as nat));
    }
    s
}

impl LabelTracker {
    /// A fresh tracker, every counter at zero.
    pub fn new() -> (lt: LabelTracker)
        ensures
            lt@ == LabelCounts::zero(),
    {
        LabelTracker {
            or_count: 0,
            or_ss_count: 0,
            and_count: 0,
            and_ss_count: 0,
            ternary_else_count: 0,
            ternary_end_count: 0,
            if_else_count: 0,
            if_end_count: 0,
        }
    }

    /// The next counter value for one kind.
    pub fn index(&self, kind: LabelKind) -> (r: usize)
        ensures
            r as nat == self@.get(kind),
    {
        match kind {
            LabelKind::Or => self.or_count,
            LabelKind::OrShortCircuit => self.or_ss_count,
            LabelKind::And => self.and_count,
            LabelKind::AndShortCircuit => self.and_ss_count,
            LabelKind::TernaryElse => self.ternary_else_count,
            LabelKind::TernaryEnd => self.ternary_end_count,
            LabelKind::IfElse => self.if_else_count,
            LabelKind::IfEnd => self.if_end_count,
        }
    }

    /// Bumps one kind's counter, saturating at the largest representable
    /// count.
    pub fn increment(&mut self, kind: LabelKind)
        ensures
            final(self)@ == old(self)@.inc(kind),
    {
        match kind {
            LabelKind::Or => {
                if self.or_count < usize::MAX {
                    self.or_count = self.or_count + 1;
                }
            },
            LabelKind::OrShortCircuit => {
                if self.or_ss_count < usize::MAX {
                    self.or_ss_count = self.or_ss_count + 1;
                }
            },
            LabelKind::And => {
                if self.and_count < usize::MAX {
                    self.and_count = self.and_count + 1;
                }
            },
            LabelKind::AndShortCircuit => {
                if self.and_ss_count < usize::MAX {
                    self.and_ss_count = self.and_ss_count + 1;
                }
            },
            LabelKind::TernaryElse => {
                if self.ternary_else_count < usize::MAX {
                    self.ternary_else_count = self.ternary_else_count + 1;
                }
            },
            LabelKind::TernaryEnd => {
                if self.ternary_end_count < usize::MAX {
                    self.ternary_end_count = self.ternary_end_count + 1;
                }
            },
            LabelKind::IfElse => {
                if self.if_else_count < usize::MAX {
                    self.if_else_count = self.if_else_count + 1;
                }
            },
            LabelKind::IfEnd => {
                if self.if_end_count < usize::MAX {
                    self.if_end_count = self.if_end_count + 1;
                }
            },
        }
    }

    /// Mints the next label of `kind`: its prefix, an underscore, and the
    /// kind's counter, which is then bumped (saturating at its maximum).
    /// By `lemma_label_uniqueness`, no two mints in one compilation return
    /// the same text while the counter is below its maximum.
    pub fn create(&mut self, kind: LabelKind) -> (r: String)
        ensures
            r@ == label_chars(kind, old(self)@.get(kind)),
            final(self)@ == old(self)@.inc(kind),
    {
        let s = label_string(kind, self.index(kind));
        self.increment(kind);
        s
    }
}

/// The label text determines the kind and the counter: distinct
/// (kind, counter) pairs never collide.
pub proof fn lemma_label_chars_injective(k1: LabelKind, c1: nat, k2: LabelKind, c2: nat)
    requires
        label_chars(k1, c1) == label_chars(k2, c2),
    ensures
        k1 == k2,
        c1 == c2,
{
    let p1 = label_prefix(k1);
    let p2 = label_prefix(k2);
    let d1 = dec_chars(c1);
    let d2 = dec_chars(c2);
    let s = label_chars(k1, c1);
    lemma_dec_chars_digits(c1);
    lemma_dec_chars_digits(c2);
    assert(s.len() == p1.len() + 1 + d1.len());
    assert(s.len() == p2.len() + 1 + d2.len());
    if p1.len() == p2.len() {
        let n = p1.len() as int;
        assert forall|i: int| 0 <= i < n implies p1[i] == p2[i] by {
            assert(s[i] == p1[i]);
            assert(s[i] == p2[i]);
        }
        assert(p1 =~= p2);
        assert(k1 == k2);
        let m = s.len() as int;
        assert forall|i: int| 0 <= i < d1.len() implies d1[i] == d2[i] by {
            assert(s[n + 1 + i] == d1[i]);
            assert(s[n + 1 + i] == d2[i]);
        }
        assert(d1 =~= d2);
        lemma_dec_chars_injective(c1, c2);
    } else if p1.len() < p2.len() {
        let j = p2.len() as int;
        assert(s[j] == '_');
        assert(s[j] == d1[j - p1.len() - 1]);
        assert(is_dec_digit(d1[j - p1.len() - 1]));
        assert(false);
    } else {
        let j = p1.len() as int;
        assert(s[j] == '_');
        assert(s[j] == d2[j - p2.len() - 1]);
        assert(is_dec_digit(d2[j - p2.len() - 1]));
        assert(false);
    }
}

/// Uniqueness law: any two label mints that differ in kind or in counter
/// value produce different label text. Together with `create`'s contract
/// (each mint uses the kind's current counter and then bumps it), every
/// label text produced during one compilation is distinct.
pub proof fn lemma_label_uniqueness(k1: LabelKind, c1: nat, k2: LabelKind, c2: nat)
    requires
        k1 != k2 || c1 != c2,
    ensures
        label_chars(k1, c1) != label_chars(k2, c2),
{
    if label_chars(k1, c1) == label_chars(k2, c2) {
        lemma_label_chars_injective(k1, c1, k2, c2);
    }
}

/// The label texts a tracker mints for a sequence of kind requests, in
/// order.
pub open spec fn labels_of(ks: Seq<LabelKind>, lt: LabelCounts) -> Seq<Seq<char>>
    decreases ks.len(),
{
    if ks.len() == 0 {
        Seq::empty()
    } else {
        seq![label_chars(ks[0], lt.get(ks[0]))] + labels_of(ks.drop_first(), lt.inc(ks[0]))
    }
}

/// The tracker state after a sequence of mints.
pub open spec fn counts_after(ks: Seq<LabelKind>, lt: LabelCounts) -> LabelCounts
    decreases ks.len(),
{
    if ks.len() == 0 {
        lt
    } else {
        counts_after(ks.drop_first(), lt.inc(ks[0]))
    }
}

/// Counters never fall along a mint sequence.
proof fn lemma_counts_after_monotone(ks: Seq<LabelKind>, lt: LabelCounts, k: LabelKind)
    ensures
        counts_after(ks, lt).get(k) >= lt.get(k),
    decreases ks.len(),
{
    if ks.len() > 0 {
        lemma_counts_after_monotone(ks.drop_first(), lt.inc(ks[0]), k);
    }
}

/// A counter never exceeds its start plus the number of mints.
proof fn lemma_counts_after_bound(ks: Seq<LabelKind>, lt: LabelCounts, k: LabelKind)
    ensures
        counts_after(ks, lt).get(k) <= lt.get(k) + ks.len(),
    decreases ks.len(),
{
    if ks.len() > 0 {
        lemma_counts_after_bound(ks.drop_first(), lt.inc(ks[0]), k);
    }
}

/// The `i`-th minted label is the `i`-th requested kind at the counter the
/// first `i` mints left behind.
proof fn lemma_labels_of_index(ks: Seq<LabelKind>, lt: LabelCounts, i: int)
    requires
        0 <= i < ks.len(),
    ensures
        labels_of(ks, lt).len() == ks.len(),
        labels_of(ks, lt)[i] == label_chars(ks[i], counts_after(ks.take(i), lt).get(ks[i])),
    decreases ks.len(),
{
    lemma_labels_of_len(ks, lt);
    if i == 0 {
        assert(ks.take(0) =~= Seq::<LabelKind>::empty());
    } else {
        lemma_labels_of_index(ks.drop_first(), lt.inc(ks[0]), i - 1);
        assert(ks.drop_first()[i - 1] == ks[i]);
        assert(ks.drop_first().take(i - 1) =~= ks.take(i).drop_first());
        assert(ks.take(i)[0] == ks[0]);
        assert(counts_after(ks.take(i), lt) == counts_after(
            ks.take(i).drop_first(),
            lt.inc(ks[0]),
        ));
    }
}

proof fn lemma_labels_of_len(ks: Seq<LabelKind>, lt: LabelCounts)
    ensures
        labels_of(ks, lt).len() == ks.len(),
    decreases ks.len(),
{
    if ks.len() > 0 {
        lemma_labels_of_len(ks.drop_first(), lt.inc(ks[0]));
    }
}

/// Uniqueness law, tracker form: starting from a fresh tracker, any
/// sequence of mints that a machine can perform (at most `usize::MAX` of
/// them) produces pairwise-distinct label texts, whatever mix of kinds is
/// requested.
pub proof fn lemma_minted_labels_distinct(ks: Seq<LabelKind>, i: int, j: int)
    requires
        ks.len() <= usize::MAX,
        0 <= i < j < ks.len(),
    ensures
        labels_of(ks, LabelCounts::zero())[i] != labels_of(ks, LabelCounts::zero())[j],
{
    let zero = LabelCounts::zero();
    lemma_labels_of_index(ks, zero, i);
    lemma_labels_of_index(ks, zero, j);
    let ci = counts_after(ks.take(i), zero).get(ks[i]);
    let cj = counts_after(ks.take(j), zero).get(ks[j]);
    if ks[i] == ks[j] {
        let k = ks[i];
        // The counter strictly grows at step `i` (it cannot saturate: a
        // counter is at most the number of mints so far, which is below
        // `usize::MAX`), and never falls afterwards.
        lemma_counts_after_bound(ks.take(i), zero, k);
        assert(ci <= i);
        let after_i = counts_after(ks.take(i), zero).inc(k);
        assert(ks.take(i + 1).drop_last() =~= ks.take(i));
        lemma_counts_after_snoc(ks.take(i + 1), zero);
        assert(counts_after(ks.take(i + 1), zero) == after_i);
        assert(after_i.get(k) == ci + 1);
        lemma_counts_after_between(ks, zero, i + 1, j, k);
        assert(cj >= ci + 1);
        lemma_label_uniqueness(k, ci, k, cj);
    } else {
        lemma_label_uniqueness(ks[i], ci, ks[j], cj);
    }
}

/// Folding one more mint onto a prefix.
proof fn lemma_counts_after_snoc(ks: Seq<LabelKind>, lt: LabelCounts)
    requires
        ks.len() > 0,
    ensures
        counts_after(ks, lt) == counts_after(ks.drop_last(), lt).inc(ks.last()),
    decreases ks.len(),
{
    reveal_with_fuel(counts_after, 3);
    if ks.len() == 1 {
        assert(ks.drop_first() =~= Seq::<LabelKind>::empty());
        assert(ks.drop_last() =~= Seq::<LabelKind>::empty());
    } else {
        lemma_counts_after_snoc(ks.drop_first(), lt.inc(ks[0]));
        assert(ks.drop_first().drop_last() =~= ks.drop_last().drop_first());
        assert(ks.drop_last()[0] == ks[0]);
        assert(ks.drop_first().last() == ks.last());
        assert(ks.drop_last().len() > 0);
        assert(counts_after(ks.drop_last(), lt) == counts_after(
            ks.drop_last().drop_first(),
            lt.inc(ks[0]),
        ));
        assert(counts_after(ks, lt) == counts_after(ks.drop_first(), lt.inc(ks[0])));
    }
}

/// A counter at a later prefix is at least the counter at an earlier one.
proof fn lemma_counts_after_between(
    ks: Seq<LabelKind>,
    lt: LabelCounts,
    a: int,
    b: int,
    k: LabelKind,
)
    requires
        0 <= a <= b <= ks.len(),
    ensures
        counts_after(ks.take(b), lt).get(k) >= counts_after(ks.take(a), lt).get(k),
    decreases b - a,
{
    if a < b {
        lemma_counts_after_between(ks, lt, a + 1, b, k);
        assert(ks.take(a + 1).drop_last() =~= ks.take(a));
        lemma_counts_after_snoc(ks.take(a + 1), lt);
    }
}

} // verus!

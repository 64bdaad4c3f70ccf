//! The records that the catalog queries return, and the order they come in.
use vstd::multiset::Multiset;
use vstd::prelude::*;
use vstd::seq_lib::group_to_multiset_ensures;
use vstd::string::StrSliceExecFns;

verus! {

/// A database of the server: its name and its object identifier.
#[derive(Clone, Debug, PartialEq, Eq)]
pub struct Database {
    pub name: String,
    pub oid: u32,
}

/// An ordinary table: its name, its schema and the role that owns it.
#[derive(Clone, Debug, PartialEq, Eq)]
pub struct Table {
    pub name: String,
    pub schema: String,
    pub owner: String,
}

/// Lexicographic order on texts, character by character by code point;
/// a text comes before every longer text that it starts.
pub open spec fn text_le(a: Seq<char>, b: Seq<char>) -> bool
    decreases a.len(),
{
    if a.len() == 0 {
        true
    } else if b.len() == 0 {
        false
    } else if a[0] != b[0] {
        a[0] < b[0]
    } else {
        text_le(a.drop_first(), b.drop_first())
    }
}

/// Of two texts, one comes first.
pub proof fn lemma_text_le_total(a: Seq<char>, b: Seq<char>)
    ensures
        text_le(a, b) || text_le(b, a),
    decreases a.len(),
{
    if a.len() > 0 && b.len() > 0 {
        if a[0] == b[0] {
            lemma_text_le_total(a.drop_first(), b.drop_first());
        }
    }
}

/// Texts that each come first are the same text.
pub proof fn lemma_text_le_antisymmetric(a: Seq<char>, b: Seq<char>)
    requires
        text_le(a, b),
        text_le(b, a),
    ensures
        a == b,
    decreases a.len(),
{
    if a.len() > 0 {
        lemma_text_le_antisymmetric(a.drop_first(), b.drop_first());
        assert(a =~= seq![a[0]] + a.drop_first());
        assert(b =~= seq![b[0]] + b.drop_first());
    } else {
        assert(b.len() == 0);
        assert(a =~= b);
    }
}

/// The text order is transitive.
pub proof fn lemma_text_le_transitive(a: Seq<char>, b: Seq<char>, c: Seq<char>)
    requires
        text_le(a, b),
        text_le(b, c),
    ensures
        text_le(a, c),
    decreases a.len(),
{
    if a.len() > 0 && a[0] == b[0] && b[0] == c[0] {
        lemma_text_le_transitive(a.drop_first(), b.drop_first(), c.drop_first());
    }
}

/// Compares two texts in the order `text_le`.
pub fn text_precedes(a: &str, b: &str) -> (r: bool)
    ensures
        r == text_le(a@, b@),
{
    let la = a.unicode_len();
    let lb = b.unicode_len();
    let mut i: usize = 0;
    assert(a@.skip(0) =~= a@);
    assert(b@.skip(0) =~= b@);
    while i < la && i < lb
        invariant
            la == a@.len(),
            lb == b@.len(),
            i <= la,
            i <= lb,
            text_le(a@, b@) == text_le(a@.skip(i as int), b@.skip(i as int)),
        decreases la - i,
    {
        let ca = a.get_char(i);
        let cb = b.get_char(i);
        if ca != cb {
            return ca < cb;
        }
        assert(a@.skip(i as int).drop_first() =~= a@.skip(i + 1));
        assert(b@.skip(i as int).drop_first() =~= b@.skip(i + 1));
        i = i + 1;
    }
    i == la
}

/// A record kind with the total order in which a catalog query lists it.
pub trait CatalogOrder: Sized {
    /// Whether `self` may be listed before `other`.
    spec fn listed_before(self, other: Self) -> bool;

    /// Of two records, one may be listed first.
    proof fn lemma_total(a: Self, b: Self)
        ensures
            a.listed_before(b) || b.listed_before(a),
    ;

    /// The order is transitive.
    proof fn lemma_transitive(a: Self, b: Self, c: Self)
        requires
            a.listed_before(b),
            b.listed_before(c),
        ensures
            a.listed_before(c),
    ;

    /// Compares two records in the order `listed_before`.
    fn precedes(&self, other: &Self) -> (r: bool)
        ensures
            r == self.listed_before(*other),
    ;
}

/// Databases are listed by name.
impl CatalogOrder for Database {
    open spec fn listed_before(self, other: Self) -> bool {
        text_le(self.name@, other.name@)
    }

    proof fn lemma_total(a: Self, b: Self) {
        lemma_text_le_total(a.name@, b.name@);
    }

    proof fn lemma_transitive(a: Self, b: Self, c: Self) {
        lemma_text_le_transitive(a.name@, b.name@, c.name@);
    }

    fn precedes(&self, other: &Self) -> (r: bool) {
        text_precedes(self.name.as_str(), other.name.as_str())
    }
}

/// Tables are listed by schema, and by name within a schema.
impl CatalogOrder for Table {
    open spec fn listed_before(self, other: Self) -> bool {
        if self.schema@ == other.schema@ {
            text_le(self.name@, other.name@)
        } else {
            text_le(self.schema@, other.schema@)
        }
    }

    proof fn lemma_total(a: Self, b: Self) {
        lemma_text_le_total(a.name@, b.name@);
        lemma_text_le_total(a.schema@, b.schema@);
    }

    proof fn lemma_transitive(a: Self, b: Self, c: Self) {
        if a.schema@ == b.schema@ && b.schema@ == c.schema@ {
            lemma_text_le_transitive(a.name@, b.name@, c.name@);
        } else if a.schema@ != b.schema@ && b.schema@ != c.schema@ {
            lemma_text_le_transitive(a.schema@, b.schema@, c.schema@);
            if a.schema@ == c.schema@ {
                lemma_text_le_antisymmetric(a.schema@, b.schema@);
            }
        }
    }

    fn precedes(&self, other: &Self) -> (r: bool) {
        proof {
            lemma_text_le_total(self.schema@, self.schema@);
        }
        if text_precedes(self.schema.as_str(), other.schema.as_str()) {
            if text_precedes(other.schema.as_str(), self.schema.as_str()) {
                proof {
                    lemma_text_le_antisymmetric(self.schema@, other.schema@);
                }
                text_precedes(self.name.as_str(), other.name.as_str())
            } else {
                true
            }
        } else {
            false
        }
    }
}

/// `s` lists its records in the order of their kind.
pub open spec fn listed_in_order<T: CatalogOrder>(s: Seq<T>) -> bool {
    forall|i: int, j: int| 0 <= i < j < s.len() ==> #[trigger] s[i].listed_before(#[trigger] s[j])
}

proof fn lemma_insert_to_multiset<T>(s: Seq<T>, i: int, x: T)
    requires
        0 <= i <= s.len(),
    ensures
        s.insert(i, x).to_multiset() =~= s.to_multiset().insert(x),
{
    broadcast use group_to_multiset_ensures;

    let t = s.insert(i, x);
    assert(t.remove(i) =~= s);
    assert(t[i] == x);
    assert(t.contains(x));
    assert(t.to_multiset().remove(x) =~= s.to_multiset());
}

/// The records of `items` in the order of their kind.
pub fn list_in_order<T: CatalogOrder>(items: Vec<T>) -> (r: Vec<T>)
    ensures
        listed_in_order(r@),
        r@.to_multiset() =~= items@.to_multiset(),
{
    broadcast use group_to_multiset_ensures;

    let ghost all = items@.to_multiset();
    let mut rest = items;
    let mut out: Vec<T> = Vec::new();
    while rest.len() > 0
        invariant
            listed_in_order(out@),
            out@.to_multiset().add(rest@.to_multiset()) =~= all,
        decreases rest.len(),
    {
        let ghost before = rest@;
        let x = rest.pop().unwrap();
        assert(before =~= rest@.push(x));
        let mut p: usize = 0;
        while p < out.len() && out[p].precedes(&x)
            invariant
                p <= out.len(),
                forall|k: int| 0 <= k < p ==> #[trigger] out@[k].listed_before(x),
            decreases out.len() - p,
        {
            p = p + 1;
        }
        let ghost prev = out@;
        proof {
            if p < prev.len() {
                T::lemma_total(prev[p as int], x);
                assert forall|k: int| p <= k < prev.len() implies x.listed_before(
                    #[trigger] prev[k],
                ) by {
                    if k > p {
                        T::lemma_transitive(x, prev[p as int], prev[k]);
                    }
                }
            }
            lemma_insert_to_multiset(prev, p as int, x);
        }
        out.insert(p, x);
        proof {
            vstd::seq_lib::to_multiset_build(rest@, x);
            assert(before.to_multiset() =~= rest@.to_multiset().insert(x));
            assert(out@.to_multiset() =~= prev.to_multiset().insert(x));
            assert(out@.to_multiset().add(rest@.to_multiset()) =~= prev.to_multiset().add(
                before.to_multiset(),
            ));
            assert forall|i: int, j: int| 0 <= i < j < out@.len() implies #[trigger] out@[i].listed_before(
                #[trigger] out@[j],
            ) by {
                if j < p {
                } else if j == p {
                } else if i < p {
                    T::lemma_transitive(prev[i], x, prev[j - 1]);
                } else if i == p {
                } else {
                }
            }
        }
    }
    out
}

} // verus!

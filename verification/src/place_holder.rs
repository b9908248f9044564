//! The SQL dialects the statement layer renders for, and the running
//! placeholder counter that hands out one parameter marker per bound value.

use vstd::prelude::*;

verus! {

use crate::text::{spec_dec, usize_to_string};

/// Which database dialect a statement is rendered for.
#[derive(Clone, Copy, Debug, PartialEq, Eq, Structural)]
pub enum DbType {
    Sqlite,
    Postgres,
}

/// The running placeholder source: `?` for SQLite (stateless), `$1`, `$2`, …
/// for Postgres (the field holds how many markers were already handed out).
#[derive(Clone, Copy, Debug, PartialEq, Eq, Structural)]
pub enum PlaceHolderType {
    QuestionMark,
    DollarNumber(usize),
}

impl PlaceHolderType {
    /// True when the counter can hand out `k` more markers without its
    /// machine integer overflowing.
    pub open spec fn ph_ok(self, k: nat) -> bool {
        match self {
            PlaceHolderType::QuestionMark => true,
            PlaceHolderType::DollarNumber(n) => n + k <= usize::MAX,
        }
    }

    /// The text of the `i`-th marker (counting from zero) handed out from
    /// this state.
    pub open spec fn ph_text_i(self, i: nat) -> Seq<char> {
        match self {
            PlaceHolderType::QuestionMark => seq!['?'],
            PlaceHolderType::DollarNumber(n) => seq!['$'] + spec_dec((n + i + 1) as nat),
        }
    }

    /// The texts of the next `k` markers handed out from this state.
    pub open spec fn ph_texts(self, k: nat) -> Seq<Seq<char>> {
        Seq::new(k, |i: int| self.ph_text_i(i as nat))
    }

    /// The counter state after handing out `k` markers.
    pub open spec fn ph_after(self, k: nat) -> PlaceHolderType {
        match self {
            PlaceHolderType::QuestionMark => self,
            PlaceHolderType::DollarNumber(n) => PlaceHolderType::DollarNumber((n + k) as usize),
        }
    }

    pub proof fn lemma_ph_after_compose(self, a: nat, b: nat)
        requires
            self.ph_ok(a + b),
        ensures
            self.ph_after(a).ph_after(b) == self.ph_after(a + b),
            self.ph_after(a).ph_ok(b),
            forall|i: nat| self.ph_after(a).ph_text_i(i) == self.ph_text_i(a + i),
    {
    }

    /// Hands out the next placeholder marker and advances the counter.
    pub fn next_ph(&mut self) -> (r: String)
        requires
            old(self).ph_ok(1),
        ensures
            r@ == old(self).ph_text_i(0),
            *final(self) == old(self).ph_after(1),
    {
        match *self {
            PlaceHolderType::QuestionMark => {
                let r = "?".to_owned();
                proof {
                    reveal_strlit("?");
                    assert(r@ =~= seq!['?']);
                }
                r
            },
            PlaceHolderType::DollarNumber(n) => {
                *self = PlaceHolderType::DollarNumber(n + 1);
                let mut r = "$".to_owned();
                r.append(usize_to_string(n + 1).as_str());
                proof {
                    reveal_strlit("$");
                    assert(r@ =~= seq!['$'] + spec_dec(n as nat + 1));
                }
                r
            },
        }
    }
}

/// Hands out the next `k` placeholder markers in order.
pub fn collect_phs(pht: &mut PlaceHolderType, k: usize) -> (r: Vec<String>)
    requires
        old(pht).ph_ok(k as nat),
    ensures
        *final(pht) == old(pht).ph_after(k as nat),
        r@.map_values(|s: String| s@) == old(pht).ph_texts(k as nat),
{
    let ghost p0 = *pht;
    let mut r: Vec<String> = Vec::new();
    let mut i: usize = 0;
    while i < k
        invariant
            i <= k,
            p0.ph_ok(k as nat),
            *pht == p0.ph_after(i as nat),
            r@.len() == i,
            forall|j: int| 0 <= j < i ==> r@[j]@ == p0.ph_text_i(j as nat),
        decreases k - i,
    {
        proof {
            p0.lemma_ph_after_compose(i as nat, 1);
        }
        let ph = pht.next_ph();
        proof {
            assert(ph@ == p0.ph_text_i(i as nat));
        }
        r.push(ph);
        i = i + 1;
    }
    assert(r@.map_values(|s: String| s@) =~= p0.ph_texts(k as nat));
    r
}

} // verus!

//! The filter tree of a statement: conjunctions, comparisons, `in` lists,
//! negation, raw pieces, and case-insensitive pattern matches. Rendering is
//! pinned, character for character, to the spec functions below.

use vstd::prelude::*;

verus! {

use crate::place_holder::{DbType, PlaceHolderType};
use crate::seg::SqlSeg;
use crate::sql_value::{SegOrVal, SqlValue};
use crate::text::{join_strings, spec_join};

/// How sibling filters are connected.
#[derive(Clone, Copy, Debug, PartialEq, Eq, Structural)]
pub enum WhereConjOp {
    And,
    Or,
}

/// Where the wildcard goes in a case-insensitive match.
#[derive(Clone, Copy, Debug, PartialEq, Eq, Structural)]
pub enum ILikeType {
    Original,
    RightFuzzy,
    LeftFuzzy,
    Fuzzy,
}

/// A running count of filters, used by callers that want to refuse a
/// statement with no filter at all.
#[derive(Debug, PartialEq, Eq, Structural)]
pub struct FilterCount {
    pub check_filter_count: bool,
    pub filter_count: usize,
}

impl FilterCount {
    pub fn new() -> (r: Self)
        ensures
            r.check_filter_count == true,
            r.filter_count == 0,
    {
        Self { check_filter_count: true, filter_count: 0 }
    }

    pub fn increament(self) -> (r: Self)
        requires
            self.filter_count < usize::MAX,
        ensures
            r.filter_count == self.filter_count + 1,
            r.check_filter_count == self.check_filter_count,
    {
        Self { filter_count: self.filter_count + 1, check_filter_count: self.check_filter_count }
    }

    /// True when counting is on and at least one filter was seen.
    pub fn check(&self) -> (r: bool)
        ensures
            r == (self.check_filter_count && self.filter_count > 0),
    {
        self.check_filter_count && self.filter_count > 0
    }
}

impl Default for FilterCount {
    fn default() -> (r: Self)
        ensures
            r.check_filter_count == true,
            r.filter_count == 0,
    {
        Self::new()
    }
}

/// One filter of a statement's `where` clause.
#[derive(Debug)]
pub enum Wheres {
    Conj(WhereConjOp, Vec<Wheres>),
    In(String, Vec<SqlValue>),
    Not(Box<Wheres>),
    Compare { key: String, operator: String, value: SqlValue },
    Raw(String),
    SOV(Vec<SegOrVal>),
    IIike { key: String, value: String },
    Nothing,
}

/// The connective text a conjunction is joined with.
pub open spec fn op_text(op: WhereConjOp) -> Seq<char> {
    match op {
        WhereConjOp::And => " and "@,
        WhereConjOp::Or => " or "@,
    }
}

fn op_str(op: WhereConjOp) -> (r: &'static str)
    ensures
        r@ == op_text(op),
{
    match op {
        WhereConjOp::And => " and ",
        WhereConjOp::Or => " or ",
    }
}

/// The comparison operator a case-insensitive match renders to: SQLite's
/// `like` already ignores case, Postgres needs `ilike`.
pub open spec fn like_op(db_type: DbType) -> Seq<char> {
    match db_type {
        DbType::Sqlite => "like"@,
        DbType::Postgres => "ilike"@,
    }
}

fn like_str(db_type: DbType) -> (r: &'static str)
    ensures
        r@ == like_op(db_type),
{
    match db_type {
        DbType::Sqlite => "like",
        DbType::Postgres => "ilike",
    }
}

/// How many placeholders a raw segment list hands out: one per value.
pub open spec fn sov_count(sovs: Seq<SegOrVal>) -> nat
    decreases sovs.len(),
{
    if sovs.len() == 0 {
        0
    } else {
        (match sovs[0] {
            SegOrVal::Val(_) => 1 as nat,
            SegOrVal::Str(_) => 0 as nat,
        }) + sov_count(sovs.drop_first())
    }
}

/// The pattern text of a case-insensitive match: the needle with wildcards
/// on the sides `fuzz` asks for.
pub open spec fn spec_ilike_text(fuzz: ILikeType, needle: Seq<char>) -> Seq<char> {
    match fuzz {
        ILikeType::Original => needle,
        ILikeType::RightFuzzy => needle + "%"@,
        ILikeType::LeftFuzzy => "%"@ + needle,
        ILikeType::Fuzzy => "%"@ + needle + "%"@,
    }
}

impl Wheres {
    /// How many placeholder markers rendering this filter hands out,
    /// whether or not it renders to anything.
    pub open spec fn ph_count(self) -> nat
        decreases self,
    {
        match self {
            Wheres::Conj(_, vs) => Self::conj_count(vs@),
            Wheres::In(_, vals) => vals@.len(),
            Wheres::Not(b) => (*b).ph_count(),
            Wheres::Compare { .. } => 1,
            Wheres::Raw(_) => 0,
            Wheres::SOV(sovs) => sov_count(sovs@),
            Wheres::IIike { .. } => 1,
            Wheres::Nothing => 0,
        }
    }

    pub open spec fn conj_count(items: Seq<Wheres>) -> nat
        decreases items,
    {
        if items.len() == 0 {
            0
        } else {
            items[0].ph_count() + Self::conj_count(items.drop_first())
        }
    }

    /// What this filter renders to from placeholder state `p`: `None` when
    /// it contributes nothing, else its text and bound values.
    pub open spec fn spec_build(self, db_type: DbType, p: PlaceHolderType) -> Option<(
        Seq<char>,
        Seq<SqlValue>,
    )>
        decreases self,
    {
        match self {
            Wheres::Conj(op, vs) => {
                let parts = Self::spec_conj(vs@, db_type, p);
                if parts.0.len() == 0 {
                    None
                } else {
                    Some((spec_join(parts.0, op_text(op)), parts.1))
                }
            },
            Wheres::In(key, vals) => Some(
                (
                    key@ + " in ("@ + spec_join(p.ph_texts(vals@.len()), ","@) + ")"@,
                    vals@,
                ),
            ),
            Wheres::Not(b) => match (*b).spec_build(db_type, p) {
                Some(tv) => Some((" not ( "@ + tv.0 + ")"@, tv.1)),
                None => None,
            },
            Wheres::Compare { key, operator, value } => Some(
                (key@ + " "@ + operator@ + " "@ + p.ph_text_i(0), seq![value]),
            ),
            Wheres::Raw(s) => Some((" "@ + s@ + " "@, Seq::empty())),
            Wheres::SOV(sovs) => Some(Self::spec_sov(sovs@, p)),
            Wheres::IIike { key, value } => Some(
                (
                    key@ + " "@ + like_op(db_type) + " "@ + p.ph_text_i(0),
                    seq![SqlValue::Str(value)],
                ),
            ),
            Wheres::Nothing => None,
        }
    }

    /// The texts of the children that render to something, and all bound
    /// values, threading the placeholder state left to right.
    pub open spec fn spec_conj(items: Seq<Wheres>, db_type: DbType, p: PlaceHolderType) -> (
        Seq<Seq<char>>,
        Seq<SqlValue>,
    )
        decreases items,
    {
        if items.len() == 0 {
            (Seq::empty(), Seq::empty())
        } else {
            let rest = Self::spec_conj(
                items.drop_first(),
                db_type,
                p.ph_after(items[0].ph_count()),
            );
            match items[0].spec_build(db_type, p) {
                Some(tv) => (seq![tv.0] + rest.0, tv.1 + rest.1),
                None => rest,
            }
        }
    }

    /// A raw segment list rendered in order: text stays, each value becomes
    /// the next placeholder.
    pub open spec fn spec_sov(sovs: Seq<SegOrVal>, p: PlaceHolderType) -> (
        Seq<char>,
        Seq<SqlValue>,
    )
        decreases sovs,
    {
        if sovs.len() == 0 {
            (Seq::empty(), Seq::empty())
        } else {
            match sovs[0] {
                SegOrVal::Str(s) => {
                    let rest = Self::spec_sov(sovs.drop_first(), p);
                    (s@ + rest.0, rest.1)
                },
                SegOrVal::Val(v) => {
                    let rest = Self::spec_sov(sovs.drop_first(), p.ph_after(1));
                    (p.ph_text_i(0) + rest.0, seq![v] + rest.1)
                },
            }
        }
    }

    /// True of a filter that renders to nothing useful: it is `Nothing`, or
    /// every part of it is itself empty.
    pub open spec fn spec_empty(self) -> bool
        decreases self,
    {
        match self {
            Wheres::Conj(_, vs) => Self::spec_all_empty(vs@),
            Wheres::In(_, vals) => vals@.len() == 0,
            Wheres::Not(b) => (*b).spec_empty(),
            Wheres::Compare { key, .. } => key@.len() == 0,
            Wheres::Raw(s) => s@.len() == 0,
            Wheres::SOV(sovs) => sovs@.len() == 0,
            Wheres::IIike { key, .. } => key@.len() == 0,
            Wheres::Nothing => true,
        }
    }

    pub open spec fn spec_all_empty(items: Seq<Wheres>) -> bool
        decreases items,
    {
        items.len() == 0 || (items[0].spec_empty() && Self::spec_all_empty(items.drop_first()))
    }

    /// Whether this filter is empty, as [`Self::spec_empty`] defines it.
    pub fn empty(&self) -> (r: bool)
        ensures
            r == self.spec_empty(),
        decreases *self,
    {
        match self {
            Wheres::Conj(_op, items) => {
                let mut i: usize = 0;
                assert(items@.subrange(0, items@.len() as int) =~= items@);
                while i < items.len()
                    invariant
                        i <= items@.len(),
                        Self::spec_all_empty(items@) <==> Self::spec_all_empty(
                            items@.subrange(i as int, items@.len() as int),
                        ),
                        *self matches Wheres::Conj(_, vs) && vs@ == items@,
                    decreases items@.len() - i,
                {
                    let sub = &items[i];
                    proof {
                        assert(items@.subrange(i as int, items@.len() as int).drop_first()
                            =~= items@.subrange(i as int + 1, items@.len() as int));
                        assert(items@.subrange(i as int, items@.len() as int)[0] == items@[i as int]);
                        assert(decreases_to!(*self => items@[i as int]));
                    }
                    if !sub.empty() {
                        return false;
                    }
                    i = i + 1;
                }
                proof {
                    assert(Self::spec_all_empty(
                        items@.subrange(items@.len() as int, items@.len() as int),
                    ));
                }
                true
            },
            Wheres::In(_key, vals) => vals.len() == 0,
            Wheres::Not(b) => b.empty(),
            Wheres::Compare { key, .. } => key.as_str().is_empty(),
            Wheres::Raw(s) => s.as_str().is_empty(),
            Wheres::SOV(sovs) => sovs.len() == 0,
            Wheres::IIike { key, .. } => key.as_str().is_empty(),
            Wheres::Nothing => true,
        }
    }

    /// An equality filter: `key = ?`.
    pub fn equal(key: String, v: SqlValue) -> (r: Self)
        ensures
            r matches Wheres::Compare { key: k, operator: op, value: val } && k == key && op@
                == "="@ && val == v,
    {
        Self::Compare { key, operator: "=".to_owned(), value: v }
    }

    /// A case-insensitive pattern filter; an empty needle filters nothing.
    pub fn ilike(key: String, v: &str, exact: ILikeType) -> (r: Self)
        ensures
            v@.len() == 0 ==> r is Nothing,
            v@.len() > 0 ==> (r matches Wheres::IIike { key: k, value: val } && k == key && val@
                == spec_ilike_text(exact, v@)),
    {
        if v.is_empty() {
            return Wheres::Nothing;
        }
        let value: String = match exact {
            ILikeType::Original => v.to_owned(),
            ILikeType::RightFuzzy => {
                let mut s = v.to_owned();
                s.append("%");
                s
            },
            ILikeType::LeftFuzzy => {
                let mut s = "%".to_owned();
                s.append(v);
                s
            },
            ILikeType::Fuzzy => {
                let mut s = "%".to_owned();
                s.append(v);
                s.append("%");
                s
            },
        };
        Self::IIike { key, value }
    }

    /// A raw `key is null` filter.
    pub fn is_null(key: String) -> (r: Self)
        ensures
            r matches Wheres::Raw(s) && s@ == key@ + " "@ + "is"@ + " "@ + "null"@,
    {
        Self::compare_str(key, "is", "null")
    }

    /// A raw `key is not null` filter.
    pub fn is_not_null(key: String) -> (r: Self)
        ensures
            r matches Wheres::Raw(s) && s@ == key@ + " "@ + "is not"@ + " "@ + "null"@,
    {
        Self::compare_str(key, "is not", "null")
    }

    /// A comparison filter with the given operator: `key op ?`.
    pub fn compare(key: String, operator: String, v: SqlValue) -> (r: Self)
        ensures
            r matches Wheres::Compare { key: k, operator: op, value: val } && k == key && op
                == operator && val == v,
    {
        Self::Compare { key, operator, value: v }
    }

    /// A raw filter with both sides as text: `key op v`.
    pub fn compare_str(key: String, operator: &str, v: &str) -> (r: Self)
        ensures
            r matches Wheres::Raw(s) && s@ == key@ + " "@ + operator@ + " "@ + v@,
    {
        let mut s = key;
        s.append(" ");
        s.append(operator);
        s.append(" ");
        s.append(v);
        Self::Raw(s)
    }

    /// Maps the value, if there is one, to a filter; filters nothing
    /// otherwise.
    pub fn if_some<T, F: FnOnce(T) -> Wheres>(original: Option<T>, map: F) -> (r: Self)
        requires
            original matches Some(t) ==> call_requires(map, (t,)),
        ensures
            original matches Some(t) ==> call_ensures(map, (t,), r),
            original is None ==> r is Nothing,
    {
        match original {
            Some(t) => map(t),
            None => Wheres::Nothing,
        }
    }

    pub fn not(values: Wheres) -> (r: Self)
        ensures
            r matches Wheres::Not(b) && *b == values,
    {
        Self::Not(Box::new(values))
    }

    pub fn and(values: Vec<Wheres>) -> (r: Self)
        ensures
            r == Wheres::Conj(WhereConjOp::And, values),
    {
        Self::Conj(WhereConjOp::And, values)
    }

    pub fn or(values: Vec<Wheres>) -> (r: Self)
        ensures
            r == Wheres::Conj(WhereConjOp::Or, values),
    {
        Self::Conj(WhereConjOp::Or, values)
    }

    /// Applies the map to the value; a general hook for building a filter
    /// from anything.
    pub fn transform<T, F: FnOnce(T) -> Wheres>(original: T, map: F) -> (r: Self)
        requires
            call_requires(map, (original,)),
        ensures
            call_ensures(map, (original,), r),
    {
        map(original)
    }

    /// A membership filter: `key in (?, ?, …)`, one placeholder per value.
    pub fn in_list(key: String, values: Vec<SqlValue>) -> (r: Self)
        ensures
            r == Wheres::In(key, values),
    {
        Self::In(key, values)
    }

    /// The filter that filters nothing.
    pub fn none() -> (r: Self)
        ensures
            r is Nothing,
    {
        Self::Nothing
    }

    /// Renders this filter, handing out placeholders from `value_type`.
    /// Returns `None` exactly where [`Self::spec_build`] does; otherwise the
    /// segment's text and values are the spec's.
    pub fn build(self, db_type: DbType, value_type: &mut PlaceHolderType) -> (r: Option<SqlSeg>)
        requires
            old(value_type).ph_ok(self.ph_count()),
        ensures
            *final(value_type) == old(value_type).ph_after(self.ph_count()),
            match self.spec_build(db_type, *old(value_type)) {
                Some(tv) => r matches Some(s) && s.seg@ == tv.0 && s.values@ == tv.1,
                None => r is None,
            },
        decreases self,
    {
        let ghost p0 = *value_type;
        let ghost w0 = self;
        match self {
            Wheres::Conj(op, vs) => {
                proof {
                    assert(decreases_to!(w0 => vs));
                    assert(decreases_to!(vs => vs@));
                }
                let parts = Self::build_conj(vs, db_type, value_type);
                let (texts, vals) = parts;
                if texts.len() == 0 {
                    None
                } else {
                    let seg = join_strings(&texts, op_str(op));
                    Some(SqlSeg { seg, values: vals })
                }
            },
            Wheres::In(key, vals) => {
                let mut seg = key;
                seg.append(" in (");
                let phs = crate::place_holder::collect_phs(value_type, vals.len());
                let joined = join_strings(&phs, ",");
                seg.append(joined.as_str());
                seg.append(")");
                Some(SqlSeg { seg, values: vals })
            },
            Wheres::Not(b) => {
                match (*b).build(db_type, value_type) {
                    Some(ss) => {
                        let mut seg = " not ( ".to_owned();
                        seg.append(ss.seg.as_str());
                        seg.append(")");
                        Some(SqlSeg { seg, values: ss.values })
                    },
                    None => None,
                }
            },
            Wheres::Compare { key, operator, value } => {
                let mut seg = key;
                seg.append(" ");
                seg.append(operator.as_str());
                seg.append(" ");
                let ph = value_type.next_ph();
                seg.append(ph.as_str());
                let mut values: Vec<SqlValue> = Vec::new();
                values.push(value);
                assert(values@ =~= seq![value]);
                Some(SqlSeg { seg, values })
            },
            Wheres::Raw(s) => {
                let mut seg = " ".to_owned();
                seg.append(s.as_str());
                seg.append(" ");
                let values: Vec<SqlValue> = Vec::new();
                assert(values@ =~= Seq::<SqlValue>::empty());
                Some(SqlSeg { seg, values })
            },
            Wheres::SOV(sovs) => {
                let (seg, values) = Self::build_sov(sovs, value_type);
                Some(SqlSeg { seg, values })
            },
            Wheres::IIike { key, value } => {
                let mut seg = key;
                seg.append(" ");
                seg.append(like_str(db_type));
                seg.append(" ");
                let ph = value_type.next_ph();
                seg.append(ph.as_str());
                let mut values: Vec<SqlValue> = Vec::new();
                values.push(SqlValue::Str(value));
                assert(values@ =~= seq![SqlValue::Str(value)]);
                Some(SqlSeg { seg, values })
            },
            Wheres::Nothing => None,
        }
    }

    /// Renders each child in order, keeping the texts of those that render
    /// to something and every bound value.
    fn build_conj(items: Vec<Wheres>, db_type: DbType, pht: &mut PlaceHolderType) -> (r: (
        Vec<String>,
        Vec<SqlValue>,
    ))
        requires
            old(pht).ph_ok(Self::conj_count(items@)),
        ensures
            *final(pht) == old(pht).ph_after(Self::conj_count(items@)),
            r.0@.map_values(|s: String| s@) == Self::spec_conj(items@, db_type, *old(pht)).0,
            r.1@ == Self::spec_conj(items@, db_type, *old(pht)).1,
        decreases items@,
    {
        let ghost p0 = *pht;
        let mut items = items;
        if items.len() == 0 {
            let texts: Vec<String> = Vec::new();
            let vals: Vec<SqlValue> = Vec::new();
            assert(texts@.map_values(|s: String| s@) =~= Seq::<Seq<char>>::empty());
            assert(vals@ =~= Seq::<SqlValue>::empty());
            (texts, vals)
        } else {
            let ghost items0 = items@;
            let first = items.remove(0);
            assert(first == items0[0]);
            assert(items@ =~= items0.drop_first());
            proof {
                assert(decreases_to!(items0 => items0[0]));
                assert(items0.drop_first() =~= items0.subrange(1, items0.len() as int));
                assert(decreases_to!(items0 => items0.subrange(1, items0.len() as int)));
                p0.lemma_ph_after_compose(
                    items0[0].ph_count(),
                    Self::conj_count(items0.drop_first()),
                );
            }
            let head = first.build(db_type, pht);
            let rest = Self::build_conj(items, db_type, pht);
            let (mut texts, mut vals) = rest;
            match head {
                Some(ss) => {
                    texts.insert(0, ss.seg);
                    let mut out_vals = ss.values;
                    out_vals.append(&mut vals);
                    proof {
                        let spec = Self::spec_conj(items0, db_type, p0);
                        let rest_spec = Self::spec_conj(
                            items0.drop_first(),
                            db_type,
                            p0.ph_after(items0[0].ph_count()),
                        );
                        assert(texts@.map_values(|s: String| s@) =~= spec.0);
                        assert(out_vals@ =~= spec.1);
                    }
                    (texts, out_vals)
                },
                None => {
                    (texts, vals)
                },
            }
        }
    }

    /// Renders a raw segment list: text stays, each value becomes the next
    /// placeholder.
    pub(crate) fn build_sov(sovs: Vec<SegOrVal>, pht: &mut PlaceHolderType) -> (r: (
        String,
        Vec<SqlValue>,
    ))
        requires
            old(pht).ph_ok(sov_count(sovs@)),
        ensures
            *final(pht) == old(pht).ph_after(sov_count(sovs@)),
            r.0@ == Self::spec_sov(sovs@, *old(pht)).0,
            r.1@ == Self::spec_sov(sovs@, *old(pht)).1,
        decreases sovs@,
    {
        let ghost p0 = *pht;
        let mut sovs = sovs;
        if sovs.len() == 0 {
            let vals: Vec<SqlValue> = Vec::new();
            let s = String::new();
            assert(s@ =~= Seq::<char>::empty());
            assert(vals@ =~= Seq::<SqlValue>::empty());
            (s, vals)
        } else {
            let ghost sovs0 = sovs@;
            let first = sovs.remove(0);
            assert(first == sovs0[0]);
            assert(sovs@ =~= sovs0.drop_first());
            proof {
                assert(sovs0.drop_first() =~= sovs0.subrange(1, sovs0.len() as int));
                assert(decreases_to!(sovs0 => sovs0.subrange(1, sovs0.len() as int)));
            }
            match first {
                SegOrVal::Str(text) => {
                    let rest = Self::build_sov(sovs, pht);
                    let mut seg = text;
                    seg.append(rest.0.as_str());
                    (seg, rest.1)
                },
                SegOrVal::Val(v) => {
                    proof {
                        p0.lemma_ph_after_compose(1, sov_count(sovs0.drop_first()));
                    }
                    let ph = pht.next_ph();
                    let rest = Self::build_sov(sovs, pht);
                    let mut seg = ph;
                    seg.append(rest.0.as_str());
                    let mut vals: Vec<SqlValue> = Vec::new();
                    vals.push(v);
                    let mut tail = rest.1;
                    vals.append(&mut tail);
                    proof {
                        let spec = Self::spec_sov(sovs0, p0);
                        assert(vals@ =~= spec.1);
                    }
                    (seg, vals)
                },
            }
        }
    }
}

} // verus!

//! The differ: cross-document structural comparison by presence, revision
//! and, on request, full content.

use vstd::prelude::*;

use crate::fingerprint::{dc_fingerprint, fingerprint_of, form_fingerprint, pc_fingerprint};
use crate::model::data_catalogue::DataCatalogue;
use crate::model::form::Form;
use crate::model::onkostar_editor::{doc_sorted_rel, OnkostarEditor};
use crate::model::property_catalogue::PropertyCatalogue;
use crate::model::Comparable;

verus! {

impl Comparable for PropertyCatalogue {
    open spec fn name_spec(&self) -> Seq<char> {
        self.name@
    }

    open spec fn revision_spec(&self) -> u16 {
        self.revision
    }

    open spec fn fingerprint_spec(&self) -> Seq<char> {
        fingerprint_of(crate::fingerprint::fp_property_catalogue(crate::fingerprint::fp_seed(), *self))
    }

    fn get_name(&self) -> (r: String) {
        self.name.clone()
    }

    fn get_revision(&self) -> (r: u16) {
        self.revision
    }

    fn get_hash(&self) -> (r: String) {
        pc_fingerprint(self)
    }
}

impl Comparable for DataCatalogue {
    open spec fn name_spec(&self) -> Seq<char> {
        self.name@
    }

    open spec fn revision_spec(&self) -> u16 {
        self.revision
    }

    open spec fn fingerprint_spec(&self) -> Seq<char> {
        fingerprint_of(crate::fingerprint::fp_data_catalogue(crate::fingerprint::fp_seed(), *self))
    }

    fn get_name(&self) -> (r: String) {
        self.name.clone()
    }

    fn get_revision(&self) -> (r: u16) {
        self.revision
    }

    fn get_hash(&self) -> (r: String) {
        dc_fingerprint(self)
    }
}

impl<Type> Comparable for Form<Type> {
    open spec fn name_spec(&self) -> Seq<char> {
        self.name@
    }

    open spec fn revision_spec(&self) -> u16 {
        self.revision
    }

    open spec fn fingerprint_spec(&self) -> Seq<char> {
        fingerprint_of(crate::fingerprint::fp_form(crate::fingerprint::fp_seed(), *self))
    }

    fn get_name(&self) -> (r: String) {
        self.name.clone()
    }

    fn get_revision(&self) -> (r: u16) {
        self.revision
    }

    fn get_hash(&self) -> (r: String) {
        form_fingerprint(self)
    }
}

/// The readings of a list of owned strings.
pub open spec fn name_views(v: Seq<String>) -> Seq<Seq<char>> {
    v.map(|i: int, s: String| s@)
}

/// The spec-level findings of a finding list.
pub open spec fn findings_of(v: Seq<DiffEntry>) -> Seq<FindingSpec> {
    v.map(|i: int, e: DiffEntry| FindingSpec { name: e.name@, verdict: e.verdict })
}

/// What the comparison reads of one entity: its name, its revision and its
/// content fingerprint.
#[verifier::ext_equal]
pub struct ItemKey {
    pub name: Seq<char>,
    pub revision: u16,
    pub print: Seq<char>,
}

/// The comparison keys of a collection, in collection order.
pub open spec fn keys_of<T: Comparable>(s: Seq<T>) -> Seq<ItemKey> {
    s.map(
        |i: int, x: T|
            ItemKey { name: x.name_spec(), revision: x.revision_spec(), print: x.fingerprint_spec() },
    )
}

/// Whether any key in `ys` carries the name `n`.
pub open spec fn has_name(ys: Seq<ItemKey>, n: Seq<char>) -> bool {
    exists|j: int| 0 <= j < ys.len() && (#[trigger] ys[j]).name == n
}

/// The names of `xs` that appear nowhere in `ys`, in `xs` order.
pub open spec fn missing_names(xs: Seq<ItemKey>, ys: Seq<ItemKey>) -> Seq<Seq<char>>
    decreases xs.len(),
{
    if xs.len() == 0 {
        Seq::<Seq<char>>::empty()
    } else {
        missing_names(xs.drop_last(), ys) + (if has_name(ys, xs.last().name) {
            Seq::<Seq<char>>::empty()
        } else {
            seq![xs.last().name]
        })
    }
}

/// The verdict the comparison reaches for one entity present on both
/// sides.
pub enum DiffVerdict {
    /// Side A carries the higher revision.
    NewerInA { rev_a: u16, rev_b: u16 },
    /// Side B carries the higher revision.
    NewerInB { rev_a: u16, rev_b: u16 },
    /// Revisions agree but the content fingerprints differ.
    ContentDiffers,
    /// Revisions and content fingerprints agree.
    Identical,
}

/// One named finding of the comparison, at the specification level.
#[verifier::ext_equal]
pub struct FindingSpec {
    pub name: Seq<char>,
    pub verdict: DiffVerdict,
}

/// The findings one matched pair yields: a revision direction, or, under
/// the strict mode, a content verdict; nothing when revisions agree and
/// strictness was not asked for.
pub open spec fn pair_finding(x: ItemKey, y: ItemKey, strict: bool) -> Seq<FindingSpec> {
    if x.revision < y.revision {
        seq![
            FindingSpec {
                name: x.name,
                verdict: DiffVerdict::NewerInB { rev_a: x.revision, rev_b: y.revision },
            },
        ]
    } else if x.revision > y.revision {
        seq![
            FindingSpec {
                name: x.name,
                verdict: DiffVerdict::NewerInA { rev_a: x.revision, rev_b: y.revision },
            },
        ]
    } else if strict && x.print != y.print {
        seq![FindingSpec { name: x.name, verdict: DiffVerdict::ContentDiffers }]
    } else if strict {
        seq![FindingSpec { name: x.name, verdict: DiffVerdict::Identical }]
    } else {
        Seq::<FindingSpec>::empty()
    }
}

/// The findings one entity of side A yields against every same-named
/// entity of side B, in B's order.
pub open spec fn inner_findings(x: ItemKey, ys: Seq<ItemKey>, strict: bool) -> Seq<FindingSpec>
    decreases ys.len(),
{
    if ys.len() == 0 {
        Seq::<FindingSpec>::empty()
    } else {
        inner_findings(x, ys.drop_last(), strict) + (if ys.last().name == x.name {
            pair_finding(x, ys.last(), strict)
        } else {
            Seq::<FindingSpec>::empty()
        })
    }
}

/// Every finding of the nested scan of side A against side B.
pub open spec fn pair_findings(xs: Seq<ItemKey>, ys: Seq<ItemKey>, strict: bool) -> Seq<
    FindingSpec,
>
    decreases xs.len(),
{
    if xs.len() == 0 {
        Seq::<FindingSpec>::empty()
    } else {
        pair_findings(xs.drop_last(), ys, strict) + inner_findings(xs.last(), ys, strict)
    }
}

/// One named finding of the comparison.
pub struct DiffEntry {
    pub name: String,
    pub verdict: DiffVerdict,
}

/// The report for one collection kind: the names present on only one
/// side, and a verdict per matched pair.
pub struct CollectionDiff {
    pub only_in_a: Vec<String>,
    pub only_in_b: Vec<String>,
    pub entries: Vec<DiffEntry>,
}

/// The full comparison report, one sub-report per collection kind.
pub struct DiffReport {
    pub property_catalogue: CollectionDiff,
    pub data_catalogue: CollectionDiff,
    pub data_form: CollectionDiff,
    pub unterformular: CollectionDiff,
}

/// What a collection report states, at the specification level.
pub open spec fn collection_diff_ok(
    r: CollectionDiff,
    a: Seq<ItemKey>,
    b: Seq<ItemKey>,
    strict: bool,
) -> bool {
    &&& name_views(r.only_in_a@) == missing_names(a, b)
    &&& name_views(r.only_in_b@) == missing_names(b, a)
    &&& findings_of(r.entries@) == pair_findings(a, b, strict)
}

fn names_missing_from<T: Comparable>(xs: &Vec<T>, ys: &Vec<T>) -> (r: Vec<String>)
    ensures
        name_views(r@) == missing_names(keys_of(xs@), keys_of(ys@)),
{
    let n = xs.len();
    let mut out: Vec<String> = Vec::new();
    let mut i: usize = 0;
    assert(keys_of(xs@).take(0) =~= Seq::<ItemKey>::empty());
    assert(name_views(out@) =~= missing_names(keys_of(xs@).take(0), keys_of(ys@)));
    while i < n
        invariant
            i <= n,
            n == xs@.len(),
            name_views(out@) == missing_names(keys_of(xs@).take(i as int), keys_of(ys@)),
        decreases n - i,
    {
        proof {
            assert(keys_of(xs@).take(i + 1).drop_last() =~= keys_of(xs@).take(i as int));
            assert(keys_of(xs@).take(i + 1).last() == keys_of(xs@)[i as int]);
        }
        proof {
            assert(keys_of(xs@)[i as int].name == xs@[i as int].name_spec());
        }
        let name = xs[i].get_name();
        let m = ys.len();
        let mut j: usize = 0;
        let mut found: bool = false;
        while j < m
            invariant
                j <= m,
                m == ys@.len(),
                found == exists|k: int|
                    0 <= k < j && (#[trigger] keys_of(ys@)[k]).name == xs@[i as int].name_spec(),
                name@ == xs@[i as int].name_spec(),
            decreases m - j,
        {
            proof {
                assert(keys_of(ys@)[j as int].name == ys@[j as int].name_spec());
            }
            let other = ys[j].get_name();
            if crate::text::str_eq(name.as_str(), other.as_str()) {
                found = true;
                assert((keys_of(ys@)[j as int]).name == xs@[i as int].name_spec());
            }
            j = j + 1;
        }
        proof {
            if found {
                assert(has_name(keys_of(ys@), keys_of(xs@)[i as int].name));
            } else {
                assert(!has_name(keys_of(ys@), keys_of(xs@)[i as int].name));
            }
        }
        if !found {
            out.push(name);
        }
        assert(name_views(out@) =~= missing_names(keys_of(xs@).take(i + 1), keys_of(ys@)));
        i = i + 1;
    }
    assert(keys_of(xs@).take(n as int) =~= keys_of(xs@));
    out
}

/// Compares two collections of one kind: reports the names present on
/// only one side, and a verdict per same-named pair — the revision
/// direction, or, under strict mode, whether the full content agrees.
pub fn diff_items<T: Comparable>(a: &Vec<T>, b: &Vec<T>, strict: bool) -> (r: CollectionDiff)
    ensures
        collection_diff_ok(r, keys_of(a@), keys_of(b@), strict),
{
    let only_in_b = names_missing_from(b, a);
    let only_in_a = names_missing_from(a, b);
    let mut entries: Vec<DiffEntry> = Vec::new();
    let n = a.len();
    let mut i: usize = 0;
    let ghost ka = keys_of(a@);
    let ghost kb = keys_of(b@);
    assert(ka.take(0) =~= Seq::<ItemKey>::empty());
    assert(findings_of(entries@) =~= pair_findings(ka.take(0), kb, strict));
    while i < n
        invariant
            i <= n,
            n == a@.len(),
            ka == keys_of(a@),
            kb == keys_of(b@),
            findings_of(entries@) == pair_findings(ka.take(i as int), kb, strict),
        decreases n - i,
    {
        proof {
            assert(ka.take(i + 1).drop_last() =~= ka.take(i as int));
            assert(ka.take(i + 1).last() == ka[i as int]);
        }
        proof {
            assert(ka[i as int] == (ItemKey {
                name: a@[i as int].name_spec(),
                revision: a@[i as int].revision_spec(),
                print: a@[i as int].fingerprint_spec(),
            }));
        }
        let name_a = a[i].get_name();
        let rev_a = a[i].get_revision();
        let hash_a = if strict {
            Some(a[i].get_hash())
        } else {
            None
        };
        let m = b.len();
        let mut j: usize = 0;
        assert(kb.take(0) =~= Seq::<ItemKey>::empty());
        let ghost base = findings_of(entries@);
        assert(base + inner_findings(ka[i as int], kb.take(0), strict) =~= base);
        while j < m
            invariant
                j <= m,
                m == b@.len(),
                ka == keys_of(a@),
                kb == keys_of(b@),
                0 <= i < ka.len(),
                name_a@ == ka[i as int].name,
                rev_a == ka[i as int].revision,
                (match hash_a {
                    Some(h) => strict && h@ == ka[i as int].print,
                    None => !strict,
                }),
                findings_of(entries@) == base + inner_findings(
                    ka[i as int],
                    kb.take(j as int),
                    strict,
                ),
            decreases m - j,
    {
            proof {
                assert(kb.take(j + 1).drop_last() =~= kb.take(j as int));
                assert(kb.take(j + 1).last() == kb[j as int]);
            }
            let ghost pre = findings_of(entries@);
            proof {
                assert(kb[j as int] == (ItemKey {
                    name: b@[j as int].name_spec(),
                    revision: b@[j as int].revision_spec(),
                    print: b@[j as int].fingerprint_spec(),
                }));
            }
            let ghost inner_j = inner_findings(ka[i as int], kb.take(j as int), strict);
            let ghost x_add: Seq<FindingSpec> = if kb[j as int].name == ka[i as int].name {
                pair_finding(ka[i as int], kb[j as int], strict)
            } else {
                Seq::<FindingSpec>::empty()
            };
            let name_b = b[j].get_name();
            if crate::text::str_eq(name_a.as_str(), name_b.as_str()) {
                let rev_b = b[j].get_revision();
                if rev_a < rev_b {
                    entries.push(
                        DiffEntry {
                            name: name_a.clone(),
                            verdict: DiffVerdict::NewerInB { rev_a, rev_b },
                        },
                    );
                    proof {
                        assert(x_add =~= seq![
                            FindingSpec {
                                name: ka[i as int].name,
                                verdict: DiffVerdict::NewerInB { rev_a, rev_b },
                            },
                        ]);
                        assert(findings_of(entries@) =~= pre + x_add);
                    }
                } else if rev_a > rev_b {
                    entries.push(
                        DiffEntry {
                            name: name_a.clone(),
                            verdict: DiffVerdict::NewerInA { rev_a, rev_b },
                        },
                    );
                    proof {
                        assert(x_add =~= seq![
                            FindingSpec {
                                name: ka[i as int].name,
                                verdict: DiffVerdict::NewerInA { rev_a, rev_b },
                            },
                        ]);
                        assert(findings_of(entries@) =~= pre + x_add);
                    }
                } else if strict {
                    let hash_b = b[j].get_hash();
                    let same = match &hash_a {
                        Some(h) => crate::text::str_eq(h.as_str(), hash_b.as_str()),
                        None => true,
                    };
                    if !same {
                        entries.push(
                            DiffEntry {
                                name: name_a.clone(),
                                verdict: DiffVerdict::ContentDiffers,
                            },
                        );
                        proof {
                            assert(ka[i as int].print != kb[j as int].print);
                            assert(x_add =~= seq![
                                FindingSpec {
                                    name: ka[i as int].name,
                                    verdict: DiffVerdict::ContentDiffers,
                                },
                            ]);
                            assert(findings_of(entries@) =~= pre + x_add);
                        }
                    } else {
                        entries.push(
                            DiffEntry { name: name_a.clone(), verdict: DiffVerdict::Identical },
                        );
                        proof {
                            assert(ka[i as int].print == kb[j as int].print);
                            assert(x_add =~= seq![
                                FindingSpec {
                                    name: ka[i as int].name,
                                    verdict: DiffVerdict::Identical,
                                },
                            ]);
                            assert(findings_of(entries@) =~= pre + x_add);
                        }
                    }
                } else {
                    assert(x_add =~= Seq::<FindingSpec>::empty());
                    assert(findings_of(entries@) =~= pre + x_add);
                }
            } else {
                assert(x_add =~= Seq::<FindingSpec>::empty());
                assert(findings_of(entries@) =~= pre + x_add);
            }
            proof {
                assert(inner_findings(ka[i as int], kb.take(j + 1), strict) == inner_j + x_add);
                assert(pre == base + inner_j);
                vstd::seq_lib::lemma_concat_associative(base, inner_j, x_add);
                assert(findings_of(entries@) =~= base + inner_findings(
                    ka[i as int],
                    kb.take(j + 1),
                    strict,
                ));
            }
            j = j + 1;
        }
        proof {
            assert(kb.take(m as int) =~= kb);
            assert(findings_of(entries@) =~= pair_findings(ka.take(i + 1), kb, strict));
        }
        i = i + 1;
    }
    assert(ka.take(n as int) =~= ka);
    CollectionDiff { only_in_a, only_in_b, entries }
}

impl CollectionDiff {
    /// Whether the report shows any difference.
    pub fn has_differences(&self) -> (r: bool)
        ensures
            r == (self.only_in_a@.len() > 0 || self.only_in_b@.len() > 0 || exists|i: int|
                0 <= i < self.entries@.len() && !((#[trigger] self.entries@[i]).verdict
                    matches DiffVerdict::Identical)),
    {
        if self.only_in_a.len() > 0 || self.only_in_b.len() > 0 {
            return true;
        }
        let n = self.entries.len();
        let mut i: usize = 0;
        while i < n
            invariant
                i <= n,
                n == self.entries@.len(),
                forall|j: int|
                    0 <= j < i ==> (#[trigger] self.entries@[j]).verdict
                        matches DiffVerdict::Identical,
            decreases n - i,
        {
            if !matches!(self.entries[i].verdict, DiffVerdict::Identical) {
                return true;
            }
            i = i + 1;
        }
        false
    }
}

impl OnkostarEditor {
    /// Compares two documents: both are first brought into canonical
    /// order, then each collection kind is compared by presence, revision
    /// and, under strict mode, full content.
    pub fn diff(&mut self, other: &mut OnkostarEditor, strict: bool) -> (r: DiffReport)
        ensures
            doc_sorted_rel(*old(self), *final(self)),
            doc_sorted_rel(*old(other), *final(other)),
            collection_diff_ok(
                r.property_catalogue,
                keys_of(final(self).editor.property_catalogue@),
                keys_of(final(other).editor.property_catalogue@),
                strict,
            ),
            collection_diff_ok(
                r.data_catalogue,
                keys_of(final(self).editor.data_catalogue@),
                keys_of(final(other).editor.data_catalogue@),
                strict,
            ),
            collection_diff_ok(
                r.data_form,
                keys_of(final(self).editor.data_form@),
                keys_of(final(other).editor.data_form@),
                strict,
            ),
            collection_diff_ok(
                r.unterformular,
                keys_of(final(self).editor.unterformular@),
                keys_of(final(other).editor.unterformular@),
                strict,
            ),
    {
        self.sorted();
        other.sorted();
        let property_catalogue = diff_items(
            &self.editor.property_catalogue,
            &other.editor.property_catalogue,
            strict,
        );
        let data_catalogue = diff_items(
            &self.editor.data_catalogue,
            &other.editor.data_catalogue,
            strict,
        );
        let data_form = diff_items(&self.editor.data_form, &other.editor.data_form, strict);
        let unterformular = diff_items(
            &self.editor.unterformular,
            &other.editor.unterformular,
            strict,
        );
        DiffReport { property_catalogue, data_catalogue, data_form, unterformular }
    }
}

/// Presence symmetry: what the comparison of A against B reports as
/// present only in A is exactly what the comparison of B against A
/// reports as present only in B, and the other way round.
pub proof fn lemma_diff_presence_symmetric(
    ra: CollectionDiff,
    rb: CollectionDiff,
    a: Seq<ItemKey>,
    b: Seq<ItemKey>,
    strict_a: bool,
    strict_b: bool,
)
    requires
        collection_diff_ok(ra, a, b, strict_a),
        collection_diff_ok(rb, b, a, strict_b),
    ensures
        name_views(ra.only_in_a@) == name_views(rb.only_in_b@),
        name_views(ra.only_in_b@) == name_views(rb.only_in_a@),
{
}

/// Revision monotonicity: a reported revision verdict always points at
/// the side with the strictly higher revision — an entity whose revision
/// is lower in A than in B is reported as newer in B, never the reverse.
pub proof fn lemma_diff_revision_monotonic(xs: Seq<ItemKey>, ys: Seq<ItemKey>, strict: bool)
    ensures
        forall|k: int|
            0 <= k < pair_findings(xs, ys, strict).len()
                ==> match (#[trigger] pair_findings(xs, ys, strict)[k]).verdict {
                DiffVerdict::NewerInB { rev_a, rev_b } => rev_a < rev_b,
                DiffVerdict::NewerInA { rev_a, rev_b } => rev_a > rev_b,
                _ => true,
            },
    decreases xs.len(),
{
    if xs.len() > 0 {
        lemma_diff_revision_monotonic(xs.drop_last(), ys, strict);
        lemma_inner_revision_monotonic(xs.last(), ys, strict);
        let whole = pair_findings(xs, ys, strict);
        let left = pair_findings(xs.drop_last(), ys, strict);
        let right = inner_findings(xs.last(), ys, strict);
        assert forall|k: int| 0 <= k < whole.len() implies match (#[trigger] whole[k]).verdict {
            DiffVerdict::NewerInB { rev_a, rev_b } => rev_a < rev_b,
            DiffVerdict::NewerInA { rev_a, rev_b } => rev_a > rev_b,
            _ => true,
        } by {
            if k < left.len() {
                assert(whole[k] == left[k]);
            } else {
                assert(whole[k] == right[k - left.len()]);
            }
        }
    }
}

proof fn lemma_inner_revision_monotonic(x: ItemKey, ys: Seq<ItemKey>, strict: bool)
    ensures
        forall|k: int|
            0 <= k < inner_findings(x, ys, strict).len()
                ==> match (#[trigger] inner_findings(x, ys, strict)[k]).verdict {
                DiffVerdict::NewerInB { rev_a, rev_b } => rev_a < rev_b,
                DiffVerdict::NewerInA { rev_a, rev_b } => rev_a > rev_b,
                _ => true,
            },
    decreases ys.len(),
{
    if ys.len() > 0 {
        lemma_inner_revision_monotonic(x, ys.drop_last(), strict);
        let whole = inner_findings(x, ys, strict);
        let left = inner_findings(x, ys.drop_last(), strict);
        let right = if ys.last().name == x.name {
            pair_finding(x, ys.last(), strict)
        } else {
            Seq::<FindingSpec>::empty()
        };
        assert forall|k: int| 0 <= k < whole.len() implies match (#[trigger] whole[k]).verdict {
            DiffVerdict::NewerInB { rev_a, rev_b } => rev_a < rev_b,
            DiffVerdict::NewerInA { rev_a, rev_b } => rev_a > rev_b,
            _ => true,
        } by {
            if k < left.len() {
                assert(whole[k] == left[k]);
            } else {
                assert(whole[k] == right[k - left.len()]);
            }
        }
    }
}

} // verus!

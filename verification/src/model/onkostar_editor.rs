//! The document root: header metadata and the four entity collections,
//! with name resolution, canonical ordering, stripping and the
//! cross-document consistency check.

use vstd::prelude::*;

use crate::checks::{notice_views, CheckNotice, NoticeSpec};
use crate::model::data_catalogue::DataCatalogue;
use crate::model::data_catalogue::dc_sorted_rel;
use crate::model::form::{
    df_check_spec, form_sorted_rel, uf_check_spec, DataFormType, Form, UnterformularType,
};
use crate::model::property_catalogue::pc_sorted_rel;
use crate::model::other::{Ablaufschema, Rskript, SidGuid};
use crate::model::property_catalogue::PropertyCatalogue;
use crate::model::requirements::Requirement;
use crate::profile::Profile;
use crate::sorting::{sort, sort_le, Sortable};
use crate::text::eq_ignore_case_spec;

verus! {

/// The header of a document: when and by what it was produced.
pub struct InfoXML {
    pub datum_xml: String,
    pub name: String,
    pub version: String,
}

/// The four entity collections of a document, together with the
/// passthrough collections the format may carry beside them.
pub struct Editor {
    pub property_catalogue: Vec<PropertyCatalogue>,
    pub data_catalogue: Vec<DataCatalogue>,
    pub unterformular: Vec<Form<UnterformularType>>,
    pub data_form: Vec<Form<DataFormType>>,
    pub ablaufschema: Option<Vec<Ablaufschema>>,
    pub rskript: Option<Vec<Rskript>>,
    pub formulare_loeschen: Option<Vec<SidGuid>>,
    pub formulare_deaktivieren: Option<Vec<SidGuid>>,
}

/// The full in-memory document: header plus collections.
pub struct OnkostarEditor {
    pub info_xml: InfoXML,
    pub editor: Editor,
}

/// The position of the first name in `names` matching `name` up to ASCII
/// case, if any.
pub open spec fn first_match(names: Seq<Seq<char>>, name: Seq<char>) -> Option<int>
    decreases names.len(),
{
    if names.len() == 0 {
        None
    } else if eq_ignore_case_spec(names[0], name) {
        Some(0)
    } else {
        match first_match(names.skip(1), name) {
            Some(i) => Some(i + 1),
            None => None,
        }
    }
}

/// Resolver totality: a lookup comes back empty exactly when no name of
/// the collection matches up to ASCII case; otherwise it yields the first
/// match.
pub proof fn lemma_first_match(names: Seq<Seq<char>>, name: Seq<char>)
    ensures
        match first_match(names, name) {
            None => forall|i: int|
                0 <= i < names.len() ==> !eq_ignore_case_spec(#[trigger] names[i], name),
            Some(i) => 0 <= i < names.len() && eq_ignore_case_spec(names[i], name) && forall|
                j: int,
            |
                0 <= j < i ==> !eq_ignore_case_spec(#[trigger] names[j], name),
        },
    decreases names.len(),
{
    if names.len() == 0 {
    } else if eq_ignore_case_spec(names[0], name) {
    } else {
        lemma_first_match(names.skip(1), name);
        assert forall|i: int| 0 <= i < names.len() implies #[trigger] names[i] == if i == 0 {
            names[0]
        } else {
            names.skip(1)[i - 1]
        } by {}
    }
}

/// The names of a property catalogue collection.
pub open spec fn pc_names(s: Seq<PropertyCatalogue>) -> Seq<Seq<char>> {
    s.map(|i: int, p: PropertyCatalogue| p.name@)
}

/// The names of a data catalogue collection.
pub open spec fn dc_names(s: Seq<DataCatalogue>) -> Seq<Seq<char>> {
    s.map(|i: int, d: DataCatalogue| d.name@)
}

/// The names of a form collection.
pub open spec fn form_names<Type>(s: Seq<Form<Type>>) -> Seq<Seq<char>> {
    s.map(|i: int, f: Form<Type>| f.name@)
}

/// The readings of a list of owned strings.
pub open spec fn readings(v: Seq<String>) -> Seq<Seq<char>> {
    v.map(|i: int, s: String| s@)
}

fn find_in_forms<'a, Type>(v: &'a Vec<Form<Type>>, name: &str) -> (r: Option<&'a Form<Type>>)
    ensures
        match r {
            Some(f) => first_match(form_names(v@), name@) matches Some(i) && *f == v@[i],
            None => first_match(form_names(v@), name@) is None,
        },
{
    let n = v.len();
    let mut i: usize = 0;
    while i < n
        invariant
            i <= n,
            n == v@.len(),
            forall|j: int|
                0 <= j < i ==> !eq_ignore_case_spec(#[trigger] form_names(v@)[j], name@),
        decreases n - i,
    {
        assert(form_names(v@)[i as int] == v@[i as int].name@);
        if crate::text::eq_ignore_ascii_case(v[i].name.as_str(), name) {
            proof {
                lemma_first_match(form_names(v@), name@);
            }
            return Some(&v[i]);
        }
        i = i + 1;
    }
    proof {
        lemma_first_match(form_names(v@), name@);
    }
    None
}

impl OnkostarEditor {
    /// The position of the first property catalogue matching `name`.
    pub open spec fn find_pc_spec(&self, name: Seq<char>) -> Option<int> {
        first_match(pc_names(self.editor.property_catalogue@), name)
    }

    /// The position of the first data catalogue matching `name`.
    pub open spec fn find_dc_spec(&self, name: Seq<char>) -> Option<int> {
        first_match(dc_names(self.editor.data_catalogue@), name)
    }

    /// The position of the first form matching `name`.
    pub open spec fn find_df_spec(&self, name: Seq<char>) -> Option<int> {
        first_match(form_names(self.editor.data_form@), name)
    }

    /// The position of the first subform matching `name`.
    pub open spec fn find_uf_spec(&self, name: Seq<char>) -> Option<int> {
        first_match(form_names(self.editor.unterformular@), name)
    }

    /// Looks a property catalogue up by name, case-insensitively; on
    /// several matches the first in collection order wins.
    pub fn find_property_catalogue<'a>(&'a self, name: &str) -> (r: Option<
        &'a PropertyCatalogue,
    >)
        ensures
            match r {
                Some(p) => self.find_pc_spec(name@) matches Some(i) && *p
                    == self.editor.property_catalogue@[i],
                None => self.find_pc_spec(name@) is None,
            },
    {
        let v = &self.editor.property_catalogue;
        let n = v.len();
        let mut i: usize = 0;
        while i < n
            invariant
                i <= n,
                n == v@.len(),
                v@ == self.editor.property_catalogue@,
                forall|j: int|
                    0 <= j < i ==> !eq_ignore_case_spec(#[trigger] pc_names(v@)[j], name@),
            decreases n - i,
        {
            assert(pc_names(v@)[i as int] == v@[i as int].name@);
            if crate::text::eq_ignore_ascii_case(v[i].name.as_str(), name) {
                proof {
                    lemma_first_match(pc_names(v@), name@);
                }
                return Some(&v[i]);
            }
            i = i + 1;
        }
        proof {
            lemma_first_match(pc_names(v@), name@);
        }
        None
    }

    /// Looks a data catalogue up by name, case-insensitively; on several
    /// matches the first in collection order wins.
    pub fn find_data_catalogue<'a>(&'a self, name: &str) -> (r: Option<&'a DataCatalogue>)
        ensures
            match r {
                Some(d) => self.find_dc_spec(name@) matches Some(i) && *d
                    == self.editor.data_catalogue@[i],
                None => self.find_dc_spec(name@) is None,
            },
    {
        let v = &self.editor.data_catalogue;
        let n = v.len();
        let mut i: usize = 0;
        while i < n
            invariant
                i <= n,
                n == v@.len(),
                v@ == self.editor.data_catalogue@,
                forall|j: int|
                    0 <= j < i ==> !eq_ignore_case_spec(#[trigger] dc_names(v@)[j], name@),
            decreases n - i,
        {
            assert(dc_names(v@)[i as int] == v@[i as int].name@);
            if crate::text::eq_ignore_ascii_case(v[i].name.as_str(), name) {
                proof {
                    lemma_first_match(dc_names(v@), name@);
                }
                return Some(&v[i]);
            }
            i = i + 1;
        }
        proof {
            lemma_first_match(dc_names(v@), name@);
        }
        None
    }

    /// Looks a form up by name, case-insensitively; on several matches the
    /// first in collection order wins.
    pub fn find_data_form<'a>(&'a self, name: &str) -> (r: Option<&'a Form<DataFormType>>)
        ensures
            match r {
                Some(f) => self.find_df_spec(name@) matches Some(i) && *f
                    == self.editor.data_form@[i],
                None => self.find_df_spec(name@) is None,
            },
    {
        find_in_forms(&self.editor.data_form, name)
    }

    /// Looks a subform up by name, case-insensitively; on several matches
    /// the first in collection order wins.
    pub fn find_unterformular<'a>(&'a self, name: &str) -> (r: Option<
        &'a Form<UnterformularType>,
    >)
        ensures
            match r {
                Some(f) => self.find_uf_spec(name@) matches Some(i) && *f
                    == self.editor.unterformular@[i],
                None => self.find_uf_spec(name@) is None,
            },
    {
        find_in_forms(&self.editor.unterformular, name)
    }
}

/// The coded error a forward reference yields.
pub open spec fn forward_error(form_name: Seq<char>, item_name: Seq<char>, t: Seq<char>)
    -> NoticeSpec {
    NoticeSpec::ErrorWithCode {
        code: "2023-0004"@,
        description: "'"@ + form_name + "' hat einen Verweis auf zuvor nicht definiertes "@ + t
            + " '"@ + item_name + "' (OSTARSUPP-13212)"@,
        line: None,
        example: None,
    }
}

/// Whether a reading occurs in a list of visited names, by exact match.
pub open spec fn contains_reading(names: Seq<Seq<char>>, name: Seq<char>) -> bool {
    exists|i: int| 0 <= i < names.len() && #[trigger] names[i] == name
}

/// The forward-reference notices one form's requirements yield against
/// the names already visited.
pub open spec fn req_notices(
    form_name: Seq<char>,
    reqs: Seq<Requirement>,
    visited: Seq<Seq<char>>,
) -> Seq<NoticeSpec>
    decreases reqs.len(),
{
    if reqs.len() == 0 {
        Seq::<NoticeSpec>::empty()
    } else {
        req_notices(form_name, reqs.drop_last(), visited) + (match reqs.last() {
            Requirement::DataFormReference(item) => if !contains_reading(visited, item.name@) {
                seq![forward_error(form_name, item.name@, "Formular"@)]
            } else {
                Seq::<NoticeSpec>::empty()
            },
            Requirement::UnterformularReference(item) => if !contains_reading(
                visited,
                item.name@,
            ) {
                seq![forward_error(form_name, item.name@, "Unterformular"@)]
            } else {
                Seq::<NoticeSpec>::empty()
            },
            _ => Seq::<NoticeSpec>::empty(),
        })
    }
}

/// The forward-reference notices of a form collection, visited in
/// document order: each form sees the initial names plus every form of
/// the collection up to and including itself.
pub open spec fn forward_notices<Type>(
    forms: Seq<Form<Type>>,
    all: OnkostarEditor,
    visited0: Seq<Seq<char>>,
) -> Seq<NoticeSpec>
    decreases forms.len(),
{
    if forms.len() == 0 {
        Seq::<NoticeSpec>::empty()
    } else {
        forward_notices(forms.drop_last(), all, visited0) + req_notices(
            forms.last().name@,
            Form::required_spec(forms.last(), all),
            visited0 + form_names(forms),
        )
    }
}

/// The per-form notices of the main form collection, in order.
pub open spec fn df_checks_flat(forms: Seq<Form<DataFormType>>) -> Seq<NoticeSpec>
    decreases forms.len(),
{
    if forms.len() == 0 {
        Seq::<NoticeSpec>::empty()
    } else {
        df_checks_flat(forms.drop_last()) + df_check_spec(forms.last())
    }
}

/// The per-form notices of the subform collection, in order.
pub open spec fn uf_checks_flat(forms: Seq<Form<UnterformularType>>) -> Seq<NoticeSpec>
    decreases forms.len(),
{
    if forms.len() == 0 {
        Seq::<NoticeSpec>::empty()
    } else {
        uf_checks_flat(forms.drop_last()) + uf_check_spec(forms.last())
    }
}

/// Everything the document check yields: the per-form rules of both form
/// collections, then the forward-reference rule over the subforms and the
/// forms, each traversed in document order against the original order.
pub open spec fn check_document_spec(doc: OnkostarEditor) -> Seq<NoticeSpec> {
    df_checks_flat(doc.editor.data_form@) + uf_checks_flat(doc.editor.unterformular@)
        + forward_notices(doc.editor.unterformular@, doc, Seq::<Seq<char>>::empty())
        + forward_notices(doc.editor.data_form@, doc, form_names(doc.editor.unterformular@))
}

fn contains_visited(visited: &Vec<String>, name: &str) -> (r: bool)
    ensures
        r == contains_reading(readings(visited@), name@),
{
    let n = visited.len();
    let mut i: usize = 0;
    while i < n
        invariant
            i <= n,
            n == visited@.len(),
            forall|j: int| 0 <= j < i ==> (#[trigger] visited@[j])@ != name@,
        decreases n - i,
    {
        if crate::text::str_eq(visited[i].as_str(), name) {
            assert(readings(visited@)[i as int] == name@);
            return true;
        }
        i = i + 1;
    }
    proof {
        let vis = readings(visited@);
        assert forall|j: int| 0 <= j < vis.len() implies #[trigger] vis[j] != name@ by {
            assert(vis[j] == visited@[j]@);
        }
    }
    false
}

fn forward_error_exec(form_name: &str, item_name: &str, t: &str) -> (r: CheckNotice)
    ensures
        r@ == forward_error(form_name@, item_name@, t@),
{
    let mut description = String::from_str("'");
    description.append(form_name);
    description.append("' hat einen Verweis auf zuvor nicht definiertes ");
    description.append(t);
    description.append(" '");
    description.append(item_name);
    description.append("' (OSTARSUPP-13212)");
    CheckNotice::ErrorWithCode {
        code: String::from_str("2023-0004"),
        description,
        line: None,
        example: None,
    }
}

fn req_notices_exec(
    form_name: &str,
    reqs: &Vec<Requirement>,
    visited: &Vec<String>,
    out: &mut Vec<CheckNotice>,
)
    ensures
        notice_views(final(out)@) == notice_views(old(out)@) + req_notices(
            form_name@,
            reqs@,
            readings(visited@),
        ),
{
    let ghost vis = readings(visited@);
    assert(vis.len() == visited@.len());
    let n = reqs.len();
    let mut i: usize = 0;
    assert(reqs@.take(0) =~= Seq::<Requirement>::empty());
    assert(notice_views(out@) =~= notice_views(old(out)@) + req_notices(
        form_name@,
        reqs@.take(0),
        vis,
    ));
    while i < n
        invariant
            i <= n,
            n == reqs@.len(),
            vis == readings(visited@),
            notice_views(out@) == notice_views(old(out)@) + req_notices(
                form_name@,
                reqs@.take(i as int),
                vis,
            ),
        decreases n - i,
    {
        proof {
            assert(reqs@.take(i + 1).drop_last() =~= reqs@.take(i as int));
            assert(reqs@.take(i + 1).last() == reqs@[i as int]);
        }
        let ghost pre = out@;
        match &reqs[i] {
            Requirement::DataFormReference(item) => {
                if !contains_visited(visited, item.name.as_str()) {
                    let notice = forward_error_exec(form_name, item.name.as_str(), "Formular");
                    let ghost nv = notice@;
                    out.push(notice);
                    assert(notice_views(out@) =~= notice_views(pre) + seq![nv]);
                } else {
                    assert(notice_views(out@) =~= notice_views(pre));
                }
            },
            Requirement::UnterformularReference(item) => {
                if !contains_visited(visited, item.name.as_str()) {
                    let notice = forward_error_exec(
                        form_name,
                        item.name.as_str(),
                        "Unterformular",
                    );
                    let ghost nv = notice@;
                    out.push(notice);
                    assert(notice_views(out@) =~= notice_views(pre) + seq![nv]);
                } else {
                    assert(notice_views(out@) =~= notice_views(pre));
                }
            },
            _ => {
                assert(notice_views(out@) =~= notice_views(pre));
            },
        }
        proof {
            assert(notice_views(out@) =~= notice_views(old(out)@) + req_notices(
                form_name@,
                reqs@.take(i + 1),
                vis,
            ));
        }
        i = i + 1;
    }
    assert(reqs@.take(n as int) =~= reqs@);
}

impl OnkostarEditor {
    /// Runs the full consistency check: every per-form rule, then the
    /// forward-reference rule over subforms and forms in document order.
    pub fn check(&self) -> (r: Vec<CheckNotice>)
        ensures
            notice_views(r@) == check_document_spec(*self),
    {
        let mut r: Vec<CheckNotice> = Vec::new();
        let dfs = &self.editor.data_form;
        let ufs = &self.editor.unterformular;

        let n = dfs.len();
        let mut i: usize = 0;
        assert(dfs@.take(0) =~= Seq::<Form<DataFormType>>::empty());
        while i < n
            invariant
                i <= n,
                n == dfs@.len(),
                dfs@ == self.editor.data_form@,
                notice_views(r@) == df_checks_flat(dfs@.take(i as int)),
            decreases n - i,
        {
            proof {
                assert(dfs@.take(i + 1).drop_last() =~= dfs@.take(i as int));
                assert(dfs@.take(i + 1).last() == dfs@[i as int]);
            }
            let mut found = dfs[i].check();
            let ghost prev = r@;
            let ghost found0 = found@;
            r.append(&mut found);
            proof {
                assert(notice_views(r@) =~= notice_views(prev) + notice_views(found0));
                assert(notice_views(r@) =~= df_checks_flat(dfs@.take(i + 1)));
            }
            i = i + 1;
        }
        assert(dfs@.take(n as int) =~= dfs@);

        let n = ufs.len();
        let mut i: usize = 0;
        let ghost base1 = notice_views(r@);
        assert(ufs@.take(0) =~= Seq::<Form<UnterformularType>>::empty());
        while i < n
            invariant
                i <= n,
                n == ufs@.len(),
                ufs@ == self.editor.unterformular@,
                notice_views(r@) == base1 + uf_checks_flat(ufs@.take(i as int)),
            decreases n - i,
        {
            proof {
                assert(ufs@.take(i + 1).drop_last() =~= ufs@.take(i as int));
                assert(ufs@.take(i + 1).last() == ufs@[i as int]);
            }
            let mut found = ufs[i].check();
            let ghost prev = r@;
            let ghost found0 = found@;
            r.append(&mut found);
            proof {
                assert(notice_views(r@) =~= notice_views(prev) + notice_views(found0));
                assert(notice_views(r@) =~= base1 + uf_checks_flat(ufs@.take(i + 1)));
            }
            i = i + 1;
        }
        assert(ufs@.take(n as int) =~= ufs@);

        let mut visited: Vec<String> = Vec::new();

        let n = ufs.len();
        let mut i: usize = 0;
        let ghost base2 = notice_views(r@);
        assert(readings(visited@) =~= Seq::<Seq<char>>::empty());
        while i < n
            invariant
                i <= n,
                n == ufs@.len(),
                ufs@ == self.editor.unterformular@,
                readings(visited@) =~= form_names(ufs@.take(i as int)),
                notice_views(r@) == base2 + forward_notices(
                    ufs@.take(i as int),
                    *self,
                    Seq::<Seq<char>>::empty(),
                ),
            decreases n - i,
        {
            proof {
                assert(ufs@.take(i + 1).drop_last() =~= ufs@.take(i as int));
                assert(ufs@.take(i + 1).last() == ufs@[i as int]);
            }
            let form = &ufs[i];
            let name = form.get_name();
            let ghost pre_vis = visited@;
            visited.push(name);
            proof {
                let vis_new = readings(visited@);
                let want = form_names(ufs@.take(i + 1));
                assert(readings(pre_vis).len() == pre_vis.len());
                assert(vis_new.len() == visited@.len());
                assert(vis_new.len() == want.len());
                assert forall|j: int| 0 <= j < vis_new.len() implies vis_new[j] == want[j] by {
                    if j < i {
                        assert(vis_new[j] == pre_vis[j]@);
                        assert(readings(pre_vis)[j] == pre_vis[j]@);
                        assert(form_names(ufs@.take(i as int))[j] == ufs@[j].name@);
                        assert(want[j] == ufs@[j].name@);
                    } else {
                        assert(vis_new[j] == ufs@[i as int].name@);
                        assert(want[j] == ufs@[i as int].name@);
                    }
                }
                assert(vis_new =~= want);
            }
            let reqs = form.get_required_entries(self);
            let form_name = form.get_name();
            req_notices_exec(form_name.as_str(), &reqs, &visited, &mut r);
            proof {
                assert(Seq::<Seq<char>>::empty() + form_names(ufs@.take(i + 1)) =~= form_names(
                    ufs@.take(i + 1),
                ));
                assert(notice_views(r@) =~= base2 + forward_notices(
                    ufs@.take(i + 1),
                    *self,
                    Seq::<Seq<char>>::empty(),
                ));
            }
            i = i + 1;
        }
        assert(ufs@.take(n as int) =~= ufs@);

        let n = dfs.len();
        let mut i: usize = 0;
        let ghost base3 = notice_views(r@);
        let ghost uf_names = form_names(ufs@);
        while i < n
            invariant
                i <= n,
                n == dfs@.len(),
                dfs@ == self.editor.data_form@,
                ufs@ == self.editor.unterformular@,
                uf_names == form_names(ufs@),
                readings(visited@) =~= uf_names + form_names(
                    dfs@.take(i as int),
                ),
                notice_views(r@) == base3 + forward_notices(dfs@.take(i as int), *self, uf_names),
            decreases n - i,
        {
            proof {
                assert(dfs@.take(i + 1).drop_last() =~= dfs@.take(i as int));
                assert(dfs@.take(i + 1).last() == dfs@[i as int]);
            }
            let form = &dfs[i];
            let name = form.get_name();
            let ghost pre_vis = visited@;
            visited.push(name);
            proof {
                let vis_new = readings(visited@);
                let want = uf_names + form_names(dfs@.take(i + 1));
                assert(readings(pre_vis).len() == pre_vis.len());
                assert(vis_new.len() == visited@.len());
                assert(vis_new.len() == want.len());
                assert forall|j: int| 0 <= j < vis_new.len() implies vis_new[j] == want[j] by {
                    if j < vis_new.len() - 1 {
                        assert(vis_new[j] == pre_vis[j]@);
                        assert(readings(pre_vis)[j] == pre_vis[j]@);
                        if j < uf_names.len() {
                            assert(want[j] == uf_names[j]);
                        } else {
                            assert(form_names(dfs@.take(i as int))[j - uf_names.len()] == dfs@[
                                j - uf_names.len()].name@);
                            assert(want[j] == dfs@[j - uf_names.len()].name@);
                        }
                    } else {
                        assert(vis_new[j] == dfs@[i as int].name@);
                        assert(want[j] == dfs@[i as int].name@);
                    }
                }
                assert(vis_new =~= want);
            }
            let reqs = form.get_required_entries(self);
            let form_name = form.get_name();
            req_notices_exec(form_name.as_str(), &reqs, &visited, &mut r);
            proof {
                assert(notice_views(r@) =~= base3 + forward_notices(
                    dfs@.take(i + 1),
                    *self,
                    uf_names,
                ));
            }
            i = i + 1;
        }
        assert(dfs@.take(n as int) =~= dfs@);
        proof {
            assert(notice_views(r@) =~= check_document_spec(*self));
        }
        r
    }
}

/// How a property catalogue collection looks once sorted by name with each
/// catalogue's own lists sorted.
pub open spec fn pcs_sorted_seq(a: Seq<PropertyCatalogue>, b: Seq<PropertyCatalogue>) -> bool {
    &&& b.len() == sort_le(a).len()
    &&& forall|i: int| 0 <= i < b.len() ==> pc_sorted_rel(#[trigger] sort_le(a)[i], b[i])
}

/// How a data catalogue collection looks once sorted by name with each
/// catalogue's own lists sorted.
pub open spec fn dcs_sorted_seq(a: Seq<DataCatalogue>, b: Seq<DataCatalogue>) -> bool {
    &&& b.len() == sort_le(a).len()
    &&& forall|i: int| 0 <= i < b.len() ==> dc_sorted_rel(#[trigger] sort_le(a)[i], b[i])
}

/// How a form collection looks once ordered by the dependency comparator
/// with each form's own lists sorted.
pub open spec fn forms_sorted_seq<Type>(a: Seq<Form<Type>>, b: Seq<Form<Type>>) -> bool {
    &&& b.len() == sort_le(a).len()
    &&& forall|i: int| 0 <= i < b.len() ==> form_sorted_rel(#[trigger] sort_le(a)[i], b[i])
}

/// How a document looks once every collection is in canonical order:
/// catalogues by name, forms and subforms by the dependency comparator,
/// nested lists recursively; the header and the passthrough collections
/// keep their values.
pub open spec fn doc_sorted_rel(a: OnkostarEditor, b: OnkostarEditor) -> bool {
    &&& b == (OnkostarEditor { editor: b.editor, ..a })
    &&& b.editor == (Editor {
        property_catalogue: b.editor.property_catalogue,
        data_catalogue: b.editor.data_catalogue,
        data_form: b.editor.data_form,
        unterformular: b.editor.unterformular,
        ..a.editor
    })
    &&& pcs_sorted_seq(a.editor.property_catalogue@, b.editor.property_catalogue@)
    &&& dcs_sorted_seq(a.editor.data_catalogue@, b.editor.data_catalogue@)
    &&& forms_sorted_seq(a.editor.data_form@, b.editor.data_form@)
    &&& forms_sorted_seq(a.editor.unterformular@, b.editor.unterformular@)
}

fn sorted_pcs(v: Vec<PropertyCatalogue>) -> (r: Vec<PropertyCatalogue>)
    ensures
        pcs_sorted_seq(v@, r@),
{
    let mut v = v;
    sort(&mut v);
    let ghost s = v@;
    let n = v.len();
    let mut out: Vec<PropertyCatalogue> = Vec::new();
    let mut i: usize = 0;
    assert(v@ =~= s.skip(0));
    while i < n
        invariant
            i <= n,
            s.len() == n,
            v@.len() == n - i,
            out@.len() == i,
            v@ =~= s.skip(i as int),
            forall|j: int| 0 <= j < i ==> pc_sorted_rel(#[trigger] s[j], out@[j]),
        decreases n - i,
    {
        proof {
            assert(s.skip(i as int)[0] == s[i as int]);
        }
        let mut e = v.remove(0);
        assert(e == s[i as int]);
        e.sorted();
        out.push(e);
        assert(v@ =~= s.skip(i + 1));
        i = i + 1;
    }
    out
}

fn sorted_dcs(v: Vec<DataCatalogue>) -> (r: Vec<DataCatalogue>)
    ensures
        dcs_sorted_seq(v@, r@),
{
    let mut v = v;
    sort(&mut v);
    let ghost s = v@;
    let n = v.len();
    let mut out: Vec<DataCatalogue> = Vec::new();
    let mut i: usize = 0;
    assert(v@ =~= s.skip(0));
    while i < n
        invariant
            i <= n,
            s.len() == n,
            v@.len() == n - i,
            out@.len() == i,
            v@ =~= s.skip(i as int),
            forall|j: int| 0 <= j < i ==> dc_sorted_rel(#[trigger] s[j], out@[j]),
        decreases n - i,
    {
        proof {
            assert(s.skip(i as int)[0] == s[i as int]);
        }
        let mut e = v.remove(0);
        assert(e == s[i as int]);
        e.sorted();
        out.push(e);
        assert(v@ =~= s.skip(i + 1));
        i = i + 1;
    }
    out
}

fn sorted_forms<Type>(v: Vec<Form<Type>>) -> (r: Vec<Form<Type>>)
    ensures
        forms_sorted_seq(v@, r@),
{
    let mut v = v;
    sort(&mut v);
    let ghost s = v@;
    let n = v.len();
    let mut out: Vec<Form<Type>> = Vec::new();
    let mut i: usize = 0;
    assert(v@ =~= s.skip(0));
    while i < n
        invariant
            i <= n,
            s.len() == n,
            v@.len() == n - i,
            out@.len() == i,
            v@ =~= s.skip(i as int),
            forall|j: int| 0 <= j < i ==> form_sorted_rel(#[trigger] s[j], out@[j]),
        decreases n - i,
    {
        proof {
            assert(s.skip(i as int)[0] == s[i as int]);
        }
        let mut e = v.remove(0);
        assert(e == s[i as int]);
        e.sorted();
        out.push(e);
        assert(v@ =~= s.skip(i + 1));
        i = i + 1;
    }
    out
}

/// A property catalogue collection without its system-library content.
pub open spec fn strip_pcs(s: Seq<PropertyCatalogue>) -> Seq<PropertyCatalogue>
    decreases s.len(),
{
    if s.len() == 0 {
        s
    } else {
        strip_pcs(s.drop_last()) + (if s.last().is_system_spec() {
            Seq::<PropertyCatalogue>::empty()
        } else {
            seq![s.last()]
        })
    }
}

/// A data catalogue collection without its system-library content.
pub open spec fn strip_dcs(s: Seq<DataCatalogue>) -> Seq<DataCatalogue>
    decreases s.len(),
{
    if s.len() == 0 {
        s
    } else {
        strip_dcs(s.drop_last()) + (if s.last().is_system_spec() {
            Seq::<DataCatalogue>::empty()
        } else {
            seq![s.last()]
        })
    }
}

/// A form collection without its system-library content.
pub open spec fn strip_forms<Type>(s: Seq<Form<Type>>) -> Seq<Form<Type>>
    decreases s.len(),
{
    if s.len() == 0 {
        s
    } else {
        strip_forms(s.drop_last()) + (if s.last().is_system_spec() {
            Seq::<Form<Type>>::empty()
        } else {
            seq![s.last()]
        })
    }
}

/// After stripping, no property catalogue is system-library content.
pub proof fn lemma_strip_pcs_clean(s: Seq<PropertyCatalogue>)
    ensures
        forall|i: int|
            0 <= i < strip_pcs(s).len() ==> !(#[trigger] strip_pcs(s)[i]).is_system_spec(),
    decreases s.len(),
{
    if s.len() > 0 {
        lemma_strip_pcs_clean(s.drop_last());
        let inner = strip_pcs(s.drop_last());
        assert forall|i: int| 0 <= i < strip_pcs(s).len() implies !(#[trigger] strip_pcs(
            s,
        )[i]).is_system_spec() by {
            if i < inner.len() {
                assert(strip_pcs(s)[i] == inner[i]);
            } else {
                assert(!s.last().is_system_spec());
                assert(strip_pcs(s)[i] == s.last());
            }
        }
    }
}

/// After stripping, no data catalogue is system-library content.
pub proof fn lemma_strip_dcs_clean(s: Seq<DataCatalogue>)
    ensures
        forall|i: int|
            0 <= i < strip_dcs(s).len() ==> !(#[trigger] strip_dcs(s)[i]).is_system_spec(),
    decreases s.len(),
{
    if s.len() > 0 {
        lemma_strip_dcs_clean(s.drop_last());
        let inner = strip_dcs(s.drop_last());
        assert forall|i: int| 0 <= i < strip_dcs(s).len() implies !(#[trigger] strip_dcs(
            s,
        )[i]).is_system_spec() by {
            if i < inner.len() {
                assert(strip_dcs(s)[i] == inner[i]);
            } else {
                assert(!s.last().is_system_spec());
                assert(strip_dcs(s)[i] == s.last());
            }
        }
    }
}

/// After stripping, no form of a collection is system-library content.
pub proof fn lemma_strip_forms_clean<Type>(s: Seq<Form<Type>>)
    ensures
        forall|i: int|
            0 <= i < strip_forms(s).len() ==> !(#[trigger] strip_forms(s)[i]).is_system_spec(),
    decreases s.len(),
{
    if s.len() > 0 {
        lemma_strip_forms_clean(s.drop_last());
        let inner = strip_forms(s.drop_last());
        assert forall|i: int| 0 <= i < strip_forms(s).len() implies !(#[trigger] strip_forms(
            s,
        )[i]).is_system_spec() by {
            if i < inner.len() {
                assert(strip_forms(s)[i] == inner[i]);
            } else {
                assert(!s.last().is_system_spec());
                assert(strip_forms(s)[i] == s.last());
            }
        }
    }
}

fn strip_pcs_exec(v: Vec<PropertyCatalogue>) -> (r: Vec<PropertyCatalogue>)
    ensures
        r@ == strip_pcs(v@),
{
    let ghost v0 = v@;
    let mut v = v;
    let n = v.len();
    let mut out: Vec<PropertyCatalogue> = Vec::new();
    let mut i: usize = 0;
    assert(v@ =~= v0.skip(0));
    assert(v0.take(0) =~= Seq::<PropertyCatalogue>::empty());
    while i < n
        invariant
            i <= n,
            v0.len() == n,
            v@.len() == n - i,
            v@ =~= v0.skip(i as int),
            out@ == strip_pcs(v0.take(i as int)),
        decreases n - i,
    {
        proof {
            assert(v0.skip(i as int)[0] == v0[i as int]);
            assert(v0.take(i + 1).drop_last() =~= v0.take(i as int));
            assert(v0.take(i + 1).last() == v0[i as int]);
        }
        let e = v.remove(0);
        assert(e == v0[i as int]);
        if !e.is_system_library_content() {
            out.push(e);
        }
        proof {
            assert(v@ =~= v0.skip(i + 1));
            assert(out@ =~= strip_pcs(v0.take(i + 1)));
        }
        i = i + 1;
    }
    assert(v0.take(n as int) =~= v0);
    out
}

fn strip_dcs_exec(v: Vec<DataCatalogue>) -> (r: Vec<DataCatalogue>)
    ensures
        r@ == strip_dcs(v@),
{
    let ghost v0 = v@;
    let mut v = v;
    let n = v.len();
    let mut out: Vec<DataCatalogue> = Vec::new();
    let mut i: usize = 0;
    assert(v@ =~= v0.skip(0));
    assert(v0.take(0) =~= Seq::<DataCatalogue>::empty());
    while i < n
        invariant
            i <= n,
            v0.len() == n,
            v@.len() == n - i,
            v@ =~= v0.skip(i as int),
            out@ == strip_dcs(v0.take(i as int)),
        decreases n - i,
    {
        proof {
            assert(v0.skip(i as int)[0] == v0[i as int]);
            assert(v0.take(i + 1).drop_last() =~= v0.take(i as int));
            assert(v0.take(i + 1).last() == v0[i as int]);
        }
        let e = v.remove(0);
        assert(e == v0[i as int]);
        if !e.is_system_library_content() {
            out.push(e);
        }
        proof {
            assert(v@ =~= v0.skip(i + 1));
            assert(out@ =~= strip_dcs(v0.take(i + 1)));
        }
        i = i + 1;
    }
    assert(v0.take(n as int) =~= v0);
    out
}

fn strip_forms_exec<Type>(v: Vec<Form<Type>>) -> (r: Vec<Form<Type>>)
    ensures
        r@ == strip_forms(v@),
{
    let ghost v0 = v@;
    let mut v = v;
    let n = v.len();
    let mut out: Vec<Form<Type>> = Vec::new();
    let mut i: usize = 0;
    assert(v@ =~= v0.skip(0));
    assert(v0.take(0) =~= Seq::<Form<Type>>::empty());
    while i < n
        invariant
            i <= n,
            v0.len() == n,
            v@.len() == n - i,
            v@ =~= v0.skip(i as int),
            out@ == strip_forms(v0.take(i as int)),
        decreases n - i,
    {
        proof {
            assert(v0.skip(i as int)[0] == v0[i as int]);
            assert(v0.take(i + 1).drop_last() =~= v0.take(i as int));
            assert(v0.take(i + 1).last() == v0[i as int]);
        }
        let e = v.remove(0);
        assert(e == v0[i as int]);
        if !e.is_system_library_content() {
            out.push(e);
        }
        proof {
            assert(v@ =~= v0.skip(i + 1));
            assert(out@ =~= strip_forms(v0.take(i + 1)));
        }
        i = i + 1;
    }
    assert(v0.take(n as int) =~= v0);
    out
}

/// What applying a profile may change on a document: each non-system form
/// and subform within the per-form frame; system-library content and
/// everything else keep their values.
pub open spec fn doc_profile_rel(a: OnkostarEditor, b: OnkostarEditor) -> bool {
    &&& b == (OnkostarEditor { editor: b.editor, ..a })
    &&& b.editor == (Editor {
        data_form: b.editor.data_form,
        unterformular: b.editor.unterformular,
        ..a.editor
    })
    &&& b.editor.data_form@.len() == a.editor.data_form@.len()
    &&& forall|i: int|
        0 <= i < a.editor.data_form@.len() ==> (if (#[trigger] a.editor.data_form@[i]).is_system_spec() {
            b.editor.data_form@[i] == a.editor.data_form@[i]
        } else {
            crate::model::form::form_profile_rel(a.editor.data_form@[i], b.editor.data_form@[i])
        })
    &&& b.editor.unterformular@.len() == a.editor.unterformular@.len()
    &&& forall|i: int|
        0 <= i < a.editor.unterformular@.len() ==> (if (#[trigger] a.editor.unterformular@[i]).is_system_spec() {
            b.editor.unterformular@[i] == a.editor.unterformular@[i]
        } else {
            crate::model::form::form_profile_rel(
                a.editor.unterformular@[i],
                b.editor.unterformular@[i],
            )
        })
}

fn apply_profile_to_forms<Type>(v: Vec<Form<Type>>, profile: &Profile) -> (r: Vec<Form<Type>>)
    ensures
        r@.len() == v@.len(),
        forall|i: int|
            0 <= i < v@.len() ==> (if (#[trigger] v@[i]).is_system_spec() {
                r@[i] == v@[i]
            } else {
                crate::model::form::form_profile_rel(v@[i], r@[i])
            }),
{
    let ghost v0 = v@;
    let mut v = v;
    let n = v.len();
    let mut out: Vec<Form<Type>> = Vec::new();
    let mut i: usize = 0;
    assert(v@ =~= v0.skip(0));
    while i < n
        invariant
            i <= n,
            v0.len() == n,
            v@.len() == n - i,
            v@ =~= v0.skip(i as int),
            out@.len() == i,
            forall|j: int|
                0 <= j < i ==> (if (#[trigger] v0[j]).is_system_spec() {
                    out@[j] == v0[j]
                } else {
                    crate::model::form::form_profile_rel(v0[j], out@[j])
                }),
        decreases n - i,
    {
        proof {
            assert(v0.skip(i as int)[0] == v0[i as int]);
        }
        let mut e = v.remove(0);
        assert(e == v0[i as int]);
        if !e.is_system_library_content() {
            e.apply_profile(profile);
        }
        out.push(e);
        assert(v@ =~= v0.skip(i + 1));
        i = i + 1;
    }
    out
}

impl OnkostarEditor {
    /// Applies the profile to every non-system form and subform.
    pub fn apply_profile(&mut self, profile: &Profile)
        ensures
            doc_profile_rel(*old(self), *final(self)),
    {
        let mut dfs: Vec<Form<DataFormType>> = Vec::new();
        core::mem::swap(&mut self.editor.data_form, &mut dfs);
        let dfs = apply_profile_to_forms(dfs, profile);
        self.editor.data_form = dfs;
        let mut ufs: Vec<Form<UnterformularType>> = Vec::new();
        core::mem::swap(&mut self.editor.unterformular, &mut ufs);
        let ufs = apply_profile_to_forms(ufs, profile);
        self.editor.unterformular = ufs;
    }

    /// Brings every collection of the document into canonical order:
    /// catalogues by name, forms and subforms by the dependency
    /// comparator, and every nested list recursively.
    pub fn sorted(&mut self)
        ensures
            doc_sorted_rel(*old(self), *final(self)),
    {
        let mut pcs: Vec<PropertyCatalogue> = Vec::new();
        core::mem::swap(&mut self.editor.property_catalogue, &mut pcs);
        let pcs = sorted_pcs(pcs);
        self.editor.property_catalogue = pcs;

        let mut dcs: Vec<DataCatalogue> = Vec::new();
        core::mem::swap(&mut self.editor.data_catalogue, &mut dcs);
        let dcs = sorted_dcs(dcs);
        self.editor.data_catalogue = dcs;

        let mut dfs: Vec<Form<DataFormType>> = Vec::new();
        core::mem::swap(&mut self.editor.data_form, &mut dfs);
        let dfs = sorted_forms(dfs);
        self.editor.data_form = dfs;

        let mut ufs: Vec<Form<UnterformularType>> = Vec::new();
        core::mem::swap(&mut self.editor.unterformular, &mut ufs);
        let ufs = sorted_forms(ufs);
        self.editor.unterformular = ufs;
    }

    /// Retains only the user-library content of every collection: after
    /// this, no entity of any collection is system-library content.
    pub fn strip_system_library_content(&mut self)
        ensures
            final(self).editor.property_catalogue@ == strip_pcs(
                old(self).editor.property_catalogue@,
            ),
            final(self).editor.data_catalogue@ == strip_dcs(old(self).editor.data_catalogue@),
            final(self).editor.data_form@ == strip_forms(old(self).editor.data_form@),
            final(self).editor.unterformular@ == strip_forms(old(self).editor.unterformular@),
            *final(self) == (OnkostarEditor { editor: final(self).editor, ..*old(self) }),
            final(self).editor == (Editor {
                property_catalogue: final(self).editor.property_catalogue,
                data_catalogue: final(self).editor.data_catalogue,
                data_form: final(self).editor.data_form,
                unterformular: final(self).editor.unterformular,
                ..old(self).editor
            }),
            forall|i: int|
                0 <= i < final(self).editor.property_catalogue@.len() ==> !(
                #[trigger] final(self).editor.property_catalogue@[i]).is_system_spec(),
            forall|i: int|
                0 <= i < final(self).editor.data_catalogue@.len() ==> !(
                #[trigger] final(self).editor.data_catalogue@[i]).is_system_spec(),
            forall|i: int|
                0 <= i < final(self).editor.data_form@.len() ==> !(
                #[trigger] final(self).editor.data_form@[i]).is_system_spec(),
            forall|i: int|
                0 <= i < final(self).editor.unterformular@.len() ==> !(
                #[trigger] final(self).editor.unterformular@[i]).is_system_spec(),
    {
        let ghost pcs0 = self.editor.property_catalogue@;
        let ghost dcs0 = self.editor.data_catalogue@;
        let ghost dfs0 = self.editor.data_form@;
        let ghost ufs0 = self.editor.unterformular@;
        let mut pcs: Vec<PropertyCatalogue> = Vec::new();
        core::mem::swap(&mut self.editor.property_catalogue, &mut pcs);
        let pcs = strip_pcs_exec(pcs);
        self.editor.property_catalogue = pcs;

        let mut dcs: Vec<DataCatalogue> = Vec::new();
        core::mem::swap(&mut self.editor.data_catalogue, &mut dcs);
        let dcs = strip_dcs_exec(dcs);
        self.editor.data_catalogue = dcs;

        let mut dfs: Vec<Form<DataFormType>> = Vec::new();
        core::mem::swap(&mut self.editor.data_form, &mut dfs);
        let dfs = strip_forms_exec(dfs);
        self.editor.data_form = dfs;

        let mut ufs: Vec<Form<UnterformularType>> = Vec::new();
        core::mem::swap(&mut self.editor.unterformular, &mut ufs);
        let ufs = strip_forms_exec(ufs);
        self.editor.unterformular = ufs;
        proof {
            lemma_strip_pcs_clean(pcs0);
            lemma_strip_dcs_clean(dcs0);
            lemma_strip_forms_clean(dfs0);
            lemma_strip_forms_clean(ufs0);
        }
    }
}

/// Ordering is idempotent for the name-keyed property catalogue
/// collection: the canonical order is a stable fixed point.
pub proof fn lemma_pc_order_idempotent(s: Seq<PropertyCatalogue>)
    ensures
        sort_le(sort_le(s)) == sort_le(s),
{
    assert forall|i: int, j: int| 0 <= i < s.len() && 0 <= j < s.len() implies (
    #[trigger] s[i].le_spec(s[j]) || s[j].le_spec(s[i])) by {
        crate::text::lemma_lex_leq_total(s[i].name@, s[j].name@);
    }
    crate::sorting::lemma_sort_le_idempotent(s);
}

/// Ordering is idempotent for the name-keyed data catalogue collection.
pub proof fn lemma_dc_order_idempotent(s: Seq<DataCatalogue>)
    ensures
        sort_le(sort_le(s)) == sort_le(s),
{
    assert forall|i: int, j: int| 0 <= i < s.len() && 0 <= j < s.len() implies (
    #[trigger] s[i].le_spec(s[j]) || s[j].le_spec(s[i])) by {
        crate::text::lemma_lex_leq_total(s[i].name@, s[j].name@);
    }
    crate::sorting::lemma_sort_le_idempotent(s);
}

/// Ordering is idempotent for a form collection whenever no two of its
/// forms exert ordering pressure on each other in both directions — that
/// is, whenever the local dependency comparator relates every pair at
/// least one way. A pair of forms that reference each other mutually
/// falls outside this premise.
pub proof fn lemma_form_order_idempotent<Type>(s: Seq<Form<Type>>)
    requires
        crate::sorting::connected_in(s),
    ensures
        sort_le(sort_le(s)) == sort_le(s),
{
    crate::sorting::lemma_sort_le_idempotent(s);
}

/// A property catalogue collection narrowed to names containing `pat`.
pub open spec fn filter_pcs(s: Seq<PropertyCatalogue>, pat: Seq<char>) -> Seq<PropertyCatalogue>
    decreases s.len(),
{
    if s.len() == 0 {
        s
    } else {
        filter_pcs(s.drop_last(), pat) + (if crate::text::contains_spec(s.last().name@, pat) {
            seq![s.last()]
        } else {
            Seq::<PropertyCatalogue>::empty()
        })
    }
}

/// A data catalogue collection narrowed to names containing `pat`.
pub open spec fn filter_dcs(s: Seq<DataCatalogue>, pat: Seq<char>) -> Seq<DataCatalogue>
    decreases s.len(),
{
    if s.len() == 0 {
        s
    } else {
        filter_dcs(s.drop_last(), pat) + (if crate::text::contains_spec(s.last().name@, pat) {
            seq![s.last()]
        } else {
            Seq::<DataCatalogue>::empty()
        })
    }
}

/// A form collection narrowed to names containing `pat`.
pub open spec fn filter_forms<Type>(s: Seq<Form<Type>>, pat: Seq<char>) -> Seq<Form<Type>>
    decreases s.len(),
{
    if s.len() == 0 {
        s
    } else {
        filter_forms(s.drop_last(), pat) + (if crate::text::contains_spec(s.last().name@, pat) {
            seq![s.last()]
        } else {
            Seq::<Form<Type>>::empty()
        })
    }
}

fn filter_pcs_exec(v: Vec<PropertyCatalogue>, pat: &str) -> (r: Vec<PropertyCatalogue>)
    ensures
        r@ == filter_pcs(v@, pat@),
{
    let ghost v0 = v@;
    let mut v = v;
    let n = v.len();
    let mut out: Vec<PropertyCatalogue> = Vec::new();
    let mut i: usize = 0;
    assert(v@ =~= v0.skip(0));
    assert(v0.take(0) =~= Seq::<PropertyCatalogue>::empty());
    while i < n
        invariant
            i <= n,
            v0.len() == n,
            v@.len() == n - i,
            v@ =~= v0.skip(i as int),
            out@ == filter_pcs(v0.take(i as int), pat@),
        decreases n - i,
    {
        proof {
            assert(v0.skip(i as int)[0] == v0[i as int]);
            assert(v0.take(i + 1).drop_last() =~= v0.take(i as int));
            assert(v0.take(i + 1).last() == v0[i as int]);
        }
        let e = v.remove(0);
        assert(e == v0[i as int]);
        if crate::text::str_contains(e.name.as_str(), pat) {
            out.push(e);
        }
        proof {
            assert(v@ =~= v0.skip(i + 1));
            assert(out@ =~= filter_pcs(v0.take(i + 1), pat@));
        }
        i = i + 1;
    }
    assert(v0.take(n as int) =~= v0);
    out
}

fn filter_dcs_exec(v: Vec<DataCatalogue>, pat: &str) -> (r: Vec<DataCatalogue>)
    ensures
        r@ == filter_dcs(v@, pat@),
{
    let ghost v0 = v@;
    let mut v = v;
    let n = v.len();
    let mut out: Vec<DataCatalogue> = Vec::new();
    let mut i: usize = 0;
    assert(v@ =~= v0.skip(0));
    assert(v0.take(0) =~= Seq::<DataCatalogue>::empty());
    while i < n
        invariant
            i <= n,
            v0.len() == n,
            v@.len() == n - i,
            v@ =~= v0.skip(i as int),
            out@ == filter_dcs(v0.take(i as int), pat@),
        decreases n - i,
    {
        proof {
            assert(v0.skip(i as int)[0] == v0[i as int]);
            assert(v0.take(i + 1).drop_last() =~= v0.take(i as int));
            assert(v0.take(i + 1).last() == v0[i as int]);
        }
        let e = v.remove(0);
        assert(e == v0[i as int]);
        if crate::text::str_contains(e.name.as_str(), pat) {
            out.push(e);
        }
        proof {
            assert(v@ =~= v0.skip(i + 1));
            assert(out@ =~= filter_dcs(v0.take(i + 1), pat@));
        }
        i = i + 1;
    }
    assert(v0.take(n as int) =~= v0);
    out
}

fn filter_forms_exec<Type>(v: Vec<Form<Type>>, pat: &str) -> (r: Vec<Form<Type>>)
    ensures
        r@ == filter_forms(v@, pat@),
{
    let ghost v0 = v@;
    let mut v = v;
    let n = v.len();
    let mut out: Vec<Form<Type>> = Vec::new();
    let mut i: usize = 0;
    assert(v@ =~= v0.skip(0));
    assert(v0.take(0) =~= Seq::<Form<Type>>::empty());
    while i < n
        invariant
            i <= n,
            v0.len() == n,
            v@.len() == n - i,
            v@ =~= v0.skip(i as int),
            out@ == filter_forms(v0.take(i as int), pat@),
        decreases n - i,
    {
        proof {
            assert(v0.skip(i as int)[0] == v0[i as int]);
            assert(v0.take(i + 1).drop_last() =~= v0.take(i as int));
            assert(v0.take(i + 1).last() == v0[i as int]);
        }
        let e = v.remove(0);
        assert(e == v0[i as int]);
        if crate::text::str_contains(e.name.as_str(), pat) {
            out.push(e);
        }
        proof {
            assert(v@ =~= v0.skip(i + 1));
            assert(out@ =~= filter_forms(v0.take(i + 1), pat@));
        }
        i = i + 1;
    }
    assert(v0.take(n as int) =~= v0);
    out
}

impl OnkostarEditor {
    /// Retains, in every collection, only the entities whose name contains
    /// the given text.
    pub fn filter_by_name_contains(&mut self, name: &str)
        ensures
            final(self).editor.property_catalogue@ == filter_pcs(
                old(self).editor.property_catalogue@,
                name@,
            ),
            final(self).editor.data_catalogue@ == filter_dcs(
                old(self).editor.data_catalogue@,
                name@,
            ),
            final(self).editor.data_form@ == filter_forms(old(self).editor.data_form@, name@),
            final(self).editor.unterformular@ == filter_forms(
                old(self).editor.unterformular@,
                name@,
            ),
            *final(self) == (OnkostarEditor { editor: final(self).editor, ..*old(self) }),
            final(self).editor == (Editor {
                property_catalogue: final(self).editor.property_catalogue,
                data_catalogue: final(self).editor.data_catalogue,
                data_form: final(self).editor.data_form,
                unterformular: final(self).editor.unterformular,
                ..old(self).editor
            }),
    {
        let mut pcs: Vec<PropertyCatalogue> = Vec::new();
        core::mem::swap(&mut self.editor.property_catalogue, &mut pcs);
        let pcs = filter_pcs_exec(pcs, name);
        self.editor.property_catalogue = pcs;

        let mut dcs: Vec<DataCatalogue> = Vec::new();
        core::mem::swap(&mut self.editor.data_catalogue, &mut dcs);
        let dcs = filter_dcs_exec(dcs, name);
        self.editor.data_catalogue = dcs;

        let mut dfs: Vec<Form<DataFormType>> = Vec::new();
        core::mem::swap(&mut self.editor.data_form, &mut dfs);
        let dfs = filter_forms_exec(dfs, name);
        self.editor.data_form = dfs;

        let mut ufs: Vec<Form<UnterformularType>> = Vec::new();
        core::mem::swap(&mut self.editor.unterformular, &mut ufs);
        let ufs = filter_forms_exec(ufs, name);
        self.editor.unterformular = ufs;
    }
}

} // verus!

//! What grouping profiles by TIN guarantees: the listing is a sorted rearrangement of the
//! profiles, every profile is filed exactly once, and each group holds only profiles of
//! its own TIN and holder kind.

use vstd::prelude::*;
use crate::text::is_blank;
use crate::contracts::tax_profile::{
    TaxProfileView, TinGroupModel, add_to_groups, fold_groups, group_index, insertion_point,
    sorted_views, text_lt, text_lt_from, tin_groups, view_lt,
};

verus! {

proof fn lemma_text_lt_irreflexive(a: Seq<char>, i: int)
    ensures
        !text_lt_from(a, a, i),
    decreases a.len() - i,
{
    if 0 <= i < a.len() {
        lemma_text_lt_irreflexive(a, i + 1);
    }
}

proof fn lemma_text_lt_transitive(a: Seq<char>, b: Seq<char>, c: Seq<char>, i: int)
    requires
        text_lt_from(a, b, i),
        text_lt_from(b, c, i),
    ensures
        text_lt_from(a, c, i),
    decreases a.len() - i,
{
    if 0 <= i < a.len() && i < b.len() && i < c.len() && a[i] == b[i] && b[i] == c[i] {
        lemma_text_lt_transitive(a, b, c, i + 1);
    }
}

/// The listing order of profiles is a strict order: never `a < a`, and transitive.
pub proof fn lemma_view_order(a: TaxProfileView, b: TaxProfileView, c: TaxProfileView)
    ensures
        !view_lt(a, a),
        view_lt(a, b) && view_lt(b, c) ==> view_lt(a, c),
        view_lt(a, b) ==> !view_lt(b, a),
{
    lemma_text_lt_irreflexive(a.tin_last4@, 0);
    lemma_text_lt_irreflexive(a.holder_kind@, 0);
    lemma_text_lt_irreflexive(a.branch_code@, 0);
    if view_lt(a, b) && view_lt(b, c) {
        if text_lt(a.tin_last4@, b.tin_last4@) && text_lt(b.tin_last4@, c.tin_last4@) {
            lemma_text_lt_transitive(a.tin_last4@, b.tin_last4@, c.tin_last4@, 0);
        }
        if text_lt(a.holder_kind@, b.holder_kind@) && text_lt(b.holder_kind@, c.holder_kind@) {
            lemma_text_lt_transitive(a.holder_kind@, b.holder_kind@, c.holder_kind@, 0);
        }
        if text_lt(a.branch_code@, b.branch_code@) && text_lt(b.branch_code@, c.branch_code@) {
            lemma_text_lt_transitive(a.branch_code@, b.branch_code@, c.branch_code@, 0);
        }
    }
    if view_lt(a, b) && view_lt(b, a) {
        if text_lt(a.tin_last4@, b.tin_last4@) && text_lt(b.tin_last4@, a.tin_last4@) {
            lemma_text_lt_transitive(a.tin_last4@, b.tin_last4@, a.tin_last4@, 0);
        }
        if text_lt(a.holder_kind@, b.holder_kind@) && text_lt(b.holder_kind@, a.holder_kind@) {
            lemma_text_lt_transitive(a.holder_kind@, b.holder_kind@, a.holder_kind@, 0);
        }
        if text_lt(a.branch_code@, b.branch_code@) && text_lt(b.branch_code@, a.branch_code@) {
            lemma_text_lt_transitive(a.branch_code@, b.branch_code@, a.branch_code@, 0);
        }
    }
}

proof fn lemma_insertion_point(s: Seq<TaxProfileView>, p: TaxProfileView, j: int)
    requires
        0 <= j <= s.len(),
    ensures
        j <= insertion_point(s, p, j) <= s.len(),
        forall|k: int| j <= k < insertion_point(s, p, j) ==> !view_lt(p, #[trigger] s[k]),
        insertion_point(s, p, j) < s.len() ==> view_lt(p, s[insertion_point(s, p, j)]),
    decreases s.len() - j,
{
    if j < s.len() && !view_lt(p, s[j]) {
        lemma_insertion_point(s, p, j + 1);
    }
}

/// No profile of the listing orders strictly before one that precedes it.
pub open spec fn listed_in_order(s: Seq<TaxProfileView>) -> bool {
    forall|i: int, j: int| 0 <= i < j < s.len() ==> !view_lt(#[trigger] s[j], #[trigger] s[i])
}

/// The profiles are listed in (`tin_last4`, `holder_kind`, `branch_code`) order, and the
/// listing holds exactly the given profiles, each as often as it was given.
pub proof fn lemma_sorted_views(s: Seq<TaxProfileView>)
    ensures
        listed_in_order(sorted_views(s)),
        sorted_views(s).to_multiset() == s.to_multiset(),
        sorted_views(s).len() == s.len(),
    decreases s.len(),
{
    broadcast use vstd::seq_lib::to_multiset_insert, vstd::seq_lib::to_multiset_build;

    if s.len() == 0 {
        return;
    }
    let t = sorted_views(s.drop_last());
    let x = s.last();
    lemma_sorted_views(s.drop_last());
    lemma_insertion_point(t, x, 0);
    let pos = insertion_point(t, x, 0);
    let r = t.insert(pos, x);
    assert(r == sorted_views(s));
    assert forall|i: int, j: int| 0 <= i < j < r.len() implies !view_lt(r[j], r[i]) by {
        if j < pos {
            assert(r[i] == t[i] && r[j] == t[j]);
        } else if j == pos {
            assert(r[i] == t[i]);
        } else if i < pos {
            assert(r[i] == t[i] && r[j] == t[j - 1]);
        } else if i == pos {
            assert(r[j] == t[j - 1]);
            assert(view_lt(x, t[pos]));
            if view_lt(t[j - 1], x) {
                lemma_view_order(t[j - 1], x, t[pos]);
                if j - 1 > pos {
                    assert(!view_lt(t[j - 1], t[pos]));
                } else {
                    lemma_view_order(t[pos], t[pos], t[pos]);
                }
            }
        } else {
            assert(r[i] == t[i - 1] && r[j] == t[j - 1]);
        }
    }
    assert(s =~= s.drop_last().push(x));
}

/// Every group holds only profiles of its own TIN and holder kind, and no two groups
/// share a TIN and holder kind.
pub open spec fn groups_well_filed(gs: Seq<TinGroupModel>) -> bool {
    &&& forall|g: int, b: int|
        0 <= g < gs.len() && 0 <= b < gs[g].branches.len() ==> {
            &&& (#[trigger] gs[g].branches[b]).tin_last4@ == gs[g].tin_last4
            &&& gs[g].branches[b].holder_kind@ == gs[g].holder_kind
        }
    &&& forall|g: int, h: int|
        0 <= g < h < gs.len() ==> !(#[trigger] gs[g].tin_last4 == #[trigger] gs[h].tin_last4
            && gs[g].holder_kind == gs[h].holder_kind)
    &&& forall|g: int| 0 <= g < gs.len() ==> #[trigger] gs[g].branches.len() > 0
}

/// The number of profiles filed in the groups.
pub open spec fn filed_count(gs: Seq<TinGroupModel>) -> nat
    decreases gs.len(),
{
    if gs.len() == 0 {
        0
    } else {
        filed_count(gs.drop_last()) + gs.last().branches.len()
    }
}

proof fn lemma_group_index(gs: Seq<TinGroupModel>, tin: Seq<char>, holder: Seq<char>, j: int)
    requires
        0 <= j <= gs.len(),
    ensures
        group_index(gs, tin, holder, j) == -1 || j <= group_index(gs, tin, holder, j) < gs.len(),
        group_index(gs, tin, holder, j) >= 0 ==> gs[group_index(gs, tin, holder, j)].tin_last4
            == tin && gs[group_index(gs, tin, holder, j)].holder_kind == holder,
        group_index(gs, tin, holder, j) == -1 ==> forall|k: int|
            j <= k < gs.len() ==> !(#[trigger] gs[k].tin_last4 == tin && gs[k].holder_kind
                == holder),
    decreases gs.len() - j,
{
    if j < gs.len() && !(gs[j].tin_last4 == tin && gs[j].holder_kind == holder) {
        lemma_group_index(gs, tin, holder, j + 1);
    }
}

proof fn lemma_filed_count_update(gs: Seq<TinGroupModel>, j: int, g: TinGroupModel)
    requires
        0 <= j < gs.len(),
    ensures
        filed_count(gs.update(j, g)) == filed_count(gs) - gs[j].branches.len() + g.branches.len(),
    decreases gs.len(),
{
    if j == gs.len() - 1 {
        assert(gs.update(j, g).drop_last() =~= gs.drop_last());
    } else {
        lemma_filed_count_update(gs.drop_last(), j, g);
        assert(gs.update(j, g).drop_last() =~= gs.drop_last().update(j, g));
    }
}

/// Filing profiles one at a time keeps the groups well filed and files each exactly once.
pub proof fn lemma_fold_groups(s: Seq<TaxProfileView>)
    ensures
        groups_well_filed(fold_groups(s)),
        filed_count(fold_groups(s)) == s.len(),
    decreases s.len(),
{
    if s.len() == 0 {
        return;
    }
    lemma_fold_groups(s.drop_last());
    let gs = fold_groups(s.drop_last());
    let p = s.last();
    lemma_group_index(gs, p.tin_last4@, p.holder_kind@, 0);
    let j = group_index(gs, p.tin_last4@, p.holder_kind@, 0);
    let r = add_to_groups(gs, p);
    if j >= 0 {
        let g = r[j];
        lemma_filed_count_update(gs, j, g);
        assert forall|a: int, b: int|
            0 <= a < r.len() && 0 <= b < r[a].branches.len() implies {
            &&& (#[trigger] r[a].branches[b]).tin_last4@ == r[a].tin_last4
            &&& r[a].branches[b].holder_kind@ == r[a].holder_kind
        } by {
            if a == j && b == gs[j].branches.len() {
                assert(r[a].branches[b] == p);
            } else if a == j {
                assert(r[a].branches[b] == gs[a].branches[b]);
            }
        }
        assert forall|a: int, b: int|
            0 <= a < b < r.len() implies !(#[trigger] r[a].tin_last4 == #[trigger] r[b].tin_last4
            && r[a].holder_kind == r[b].holder_kind) by {
            assert(gs[a].tin_last4 == r[a].tin_last4 && gs[b].tin_last4 == r[b].tin_last4);
        }
        assert forall|a: int| 0 <= a < r.len() implies #[trigger] r[a].branches.len() > 0 by {
            assert(r[a].branches.len() >= gs[a].branches.len());
        }
    } else {
        assert(r.drop_last() =~= gs);
        assert forall|a: int, b: int|
            0 <= a < r.len() && 0 <= b < r[a].branches.len() implies {
            &&& (#[trigger] r[a].branches[b]).tin_last4@ == r[a].tin_last4
            &&& r[a].branches[b].holder_kind@ == r[a].holder_kind
        } by {
            if a < gs.len() {
                assert(r[a] == gs[a]);
            }
        }
        assert forall|a: int, b: int|
            0 <= a < b < r.len() implies !(#[trigger] r[a].tin_last4 == #[trigger] r[b].tin_last4
            && r[a].holder_kind == r[b].holder_kind) by {
            assert(r[a] == gs[a]);
            if b < gs.len() {
                assert(r[b] == gs[b]);
            }
        }
        assert forall|a: int| 0 <= a < r.len() implies #[trigger] r[a].branches.len() > 0 by {
            if a < gs.len() {
                assert(r[a] == gs[a]);
            }
        }
    }
}

/// Grouping by TIN files every profile exactly once, never mixes TINs or holder kinds
/// within a group, and never splits one TIN and holder kind over two groups.
pub proof fn lemma_tin_groups(s: Seq<TaxProfileView>)
    ensures
        groups_well_filed(tin_groups(s)),
        filed_count(tin_groups(s)) == s.len(),
{
    lemma_sorted_views(s);
    lemma_fold_groups(sorted_views(s));
}

/// The display name of the first profile in `branches`, in order, whose name is not blank.
pub open spec fn first_given_name(branches: Seq<TaxProfileView>) -> Option<Seq<char>>
    decreases branches.len(),
{
    if branches.len() == 0 {
        None
    } else {
        match first_given_name(branches.drop_last()) {
            Some(n) => Some(n),
            None => if is_blank(branches.last().display_name@) {
                None
            } else {
                Some(branches.last().display_name@)
            },
        }
    }
}

/// Every group is named after its first branch with a non-blank name; a group none of
/// whose branches has a name keeps a blank name.
pub open spec fn groups_named_first(gs: Seq<TinGroupModel>) -> bool {
    forall|g: int|
        0 <= g < gs.len() ==> match first_given_name(#[trigger] gs[g].branches) {
            Some(n) => gs[g].display_name == n,
            None => is_blank(gs[g].display_name),
        }
}

proof fn lemma_first_given_name_push(b: Seq<TaxProfileView>, p: TaxProfileView)
    ensures
        first_given_name(b.push(p)) == match first_given_name(b) {
            Some(n) => Some(n),
            None => if is_blank(p.display_name@) {
                None
            } else {
                Some(p.display_name@)
            },
        },
        first_given_name(b) matches Some(n) ==> !is_blank(n),
    decreases b.len(),
{
    assert(b.push(p).drop_last() =~= b);
    if b.len() > 0 {
        lemma_first_given_name_push(b.drop_last(), b.last());
        assert(b.drop_last().push(b.last()) =~= b);
    }
}

/// Filing profiles in order names each group after its first named branch: a later
/// branch never replaces a name already given.
pub proof fn lemma_fold_groups_named_first(s: Seq<TaxProfileView>)
    ensures
        groups_named_first(fold_groups(s)),
    decreases s.len(),
{
    if s.len() == 0 {
        return;
    }
    lemma_fold_groups_named_first(s.drop_last());
    let gs = fold_groups(s.drop_last());
    let p = s.last();
    lemma_group_index(gs, p.tin_last4@, p.holder_kind@, 0);
    let j = group_index(gs, p.tin_last4@, p.holder_kind@, 0);
    let r = add_to_groups(gs, p);
    assert forall|g: int| 0 <= g < r.len() implies match first_given_name(#[trigger] r[g].branches) {
        Some(n) => r[g].display_name == n,
        None => is_blank(r[g].display_name),
    } by {
        if j >= 0 && g == j {
            lemma_first_given_name_push(gs[j].branches, p);
            assert(r[g].branches == gs[j].branches.push(p));
        } else if j < 0 && g == gs.len() {
            lemma_first_given_name_push(Seq::<TaxProfileView>::empty(), p);
            assert(r[g].branches =~= Seq::<TaxProfileView>::empty().push(p));
        } else {
            assert(r[g] == gs[g]);
        }
    }
}

/// Each TIN group is named after its first branch, in listing order (branch code
/// ascending within a TIN and holder kind), whose display name is not blank.
pub proof fn lemma_tin_groups_named_first(s: Seq<TaxProfileView>)
    ensures
        groups_named_first(tin_groups(s)),
{
    lemma_fold_groups_named_first(sorted_views(s));
}

} // verus!

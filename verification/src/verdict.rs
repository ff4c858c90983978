//! The verdict engine: reduce accumulated findings to a pass/fail
//! decision under a configurable policy, and group findings by category
//! for the human-readable report.  Grouping preserves the order in which
//! categories were first seen and never affects the decision.

use vstd::prelude::*;

use crate::classify::Finding;
use crate::classify::FindingModel;
use crate::engine::views_of;
use crate::engine::ValidationResult;

verus! {

/// The rule mapping accumulated findings to a pass/fail decision.
#[derive(Clone, Copy, Debug, PartialEq, Eq, Structural)]
pub enum VerdictPolicy {
    /// Never fail; the report is informational only.
    Lenient,
    /// Fail when any error or warning was recorded.
    StrictOnWarn,
    /// Fail when any error was recorded.
    Normal,
}

/// The pass/fail decision for the given counts of errors and warnings.
pub open spec fn verdict_spec(policy: VerdictPolicy, errors: nat, warnings: nat) -> bool {
    match policy {
        VerdictPolicy::Lenient => true,
        VerdictPolicy::StrictOnWarn => errors == 0 && warnings == 0,
        VerdictPolicy::Normal => errors == 0,
    }
}

/// Reduce a validation result to pass/fail under `policy`.
pub fn verdict(result: &ValidationResult, policy: VerdictPolicy) -> (pass: bool)
    ensures
        pass == verdict_spec(policy, result@.errors.len(), result@.warnings.len()),
{
    match policy {
        VerdictPolicy::Lenient => true,
        VerdictPolicy::StrictOnWarn => result.errors.len() == 0 && result.warnings.len() == 0,
        VerdictPolicy::Normal => result.errors.len() == 0,
    }
}

/// Law: the three verdict policies decide exactly as specified —
/// `Lenient` always passes, `StrictOnWarn` passes if and only if there
/// are no errors and no warnings, and `Normal` passes if and only if
/// there are no errors.
pub proof fn lemma_verdict_policy(policy: VerdictPolicy, errors: nat, warnings: nat)
    ensures
        policy is Lenient ==> verdict_spec(policy, errors, warnings),
        policy is StrictOnWarn ==> (verdict_spec(policy, errors, warnings) <==> (errors == 0
            && warnings == 0)),
        policy is Normal ==> (verdict_spec(policy, errors, warnings) <==> errors == 0),
{
}

/// One report group: a category and the messages of its findings, in
/// arrival order.
pub struct CategoryGroup {
    pub category: String,
    pub messages: Vec<String>,
}

/// The mathematical value of a `CategoryGroup`.
#[verifier::ext_equal]
pub struct GroupModel {
    pub category: Seq<char>,
    pub messages: Seq<Seq<char>>,
}

/// The messages of a sequence of `String`s, as mathematical values.
pub open spec fn msg_views(v: Seq<String>) -> Seq<Seq<char>> {
    v.map_values(|m: String| m@)
}

impl View for CategoryGroup {
    type V = GroupModel;

    open spec fn view(&self) -> GroupModel {
        GroupModel { category: self.category@, messages: msg_views(self.messages@) }
    }
}

/// The groups of a sequence of `CategoryGroup`s, as mathematical values.
pub open spec fn group_views(gs: Seq<CategoryGroup>) -> Seq<GroupModel> {
    gs.map_values(|g: CategoryGroup| g@)
}

/// The report bucket a finding falls in: its category tag, or "Other"
/// when it carries none.
pub open spec fn category_key(f: FindingModel) -> Seq<char> {
    match f.category {
        Some(c) => c,
        None => "Other"@,
    }
}

/// `gs` with `msg` filed under `key`: appended to the existing group
/// with that category, or opening a new group at the end.
pub open spec fn insert_group(gs: Seq<GroupModel>, key: Seq<char>, msg: Seq<char>) -> Seq<
    GroupModel,
> {
    if exists|j: int| 0 <= j < gs.len() && gs[j].category == key {
        let j = choose|j: int| 0 <= j < gs.len() && gs[j].category == key;
        gs.update(j, GroupModel { category: gs[j].category, messages: gs[j].messages.push(msg) })
    } else {
        gs.push(GroupModel { category: key, messages: seq![msg] })
    }
}

/// The grouping of `fs` by category, preserving first-seen category
/// order and arrival order within each group.
pub open spec fn group_model(fs: Seq<FindingModel>) -> Seq<GroupModel>
    decreases fs.len(),
{
    if fs.len() == 0 {
        Seq::empty()
    } else {
        insert_group(group_model(fs.drop_last()), category_key(fs.last()), fs.last().message)
    }
}

/// No two groups share a category.
pub open spec fn distinct_keys(gs: Seq<GroupModel>) -> bool {
    forall|i: int, j: int| 0 <= i < j < gs.len() ==> gs[i].category != gs[j].category
}

/// Grouping never produces two groups with the same category.
pub proof fn lemma_group_model_distinct(fs: Seq<FindingModel>)
    ensures
        distinct_keys(group_model(fs)),
    decreases fs.len(),
{
    if fs.len() > 0 {
        lemma_group_model_distinct(fs.drop_last());
        let gs = group_model(fs.drop_last());
        let key = category_key(fs.last());
        let msg = fs.last().message;
        let gs2 = insert_group(gs, key, msg);
        if exists|j: int| 0 <= j < gs.len() && gs[j].category == key {
            assert forall|a: int, b: int| 0 <= a < b < gs2.len() implies gs2[a].category
                != gs2[b].category by {
                assert(gs2[a].category == gs[a].category);
                assert(gs2[b].category == gs[b].category);
            }
        } else {
            assert forall|a: int, b: int| 0 <= a < b < gs2.len() implies gs2[a].category
                != gs2[b].category by {
                if b < gs.len() {
                } else {
                    assert(gs2[b].category == key);
                    assert(gs2[a].category == gs[a].category);
                }
            }
        }
    }
}

/// Index of the group with category `key`, if one exists.
fn find_group(groups: &Vec<CategoryGroup>, key: &String) -> (r: Option<usize>)
    ensures
        match r {
            Some(j) => j < groups@.len() && groups@[j as int].category@ == key@,
            None => forall|k: int| 0 <= k < groups@.len() ==> groups@[k].category@ != key@,
        },
{
    let n = groups.len();
    let mut j: usize = 0;
    while j < n
        invariant
            n == groups@.len(),
            j <= n,
            forall|k: int| 0 <= k < j ==> groups@[k].category@ != key@,
        decreases n - j,
    {
        if groups[j].category.eq(key) {
            return Some(j);
        }
        j += 1;
    }
    None
}

/// Group the findings of one severity by category for the report,
/// preserving first-seen category order; findings without a category
/// tag are filed under "Other".
pub fn group_by_category(findings: &Vec<Finding>) -> (groups: Vec<CategoryGroup>)
    ensures
        group_views(groups@) == group_model(views_of(findings@)),
{
    let mut groups: Vec<CategoryGroup> = Vec::new();
    proof {
        assert(views_of(findings@).take(0) =~= Seq::<FindingModel>::empty());
        assert(group_views(groups@) =~= group_model(views_of(findings@).take(0)));
    }
    let n = findings.len();
    let mut idx: usize = 0;
    while idx < n
        invariant
            n == findings@.len(),
            idx <= n,
            group_views(groups@) == group_model(views_of(findings@).take(idx as int)),
        decreases n - idx,
    {
        let ghost fs = views_of(findings@);
        let ghost gs = group_views(groups@);
        let f = &findings[idx];
        let key: String = match &f.category {
            Some(c) => c.clone(),
            None => "Other".to_owned(),
        };
        let msg: String = f.message.clone();
        proof {
            assert(fs[idx as int] == f@);
            assert(key@ == category_key(f@));
            assert(fs.take(idx + 1).drop_last() =~= fs.take(idx as int));
            assert(fs.take(idx + 1).last() == f@);
            lemma_group_model_distinct(fs.take(idx as int));
        }
        let ghost groups0 = groups@;
        match find_group(&groups, &key) {
            Some(j) => {
                proof {
                    assert(gs[j as int].category == key@);
                    let jj = choose|jj: int| 0 <= jj < gs.len() && gs[jj].category == key@;
                    assert(jj == j) by {
                        if jj < j {
                            assert(gs[jj].category != gs[j as int].category);
                        } else if j < jj {
                            assert(gs[j as int].category != gs[jj].category);
                        }
                    }
                }
                let ghost msgv = msg@;
                groups[j].messages.push(msg);
                proof {
                    assert(groups@[j as int].category@ == key@);
                    assert(msg_views(groups@[j as int].messages@) =~= msg_views(
                        groups0[j as int].messages@,
                    ).push(msgv));
                    assert(group_views(groups@) =~~= gs.update(
                        j as int,
                        GroupModel {
                            category: gs[j as int].category,
                            messages: gs[j as int].messages.push(msg@),
                        },
                    ));
                    assert(group_views(groups@) == group_model(fs.take(idx + 1)));
                }
            },
            None => {
                proof {
                    assert forall|jj: int| !(0 <= jj < gs.len() && gs[jj].category == key@) by {
                        if 0 <= jj < gs.len() {
                            assert(gs[jj].category == groups@[jj].category@);
                        }
                    }
                }
                let mut msgs: Vec<String> = Vec::new();
                msgs.push(msg);
                groups.push(CategoryGroup { category: key, messages: msgs });
                proof {
                    assert(group_views(groups@) =~~= gs.push(
                        GroupModel { category: key@, messages: seq![msg@] },
                    ));
                    assert(group_views(groups@) == group_model(fs.take(idx + 1)));
                }
            },
        }
        idx += 1;
    }
    proof {
        assert(views_of(findings@).take(n as int) =~= views_of(findings@));
    }
    groups
}

} // verus!

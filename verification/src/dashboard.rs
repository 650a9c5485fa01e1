//! The rows of the tools dashboard, from what the server offers, what the
//! client can run and what the server keeps of authored tools.
use vstd::prelude::*;
use crate::app::{ToolAvailability, ToolDashboardItem};
use crate::order::{is_strictly_sorted, sorted_unique};
use crate::protocol::{
    clone_value, ToolDescriptor, ToolExecutionKind, ToolOutputPolicy, ToolRisk, ToolRow,
    ToolVersionRow, ToolVersionStatus,
};
use crate::text::{str_eq, string_views};

verus! {

/// The server's and the client's descriptions of a tool agree on how it is
/// run, approved and reported.
pub open spec fn contract_matches(server: ToolDescriptor, local: ToolDescriptor) -> bool {
    &&& server.execution == local.execution
    &&& server.approval_required == local.approval_required
    &&& server.risk == local.risk
    &&& server.output_policy == local.output_policy
}

pub fn tool_contract_matches(server: &ToolDescriptor, local: &ToolDescriptor) -> (r: bool)
    ensures
        r == contract_matches(*server, *local),
        r ==> server.execution == local.execution,
        r ==> server.approval_required == local.approval_required,
        r ==> server.risk == local.risk,
        r ==> server.output_policy == local.output_policy,
        server.execution == local.execution && server.approval_required == local.approval_required
            && server.risk == local.risk && server.output_policy == local.output_policy ==> r,
{
    server.execution == local.execution && server.approval_required == local.approval_required
        && server.risk == local.risk && server.output_policy == local.output_policy
}

pub open spec fn descriptor_names(v: Seq<ToolDescriptor>) -> Seq<Seq<char>> {
    v.map_values(|d: ToolDescriptor| d.name@)
}

pub open spec fn item_names(v: Seq<ToolDashboardItem>) -> Seq<Seq<char>> {
    v.map_values(|d: ToolDashboardItem| d.descriptor.name@)
}

/// Index of the last descriptor named `n`, or -1 (a later one replaces an
/// earlier one, as when they are collected into a map by name).
pub open spec fn last_named(v: Seq<ToolDescriptor>, n: Seq<char>) -> int
    decreases v.len(),
{
    if v.len() == 0 {
        -1
    } else if v.last().name@ == n {
        v.len() - 1
    } else {
        last_named(v.drop_last(), n)
    }
}

/// Index of the last kept tool named `n`, or -1.
pub open spec fn last_row_named(v: Seq<ToolRow>, n: Seq<char>) -> int
    decreases v.len(),
{
    if v.len() == 0 {
        -1
    } else if v.last().name@ == n {
        v.len() - 1
    } else {
        last_row_named(v.drop_last(), n)
    }
}

/// The dashboard row for the tool named `n`: the server's description when
/// it offers the tool, active when the client runs it the same way (or the
/// server runs it itself); otherwise the client's own description, missing
/// on the server.
pub open spec fn named_item(
    server: Seq<ToolDescriptor>,
    local: Seq<ToolDescriptor>,
    kept: Seq<ToolRow>,
    n: Seq<char>,
) -> ToolDashboardItem {
    let si = last_named(server, n);
    let li = last_named(local, n);
    let mi = last_row_named(kept, n);
    if si >= 0 {
        let s = server[si];
        ToolDashboardItem {
            descriptor: s,
            availability: if li >= 0 {
                if contract_matches(s, local[li]) {
                    ToolAvailability::Active
                } else {
                    ToolAvailability::MissingLocally
                }
            } else if s.execution == ToolExecutionKind::ServerNative {
                ToolAvailability::Active
            } else {
                ToolAvailability::MissingLocally
            },
            tool_id: if mi >= 0 { Some(kept[mi].id) } else { None },
            version_id: None,
            draft_script: None,
            draft_language: None,
        }
    } else {
        ToolDashboardItem {
            descriptor: local[li],
            availability: ToolAvailability::MissingRemotely,
            tool_id: None,
            version_id: None,
            draft_script: None,
            draft_language: None,
        }
    }
}

/// The dashboard row of a draft version of a kept tool.
pub open spec fn draft_item(row: ToolRow, v: ToolVersionRow) -> ToolDashboardItem {
    ToolDashboardItem {
        descriptor: ToolDescriptor {
            name: row.name,
            description: v.description,
            execution: ToolExecutionKind::LocalProxy,
            approval_required: v.risk != ToolRisk::ReadOnly,
            risk: v.risk,
            output_policy: ToolOutputPolicy::SummaryOnly,
            parameters: v.args_schema,
        },
        availability: ToolAvailability::Draft,
        tool_id: Some(row.id),
        version_id: Some(v.id),
        draft_script: Some(v.script),
        draft_language: Some(v.language),
    }
}

/// The rows of the draft versions among `vs`, in order.
pub open spec fn row_drafts(row: ToolRow, vs: Seq<ToolVersionRow>) -> Seq<ToolDashboardItem>
    decreases vs.len(),
{
    if vs.len() == 0 {
        Seq::empty()
    } else {
        let before = row_drafts(row, vs.drop_last());
        if vs.last().status == ToolVersionStatus::Draft {
            before.push(draft_item(row, vs.last()))
        } else {
            before
        }
    }
}

/// A later kept tool has the same name as the one at `i` (and replaces it).
pub open spec fn named_later(m: Seq<ToolRow>, i: int) -> bool {
    exists|j: int| i < j < m.len() && #[trigger] m[j].name@ == m[i].name@
}

/// The draft rows of the first `upto` kept tools, skipping those that a
/// later one replaces.
pub open spec fn draft_rows(m: Seq<ToolRow>, upto: int) -> Seq<ToolDashboardItem>
    decreases upto,
{
    if upto <= 0 {
        Seq::empty()
    } else {
        let before = draft_rows(m, upto - 1);
        if named_later(m, upto - 1) {
            before
        } else {
            before + row_drafts(m[upto - 1], m[upto - 1].versions@)
        }
    }
}

/// `r` is the dashboard: one row per tool name that the server or the
/// client knows, in ascending order of name, followed by the draft rows of
/// the kept tools, in the order the server listed them.
pub open spec fn is_dashboard(
    r: Seq<ToolDashboardItem>,
    server: Seq<ToolDescriptor>,
    local: Seq<ToolDescriptor>,
    kept: Seq<ToolRow>,
) -> bool {
    let d = draft_rows(kept, kept.len() as int);
    let k = r.len() - d.len();
    &&& r.len() >= d.len()
    &&& is_strictly_sorted(item_names(r.take(k)))
    &&& item_names(r.take(k)).to_set() == (descriptor_names(server) + descriptor_names(
        local,
    )).to_set()
    &&& forall|i: int| 0 <= i < k ==> #[trigger] r[i] == named_item(server, local, kept, r[i].descriptor.name@)
    &&& r.skip(k) == d
}

proof fn lemma_last_named(v: Seq<ToolDescriptor>, n: Seq<char>)
    ensures
        -1 <= last_named(v, n) < v.len(),
        last_named(v, n) >= 0 ==> v[last_named(v, n)].name@ == n,
        last_named(v, n) == -1 ==> forall|i: int| 0 <= i < v.len() ==> (#[trigger] v[i]).name@ != n,
    decreases v.len(),
{
    if v.len() > 0 {
        lemma_last_named(v.drop_last(), n);
        assert forall|i: int| 0 <= i < v.len() - 1 implies v.drop_last()[i] == v[i] by {}
    }
}

proof fn lemma_last_row_named(v: Seq<ToolRow>, n: Seq<char>)
    ensures
        -1 <= last_row_named(v, n) < v.len(),
        last_row_named(v, n) >= 0 ==> v[last_row_named(v, n)].name@ == n,
    decreases v.len(),
{
    if v.len() > 0 {
        lemma_last_row_named(v.drop_last(), n);
    }
}

fn find_last_named(v: &Vec<ToolDescriptor>, n: &String) -> (r: Option<usize>)
    ensures
        match r {
            Some(i) => i == last_named(v@, n@) && i < v@.len(),
            None => last_named(v@, n@) == -1,
        },
{
    let mut i: usize = v.len();
    assert(v@.take(v@.len() as int) =~= v@);
    while i > 0
        invariant
            i <= v.len(),
            last_named(v@, n@) == last_named(v@.take(i as int), n@),
        decreases i,
    {
        assert(v@.take(i as int).drop_last() =~= v@.take(i - 1));
        if str_eq(v[i - 1].name.as_str(), n.as_str()) {
            proof {
                lemma_last_named(v@, n@);
            }
            return Some(i - 1);
        }
        i = i - 1;
    }
    None
}

fn find_last_row(v: &Vec<ToolRow>, n: &String) -> (r: Option<usize>)
    ensures
        match r {
            Some(i) => i == last_row_named(v@, n@) && i < v@.len(),
            None => last_row_named(v@, n@) == -1,
        },
{
    let mut i: usize = v.len();
    assert(v@.take(v@.len() as int) =~= v@);
    while i > 0
        invariant
            i <= v.len(),
            last_row_named(v@, n@) == last_row_named(v@.take(i as int), n@),
        decreases i,
    {
        assert(v@.take(i as int).drop_last() =~= v@.take(i - 1));
        if str_eq(v[i - 1].name.as_str(), n.as_str()) {
            proof {
                lemma_last_row_named(v@, n@);
            }
            return Some(i - 1);
        }
        i = i - 1;
    }
    None
}

fn clone_opt_id(v: &ToolRow) -> (r: String)
    ensures
        r == v.id,
{
    v.id.clone()
}

/// The draft row of one version.
fn make_draft_item(row: &ToolRow, v: &ToolVersionRow) -> (r: ToolDashboardItem)
    ensures
        r == draft_item(*row, *v),
{
    ToolDashboardItem {
        descriptor: ToolDescriptor {
            name: row.name.clone(),
            description: v.description.clone(),
            execution: ToolExecutionKind::LocalProxy,
            approval_required: v.risk != ToolRisk::ReadOnly,
            risk: v.risk,
            output_policy: ToolOutputPolicy::SummaryOnly,
            parameters: clone_value(&v.args_schema),
        },
        availability: ToolAvailability::Draft,
        tool_id: Some(row.id.clone()),
        version_id: Some(v.id.clone()),
        draft_script: Some(v.script.clone()),
        draft_language: Some(v.language),
    }
}

/// Whether a later kept tool has the name of the one at `i`.
fn replaced_later(m: &Vec<ToolRow>, i: usize) -> (r: bool)
    requires
        i < m@.len(),
    ensures
        r == named_later(m@, i as int),
{
    let len = m.len();
    let mut j: usize = i + 1;
    while j < len
        invariant
            i < j <= m.len(),
            len == m@.len(),
            forall|k: int| i < k < j ==> #[trigger] m@[k].name@ != m@[i as int].name@,
        decreases len - j,
    {
        if str_eq(m[j].name.as_str(), m[i].name.as_str()) {
            return true;
        }
        j = j + 1;
    }
    false
}

/// The rows of the tools dashboard: `server` is what the server offers,
/// `local` what the client can run, and `kept` the tools the server keeps,
/// with their versions.
pub fn dashboard_items(
    server: &Vec<ToolDescriptor>,
    local: &Vec<ToolDescriptor>,
    kept: &Vec<ToolRow>,
) -> (r: Vec<ToolDashboardItem>)
    ensures
        is_dashboard(r@, server@, local@, kept@),
{
    let mut names: Vec<String> = Vec::new();
    let mut i: usize = 0;
    while i < server.len()
        invariant
            i <= server.len(),
            string_views(names@) == descriptor_names(server@.take(i as int)),
        decreases server.len() - i,
    {
        let ghost before = names@;
        names.push(server[i].name.clone());
        assert(server@.take(i + 1) =~= server@.take(i as int).push(server@[i as int]));
        assert(string_views(names@) =~= string_views(before).push(server@[i as int].name@));
        assert(descriptor_names(server@.take(i + 1)) =~= descriptor_names(server@.take(i as int)).push(
            server@[i as int].name@,
        ));
        i = i + 1;
    }
    assert(server@.take(server.len() as int) =~= server@);
    let mut i: usize = 0;
    while i < local.len()
        invariant
            i <= local.len(),
            string_views(names@) == descriptor_names(server@) + descriptor_names(local@.take(i as int)),
        decreases local.len() - i,
    {
        let ghost before = names@;
        names.push(local[i].name.clone());
        assert(local@.take(i + 1) =~= local@.take(i as int).push(local@[i as int]));
        assert(string_views(names@) =~= string_views(before).push(local@[i as int].name@));
        assert(descriptor_names(local@.take(i + 1)) =~= descriptor_names(local@.take(i as int)).push(
            local@[i as int].name@,
        ));
        assert(string_views(names@) =~= descriptor_names(server@) + descriptor_names(local@.take(i + 1)));
        i = i + 1;
    }
    assert(local@.take(local.len() as int) =~= local@);
    let ghost all = string_views(names@);
    let ns = sorted_unique(names);
    let mut items: Vec<ToolDashboardItem> = Vec::new();
    let mut i: usize = 0;
    while i < ns.len()
        invariant
            all == descriptor_names(server@) + descriptor_names(local@),
            is_strictly_sorted(string_views(ns@)),
            string_views(ns@).to_set() == all.to_set(),
            i <= ns.len(),
            items@.len() == i,
            item_names(items@) == string_views(ns@).take(i as int),
            forall|j: int| 0 <= j < i ==> #[trigger] items@[j] == named_item(server@, local@, kept@, items@[j].descriptor.name@),
        decreases ns.len() - i,
    {
        let n = &ns[i];
        let si = find_last_named(server, n);
        let li = find_last_named(local, n);
        let mi = find_last_row(kept, n);
        proof {
            lemma_last_named(server@, n@);
            lemma_last_named(local@, n@);
            lemma_last_row_named(kept@, n@);
        }
        let tool_id = match mi {
            Some(m) => Some(clone_opt_id(&kept[m])),
            None => None,
        };
        let item = match si {
            Some(s) => {
                let d = server[s].duplicate();
                let availability = match li {
                    Some(l) => if tool_contract_matches(&server[s], &local[l]) {
                        ToolAvailability::Active
                    } else {
                        ToolAvailability::MissingLocally
                    },
                    None => if server[s].execution == ToolExecutionKind::ServerNative {
                        ToolAvailability::Active
                    } else {
                        ToolAvailability::MissingLocally
                    },
                };
                ToolDashboardItem {
                    descriptor: d,
                    availability,
                    tool_id,
                    version_id: None,
                    draft_script: None,
                    draft_language: None,
                }
            },
            None => {
                match li {
                    Some(l) => ToolDashboardItem {
                        descriptor: local[l].duplicate(),
                        availability: ToolAvailability::MissingRemotely,
                        tool_id: None,
                        version_id: None,
                        draft_script: None,
                        draft_language: None,
                    },
                    None => {
                        proof {
                            let x = string_views(ns@)[i as int];
                            assert(string_views(ns@).to_set().contains(x));
                            assert(all.to_set().contains(x));
                            let j = choose|j: int| 0 <= j < all.len() && all[j] == x;
                            if j < server@.len() {
                                assert(server@[j].name@ == x);
                            } else {
                                assert(local@[j - server@.len()].name@ == x);
                            }
                        }
                        return items;
                    },
                }
            },
        };
        let ghost before = items@;
        items.push(item);
        assert(item_names(items@) =~= string_views(ns@).take(i + 1));
        i = i + 1;
    }
    assert(string_views(ns@).take(ns.len() as int) =~= string_views(ns@));
    let ghost named = items@;
    let ghost k = named.len();
    assert(items@.skip(k as int) =~= draft_rows(kept@, 0));
    let mut m: usize = 0;
    while m < kept.len()
        invariant
            m <= kept.len(),
            items@.len() >= k,
            items@.take(k as int) == named,
            items@.skip(k as int) == draft_rows(kept@, m as int),
        decreases kept.len() - m,
    {
        if !replaced_later(kept, m) {
            let row = &kept[m];
            let ghost base = items@;
            let mut v: usize = 0;
            assert(row_drafts(*row, row.versions@.take(0)) =~= Seq::<ToolDashboardItem>::empty());
            assert(base.skip(k as int) + row_drafts(*row, row.versions@.take(0)) =~= base.skip(k as int));
            while v < row.versions.len()
                invariant
                    m < kept@.len(),
                    *row == kept@[m as int],
                    v <= row.versions.len(),
                    items@.len() >= base.len(),
                    base.len() >= k,
                    items@.take(base.len() as int) == base,
                    items@.skip(k as int) == base.skip(k as int) + row_drafts(*row, row.versions@.take(v as int)),
                decreases row.versions.len() - v,
            {
                assert(row.versions@.take(v + 1).drop_last() =~= row.versions@.take(v as int));
                let ghost cur = items@;
                if row.versions[v].status == ToolVersionStatus::Draft {
                    let d = make_draft_item(row, &row.versions[v]);
                    items.push(d);
                    assert(items@.skip(k as int) =~= cur.skip(k as int).push(d));
                    assert(items@.take(base.len() as int) =~= base);
                }
                v = v + 1;
            }
            assert(row.versions@.take(row.versions.len() as int) =~= row.versions@);
        }
        assert(items@.take(k as int) =~= named);
        m = m + 1;
    }
    proof {
        let d = draft_rows(kept@, kept@.len() as int);
        assert(m == kept@.len());
        assert(items@.skip(k as int) == d);
        assert(items@.len() - d.len() == k);
        assert(items@.take(k as int) =~= named);
        assert(item_names(named) == string_views(ns@));
        assert forall|j: int| 0 <= j < k implies #[trigger] items@[j] == named_item(
            server@,
            local@,
            kept@,
            items@[j].descriptor.name@,
        ) by {
            assert(items@[j] == named[j]);
        }
    }
    items
}

/// The client runs a tool the way the server describes it exactly when the
/// two agree on how it is executed, on whether it needs approval, on its
/// risk and on its output policy; two descriptors that differ in any of
/// these never match.
pub proof fn law_contract_match_is_agreement(server: ToolDescriptor, local: ToolDescriptor)
    ensures
        contract_matches(server, local) ==> server.execution == local.execution,
        contract_matches(server, local) ==> server.approval_required == local.approval_required,
        contract_matches(server, local) ==> server.risk == local.risk,
        contract_matches(server, local) ==> server.output_policy == local.output_policy,
        server.execution == local.execution && server.approval_required == local.approval_required
            && server.risk == local.risk && server.output_policy == local.output_policy
            ==> contract_matches(server, local),
{
}

/// A tool that both the server and the client know is shown active exactly
/// when the client's descriptor agrees with the server's on execution,
/// approval, risk and output policy; otherwise it is missing on the
/// client. The row always carries the server's descriptor.
pub proof fn law_active_row_needs_same_contract(
    server: Seq<ToolDescriptor>,
    local: Seq<ToolDescriptor>,
    kept: Seq<ToolRow>,
    n: Seq<char>,
)
    requires
        exists|i: int| 0 <= i < server.len() && (#[trigger] server[i]).name@ == n,
        exists|i: int| 0 <= i < local.len() && (#[trigger] local[i]).name@ == n,
    ensures
        ({
            let item = named_item(server, local, kept, n);
            let s = server[last_named(server, n)];
            let l = local[last_named(local, n)];
            &&& s.name@ == n && l.name@ == n
            &&& item.descriptor == s
            &&& (item.availability == ToolAvailability::Active) <==> (s.execution == l.execution
                && s.approval_required == l.approval_required && s.risk == l.risk && s.output_policy
                == l.output_policy)
            &&& item.availability != ToolAvailability::Active ==> item.availability
                == ToolAvailability::MissingLocally
            &&& s.risk != l.risk ==> item.availability == ToolAvailability::MissingLocally
        }),
{
    lemma_last_named(server, n);
    lemma_last_named(local, n);
    let i = choose|i: int| 0 <= i < server.len() && (#[trigger] server[i]).name@ == n;
    let j = choose|j: int| 0 <= j < local.len() && (#[trigger] local[j]).name@ == n;
    assert(server[i].name@ == n);
    assert(local[j].name@ == n);
}

} // verus!

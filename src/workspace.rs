//! Per-workspace preferences: the chosen model and which MCP servers are
//! enabled, and how an update changes what is stored.

use vstd::prelude::*;
use vstd::string::StringExecFns;

verus! {

/// How much reasoning the model is asked for.
#[derive(Clone, Copy, Debug, PartialEq, Eq, Structural)]
pub enum ReasoningEffort {
    Minimal,
    Low,
    Medium,
    High,
}

/// Stored state of one MCP server.
#[derive(Clone, Copy, Debug, Default, PartialEq, Eq, Structural)]
pub struct WorkspaceMcpServerState {
    pub enabled: Option<bool>,
}

/// One named MCP server entry.
#[derive(Clone, Debug)]
pub struct McpServerEntry {
    pub name: String,
    pub state: WorkspaceMcpServerState,
}

/// Preferences stored for one workspace. Server names are unique.
#[derive(Clone, Debug, Default)]
pub struct WorkspaceState {
    pub model: Option<String>,
    pub model_reasoning_effort: Option<ReasoningEffort>,
    pub mcp_servers: Vec<McpServerEntry>,
}

/// A server entry as a name and its enabled flag.
pub open spec fn entry_view(e: McpServerEntry) -> (Seq<char>, Option<bool>) {
    (e.name@, e.state.enabled)
}

pub open spec fn entries_view(es: Seq<McpServerEntry>) -> Seq<(Seq<char>, Option<bool>)> {
    es.map_values(|e: McpServerEntry| entry_view(e))
}

/// No two entries share a name.
pub open spec fn unique_names(es: Seq<(Seq<char>, Option<bool>)>) -> bool {
    forall|i: int, j: int| 0 <= i < es.len() && 0 <= j < es.len() && i != j ==> es[i].0 != es[j].0
}

/// The entries that hold a setting; the others are not stored.
pub open spec fn with_setting(es: Seq<(Seq<char>, Option<bool>)>) -> Seq<(Seq<char>, Option<bool>)> {
    es.filter(|e: (Seq<char>, Option<bool>)| e.1 is Some)
}

/// The entries with `name` enabled or disabled: its entry updated in place,
/// or a new entry at the end.
pub open spec fn set_enabled(es: Seq<(Seq<char>, Option<bool>)>, name: Seq<char>, enabled: bool) -> Seq<(Seq<char>, Option<bool>)> {
    if exists|i: int| 0 <= i < es.len() && es[i].0 == name {
        let i = choose|i: int| 0 <= i < es.len() && es[i].0 == name;
        es.update(i, (name, Some(enabled)))
    } else {
        es.push((name, Some(enabled)))
    }
}

impl WorkspaceState {
    pub open spec fn wf(&self) -> bool {
        unique_names(entries_view(self.mcp_servers@))
    }

    pub open spec fn servers(&self) -> Seq<(Seq<char>, Option<bool>)> {
        entries_view(self.mcp_servers@)
    }
}

/// Drops the entries that hold no setting, keeping the others in order.
fn retain_set(entries: Vec<McpServerEntry>) -> (r: Vec<McpServerEntry>)
    ensures
        entries_view(r@) == with_setting(entries_view(entries@)),
{
    let ghost all = entries_view(entries@);
    let mut rest = entries;
    let mut out: Vec<McpServerEntry> = Vec::new();
    let ghost mut taken: int = 0;
    assert(all.take(0).filter(|e: (Seq<char>, Option<bool>)| e.1 is Some) =~= Seq::<(Seq<char>, Option<bool>)>::empty());
    while rest.len() > 0
        invariant
            0 <= taken <= all.len(),
            rest@.len() == all.len() - taken,
            entries_view(rest@) == all.skip(taken),
            entries_view(out@) == with_setting(all.take(taken)),
        decreases rest.len(),
    {
        let ghost rv = entries_view(rest@);
        let ghost rs = rest@;
        let e = rest.remove(0);
        proof {
            assert(rest@ =~= rs.drop_first());
            assert(entries_view(rest@) =~= rv.drop_first());
            assert(rv.drop_first() =~= all.skip(taken + 1));
            assert(rv[0] == entry_view(e));
            assert(entries_view(rest@) =~= all.skip(taken + 1));
            assert(all.take(taken + 1) =~= all.take(taken).push(all[taken]));
            all.take(taken).lemma_filter_push(all[taken], |e: (Seq<char>, Option<bool>)| e.1 is Some);
        }
        if e.state.enabled.is_some() {
            out.push(e);
        }
        proof {
            assert(entries_view(out@) =~= with_setting(all.take(taken + 1)));
            taken = taken + 1;
        }
    }
    assert(all.take(taken) =~= all);
    out
}

/// What is stored after choosing `model` with `effort`: the choice, and the
/// server entries that hold a setting.
pub fn persist_model_selection(state: WorkspaceState, model: &str, effort: Option<ReasoningEffort>) -> (r: WorkspaceState)
    ensures
        r.model matches Some(m) && m@ == model@,
        r.model_reasoning_effort == effort,
        r.servers() == with_setting(state.servers()),
{
    WorkspaceState {
        model: Some(String::from_str(model)),
        model_reasoning_effort: effort,
        mcp_servers: retain_set(state.mcp_servers),
    }
}

/// What is stored after enabling or disabling the MCP server `server`: its
/// entry set, the model choice kept, and only entries that hold a setting.
pub fn persist_mcp_enabled(state: WorkspaceState, server: &str, enabled: bool) -> (r: WorkspaceState)
    requires
        state.wf(),
    ensures
        r.model == state.model,
        r.model_reasoning_effort == state.model_reasoning_effort,
        r.servers() == with_setting(set_enabled(state.servers(), server@, enabled)),
{
    let ghost before = state.servers();
    let mut servers = state.mcp_servers;
    let name = String::from_str(server);
    let mut i: usize = 0;
    let mut found = false;
    while i < servers.len() && !found
        invariant
            entries_view(servers@) == before,
            name@ == server@,
            unique_names(before),
            i <= servers@.len(),
            !found ==> forall|k: int| 0 <= k < i ==> before[k].0 != server@,
            found ==> i > 0 && before[i - 1].0 == server@,
        decreases servers.len() - i + (if found { 0int } else { 1int }),
    {
        proof {
            assert(before[i as int] == entry_view(servers@[i as int]));
        }
        let same: bool = servers[i].name == name;
        assert(same == (servers@[i as int].name@ == server@));
        if same {
            found = true;
        }
        i += 1;
    }
    if found {
        let ghost idx = (i - 1) as int;
        let old_entry = servers.remove(i - 1);
        servers.insert(i - 1, McpServerEntry { name, state: WorkspaceMcpServerState { enabled: Some(enabled) } });
        proof {
            let witness = choose|j: int| 0 <= j < before.len() && before[j].0 == server@;
            assert(witness == idx);
            assert(entries_view(servers@) =~= set_enabled(before, server@, enabled));
        }
    } else {
        servers.push(McpServerEntry { name, state: WorkspaceMcpServerState { enabled: Some(enabled) } });
        proof {
            assert(!exists|j: int| 0 <= j < before.len() && before[j].0 == server@);
            assert(entries_view(servers@) =~= set_enabled(before, server@, enabled));
        }
    }
    WorkspaceState {
        model: state.model,
        model_reasoning_effort: state.model_reasoning_effort,
        mcp_servers: retain_set(servers),
    }
}

} // verus!

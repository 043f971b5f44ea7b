//! Which tools may run: the grants given when the session was set up.

use vstd::prelude::*;
use crate::names::{NameMap, strictly_sorted};
use crate::text::{
    chars_of, extend_str, join_spec, lowercase, lowercase_of, string_of, trim, trim_spec, views,
};

verus! {

/// The tools that only read.
pub open spec fn read_only_tools_spec() -> Seq<Seq<char>> {
    seq![
        "read_file"@,
        "list_dir"@,
        "grep"@,
        "glob"@,
        "bash_status"@,
        "bash_output"@,
        "bash_list"@,
        "web_fetch"@,
        "web_search"@,
        "search_routine_memory"@,
        "search_key_memory"@,
    ]
}

/// The tools that write.
pub open spec fn write_tools_spec() -> Seq<Seq<char>> {
    seq!["write_file"@, "edit_file"@, "store_key_memory"@]
}

/// The tools that run commands.
pub open spec fn execute_tools_spec() -> Seq<Seq<char>> {
    seq!["bash"@, "bash_kill"@]
}

/// The code-intelligence tools.
pub open spec fn rust_analyzer_tools_spec() -> Seq<Seq<char>> {
    seq![
        "ra_diagnostics"@,
        "ra_goto_definition"@,
        "ra_find_references"@,
        "ra_hover"@,
        "ra_symbols"@,
        "ra_completion"@,
        "ra_code_actions"@,
        "ra_rename"@,
        "ra_format"@,
    ]
}

/// Appends the tools that only read.
pub fn push_read_only_tools(out: &mut Vec<String>)
    ensures
        views(final(out)@) == views(old(out)@) + read_only_tools_spec(),
{
    out.push("read_file".to_owned());
    out.push("list_dir".to_owned());
    out.push("grep".to_owned());
    out.push("glob".to_owned());
    out.push("bash_status".to_owned());
    out.push("bash_output".to_owned());
    out.push("bash_list".to_owned());
    out.push("web_fetch".to_owned());
    out.push("web_search".to_owned());
    out.push("search_routine_memory".to_owned());
    out.push("search_key_memory".to_owned());
    assert(views(out@) =~= views(old(out)@) + read_only_tools_spec());
}

/// Appends the tools that write.
pub fn push_write_tools(out: &mut Vec<String>)
    ensures
        views(final(out)@) == views(old(out)@) + write_tools_spec(),
{
    out.push("write_file".to_owned());
    out.push("edit_file".to_owned());
    out.push("store_key_memory".to_owned());
    assert(views(out@) =~= views(old(out)@) + write_tools_spec());
}

/// Appends the tools that run commands.
pub fn push_execute_tools(out: &mut Vec<String>)
    ensures
        views(final(out)@) == views(old(out)@) + execute_tools_spec(),
{
    out.push("bash".to_owned());
    out.push("bash_kill".to_owned());
    assert(views(out@) =~= views(old(out)@) + execute_tools_spec());
}

/// Appends the code-intelligence tools.
pub fn push_rust_analyzer_tools(out: &mut Vec<String>)
    ensures
        views(final(out)@) == views(old(out)@) + rust_analyzer_tools_spec(),
{
    out.push("ra_diagnostics".to_owned());
    out.push("ra_goto_definition".to_owned());
    out.push("ra_find_references".to_owned());
    out.push("ra_hover".to_owned());
    out.push("ra_symbols".to_owned());
    out.push("ra_completion".to_owned());
    out.push("ra_code_actions".to_owned());
    out.push("ra_rename".to_owned());
    out.push("ra_format".to_owned());
    assert(views(out@) =~= views(old(out)@) + rust_analyzer_tools_spec());
}

/// The tools that a grant in normal form stands for: those of the category
/// it names, or itself.
pub open spec fn category_tools(grant: Seq<char>) -> Seq<Seq<char>> {
    if grant == "read-only"@ || grant == "readonly"@ || grant == "read"@ {
        read_only_tools_spec()
    } else if grant == "write"@ {
        write_tools_spec()
    } else if grant == "execute"@ || grant == "exec"@ || grant == "bash"@ {
        execute_tools_spec()
    } else if grant == "rust-analyzer"@ || grant == "ra"@ {
        rust_analyzer_tools_spec()
    } else if grant == "all"@ {
        read_only_tools_spec() + write_tools_spec() + execute_tools_spec()
            + rust_analyzer_tools_spec() + seq!["delegate"@, "math_calc"@]
    } else {
        seq![grant]
    }
}

/// The normal form of a grant or a tool name as it was typed: without the
/// whitespace around it, in lower case.
pub open spec fn normal_form(raw: Seq<char>) -> Seq<char> {
    lowercase_of(trim_spec(raw))
}

/// The tools that a list of grants stands for, in order.
pub open spec fn expand_spec(grants: Seq<Seq<char>>) -> Seq<Seq<char>>
    decreases grants.len(),
{
    if grants.len() == 0 {
        Seq::empty()
    } else {
        expand_spec(grants.drop_last()) + category_tools(normal_form(grants.last()))
    }
}

fn same(a: &Vec<char>, lit: &str) -> (r: bool)
    ensures
        r == (a@ == lit@),
{
    crate::text::chars_eq(a, &chars_of(lit))
}

/// Appends the tools that a grant in normal form stands for: those of the
/// category that it names, or the grant itself.
pub fn push_category_tools(out: &mut Vec<String>, grant: String)
    ensures
        views(final(out)@) == views(old(out)@) + category_tools(grant@),
{
    let g = chars_of(grant.as_str());
    let ghost before = views(out@);
    if same(&g, "read-only") || same(&g, "readonly") || same(&g, "read") {
        push_read_only_tools(out);
    } else if same(&g, "write") {
        push_write_tools(out);
    } else if same(&g, "execute") || same(&g, "exec") || same(&g, "bash") {
        push_execute_tools(out);
    } else if same(&g, "rust-analyzer") || same(&g, "ra") {
        push_rust_analyzer_tools(out);
    } else if same(&g, "all") {
        push_read_only_tools(out);
        push_write_tools(out);
        push_execute_tools(out);
        push_rust_analyzer_tools(out);
        let ghost mid = views(out@);
        out.push("delegate".to_owned());
        out.push("math_calc".to_owned());
        assert(views(out@) =~= mid + seq!["delegate"@, "math_calc"@]);
    } else {
        out.push(grant);
        assert(views(out@) =~= before + seq![g@]);
    }
}

/// Replaces each category among the grants by the tools it stands for; any
/// other grant is a tool name and is kept, in normal form.
pub fn expand_tool_categories(grants: Vec<String>) -> (expanded: Vec<String>)
    ensures
        views(expanded@) == expand_spec(views(grants@)),
{
    let mut expanded: Vec<String> = Vec::new();
    let mut i: usize = 0;
    assert(views(grants@).take(0) =~= Seq::<Seq<char>>::empty());
    assert(views(expanded@) =~= Seq::<Seq<char>>::empty());
    while i < grants.len()
        invariant
            i <= grants@.len(),
            views(expanded@) == expand_spec(views(grants@).take(i as int)),
        decreases grants@.len() - i,
    {
        let grant = lowercase(trim(grants[i].as_str()).as_str());
        assert(views(grants@).take(i + 1).drop_last() == views(grants@).take(i as int));
        assert(views(grants@).take(i + 1).last() == grants@[i as int]@);
        push_category_tools(&mut expanded, grant);
        i += 1;
    }
    assert(views(grants@).take(grants@.len() as int) == views(grants@));
    expanded
}

/// The grants of a session: every tool, or the tools of a set of names in
/// normal form; whether confirmations are skipped; whether tools are only
/// simulated.
#[derive(Debug, Clone)]
pub struct GrantedPermissions {
    tools: NameMap<()>,
    all_granted: bool,
    skip_confirmations: bool,
    dry_run: bool,
}

impl GrantedPermissions {
    /// The set of names is in order.
    pub closed spec fn wf(&self) -> bool {
        self.tools.wf()
    }

    /// The names that are granted one by one.
    pub closed spec fn names(&self) -> Set<Seq<char>> {
        self.tools@.dom()
    }

    /// The granted names in the order of strings.
    pub closed spec fn sorted_names(&self) -> Seq<Seq<char>> {
        self.tools.keys()
    }

    /// Whether every tool is granted.
    pub closed spec fn grants_all(&self) -> bool {
        self.all_granted
    }

    /// Whether confirmations are skipped.
    pub closed spec fn skips_confirmations(&self) -> bool {
        self.skip_confirmations
    }

    /// Whether tools are only simulated.
    pub closed spec fn simulates(&self) -> bool {
        self.dry_run
    }

    /// Whether the tool `name` may run: every tool is granted, or the name
    /// in lower case is among the granted names.
    pub open spec fn authorizes(&self, name: Seq<char>) -> bool {
        self.grants_all() || self.names().contains(lowercase_of(name))
    }

    /// The text that sums the grants up.
    pub open spec fn summary_spec(&self) -> Seq<char> {
        if self.grants_all() {
            "All tools granted"@
        } else if self.sorted_names().len() == 0 {
            "No tools granted"@
        } else {
            "Granted tools: "@ + join_spec(self.sorted_names(), ", "@)
        }
    }

    /// The sorted names are the granted names, each once, in the strict
    /// order of strings.
    pub proof fn lemma_sorted_names(&self)
        requires
            self.wf(),
        ensures
            strictly_sorted(self.sorted_names()),
            forall|n: Seq<char>|
                self.names().contains(n) <==> exists|i: int|
                    0 <= i < self.sorted_names().len() && #[trigger] self.sorted_names()[i] == n,
    {
        self.tools.lemma_listing();
    }

    /// Grants the tools named in `granted_tools`, each taken in normal form.
    /// `grant_all` grants every tool; `yes` does so too and skips the
    /// confirmations.
    pub fn new(granted_tools: Vec<String>, grant_all: bool, yes: bool, dry_run: bool) -> (p: Self)
        ensures
            p.wf(),
            p.grants_all() == (grant_all || yes),
            p.skips_confirmations() == yes,
            p.simulates() == dry_run,
            forall|n: Seq<char>|
                p.names().contains(n) <==> exists|i: int|
                    0 <= i < granted_tools@.len() && n == normal_form(
                        (#[trigger] granted_tools@[i])@,
                    ),
    {
        let mut tools: NameMap<()> = NameMap::new();
        let mut i: usize = 0;
        while i < granted_tools.len()
            invariant
                i <= granted_tools@.len(),
                tools.wf(),
                forall|n: Seq<char>|
                    tools@.dom().contains(n) <==> exists|j: int|
                        0 <= j < i && n == normal_form((#[trigger] granted_tools@[j])@),
            decreases granted_tools@.len() - i,
        {
            let name = lowercase(trim(granted_tools[i].as_str()).as_str());
            let ghost before = tools@.dom();
            tools.insert(name, ());
            assert forall|n: Seq<char>| tools@.dom().contains(n) <==> exists|j: int|
                0 <= j < i + 1 && n == normal_form((#[trigger] granted_tools@[j])@) by {
                if before.contains(n) {
                    let j = choose|j: int|
                        0 <= j < i && n == normal_form((#[trigger] granted_tools@[j])@);
                    assert(0 <= j < i + 1);
                }
                if n == normal_form(granted_tools@[i as int]@) {
                    assert(tools@.dom().contains(n));
                }
            }
            i += 1;
        }
        GrantedPermissions { tools, all_granted: grant_all || yes, skip_confirmations: yes, dry_run }
    }

    /// Grants every tool, with confirmations and without simulation.
    pub fn allow_all() -> (p: Self)
        ensures
            p.wf(),
            p.grants_all(),
            !p.skips_confirmations(),
            !p.simulates(),
            p.names() == Set::<Seq<char>>::empty(),
    {
        let p = GrantedPermissions {
            tools: NameMap::new(),
            all_granted: true,
            skip_confirmations: false,
            dry_run: false,
        };
        assert(p.names() =~= Set::<Seq<char>>::empty());
        p
    }

    /// Whether the tool `tool_name` may run.
    pub fn is_granted(&self, tool_name: &str) -> (r: bool)
        requires
            self.wf(),
        ensures
            r == self.authorizes(tool_name@),
    {
        if self.all_granted {
            return true;
        }
        let normalized = lowercase(tool_name);
        self.tools.contains_key(normalized.as_str())
    }

    /// Whether confirmations are skipped.
    pub fn should_skip_confirmations(&self) -> (r: bool)
        ensures
            r == self.skips_confirmations(),
    {
        self.skip_confirmations
    }

    /// Whether tools are only simulated.
    pub fn is_dry_run(&self) -> (r: bool)
        ensures
            r == self.simulates(),
    {
        self.dry_run
    }

    /// A line that sums the grants up, the granted names in the order of
    /// strings.
    pub fn summary(&self) -> (r: String)
        requires
            self.wf(),
        ensures
            r@ == self.summary_spec(),
    {
        if self.all_granted {
            "All tools granted".to_owned()
        } else if self.tools.len() == 0 {
            "No tools granted".to_owned()
        } else {
            let mut out: Vec<char> = chars_of("Granted tools: ");
            let n = self.tools.len();
            let mut i: usize = 0;
            while i < n
                invariant
                    i <= n,
                    n == self.tools.keys().len(),
                    out@ == "Granted tools: "@ + join_spec(self.tools.keys().take(i as int), ", "@),
                decreases n - i,
            {
                if i > 0 {
                    extend_str(&mut out, ", ");
                }
                extend_str(&mut out, self.tools.key_at(i).as_str());
                assert(self.tools.keys().take(i + 1).drop_last() == self.tools.keys().take(
                    i as int,
                ));
                i += 1;
            }
            assert(self.tools.keys().take(n as int) == self.tools.keys());
            string_of(&out)
        }
    }

    /// The same grants, for another loop.
    pub fn duplicate(&self) -> (p: Self)
        requires
            self.wf(),
        ensures
            p.wf(),
            p.grants_all() == self.grants_all(),
            p.skips_confirmations() == self.skips_confirmations(),
            p.simulates() == self.simulates(),
            p.names() == self.names(),
    {
        let mut tools: NameMap<()> = NameMap::new();
        let n = self.tools.len();
        let mut i: usize = 0;
        proof {
            self.tools.lemma_listing();
        }
        while i < n
            invariant
                i <= n,
                n == self.tools.keys().len(),
                tools.wf(),
                forall|q: Seq<char>|
                    tools@.dom().contains(q) <==> exists|j: int|
                        0 <= j < i && #[trigger] self.tools.keys()[j] == q,
            decreases n - i,
        {
            let ghost before = tools@.dom();
            tools.insert(self.tools.key_at(i).clone(), ());
            assert forall|q: Seq<char>| tools@.dom().contains(q) <==> exists|j: int|
                0 <= j < i + 1 && #[trigger] self.tools.keys()[j] == q by {
                if before.contains(q) {
                    let j = choose|j: int| 0 <= j < i && #[trigger] self.tools.keys()[j] == q;
                    assert(0 <= j < i + 1);
                }
                if q == self.tools.keys()[i as int] {
                    assert(tools@.dom().contains(q));
                }
            }
            i += 1;
        }
        let p = GrantedPermissions {
            tools,
            all_granted: self.all_granted,
            skip_confirmations: self.skip_confirmations,
            dry_run: self.dry_run,
        };
        assert(p.names() =~= self.names());
        p
    }
}

/// The permissions that the grants of a session give: categories among
/// `grants` stand for their tools, `grant_all` grants every tool, and `yes`
/// does so too and skips the confirmations.
pub fn build_permissions(grants: Vec<String>, grant_all: bool, yes: bool, dry_run: bool) -> (p:
    GrantedPermissions)
    ensures
        p.wf(),
        p.grants_all() == (grant_all || yes),
        p.skips_confirmations() == yes,
        p.simulates() == dry_run,
        forall|n: Seq<char>|
            p.names().contains(n) <==> exists|i: int|
                0 <= i < expand_spec(views(grants@)).len() && n == normal_form(
                    #[trigger] expand_spec(views(grants@))[i],
                ),
{
    let ghost wanted = expand_spec(views(grants@));
    let expanded = expand_tool_categories(grants);
    let p = GrantedPermissions::new(expanded, grant_all || yes, yes, dry_run);
    assert forall|n: Seq<char>|
        p.names().contains(n) <==> exists|i: int|
            0 <= i < wanted.len() && n == normal_form(#[trigger] wanted[i]) by {
        if p.names().contains(n) {
            let i = choose|i: int|
                0 <= i < expanded@.len() && n == normal_form((#[trigger] expanded@[i])@);
            assert(wanted[i] == expanded@[i]@);
        }
        if exists|i: int| 0 <= i < wanted.len() && n == normal_form(#[trigger] wanted[i]) {
            let i = choose|i: int| 0 <= i < wanted.len() && n == normal_form(#[trigger] wanted[i]);
            assert(wanted[i] == expanded@[i]@);
        }
    }
    p
}

/// Granting every tool authorizes every name, and a set of grants that is
/// empty and does not grant all authorizes none.
pub proof fn law_grant_all_or_nothing(p: GrantedPermissions, name: Seq<char>)
    ensures
        p.grants_all() ==> p.authorizes(name),
        !p.grants_all() && p.names() == Set::<Seq<char>>::empty() ==> !p.authorizes(name),
{
}

} // verus!

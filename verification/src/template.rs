//! Variables for system prompts, and the rendering of templates with them.

use vstd::prelude::*;
use crate::names::NameMap;
use crate::text::{chars_of, extend_str, replace_chars, replace_spec, string_of};

verus! {

/// What the surroundings of a session say of themselves: the time, the
/// user and the machine, and the state of the repository.
#[derive(Debug, Clone)]
pub struct SystemFacts {
    pub date: String,
    pub time: String,
    pub datetime: String,
    pub timezone: String,
    pub username: String,
    pub hostname: String,
    pub os: String,
    pub arch: String,
    pub git_branch: Option<String>,
    pub git_dirty: bool,
}

/// Whether `path` ends in a separator, or in a single dot that stands
/// behind a separator: neither is part of the last component.
pub open spec fn ends_idle(path: Seq<char>) -> bool {
    path.len() > 0 && (path.last() == '/' || (path.len() >= 2 && path.last() == '.' && path[path.len()
        - 2] == '/'))
}

/// The index at which the last component of `path` ends: separators at
/// the end of the path, and components behind it that are a single dot,
/// do not count.
pub open spec fn trimmed_end(path: Seq<char>) -> int
    decreases path.len(),
{
    if ends_idle(path) {
        trimmed_end(path.drop_last())
    } else {
        path.len() as int
    }
}

/// The index at which the last component of `path[..end]` begins.
pub open spec fn component_start(path: Seq<char>, end: int) -> int
    decreases end,
{
    if end <= 0 || end > path.len() || path[end - 1] == '/' {
        end
    } else {
        component_start(path, end - 1)
    }
}

/// The last component of a path, separators and single dots at its end
/// aside.
pub open spec fn last_component(path: Seq<char>) -> Seq<char> {
    let end = trimmed_end(path);
    path.subrange(component_start(path, end), end)
}

/// The name of the project in a directory: the last component of its path,
/// or `unknown` where the path has none, is a single dot, or ends in `..`.
pub open spec fn project_name_spec(working_dir: Seq<char>) -> Seq<char> {
    let name = last_component(working_dir);
    if name.len() == 0 || name == "."@ || name == ".."@ {
        "unknown"@
    } else {
        name
    }
}

proof fn lemma_trimmed_end(path: Seq<char>)
    ensures
        0 <= trimmed_end(path) <= path.len(),
    decreases path.len(),
{
    if ends_idle(path) {
        lemma_trimmed_end(path.drop_last());
    }
}

proof fn lemma_component_start(path: Seq<char>, end: int)
    requires
        0 <= end <= path.len(),
    ensures
        0 <= component_start(path, end) <= end,
    decreases end,
{
    if !(end <= 0 || end > path.len() || path[end - 1] == '/') {
        lemma_component_start(path, end - 1);
    }
}

/// The name of the project in a directory.
pub fn project_name(working_dir: &str) -> (r: String)
    ensures
        r@ == project_name_spec(working_dir@),
{
    let v = chars_of(working_dir);
    let mut end: usize = v.len();
    assert(v@.subrange(0, v@.len() as int) == v@);
    while end > 0 && (v[end - 1] == '/' || (end >= 2 && v[end - 1] == '.' && v[end - 2] == '/'))
        invariant
            end <= v@.len(),
            trimmed_end(v@) == trimmed_end(v@.subrange(0, end as int)),
        decreases end,
    {
        let ghost p = v@.subrange(0, end as int);
        assert(p.last() == v@[end - 1]);
        assert(end >= 2 ==> p[p.len() - 2] == v@[end - 2]);
        assert(ends_idle(p));
        assert(p.drop_last() == v@.subrange(0, end - 1));
        end -= 1;
    }
    assert(trimmed_end(v@) == end) by {
        let p = v@.subrange(0, end as int);
        if end > 0 {
            assert(p.last() == v@[end - 1]);
        }
        if end >= 2 {
            assert(p[p.len() - 2] == v@[end - 2]);
        }
        assert(!ends_idle(p));
    }
    let mut start: usize = end;
    while start > 0 && v[start - 1] != '/'
        invariant
            start <= end <= v@.len(),
            component_start(v@, end as int) == component_start(v@, start as int),
        decreases start,
    {
        start -= 1;
    }
    let name = crate::text::string_of_range(&v, start, end);
    if start == end || crate::text::str_eq(name.as_str(), ".") || crate::text::str_eq(
        name.as_str(),
        "..",
    ) {
        "unknown".to_owned()
    } else {
        name
    }
}

/// The variables of a template: names with their values.
#[derive(Debug, Clone)]
pub struct TemplateContext {
    variables: NameMap<String>,
}

/// The text that a template holds in place of the variable `key`.
pub open spec fn placeholder(key: Seq<char>) -> Seq<char> {
    "{{"@ + key + "}}"@
}

/// `template` with the first `n` of the variables put in, one after the
/// other.
pub open spec fn render_upto(
    template: Seq<char>,
    keys: Seq<Seq<char>>,
    values: Seq<String>,
    n: nat,
) -> Seq<char>
    decreases n,
{
    if n == 0 || n > keys.len() || n > values.len() {
        template
    } else {
        replace_spec(
            render_upto(template, keys, values, (n - 1) as nat),
            placeholder(keys[n - 1]),
            values[n - 1]@,
            None,
        )
    }
}

impl TemplateContext {
    /// The variables are in the order of their names.
    pub closed spec fn wf(&self) -> bool {
        self.variables.wf()
    }

    /// The value of each variable.
    pub closed spec fn view(&self) -> Map<Seq<char>, String> {
        self.variables@
    }

    /// The names of the variables in the order of strings.
    pub closed spec fn names(&self) -> Seq<Seq<char>> {
        self.variables.keys()
    }

    /// The values in the order of the names.
    pub closed spec fn values(&self) -> Seq<String> {
        self.variables.values()
    }

    /// How the ordered names and values relate to the variables.
    pub proof fn lemma_listing(&self)
        requires
            self.wf(),
        ensures
            crate::names::strictly_sorted(self.names()),
            self.names().len() == self.values().len(),
            forall|i: int|
                0 <= i < self.names().len() ==> self@.dom().contains(#[trigger] self.names()[i])
                    && self@[self.names()[i]] == self.values()[i],
            forall|k: Seq<char>|
                self@.dom().contains(k) ==> exists|i: int|
                    0 <= i < self.names().len() && #[trigger] self.names()[i] == k,
    {
        self.variables.lemma_listing();
    }

    /// No variables.
    pub fn empty() -> (c: Self)
        ensures
            c.wf(),
            c@ == Map::<Seq<char>, String>::empty(),
    {
        TemplateContext { variables: NameMap::new() }
    }

    /// The standard variables of a session in `working_dir` with the model
    /// `model` and the agent `agent_name`, in surroundings that say `facts`
    /// of themselves.
    pub fn new(working_dir: &str, model: &str, agent_name: &str, facts: &SystemFacts) -> (c: Self)
        ensures
            c.wf(),
            c@.dom() == set![
                "date"@,
                "time"@,
                "datetime"@,
                "timezone"@,
                "username"@,
                "hostname"@,
                "os"@,
                "platform"@,
                "working_dir"@,
                "project_name"@,
                "git_branch"@,
                "git_status"@,
                "model"@,
                "agent_name"@,
            ],
            c@["working_dir"@]@ == working_dir@,
            c@["project_name"@]@ == project_name_spec(working_dir@),
            c@["model"@]@ == model@,
            c@["agent_name"@]@ == agent_name@,
            c@["date"@]@ == facts.date@,
            c@["time"@]@ == facts.time@,
            c@["datetime"@]@ == facts.datetime@,
            c@["timezone"@]@ == facts.timezone@,
            c@["username"@]@ == facts.username@,
            c@["hostname"@]@ == facts.hostname@,
            c@["os"@]@ == facts.os@,
            c@["platform"@]@ == facts.os@ + " "@ + facts.arch@,
            c@["git_branch"@]@ == match facts.git_branch {
                Some(b) => b@,
                None => Seq::empty(),
            },
            c@["git_status"@]@ == if facts.git_dirty {
                "dirty"@
            } else {
                "clean"@
            },
    {
        proof {
            reveal_strlit("date");
            assert("date"@.len() == 4 && "date"@[0] == 'd');
            reveal_strlit("time");
            assert("time"@.len() == 4 && "time"@[0] == 't');
            reveal_strlit("datetime");
            assert("datetime"@.len() == 8 && "datetime"@[0] == 'd');
            reveal_strlit("timezone");
            assert("timezone"@.len() == 8 && "timezone"@[0] == 't');
            reveal_strlit("username");
            assert("username"@.len() == 8 && "username"@[0] == 'u');
            reveal_strlit("hostname");
            assert("hostname"@.len() == 8 && "hostname"@[0] == 'h');
            reveal_strlit("os");
            assert("os"@.len() == 2 && "os"@[0] == 'o');
            reveal_strlit("platform");
            assert("platform"@.len() == 8 && "platform"@[0] == 'p');
            reveal_strlit("working_dir");
            assert("working_dir"@.len() == 11 && "working_dir"@[0] == 'w');
            reveal_strlit("project_name");
            assert("project_name"@.len() == 12 && "project_name"@[0] == 'p');
            reveal_strlit("git_branch");
            assert("git_branch"@.len() == 10 && "git_branch"@[0] == 'g');
            reveal_strlit("git_status");
            assert("git_status"@.len() == 10 && "git_status"@[0] == 'g');
            reveal_strlit("model");
            assert("model"@.len() == 5 && "model"@[0] == 'm');
            reveal_strlit("agent_name");
            assert("agent_name"@.len() == 10 && "agent_name"@[0] == 'a');
            assert("git_branch"@[4] == 'b' && "git_status"@[4] == 's');
        }
        let mut c = TemplateContext::empty();
        c.set("date", facts.date.as_str());
        c.set("time", facts.time.as_str());
        c.set("datetime", facts.datetime.as_str());
        c.set("timezone", facts.timezone.as_str());
        c.set("username", facts.username.as_str());
        c.set("hostname", facts.hostname.as_str());
        c.set("os", facts.os.as_str());
        c.set(
            "platform",
            crate::text::joined3(facts.os.as_str(), " ", facts.arch.as_str()).as_str(),
        );
        c.set("working_dir", working_dir);
        c.set("project_name", project_name(working_dir).as_str());
        match &facts.git_branch {
            Some(b) => {
                c.set("git_branch", b.as_str());
            },
            None => {
                c.set("git_branch", "");
            },
        }
        if facts.git_dirty {
            c.set("git_status", "dirty");
        } else {
            c.set("git_status", "clean");
        }
        c.set("model", model);
        c.set("agent_name", agent_name);
        proof {
            reveal_strlit("");
            assert(c@.dom() =~= set![
                "date"@,
                "time"@,
                "datetime"@,
                "timezone"@,
                "username"@,
                "hostname"@,
                "os"@,
                "platform"@,
                "working_dir"@,
                "project_name"@,
                "git_branch"@,
                "git_status"@,
                "model"@,
                "agent_name"@,
            ]);
        }
        c
    }

    /// Gives the variable `key` the value `value`, in place of the value it
    /// had, if any.
    pub fn set(&mut self, key: &str, value: &str)
        requires
            old(self).wf(),
        ensures
            final(self).wf(),
            final(self)@.dom() == old(self)@.dom().insert(key@),
            final(self)@[key@]@ == value@,
            forall|k: Seq<char>| k != key@ && old(self)@.dom().contains(k) ==> final(self)@[k]
                == old(self)@[k],
    {
        self.variables.insert(key.to_owned(), value.to_owned());
    }

    /// The value of the variable `key`.
    pub fn get(&self, key: &str) -> (r: Option<&str>)
        requires
            self.wf(),
        ensures
            match r {
                Some(v) => self@.dom().contains(key@) && v@ == self@[key@]@,
                None => !self@.dom().contains(key@),
            },
    {
        match self.variables.get(key) {
            Some(v) => Some(v.as_str()),
            None => None,
        }
    }

    /// The variables with their values.
    pub fn variables(&self) -> (r: &NameMap<String>)
        ensures
            r@ == self@,
            r.wf() == self.wf(),
    {
        &self.variables
    }

    /// `template` with the variables put in: for each variable in the
    /// order of the names, every `{{name}}` gives way to the value. What
    /// looks like a variable and is none stays as it is.
    pub fn render(&self, template: &str) -> (r: String)
        requires
            self.wf(),
        ensures
            r@ == render_upto(template@, self.names(), self.values(), self.names().len()),
    {
        let mut text = chars_of(template);
        let n = self.variables.len();
        let mut i: usize = 0;
        while i < n
            invariant
                i <= n,
                n == self.names().len(),
                n == self.values().len(),
                text@ == render_upto(template@, self.names(), self.values(), i as nat),
            decreases n - i,
        {
            let mut pattern = chars_of("{{");
            extend_str(&mut pattern, self.variables.key_at(i).as_str());
            extend_str(&mut pattern, "}}");
            let value = chars_of(self.variables.value_at(i).as_str());
            text = replace_chars(&text, &pattern, &value, None);
            i += 1;
        }
        string_of(&text)
    }
}

} // verus!

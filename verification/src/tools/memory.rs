//! The tools of the long-term memory: what they check and what they show.

use vstd::prelude::*;
use crate::error::{ToolError, ToolErrorView};
use crate::ids::fresh_id;
use crate::text::{
    chars_of, contains_chars, contains_seq, decimal_spec, extend_chars, extend_str, join,
    join_spec, joined, lowercase, lowercase_of, matches_at, occurs_at, push_decimal,
    split_whitespace, str_eq, string_of, truncate_spec, truncate_string, views, words_spec,
};
use crate::tool_args::{
    opt_list_view, SearchKeyMemoryArgs, SearchRoutineMemoryArgs, StoreKeyMemoryArgs,
};

verus! {

/// What a key memory is about.
#[derive(Debug, Clone, Copy, PartialEq, Eq, Structural)]
pub enum MemoryCategory {
    UserPreference,
    ProjectFact,
    CodePattern,
    ProblemSolution,
    UserInstruction,
    PersonalInfo,
    SessionSummary,
}

/// How much a key memory matters, from the least to the most.
#[derive(Debug, Clone, Copy, PartialEq, Eq, Structural, PartialOrd, Ord)]
pub enum ImportanceLevel {
    Low,
    Medium,
    High,
    Critical,
}

/// How many memories of each kind an agent has.
#[derive(Debug, Clone)]
pub struct MemoryStats {
    pub routine_count: usize,
    pub key_count: usize,
    pub agent_name: String,
}

/// The number of results of a search where the call sets none.
pub const DEFAULT_TOP_K: usize = 5;

/// The largest number of results of a search.
pub const MAX_TOP_K: usize = 20;

impl MemoryCategory {
    /// The category that a name in a call stands for.
    pub open spec fn named(name: Seq<char>) -> Option<MemoryCategory> {
        if name == "user_preference"@ {
            Some(MemoryCategory::UserPreference)
        } else if name == "project_fact"@ {
            Some(MemoryCategory::ProjectFact)
        } else if name == "code_pattern"@ {
            Some(MemoryCategory::CodePattern)
        } else if name == "problem_solution"@ {
            Some(MemoryCategory::ProblemSolution)
        } else if name == "user_instruction"@ {
            Some(MemoryCategory::UserInstruction)
        } else if name == "personal_info"@ {
            Some(MemoryCategory::PersonalInfo)
        } else if name == "session_summary"@ {
            Some(MemoryCategory::SessionSummary)
        } else {
            None
        }
    }

    /// The words for the category.
    pub open spec fn label_spec(self) -> Seq<char> {
        match self {
            MemoryCategory::UserPreference => "User Preference"@,
            MemoryCategory::ProjectFact => "Project Fact"@,
            MemoryCategory::CodePattern => "Code Pattern"@,
            MemoryCategory::ProblemSolution => "Problem Solution"@,
            MemoryCategory::UserInstruction => "User Instruction"@,
            MemoryCategory::PersonalInfo => "Personal Info"@,
            MemoryCategory::SessionSummary => "Session Summary"@,
        }
    }

    /// The category that a name in a call stands for.
    pub fn parse(name: &str) -> (r: Option<MemoryCategory>)
        ensures
            r == Self::named(name@),
    {
        if str_eq(name, "user_preference") {
            Some(MemoryCategory::UserPreference)
        } else if str_eq(name, "project_fact") {
            Some(MemoryCategory::ProjectFact)
        } else if str_eq(name, "code_pattern") {
            Some(MemoryCategory::CodePattern)
        } else if str_eq(name, "problem_solution") {
            Some(MemoryCategory::ProblemSolution)
        } else if str_eq(name, "user_instruction") {
            Some(MemoryCategory::UserInstruction)
        } else if str_eq(name, "personal_info") {
            Some(MemoryCategory::PersonalInfo)
        } else if str_eq(name, "session_summary") {
            Some(MemoryCategory::SessionSummary)
        } else {
            None
        }
    }

    /// The words for the category.
    pub fn label(&self) -> (r: &'static str)
        ensures
            r@ == self.label_spec(),
    {
        match self {
            MemoryCategory::UserPreference => "User Preference",
            MemoryCategory::ProjectFact => "Project Fact",
            MemoryCategory::CodePattern => "Code Pattern",
            MemoryCategory::ProblemSolution => "Problem Solution",
            MemoryCategory::UserInstruction => "User Instruction",
            MemoryCategory::PersonalInfo => "Personal Info",
            MemoryCategory::SessionSummary => "Session Summary",
        }
    }
}

impl ImportanceLevel {
    /// The level that a name in a call stands for.
    pub open spec fn named(name: Seq<char>) -> Option<ImportanceLevel> {
        if name == "low"@ {
            Some(ImportanceLevel::Low)
        } else if name == "medium"@ {
            Some(ImportanceLevel::Medium)
        } else if name == "high"@ {
            Some(ImportanceLevel::High)
        } else if name == "critical"@ {
            Some(ImportanceLevel::Critical)
        } else {
            None
        }
    }

    /// The word for the level.
    pub open spec fn label_spec(self) -> Seq<char> {
        match self {
            ImportanceLevel::Low => "Low"@,
            ImportanceLevel::Medium => "Medium"@,
            ImportanceLevel::High => "High"@,
            ImportanceLevel::Critical => "Critical"@,
        }
    }

    /// The place of the level, from 0 for the least.
    pub open spec fn rank_spec(self) -> nat {
        match self {
            ImportanceLevel::Low => 0,
            ImportanceLevel::Medium => 1,
            ImportanceLevel::High => 2,
            ImportanceLevel::Critical => 3,
        }
    }

    /// The level that a name in a call stands for.
    pub fn parse(name: &str) -> (r: Option<ImportanceLevel>)
        ensures
            r == Self::named(name@),
    {
        if str_eq(name, "low") {
            Some(ImportanceLevel::Low)
        } else if str_eq(name, "medium") {
            Some(ImportanceLevel::Medium)
        } else if str_eq(name, "high") {
            Some(ImportanceLevel::High)
        } else if str_eq(name, "critical") {
            Some(ImportanceLevel::Critical)
        } else {
            None
        }
    }

    /// The word for the level.
    pub fn label(&self) -> (r: &'static str)
        ensures
            r@ == self.label_spec(),
    {
        match self {
            ImportanceLevel::Low => "Low",
            ImportanceLevel::Medium => "Medium",
            ImportanceLevel::High => "High",
            ImportanceLevel::Critical => "Critical",
        }
    }

    /// The place of the level, from 0 for the least.
    pub fn rank(&self) -> (r: u8)
        ensures
            r == self.rank_spec(),
    {
        match self {
            ImportanceLevel::Low => 0,
            ImportanceLevel::Medium => 1,
            ImportanceLevel::High => 2,
            ImportanceLevel::Critical => 3,
        }
    }

    /// Whether the level is `floor` or above it.
    pub fn at_least(&self, floor: &ImportanceLevel) -> (r: bool)
        ensures
            r == (self.rank_spec() >= floor.rank_spec()),
    {
        self.rank() >= floor.rank()
    }
}

/// The number of results that a search asks for: 5 where the call sets
/// none, and never more than 20.
pub open spec fn top_k_spec(top_k: Option<usize>) -> usize {
    match top_k {
        Some(k) => if k < MAX_TOP_K {
            k
        } else {
            MAX_TOP_K
        },
        None => DEFAULT_TOP_K,
    }
}

/// The number of results that a search asks for.
pub fn top_k(asked: Option<usize>) -> (r: usize)
    ensures
        r == top_k_spec(asked),
{
    match asked {
        Some(k) => if k < MAX_TOP_K {
            k
        } else {
            MAX_TOP_K
        },
        None => DEFAULT_TOP_K,
    }
}

/// The error of a tool of the memory where no memory is attached.
pub fn memory_not_enabled() -> (e: ToolError)
    ensures
        e@ == ToolErrorView::Other("Memory not enabled"@),
{
    ToolError::other("Memory not enabled")
}

fn invalid_category(name: &str) -> (e: ToolError)
    ensures
        e@ == ToolErrorView::InvalidArguments("Invalid category: "@ + name@),
{
    ToolError::InvalidArguments(joined("Invalid category: ", name))
}

fn invalid_importance(name: &str) -> (e: ToolError)
    ensures
        e@ == ToolErrorView::InvalidArguments("Invalid importance: "@ + name@),
{
    ToolError::InvalidArguments(joined("Invalid importance: ", name))
}

/// A list as it is shown: its items with commas between, or `none`.
pub open spec fn shown_list(items: Seq<Seq<char>>) -> Seq<char> {
    if items.len() == 0 {
        "none"@
    } else {
        join_spec(items, ", "@)
    }
}

fn list_text(items: &Vec<String>) -> (r: Vec<char>)
    ensures
        r@ == shown_list(views(items@)),
{
    if items.len() == 0 {
        chars_of("none")
    } else {
        chars_of(join(items, ", ").as_str())
    }
}

// ---------------------------------------------------------------------------
// store_key_memory
// ---------------------------------------------------------------------------

/// The tool that stores a key memory.
#[derive(Debug, Default)]
pub struct StoreKeyMemory;

/// What `store_key_memory` gives once the memory is stored.
pub open spec fn stored_text(
    category: MemoryCategory,
    importance: ImportanceLevel,
    content: Seq<char>,
) -> Seq<char> {
    "\u{2713} Stored "@ + category.label_spec() + " memory ("@ + importance.label_spec() + "): "@
        + truncate_spec(content, 60)
}

impl StoreKeyMemory {
    /// The name of the tool.
    pub fn name() -> (r: &'static str)
        ensures
            r@ == "store_key_memory"@,
    {
        "store_key_memory"
    }

    /// The category and the level of importance that the call names, or
    /// the error for a name that stands for none; the category is looked
    /// at first.
    pub fn classify(args: &StoreKeyMemoryArgs) -> (r: Result<
        (MemoryCategory, ImportanceLevel),
        ToolError,
    >)
        ensures
            match r {
                Ok((category, importance)) => MemoryCategory::named(args.category@) == Some(
                    category,
                ) && ImportanceLevel::named(args.importance@) == Some(importance),
                Err(e) => if MemoryCategory::named(args.category@) is None {
                    e@ == ToolErrorView::InvalidArguments("Invalid category: "@ + args.category@)
                } else {
                    ImportanceLevel::named(args.importance@) is None && e@
                        == ToolErrorView::InvalidArguments(
                        "Invalid importance: "@ + args.importance@,
                    )
                },
            },
    {
        let category = match MemoryCategory::parse(args.category.as_str()) {
            Some(c) => c,
            None => {
                return Err(invalid_category(args.category.as_str()));
            },
        };
        let importance = match ImportanceLevel::parse(args.importance.as_str()) {
            Some(i) => i,
            None => {
                return Err(invalid_importance(args.importance.as_str()));
            },
        };
        Ok((category, importance))
    }

    /// What the tool gives once the memory is stored: its category and
    /// importance, and the beginning of its content.
    pub fn report(category: MemoryCategory, importance: ImportanceLevel, content: &str) -> (r:
        String)
        ensures
            r@ == stored_text(category, importance, content@),
    {
        let mut out = chars_of("\u{2713} Stored ");
        extend_str(&mut out, category.label());
        extend_str(&mut out, " memory (");
        extend_str(&mut out, importance.label());
        extend_str(&mut out, "): ");
        extend_str(&mut out, truncate_string(content, 60).as_str());
        string_of(&out)
    }

    /// The error of the tool for a store that failed with the given text.
    pub fn store_failed(detail: &str) -> (e: ToolError)
        ensures
            e@ == ToolErrorView::Other("Failed to store memory: "@ + detail@),
    {
        ToolError::Other(joined("Failed to store memory: ", detail))
    }
}

// ---------------------------------------------------------------------------
// search_key_memory
// ---------------------------------------------------------------------------

/// The tool that searches the key memories.
#[derive(Debug, Default)]
pub struct SearchKeyMemory;

/// A key memory that a search found, with the texts that are shown for its
/// time and for how well it fits.
#[derive(Debug, Clone)]
pub struct KeyMemoryHit {
    pub timestamp: String,
    pub category: MemoryCategory,
    pub importance: ImportanceLevel,
    pub score: String,
    pub content: String,
    pub tags: Vec<String>,
    pub related_files: Vec<String>,
}

/// What a search of the key memories is to look for.
#[derive(Debug, Clone)]
pub struct KeyMemoryQuery {
    pub query: String,
    pub top_k: usize,
    pub categories: Option<Vec<MemoryCategory>>,
    pub min_importance: Option<ImportanceLevel>,
}

/// Whether every name of `names` stands for a category.
pub open spec fn all_categories(names: Seq<Seq<char>>) -> bool {
    forall|i: int| 0 <= i < names.len() ==> MemoryCategory::named(#[trigger] names[i]) is Some
}

/// The index of the first name that stands for no category.
pub open spec fn first_unknown_category(names: Seq<Seq<char>>) -> int
    decreases names.len(),
{
    if names.len() == 0 {
        0
    } else if MemoryCategory::named(names[0]) is None {
        0
    } else {
        1 + first_unknown_category(names.drop_first())
    }
}

/// The error that the filters of a search give, if they give one: that of
/// the first name that stands for no category, and else that of a name
/// that stands for no level of importance.
pub open spec fn key_query_fault(args: SearchKeyMemoryArgs) -> Option<ToolErrorView> {
    let names = opt_list_view(args.categories);
    if names is Some && !all_categories(names->0) {
        Some(
            ToolErrorView::InvalidArguments(
                "Invalid category: "@ + names->0[first_unknown_category(names->0)],
            ),
        )
    } else if args.min_importance is Some && ImportanceLevel::named(args.min_importance->0@)
        is None {
        Some(ToolErrorView::InvalidArguments("Invalid importance: "@ + args.min_importance->0@))
    } else {
        None
    }
}

/// One key memory as a search shows it.
pub open spec fn shown_key_hit(index: nat, hit: KeyMemoryHit) -> Seq<char> {
    decimal_spec(index + 1) + ". ["@ + hit.timestamp@ + "] "@ + hit.category.label_spec() + " ("@
        + hit.importance.label_spec() + ") - Relevance: "@ + hit.score@ + "\n   "@ + hit.content@
        + "\n   Tags: "@ + shown_list(views(hit.tags@)) + "\n   Files: "@ + shown_list(
        views(hit.related_files@),
    ) + "\n\n"@
}

/// The key memories as a search shows them, one after the other.
pub open spec fn shown_key_hits(hits: Seq<KeyMemoryHit>) -> Seq<char>
    decreases hits.len(),
{
    if hits.len() == 0 {
        Seq::empty()
    } else {
        shown_key_hits(hits.drop_last()) + shown_key_hit((hits.len() - 1) as nat, hits.last())
    }
}

/// What a search gives that found nothing.
pub open spec fn nothing_found_text(query: Seq<char>) -> Seq<char> {
    "No relevant memories found for query: '"@ + query + "'"@
}

/// What `search_key_memory` gives for what the search found.
pub open spec fn key_search_text(query: Seq<char>, hits: Seq<KeyMemoryHit>) -> Seq<char> {
    if hits.len() == 0 {
        nothing_found_text(query)
    } else {
        "Found "@ + decimal_spec(hits.len()) + " curated memories:\n\n"@ + shown_key_hits(hits)
    }
}

fn nothing_found(query: &str) -> (r: String)
    ensures
        r@ == nothing_found_text(query@),
{
    crate::text::joined3("No relevant memories found for query: '", query, "'")
}

impl SearchKeyMemory {
    /// The name of the tool.
    pub fn name() -> (r: &'static str)
        ensures
            r@ == "search_key_memory"@,
    {
        "search_key_memory"
    }

    /// What the search is to look for: the query, the number of results,
    /// and the filters that the call names; or the error for a filter that
    /// names no category or no level of importance.
    #[verifier::loop_isolation(false)]
    pub fn prepare(args: &SearchKeyMemoryArgs) -> (r: Result<KeyMemoryQuery, ToolError>)
        ensures
            match r {
                Ok(q) => {
                    &&& key_query_fault(*args) is None
                    &&& q.query@ == args.query@
                    &&& q.top_k == top_k_spec(args.top_k)
                    &&& match (q.categories, args.categories) {
                        (Some(found), Some(names)) => found@.len() == names@.len() && forall|
                            i: int,
                        |
                            0 <= i < found@.len() ==> MemoryCategory::named(
                                (#[trigger] names@[i])@,
                            ) == Some(found@[i]),
                        (None, None) => true,
                        _ => false,
                    }
                    &&& match (q.min_importance, args.min_importance) {
                        (Some(level), Some(name)) => ImportanceLevel::named(name@) == Some(level),
                        (None, None) => true,
                        _ => false,
                    }
                },
                Err(e) => key_query_fault(*args) == Some(e@),
            },
    {
        let categories = match &args.categories {
            Some(names) => {
                let mut found: Vec<MemoryCategory> = Vec::new();
                let mut i: usize = 0;
                let ghost all = views(names@);
                assert(all.subrange(0, all.len() as int) == all);
                while i < names.len()
                    invariant
                        i <= names@.len(),
                        all == views(names@),
                        found@.len() == i,
                        forall|j: int|
                            0 <= j < i ==> MemoryCategory::named((#[trigger] names@[j])@) == Some(
                                found@[j],
                            ),
                        first_unknown_category(all) == i + first_unknown_category(
                            all.subrange(i as int, all.len() as int),
                        ),
                    decreases names@.len() - i,
                {
                    let ghost rest = all.subrange(i as int, all.len() as int);
                    assert(rest[0] == names@[i as int]@);
                    assert(rest.drop_first() == all.subrange(i + 1, all.len() as int));
                    match MemoryCategory::parse(names[i].as_str()) {
                        Some(c) => {
                            found.push(c);
                        },
                        None => {
                            assert(!all_categories(all)) by {
                                assert(MemoryCategory::named(all[i as int]) is None);
                            }
                            assert(all[first_unknown_category(all)] == names@[i as int]@);
                            return Err(invalid_category(names[i].as_str()));
                        },
                    }
                    i += 1;
                }
                assert(all_categories(all)) by {
                    assert forall|j: int| 0 <= j < all.len() implies MemoryCategory::named(
                        #[trigger] all[j],
                    ) is Some by {
                        assert(all[j] == names@[j]@);
                    }
                }
                Some(found)
            },
            None => None,
        };
        let min_importance = match &args.min_importance {
            Some(name) => {
                match ImportanceLevel::parse(name.as_str()) {
                    Some(level) => Some(level),
                    None => {
                        return Err(invalid_importance(name.as_str()));
                    },
                }
            },
            None => None,
        };
        Ok(
            KeyMemoryQuery {
                query: args.query.clone(),
                top_k: top_k(args.top_k),
                categories,
                min_importance,
            },
        )
    }

    /// The error of the tool for a search that failed with the given text.
    pub fn search_failed(detail: &str) -> (e: ToolError)
        ensures
            e@ == ToolErrorView::Other("Memory search failed: "@ + detail@),
    {
        ToolError::Other(joined("Memory search failed: ", detail))
    }

    /// What the tool gives for what the search found.
    pub fn render(query: &str, hits: &Vec<KeyMemoryHit>) -> (r: String)
        ensures
            r@ == key_search_text(query@, hits@),
    {
        if hits.len() == 0 {
            return nothing_found(query);
        }
        let mut body: Vec<char> = Vec::new();
        let mut i: usize = 0;
        assert(hits@.take(0) =~= Seq::<KeyMemoryHit>::empty());
        while i < hits.len()
            invariant
                i <= hits@.len(),
                body@ == shown_key_hits(hits@.take(i as int)),
            decreases hits@.len() - i,
        {
            let hit = &hits[i];
            let mut one: Vec<char> = Vec::new();
            push_decimal(&mut one, (i + 1) as u64);
            extend_str(&mut one, ". [");
            extend_str(&mut one, hit.timestamp.as_str());
            extend_str(&mut one, "] ");
            extend_str(&mut one, hit.category.label());
            extend_str(&mut one, " (");
            extend_str(&mut one, hit.importance.label());
            extend_str(&mut one, ") - Relevance: ");
            extend_str(&mut one, hit.score.as_str());
            extend_str(&mut one, "\n   ");
            extend_str(&mut one, hit.content.as_str());
            extend_str(&mut one, "\n   Tags: ");
            extend_chars(&mut one, &list_text(&hit.tags));
            extend_str(&mut one, "\n   Files: ");
            extend_chars(&mut one, &list_text(&hit.related_files));
            extend_str(&mut one, "\n\n");
            assert(one@ =~= shown_key_hit(i as nat, hits@[i as int]));
            extend_chars(&mut body, &one);
            assert(hits@.take(i + 1).drop_last() == hits@.take(i as int));
            assert(hits@.take(i + 1).last() == hits@[i as int]);
            i += 1;
        }
        assert(hits@.take(hits@.len() as int) == hits@);
        let mut out = chars_of("Found ");
        push_decimal(&mut out, hits.len() as u64);
        extend_str(&mut out, " curated memories:\n\n");
        extend_chars(&mut out, &body);
        string_of(&out)
    }
}

// ---------------------------------------------------------------------------
// search_routine_memory
// ---------------------------------------------------------------------------

/// The tool that searches the memories of past conversations.
#[derive(Debug, Default)]
pub struct SearchRoutineMemory;

/// A memory of a past conversation that a search found, with the texts
/// that are shown for its time and for how well it fits.
#[derive(Debug, Clone)]
pub struct RoutineMemoryHit {
    pub timestamp: String,
    pub score: String,
    pub model: String,
    pub content: String,
    pub session_id: String,
    pub role: String,
    pub context_tags: Vec<String>,
}

/// One memory of a past conversation as a search shows it: its content cut
/// to 200 bytes, the id of its session to 8.
pub open spec fn shown_routine_hit(index: nat, hit: RoutineMemoryHit) -> Seq<char> {
    decimal_spec(index + 1) + ". ["@ + hit.timestamp@ + "] ("@ + hit.score@ + " relevance) "@
        + hit.model@ + ": "@ + truncate_spec(hit.content@, 200) + "\n   Session: "@
        + crate::text::prefix_within(hit.session_id@, 8) + ", Role: "@ + hit.role@
        + "\n   Tags: "@ + join_spec(views(hit.context_tags@), ", "@) + "\n\n"@
}

/// The memories as a search shows them, one after the other.
pub open spec fn shown_routine_hits(hits: Seq<RoutineMemoryHit>) -> Seq<char>
    decreases hits.len(),
{
    if hits.len() == 0 {
        Seq::empty()
    } else {
        shown_routine_hits(hits.drop_last()) + shown_routine_hit(
            (hits.len() - 1) as nat,
            hits.last(),
        )
    }
}

/// What `search_routine_memory` gives for what the search found.
pub open spec fn routine_search_text(query: Seq<char>, hits: Seq<RoutineMemoryHit>) -> Seq<char> {
    if hits.len() == 0 {
        nothing_found_text(query)
    } else {
        "Found "@ + decimal_spec(hits.len()) + " relevant conversation memories:\n\n"@
            + shown_routine_hits(hits)
    }
}

impl SearchRoutineMemory {
    /// The name of the tool.
    pub fn name() -> (r: &'static str)
        ensures
            r@ == "search_routine_memory"@,
    {
        "search_routine_memory"
    }

    /// The number of results that the call asks for.
    pub fn top_k(args: &SearchRoutineMemoryArgs) -> (r: usize)
        ensures
            r == top_k_spec(args.top_k),
    {
        top_k(args.top_k)
    }

    /// What the tool gives for what the search found.
    pub fn render(query: &str, hits: &Vec<RoutineMemoryHit>) -> (r: String)
        ensures
            r@ == routine_search_text(query@, hits@),
    {
        if hits.len() == 0 {
            return nothing_found(query);
        }
        let mut body: Vec<char> = Vec::new();
        let mut i: usize = 0;
        assert(hits@.take(0) =~= Seq::<RoutineMemoryHit>::empty());
        while i < hits.len()
            invariant
                i <= hits@.len(),
                body@ == shown_routine_hits(hits@.take(i as int)),
            decreases hits@.len() - i,
        {
            let hit = &hits[i];
            let session = chars_of(hit.session_id.as_str());
            let cut = crate::text::prefix_end(&session, 8);
            let mut one: Vec<char> = Vec::new();
            push_decimal(&mut one, (i + 1) as u64);
            extend_str(&mut one, ". [");
            extend_str(&mut one, hit.timestamp.as_str());
            extend_str(&mut one, "] (");
            extend_str(&mut one, hit.score.as_str());
            extend_str(&mut one, " relevance) ");
            extend_str(&mut one, hit.model.as_str());
            extend_str(&mut one, ": ");
            extend_str(&mut one, truncate_string(hit.content.as_str(), 200).as_str());
            extend_str(&mut one, "\n   Session: ");
            extend_str(&mut one, crate::text::string_of_range(&session, 0, cut).as_str());
            extend_str(&mut one, ", Role: ");
            extend_str(&mut one, hit.role.as_str());
            extend_str(&mut one, "\n   Tags: ");
            extend_str(&mut one, join(&hit.context_tags, ", ").as_str());
            extend_str(&mut one, "\n\n");
            assert(one@ =~= shown_routine_hit(i as nat, hits@[i as int]));
            extend_chars(&mut body, &one);
            assert(hits@.take(i + 1).drop_last() == hits@.take(i as int));
            assert(hits@.take(i + 1).last() == hits@[i as int]);
            i += 1;
        }
        assert(hits@.take(hits@.len() as int) == hits@);
        let mut out = chars_of("Found ");
        push_decimal(&mut out, hits.len() as u64);
        extend_str(&mut out, " relevant conversation memories:\n\n");
        extend_chars(&mut out, &body);
        string_of(&out)
    }
}


// ---------------------------------------------------------------------------
// What is kept of a conversation
// ---------------------------------------------------------------------------

/// One message of a conversation as the memory keeps it. The time is in
/// seconds since the epoch.
#[derive(Debug, Clone)]
pub struct RoutineMemoryChunk {
    pub session_id: String,
    pub message_id: String,
    pub timestamp: i64,
    pub role: String,
    pub content: String,
    pub working_directory: String,
    pub model: String,
    pub context_tags: Vec<String>,
}

/// A key memory as the memory keeps it. The time is in seconds since the
/// epoch.
#[derive(Debug, Clone)]
pub struct KeyMemoryChunk {
    pub memory_id: String,
    pub timestamp: i64,
    pub session_id: Option<String>,
    pub category: MemoryCategory,
    pub content: String,
    pub importance: ImportanceLevel,
    pub tags: Vec<String>,
    pub related_files: Vec<String>,
}

impl KeyMemoryChunk {
    /// A key memory that is made at the time `now`, under an id of its
    /// own.
    pub fn new(
        content: String,
        category: MemoryCategory,
        importance: ImportanceLevel,
        tags: Vec<String>,
        related_files: Vec<String>,
        session_id: Option<String>,
        now: i64,
    ) -> (chunk: Self)
        ensures
            chunk.timestamp == now,
            chunk.session_id == session_id,
            chunk.category == category,
            chunk.content == content,
            chunk.importance == importance,
            chunk.tags == tags,
            chunk.related_files == related_files,
    {
        KeyMemoryChunk {
            memory_id: fresh_id(),
            timestamp: now,
            session_id,
            category,
            content,
            importance,
            tags,
            related_files,
        }
    }
}

/// Whether `word` ends with `ending`.
pub open spec fn ends_in(word: Seq<char>, ending: Seq<char>) -> bool {
    occurs_at(word, ending, word.len() - ending.len())
}

/// Whether a word looks like the path of a file: it holds a `/`, or ends
/// like a source file.
pub open spec fn is_file_word(word: Seq<char>) -> bool {
    contains_seq(word, "/"@) || ends_in(word, ".rs"@) || ends_in(word, ".py"@) || ends_in(
        word,
        ".js"@,
    ) || ends_in(word, ".ts"@)
}

/// The tags for the words that look like paths of files, in order.
pub open spec fn file_tags(words: Seq<Seq<char>>) -> Seq<Seq<char>>
    decreases words.len(),
{
    if words.len() == 0 {
        Seq::empty()
    } else if is_file_word(words.last()) {
        file_tags(words.drop_last()).push("file:"@ + words.last())
    } else {
        file_tags(words.drop_last())
    }
}

/// The words that tag a message where it holds them, letter case aside.
pub open spec fn keywords_spec() -> Seq<Seq<char>> {
    seq!["error"@, "fix"@, "bug"@, "feature"@, "refactor"@, "test"@]
}

/// The first `n` of the keywords that the text holds, in order.
pub open spec fn keyword_tags(lowered: Seq<char>, n: int) -> Seq<Seq<char>>
    decreases n,
{
    if n <= 0 || n > keywords_spec().len() {
        Seq::empty()
    } else if contains_seq(lowered, keywords_spec()[n - 1]) {
        keyword_tags(lowered, n - 1).push(keywords_spec()[n - 1])
    } else {
        keyword_tags(lowered, n - 1)
    }
}

/// The tags of a message whose content in lower case is `lowered`: the
/// tool that it is about, if any; the words that look like paths of
/// files; and the keywords that it holds.
pub open spec fn tags_spec(content: Seq<char>, lowered: Seq<char>, tool_name: Option<Seq<char>>)
    -> Seq<Seq<char>> {
    (match tool_name {
        Some(tool) => seq!["tool:"@ + tool],
        None => Seq::empty(),
    }) + file_tags(words_spec(content)) + keyword_tags(lowered, keywords_spec().len() as int)
}

fn ends_with_str(word: &Vec<char>, ending: &str) -> (r: bool)
    ensures
        r == ends_in(word@, ending@),
{
    let e = chars_of(ending);
    if e.len() > word.len() {
        return false;
    }
    matches_at(word, &e, word.len() - e.len())
}

impl RoutineMemoryChunk {
    /// The tags of a message, where `lowered` is its content in lower
    /// case.
    pub fn tags_from(content: &str, lowered: &str, tool_name: Option<&str>) -> (tags: Vec<String>)
        ensures
            views(tags@) == tags_spec(
                content@,
                lowered@,
                match tool_name {
                    Some(t) => Some(t@),
                    None => None,
                },
            ),
    {
        let mut tags: Vec<String> = Vec::new();
        match tool_name {
            Some(tool) => {
                tags.push(joined("tool:", tool));
            },
            None => {},
        }
        let ghost head = views(tags@);
        assert(head =~= match tool_name {
            Some(t) => seq!["tool:"@ + t@],
            None => Seq::<Seq<char>>::empty(),
        });
        let words = split_whitespace(content);
        let ghost wv = views(words@);
        let mut i: usize = 0;
        assert(wv.take(0) =~= Seq::<Seq<char>>::empty());
        assert(views(tags@) =~= head + file_tags(wv.take(0)));
        while i < words.len()
            invariant
                i <= words@.len(),
                wv == views(words@),
                views(tags@) == head + file_tags(wv.take(i as int)),
            decreases words@.len() - i,
        {
            let w = chars_of(words[i].as_str());
            assert(wv.take(i + 1).drop_last() == wv.take(i as int));
            assert(wv.take(i + 1).last() == w@);
            let ghost before = views(tags@);
            if contains_chars(&w, &chars_of("/")) || ends_with_str(&w, ".rs") || ends_with_str(
                &w,
                ".py",
            ) || ends_with_str(&w, ".js") || ends_with_str(&w, ".ts") {
                tags.push(joined("file:", words[i].as_str()));
                assert(views(tags@) =~= before.push("file:"@ + w@));
            }
            assert(views(tags@) =~= head + file_tags(wv.take(i + 1)));
            i += 1;
        }
        assert(wv.take(wv.len() as int) == wv);
        let ghost mid = views(tags@);
        let text = chars_of(lowered);
        let keywords: Vec<&'static str> = vec!["error", "fix", "bug", "feature", "refactor", "test"];
        assert(crate::danger::str_views(keywords@) =~= keywords_spec());
        let mut k: usize = 0;
        assert(views(tags@) =~= mid + keyword_tags(lowered@, 0));
        while k < keywords.len()
            invariant
                k <= keywords@.len(),
                crate::danger::str_views(keywords@) == keywords_spec(),
                text@ == lowered@,
                views(tags@) == mid + keyword_tags(lowered@, k as int),
            decreases keywords@.len() - k,
        {
            let word: &'static str = keywords[k];
            assert(word@ == crate::danger::str_views(keywords@)[k as int]);
            let ghost before = views(tags@);
            if contains_chars(&text, &chars_of(word)) {
                tags.push(word.to_owned());
                assert(views(tags@) =~= before.push(word@));
            }
            assert(views(tags@) =~= mid + keyword_tags(lowered@, k + 1));
            k += 1;
        }
        tags
    }

    /// The tags of a message: the tool that it is about, if any; the words
    /// that look like paths of files; and the keywords that it holds,
    /// letter case aside.
    pub fn extract_tags(content: &str, tool_name: Option<&str>) -> (tags: Vec<String>)
        ensures
            views(tags@) == tags_spec(
                content@,
                lowercase_of(content@),
                match tool_name {
                    Some(t) => Some(t@),
                    None => None,
                },
            ),
    {
        Self::tags_from(content, lowercase(content).as_str(), tool_name)
    }

    /// A message of the conversation as the memory keeps it: made at the
    /// time `now` under an id of its own, with the tags of its content.
    /// A message of no session is kept under the session `unknown`.
    pub fn of_message(
        session_id: Option<&str>,
        role: &str,
        content: &str,
        working_directory: &str,
        model: &str,
        now: i64,
    ) -> (chunk: Self)
        ensures
            chunk.session_id@ == match session_id {
                Some(s) => s@,
                None => "unknown"@,
            },
            chunk.timestamp == now,
            chunk.role@ == role@,
            chunk.content@ == content@,
            chunk.working_directory@ == working_directory@,
            chunk.model@ == model@,
            views(chunk.context_tags@) == tags_spec(content@, lowercase_of(content@), None),
    {
        RoutineMemoryChunk {
            session_id: match session_id {
                Some(s) => s.to_owned(),
                None => "unknown".to_owned(),
            },
            message_id: fresh_id(),
            timestamp: now,
            role: role.to_owned(),
            content: content.to_owned(),
            working_directory: working_directory.to_owned(),
            model: model.to_owned(),
            context_tags: Self::extract_tags(content, None),
        }
    }
}

} // verus!

//! Cutting a source file into pieces for the retrieval: the patterns that
//! name the units of each language, and the cut by size for a file whose
//! language has none.

use vstd::prelude::*;
use crate::agent_loop::CodeChunk;
use crate::text::{char_width, chars_of, str_eq, string_of_range, trim, trim_spec, width_of};

verus! {

/// The query that finds the units of code in a file with the extension
/// `ext`: one line for each kind of unit, with the name under which it is
/// captured. Nothing for an extension whose language is not known.
pub open spec fn query_patterns_spec(ext: Seq<char>) -> Option<Seq<char>> {
    if ext == "rs"@ {
        Some("\n            (function_item) @function\n            (impl_item) @impl\n            (struct_item) @struct\n            (enum_item) @enum\n            (trait_item) @trait\n            (mod_item) @module\n            (const_item) @const\n            (static_item) @static\n            "@)
    } else if ext == "py"@ {
        Some("\n            (function_definition) @function\n            (class_definition) @class\n            "@)
    } else if ext == "js"@ || ext == "jsx"@ {
        Some("\n            (function_declaration) @function\n            (method_definition) @method\n            (class_declaration) @class\n            (arrow_function) @arrow_function\n            (function_expression) @function_expr\n            "@)
    } else if ext == "ts"@ || ext == "tsx"@ {
        Some("\n            (function_declaration) @function\n            (method_definition) @method\n            (class_declaration) @class\n            (interface_declaration) @interface\n            (type_alias_declaration) @type\n            (enum_declaration) @enum\n            (arrow_function) @arrow_function\n            (function_expression) @function_expr\n            "@)
    } else if ext == "go"@ {
        Some("\n            (function_declaration) @function\n            (method_declaration) @method\n            (type_declaration) @type\n            "@)
    } else if ext == "java"@ {
        Some("\n            (method_declaration) @method\n            (class_declaration) @class\n            (interface_declaration) @interface\n            (enum_declaration) @enum\n            (constructor_declaration) @constructor\n            "@)
    } else if ext == "c"@ || ext == "h"@ {
        Some("\n            (function_definition) @function\n            (struct_specifier) @struct\n            (enum_specifier) @enum\n            (union_specifier) @union\n            "@)
    } else if ext == "cpp"@ || ext == "cc"@ || ext == "cxx"@ || ext == "hpp"@ {
        Some("\n            (function_definition) @function\n            (class_specifier) @class\n            (struct_specifier) @struct\n            (namespace_definition) @namespace\n            (enum_specifier) @enum\n            (template_declaration) @template\n            "@)
    } else {
        None
    }
}

/// The query that finds the units of code in a file with the extension
/// `ext`.
pub fn get_query_patterns(ext: &str) -> (r: Option<&'static str>)
    ensures
        match r {
            Some(text) => query_patterns_spec(ext@) == Some(text@),
            None => query_patterns_spec(ext@) is None,
        },
{
    if str_eq(ext, "rs") {
        Some("\n            (function_item) @function\n            (impl_item) @impl\n            (struct_item) @struct\n            (enum_item) @enum\n            (trait_item) @trait\n            (mod_item) @module\n            (const_item) @const\n            (static_item) @static\n            ")
    } else if str_eq(ext, "py") {
        Some("\n            (function_definition) @function\n            (class_definition) @class\n            ")
    } else if str_eq(ext, "js") || str_eq(ext, "jsx") {
        Some("\n            (function_declaration) @function\n            (method_definition) @method\n            (class_declaration) @class\n            (arrow_function) @arrow_function\n            (function_expression) @function_expr\n            ")
    } else if str_eq(ext, "ts") || str_eq(ext, "tsx") {
        Some("\n            (function_declaration) @function\n            (method_definition) @method\n            (class_declaration) @class\n            (interface_declaration) @interface\n            (type_alias_declaration) @type\n            (enum_declaration) @enum\n            (arrow_function) @arrow_function\n            (function_expression) @function_expr\n            ")
    } else if str_eq(ext, "go") {
        Some("\n            (function_declaration) @function\n            (method_declaration) @method\n            (type_declaration) @type\n            ")
    } else if str_eq(ext, "java") {
        Some("\n            (method_declaration) @method\n            (class_declaration) @class\n            (interface_declaration) @interface\n            (enum_declaration) @enum\n            (constructor_declaration) @constructor\n            ")
    } else if str_eq(ext, "c") || str_eq(ext, "h") {
        Some("\n            (function_definition) @function\n            (struct_specifier) @struct\n            (enum_specifier) @enum\n            (union_specifier) @union\n            ")
    } else if str_eq(ext, "cpp") || str_eq(ext, "cc") || str_eq(ext, "cxx") || str_eq(ext, "hpp") {
        Some("\n            (function_definition) @function\n            (class_specifier) @class\n            (struct_specifier) @struct\n            (namespace_definition) @namespace\n            (enum_specifier) @enum\n            (template_declaration) @template\n            ")
    } else {
        None
    }
}


// ---------------------------------------------------------------------------
// The cut by size
// ---------------------------------------------------------------------------

/// The bytes that a piece holds at most before the cut looks for its end.
pub const CHUNK_SIZE: usize = 1000;

/// The bytes of a piece that the next piece holds again.
pub const CHUNK_OVERLAP: usize = 200;

/// A piece of code over character sequences.
pub struct CodeChunkView {
    pub file_path: Seq<char>,
    pub start_line: usize,
    pub end_line: usize,
    pub content: Seq<char>,
    pub language: Seq<char>,
}

/// The view of a piece of code.
pub open spec fn chunk_view(c: CodeChunk) -> CodeChunkView {
    CodeChunkView {
        file_path: c.file_path@,
        start_line: c.start_line,
        end_line: c.end_line,
        content: c.content@,
        language: c.language@,
    }
}

/// The views of pieces of code.
pub open spec fn chunk_views(chunks: Seq<CodeChunk>) -> Seq<CodeChunkView> {
    Seq::new(chunks.len(), |i: int| chunk_view(chunks[i]))
}

/// The index behind the last of the characters from `from` on that fit
/// into `budget` bytes together.
pub open spec fn fit(s: Seq<char>, from: int, budget: nat) -> int
    decreases s.len() - from,
{
    if from < 0 || from >= s.len() || char_width(s[from]) > budget {
        from
    } else {
        fit(s, from + 1, (budget - char_width(s[from])) as nat)
    }
}

/// The index of the first of the characters before `end` that fit into
/// `budget` bytes together.
pub open spec fn fit_back(s: Seq<char>, end: int, budget: nat) -> int
    decreases end,
{
    if end <= 0 || end > s.len() || char_width(s[end - 1]) > budget {
        end
    } else {
        fit_back(s, end - 1, (budget - char_width(s[end - 1])) as nat)
    }
}

/// The index behind the last line feed between `from` and `to`, or
/// `otherwise` where there is none.
pub open spec fn after_line_feed(s: Seq<char>, from: int, to: int, otherwise: int) -> int
    decreases to - from,
{
    if to <= from || to > s.len() || to <= 0 {
        otherwise
    } else if s[to - 1] == '\n' {
        to
    } else {
        after_line_feed(s, from, to - 1, otherwise)
    }
}

/// The number of line feeds before the index `upto`.
pub open spec fn line_feeds(s: Seq<char>, upto: int) -> nat
    decreases upto,
{
    if upto <= 0 || upto > s.len() {
        0
    } else {
        line_feeds(s, upto - 1) + if s[upto - 1] == '\n' {
            1nat
        } else {
            0nat
        }
    }
}

/// Where the piece that begins at `start` ends. A rest of at most
/// [`CHUNK_SIZE`] bytes is one piece. Of a longer rest the piece takes the
/// characters that begin within the first [`CHUNK_SIZE`] bytes and the one
/// behind them, and ends behind the last line feed among these, where
/// there is one.
pub open spec fn piece_end(s: Seq<char>, start: int) -> int {
    let full = fit(s, start, CHUNK_SIZE as nat);
    if full >= s.len() {
        s.len() as int
    } else {
        after_line_feed(s, start, full + 1, full + 1)
    }
}

/// Where the piece behind the one from `start` to `end` begins: at the end
/// of the text where the piece ends there; else [`CHUNK_OVERLAP`] bytes
/// before the end of the piece, at the first character that begins there
/// or later, and at least one character behind `start`.
pub open spec fn next_start(s: Seq<char>, start: int, end: int) -> int {
    if end < s.len() {
        let back = fit_back(s, end, CHUNK_OVERLAP as nat);
        if back > start {
            back
        } else {
            start + 1
        }
    } else {
        s.len() as int
    }
}

/// The pieces of the text from the index `start` on. A piece that holds
/// nothing but whitespace is left out; the others come without the
/// whitespace at their ends, with the lines on which they begin and end,
/// counted from 1.
pub open spec fn pieces_from(
    file_path: Seq<char>,
    s: Seq<char>,
    language: Seq<char>,
    start: int,
) -> Seq<CodeChunkView>
    decreases s.len() - start,
{
    if start < 0 || start >= s.len() {
        Seq::empty()
    } else {
        let end = piece_end(s, start);
        let text = trim_spec(s.subrange(start, end));
        let here = if text.len() > 0 {
            seq![
                CodeChunkView {
                    file_path,
                    start_line: (line_feeds(s, start) + 1) as usize,
                    end_line: (line_feeds(s, end) + 1) as usize,
                    content: text,
                    language,
                },
            ]
        } else {
            Seq::empty()
        };
        let next = next_start(s, start, end);
        here + pieces_from(file_path, s, language, if start < next <= s.len() {
            next
        } else {
            start + 1
        })
    }
}

/// The pieces into which a text is cut by size.
pub open spec fn fallback_chunks(file_path: Seq<char>, content: Seq<char>, language: Seq<char>)
    -> Seq<CodeChunkView> {
    pieces_from(file_path, content, language, 0)
}

proof fn lemma_fit(s: Seq<char>, from: int, budget: nat)
    requires
        0 <= from <= s.len(),
    ensures
        from <= fit(s, from, budget) <= s.len(),
    decreases s.len() - from,
{
    if !(from >= s.len() || char_width(s[from]) > budget) {
        lemma_fit(s, from + 1, (budget - char_width(s[from])) as nat);
    }
}

proof fn lemma_fit_back(s: Seq<char>, end: int, budget: nat)
    requires
        0 <= end <= s.len(),
    ensures
        0 <= fit_back(s, end, budget) <= end,
    decreases end,
{
    if !(end <= 0 || char_width(s[end - 1]) > budget) {
        lemma_fit_back(s, end - 1, (budget - char_width(s[end - 1])) as nat);
    }
}

proof fn lemma_after_line_feed_rest(s: Seq<char>, from: int, to: int, otherwise: int)
    requires
        0 <= from < to <= s.len(),
        to <= otherwise,
    ensures
        from < after_line_feed(s, from, to, otherwise) <= otherwise,
    decreases to - from,
{
    if s[to - 1] != '\n' {
        if to - 1 > from {
            lemma_after_line_feed_rest(s, from, to - 1, otherwise);
        } else {
            assert(after_line_feed(s, from, to - 1, otherwise) == otherwise);
        }
    }
}

proof fn lemma_line_feeds(s: Seq<char>, upto: int)
    requires
        0 <= upto <= s.len(),
    ensures
        line_feeds(s, upto) <= upto,
    decreases upto,
{
    if upto > 0 {
        lemma_line_feeds(s, upto - 1);
    }
}

/// A piece that begins inside the text ends behind its first character
/// or later, and inside the text.
proof fn lemma_piece_end(s: Seq<char>, start: int)
    requires
        0 <= start < s.len(),
    ensures
        start < piece_end(s, start) <= s.len(),
{
    lemma_fit(s, start, CHUNK_SIZE as nat);
    let full = fit(s, start, CHUNK_SIZE as nat);
    if full < s.len() {
        lemma_after_line_feed_rest(s, start, full + 1, full + 1);
    }
}

/// The piece behind a piece begins behind the start of that piece and
/// inside the text or at its end, so the cut comes to an end.
pub proof fn lemma_next_start(s: Seq<char>, start: int)
    requires
        0 <= start < s.len(),
    ensures
        start < piece_end(s, start) <= s.len(),
        start < next_start(s, start, piece_end(s, start)) <= s.len(),
{
    lemma_piece_end(s, start);
    lemma_fit_back(s, piece_end(s, start), CHUNK_OVERLAP as nat);
}

fn fit_end(v: &Vec<char>, from: usize, budget: usize) -> (k: usize)
    requires
        from <= v@.len(),
    ensures
        k == fit(v@, from as int, budget as nat),
        from <= k <= v@.len(),
{
    let mut k: usize = from;
    let mut left: usize = budget;
    while k < v.len() && width_of(v[k]) <= left
        invariant
            from <= k <= v@.len(),
            fit(v@, k as int, left as nat) == fit(v@, from as int, budget as nat),
        decreases v@.len() - k,
    {
        left = left - width_of(v[k]);
        k += 1;
    }
    k
}

fn fit_start(v: &Vec<char>, end: usize, budget: usize) -> (k: usize)
    requires
        end <= v@.len(),
    ensures
        k == fit_back(v@, end as int, budget as nat),
        k <= end,
{
    let mut k: usize = end;
    let mut left: usize = budget;
    while k > 0 && width_of(v[k - 1]) <= left
        invariant
            k <= end <= v@.len(),
            fit_back(v@, k as int, left as nat) == fit_back(v@, end as int, budget as nat),
        decreases k,
    {
        left = left - width_of(v[k - 1]);
        k -= 1;
    }
    k
}

fn line_feed_cut(v: &Vec<char>, from: usize, to: usize) -> (k: usize)
    requires
        from <= to <= v@.len(),
    ensures
        k == after_line_feed(v@, from as int, to as int, to as int),
{
    let mut k: usize = to;
    while k > from && v[k - 1] != '\n'
        invariant
            from <= k <= to <= v@.len(),
            after_line_feed(v@, from as int, k as int, to as int) == after_line_feed(
                v@,
                from as int,
                to as int,
                to as int,
            ),
        decreases k,
    {
        k -= 1;
    }
    if k > from {
        k
    } else {
        to
    }
}

fn count_line_feeds(v: &Vec<char>, upto: usize) -> (n: usize)
    requires
        upto <= v@.len(),
    ensures
        n == line_feeds(v@, upto as int),
        n <= upto,
{
    let mut n: usize = 0;
    let mut i: usize = 0;
    while i < upto
        invariant
            i <= upto <= v@.len(),
            n <= i,
            n == line_feeds(v@, i as int),
        decreases upto - i,
    {
        if v[i] == '\n' {
            n += 1;
        }
        i += 1;
    }
    n
}

/// The pieces into which the text of a file is cut by size, for a file
/// whose language has no units to cut it by. Each piece holds about
/// [`CHUNK_SIZE`] bytes, ends at a line feed where it holds one, and
/// begins [`CHUNK_OVERLAP`] bytes before the end of the piece before it.
/// No character is cut in two.
pub fn fallback_chunk(file_path: &str, content: &str, language: &str) -> (chunks: Vec<CodeChunk>)
    requires
        content@.len() < usize::MAX,
    ensures
        chunk_views(chunks@) == fallback_chunks(file_path@, content@, language@),
{
    let v = chars_of(content);
    let n = v.len();
    let mut chunks: Vec<CodeChunk> = Vec::new();
    let mut start: usize = 0;
    assert(chunk_views(chunks@) =~= Seq::<CodeChunkView>::empty());
    while start < n
        invariant
            n == v@.len(),
            v@ == content@,
            n < usize::MAX,
            start <= n,
            chunk_views(chunks@) + pieces_from(file_path@, v@, language@, start as int)
                == fallback_chunks(file_path@, content@, language@),
        decreases n - start,
    {
        let full = fit_end(&v, start, CHUNK_SIZE);
        let end = if full >= n {
            n
        } else {
            line_feed_cut(&v, start, full + 1)
        };
        proof {
            lemma_piece_end(v@, start as int);
        }
        assert(end == piece_end(v@, start as int));
        let piece = string_of_range(&v, start, end);
        let text = trim(piece.as_str());
        let ghost before = chunk_views(chunks@);
        if text.as_str().unicode_len() > 0 {
            let first = count_line_feeds(&v, start);
            let last = count_line_feeds(&v, end);
            chunks.push(
                CodeChunk {
                    file_path: file_path.to_owned(),
                    start_line: first + 1,
                    end_line: last + 1,
                    content: text,
                    language: language.to_owned(),
                },
            );
            assert(chunk_views(chunks@) =~= before + seq![
                CodeChunkView {
                    file_path: file_path@,
                    start_line: (line_feeds(v@, start as int) + 1) as usize,
                    end_line: (line_feeds(v@, end as int) + 1) as usize,
                    content: trim_spec(v@.subrange(start as int, end as int)),
                    language: language@,
                },
            ]);
        }
        let next = if end < n {
            let back = fit_start(&v, end, CHUNK_OVERLAP);
            if back > start {
                back
            } else {
                start + 1
            }
        } else {
            n
        };
        assert(next == next_start(v@, start as int, end as int));
        assert(start < next <= n);
        assert(chunk_views(chunks@) + pieces_from(file_path@, v@, language@, next as int)
            =~= before + pieces_from(file_path@, v@, language@, start as int));
        start = next;
    }
    assert(pieces_from(file_path@, v@, language@, start as int) =~= Seq::<CodeChunkView>::empty());
    chunks
}

} // verus!

//! The prompt: a snapshot and a question set into a fixed instruction text.
use crate::schema::{
    column_line, header_line, lemma_schema_text_names_everything, schema_text, DatabaseSchema,
    TableView,
};
use crate::schema_parse::{
    lemma_parse_closing_line, lemma_parse_line, lemma_text_reads_back_within, parse_from,
    parse_lines, schema_is_plain,
};
use crate::text::{
    chars_of, lemma_occurs_within, matches_at, occurs_at, occurs_in, push_chars, trim, trim_chars,
};
use vstd::prelude::*;
use vstd::string::StringExecFns;

verus! {

/// What the prompt says before the snapshot.
pub open spec fn prompt_opening() -> Seq<char> {
    "You are a database expert.\n\nDatabase Schema:\n"@
}

/// What the prompt says between the snapshot and the dialect.
pub open spec fn prompt_task() -> Seq<char> {
    "\n\nInstructions:\n- Generate ONE correct SQL query for "@
}

/// What the prompt says between the dialect and the question: one
/// statement only, no prose, no prefixes, no fenced blocks.
pub open spec fn prompt_rules() -> Seq<char> {
    " that answers the given user question.\n- Only output the SQL command.\n- No explanations, no examples, no prefixes (such as 'Example:', 'SQL:', 'Response:', 'Result:').\n- No formatting like markdown (no ```sql blocks).\n- Output ONLY the SQL query - no extra text.\n\nUser Question:\n"@
}

/// What the prompt says after the question.
pub open spec fn prompt_closing() -> Seq<char> {
    "\n\nRemember: ONLY output a single valid SQL command."@
}

/// The prompt for a snapshot, a dialect and a question: the fixed text with
/// the snapshot's text, the dialect and the question without the white
/// space at its ends set in.
pub open spec fn prompt_text(schema: Seq<TableView>, dialect: Seq<char>, question: Seq<char>) -> Seq<
    char,
> {
    prompt_opening() + schema_text(schema) + prompt_task() + dialect + prompt_rules() + trim(
        question,
    ) + prompt_closing()
}

/// The prompt holds the snapshot's text, the dialect and the trimmed
/// question, each whole.
pub proof fn lemma_prompt_holds_its_parts(
    schema: Seq<TableView>,
    dialect: Seq<char>,
    question: Seq<char>,
)
    ensures
        occurs_in(prompt_text(schema, dialect, question), schema_text(schema)),
        occurs_in(prompt_text(schema, dialect, question), dialect),
        occurs_in(prompt_text(schema, dialect, question), trim(question)),
{
    let p = prompt_text(schema, dialect, question);
    let a = prompt_opening().len() as int;
    let b = a + schema_text(schema).len() + prompt_task().len();
    let c = b + dialect.len() + prompt_rules().len();
    assert(p.subrange(a, a + schema_text(schema).len()) =~= schema_text(schema));
    assert(occurs_at(p, schema_text(schema), a));
    assert(p.subrange(b, b + dialect.len()) =~= dialect);
    assert(occurs_at(p, dialect, b));
    assert(p.subrange(c, c + trim(question).len()) =~= trim(question));
    assert(occurs_at(p, trim(question), c));
}

/// The prompt names every table and every column of the snapshot: it holds
/// the header line of each table and the line of each of its columns.
pub proof fn lemma_prompt_names_everything(
    schema: Seq<TableView>,
    dialect: Seq<char>,
    question: Seq<char>,
    i: int,
    j: int,
)
    requires
        0 <= i < schema.len(),
    ensures
        occurs_in(prompt_text(schema, dialect, question), header_line(schema[i].name)),
        0 <= j < schema[i].columns.len() ==> occurs_in(
            prompt_text(schema, dialect, question),
            column_line(schema[i].columns[j]),
        ),
{
    let p = prompt_text(schema, dialect, question);
    lemma_prompt_holds_its_parts(schema, dialect, question);
    lemma_schema_text_names_everything(schema, i, j);
    lemma_occurs_within(p, schema_text(schema), header_line(schema[i].name));
    if 0 <= j < schema[i].columns.len() {
        lemma_occurs_within(p, schema_text(schema), column_line(schema[i].columns[j]));
    }
}

/// The line of the prompt that follows the snapshot and the blank line
/// behind it.
pub open spec fn section_close() -> Seq<char> {
    "Instructions:"@
}

/// The snapshot that a prompt carries: what its lines denote between the
/// opening and the line `Instructions:`. A text that does not start with
/// the opening, or has no such line, carries none.
pub open spec fn read_prompt_text(prompt: Seq<char>) -> Option<Seq<TableView>> {
    if occurs_at(prompt, prompt_opening(), 0) {
        parse_from(
            prompt.skip(prompt_opening().len() as int),
            Seq::empty(),
            Some(section_close()),
        )
    } else {
        None
    }
}

/// Building a prompt and reading the snapshot back out of it gives the
/// snapshot again, table by table and column by column, whatever the
/// dialect and the question, for every plain snapshot.
pub proof fn lemma_prompt_reads_back(
    schema: Seq<TableView>,
    dialect: Seq<char>,
    question: Seq<char>,
)
    requires
        schema_is_plain(schema),
    ensures
        read_prompt_text(prompt_text(schema, dialect, question)) == Some(schema),
{
    reveal_strlit("Instructions:");
    reveal_strlit("\n\nInstructions:\n- Generate ONE correct SQL query for ");
    reveal_strlit("- Generate ONE correct SQL query for ");
    let p = prompt_text(schema, dialect, question);
    let open = prompt_opening();
    let close = section_close();
    let ask = "- Generate ONE correct SQL query for "@;
    let tail = ask + dialect + prompt_rules() + trim(question) + prompt_closing();
    let third = close + seq!['\n'] + tail;
    let second = Seq::<char>::empty() + seq!['\n'] + third;
    let first = Seq::<char>::empty() + seq!['\n'] + second;
    assert(prompt_task() =~= seq!['\n', '\n'] + close + seq!['\n'] + ask);
    assert(p.subrange(0, open.len() as int) =~= open);
    assert(p.skip(open.len() as int) =~= schema_text(schema) + first);
    assert(close[0] == 'I');
    lemma_text_reads_back_within(schema, first, Seq::empty(), Some(close));
    assert(Seq::<TableView>::empty() + schema == schema);
    lemma_parse_line(Seq::empty(), second, schema, Some(close));
    lemma_parse_line(Seq::empty(), third, schema, Some(close));
    assert forall|i: int| 0 <= i < close.len() implies #[trigger] close[i] != '\n' by {}
    lemma_parse_closing_line(close, tail, schema);
}

/// Builds prompts for one SQL dialect.
#[derive(Debug)]
pub struct PromptBuilder {
    pub dialect: String,
}

impl PromptBuilder {
    /// A builder for `dialect`.
    pub fn new(dialect: String) -> (b: PromptBuilder)
        ensures
            b.dialect@ == dialect@,
    {
        PromptBuilder { dialect }
    }

    /// The prompt for `schema` and `question`. An empty snapshot gives a
    /// prompt with an empty schema section.
    pub fn build(&self, schema: &DatabaseSchema, question: &str) -> (prompt: String)
        ensures
            prompt@ == prompt_text(schema@, self.dialect@, question@),
    {
        let mut out = String::from_str("You are a database expert.\n\nDatabase Schema:\n");
        let rendered = schema.render();
        out.append(rendered.as_str());
        out.append("\n\nInstructions:\n- Generate ONE correct SQL query for ");
        out.append(self.dialect.as_str());
        out.append(
            " that answers the given user question.\n- Only output the SQL command.\n- No explanations, no examples, no prefixes (such as 'Example:', 'SQL:', 'Response:', 'Result:').\n- No formatting like markdown (no ```sql blocks).\n- Output ONLY the SQL query - no extra text.\n\nUser Question:\n",
        );
        let asked = chars_of(question);
        let trimmed = trim_chars(&asked);
        push_chars(&mut out, &trimmed);
        out.append("\n\nRemember: ONLY output a single valid SQL command.");
        out
    }

    /// Reads the snapshot back out of a prompt. A text that no builder can
    /// have written around a snapshot is refused.
    pub fn read_schema(prompt: &str) -> (r: Option<DatabaseSchema>)
        ensures
            match r {
                Some(d) => read_prompt_text(prompt@) == Some(d@),
                None => read_prompt_text(prompt@) is None,
            },
    {
        let text = chars_of(prompt);
        let opening = chars_of("You are a database expert.\n\nDatabase Schema:\n");
        let closing = chars_of("Instructions:");
        if matches_at(&text, &opening, 0) {
            parse_lines(&text, opening.len(), Some(&closing))
        } else {
            None
        }
    }
}

} // verus!

//! Cleaning the generator's raw text into a statement that can be run.
use crate::error::PipelineError;
use crate::text::{
    chars_of, occurs_at, occurs_in, remove_all, remove_all_chars, string_of, trim, trim_chars,
    trim_end, trim_start, is_space,
};
use vstd::prelude::*;

verus! {

/// The marker that opens a fenced block tagged as SQL.
pub open spec fn sql_fence() -> Seq<char> {
    "```sql"@
}

/// The bare marker that opens or closes a fenced block.
pub open spec fn fence() -> Seq<char> {
    "```"@
}

/// The cleaned form of `raw`: every tagged opener taken out, then every
/// bare marker, then the white space at both ends.
pub open spec fn clean_text(raw: Seq<char>) -> Seq<char> {
    trim(remove_all(remove_all(raw, sql_fence()), fence()))
}

/// Whether `s` nowhere holds three backticks in a row.
pub open spec fn no_fence(s: Seq<char>) -> bool {
    forall|i: int| 0 <= i && i + 3 <= s.len() ==> !(#[trigger] s[i] == '`' && s[i + 1] == '`' && s[i
        + 2] == '`')
}

/// The number of backticks that `s` starts with.
spec fn ticks(s: Seq<char>) -> nat
    decreases s.len(),
{
    if s.len() > 0 && s[0] == '`' {
        1 + ticks(s.drop_first())
    } else {
        0
    }
}

proof fn lemma_fence_chars()
    ensures
        fence() == seq!['`', '`', '`'],
        sql_fence() == seq!['`', '`', '`', 's', 'q', 'l'],
{
    reveal_strlit("```");
    reveal_strlit("```sql");
    assert(fence() =~= seq!['`', '`', '`']);
    assert(sql_fence() =~= seq!['`', '`', '`', 's', 'q', 'l']);
}

proof fn lemma_fence_at(s: Seq<char>, i: int)
    ensures
        occurs_at(s, fence(), i) <==> (0 <= i && i + 3 <= s.len() && s[i] == '`' && s[i + 1] == '`'
            && s[i + 2] == '`'),
        occurs_at(s, sql_fence(), i) ==> occurs_at(s, fence(), i),
{
    lemma_fence_chars();
    if 0 <= i && i + 3 <= s.len() {
        let w = s.subrange(i, i + 3);
        if s[i] == '`' && s[i + 1] == '`' && s[i + 2] == '`' {
            assert(w =~= fence());
        }
        if w == fence() {
            assert(w[0] == '`' && w[1] == '`' && w[2] == '`');
        }
    }
    if occurs_at(s, sql_fence(), i) {
        let w = s.subrange(i, i + 6);
        assert(w[0] == '`' && w[1] == '`' && w[2] == '`');
    }
}

proof fn lemma_no_fence_means_absent(s: Seq<char>)
    requires
        no_fence(s),
    ensures
        !occurs_in(s, fence()),
        !occurs_in(s, sql_fence()),
{
    assert forall|i: int| !occurs_at(s, fence(), i) && !occurs_at(s, sql_fence(), i) by {
        lemma_fence_at(s, i);
    }
}

proof fn lemma_ticks_three(s: Seq<char>)
    ensures
        ticks(s) <= s.len(),
        ticks(s) >= 3 <==> (s.len() >= 3 && s[0] == '`' && s[1] == '`' && s[2] == '`'),
        (s.len() >= 3 && s[0] == '`' && s[1] == '`' && s[2] == '`') ==> ticks(s) == 3 + ticks(
            s.subrange(3, s.len() as int),
        ),
{
    lemma_ticks_bound(s);
    if s.len() >= 1 && s[0] == '`' {
        let a = s.drop_first();
        assert(ticks(s) == 1 + ticks(a));
        if a.len() >= 1 && a[0] == '`' {
            let b = a.drop_first();
            assert(ticks(a) == 1 + ticks(b));
            if b.len() >= 1 && b[0] == '`' {
                assert(ticks(b) == 1 + ticks(b.drop_first()));
                assert(b.drop_first() == s.subrange(3, s.len() as int));
            } else {
                assert(ticks(b) == 0);
            }
        } else {
            assert(ticks(a) == 0);
        }
    }
}

proof fn lemma_ticks_bound(s: Seq<char>)
    ensures
        ticks(s) <= s.len(),
    decreases s.len(),
{
    if s.len() > 0 {
        lemma_ticks_bound(s.drop_first());
    }
}

/// Once the bare markers are taken out, none is left: what remains of a
/// run of backticks is shorter than a marker.
proof fn lemma_fence_removed(s: Seq<char>)
    ensures
        ticks(remove_all(s, fence())) == ticks(s) % 3,
        no_fence(remove_all(s, fence())),
    decreases s.len(),
{
    lemma_fence_chars();
    lemma_ticks_three(s);
    lemma_fence_at(s, 0);
    let r = remove_all(s, fence());
    if s.len() < 3 {
    } else if occurs_at(s, fence(), 0) {
        lemma_fence_removed(s.subrange(3, s.len() as int));
    } else {
        let tail = s.drop_first();
        let rt = remove_all(tail, fence());
        lemma_fence_removed(tail);
        assert(r == seq![s[0]] + rt);
        assert(r.drop_first() == rt);
        assert(r[0] == s[0]);
        lemma_ticks_three(r);
        assert forall|i: int| 0 <= i && i + 3 <= r.len() implies !(#[trigger] r[i] == '`' && r[i
            + 1] == '`' && r[i + 2] == '`') by {
            if i >= 1 {
                assert(rt[i - 1] == r[i]);
                assert(rt[i] == r[i + 1]);
                assert(rt[i + 1] == r[i + 2]);
            }
        }
    }
}

/// Taking out a pattern that does not occur changes nothing.
proof fn lemma_remove_absent(s: Seq<char>, p: Seq<char>)
    requires
        !occurs_in(s, p),
    ensures
        remove_all(s, p) == s,
    decreases s.len(),
{
    if p.len() == 0 || s.len() < p.len() {
    } else {
        assert(!occurs_at(s, p, 0));
        let tail = s.drop_first();
        assert forall|i: int| !occurs_at(tail, p, i) by {
            if occurs_at(tail, p, i) {
                assert(tail.subrange(i, i + p.len()) == s.subrange(i + 1, i + 1 + p.len()));
                assert(occurs_at(s, p, i + 1));
            }
        }
        lemma_remove_absent(tail, p);
        assert(seq![s[0]] + tail == s);
    }
}

proof fn lemma_trim_start_shape(s: Seq<char>)
    ensures
        trim_start(s).len() <= s.len(),
        trim_start(s) == s.skip(s.len() - trim_start(s).len()),
        trim_start(s).len() > 0 ==> !is_space(trim_start(s)[0]),
    decreases s.len(),
{
    if s.len() > 0 && is_space(s[0]) {
        lemma_trim_start_shape(s.drop_first());
        let t = trim_start(s.drop_first());
        assert(s.drop_first().skip(s.len() - 1 - t.len()) == s.skip(s.len() - t.len()));
    } else {
        assert(s.skip(0) == s);
    }
}

proof fn lemma_trim_end_shape(s: Seq<char>)
    ensures
        trim_end(s).len() <= s.len(),
        trim_end(s) == s.take(trim_end(s).len() as int),
        trim_end(s).len() > 0 ==> !is_space(trim_end(s).last()),
    decreases s.len(),
{
    if s.len() > 0 && is_space(s.last()) {
        lemma_trim_end_shape(s.drop_last());
        let t = trim_end(s.drop_last());
        assert(s.drop_last().take(t.len() as int) == s.take(t.len() as int));
    } else {
        assert(s.take(s.len() as int) == s);
    }
}

/// What is trimmed stays trimmed, and trimming brings in no marker.
proof fn lemma_trim_settles(s: Seq<char>)
    ensures
        trim(trim(s)) == trim(s),
        no_fence(s) ==> no_fence(trim(s)),
{
    let a = trim_start(s);
    lemma_trim_start_shape(s);
    lemma_trim_end_shape(a);
    let t = trim(s);
    if t.len() > 0 {
        assert(t[0] == a[0]);
    }
    lemma_trim_end_shape(t);
    if no_fence(s) {
        let k = s.len() - a.len();
        assert forall|i: int| 0 <= i && i + 3 <= t.len() implies !(#[trigger] t[i] == '`' && t[i
            + 1] == '`' && t[i + 2] == '`') by {
            assert(t[i] == s[i + k]);
            assert(t[i + 1] == s[i + k + 1]);
            assert(t[i + 2] == s[i + k + 2]);
        }
    }
}

/// Cleaned text holds no marker and no white space at either end.
pub proof fn lemma_clean_text_is_clean(raw: Seq<char>)
    ensures
        no_fence(clean_text(raw)),
        !occurs_in(clean_text(raw), fence()),
        !occurs_in(clean_text(raw), sql_fence()),
        trim(clean_text(raw)) == clean_text(raw),
{
    let inner = remove_all(remove_all(raw, sql_fence()), fence());
    lemma_fence_removed(remove_all(raw, sql_fence()));
    lemma_trim_settles(inner);
    lemma_no_fence_means_absent(clean_text(raw));
}

/// Cleaning is idempotent: cleaning cleaned text changes nothing.
pub proof fn lemma_clean_idempotent(raw: Seq<char>)
    ensures
        clean_text(clean_text(raw)) == clean_text(raw),
{
    let c = clean_text(raw);
    lemma_clean_text_is_clean(raw);
    lemma_remove_absent(c, sql_fence());
    lemma_remove_absent(c, fence());
}

/// Strips formatting artifacts from generated text.
pub struct SqlSanitizer {}

impl SqlSanitizer {
    /// The cleaned form of `raw`. The result holds no fence marker, has no
    /// white space at either end, and cleaning it again gives it back.
    pub fn clean(raw: &str) -> (s: String)
        ensures
            s@ == clean_text(raw@),
            no_fence(s@),
            clean_text(s@) == s@,
    {
        let text = chars_of(raw);
        let tagged = chars_of("```sql");
        let bare = chars_of("```");
        let first = remove_all_chars(&text, &tagged);
        let second = remove_all_chars(&first, &bare);
        let trimmed = trim_chars(&second);
        proof {
            lemma_clean_text_is_clean(raw@);
            lemma_clean_idempotent(raw@);
        }
        string_of(&trimmed)
    }
}

/// Generated text together with its cleaned form.
#[derive(Debug)]
pub struct GeneratedSql {
    raw_text: String,
    sanitized: String,
}

/// Generated text and its cleaned form, as plain text.
pub struct GeneratedSqlView {
    pub raw_text: Seq<char>,
    pub sanitized: Seq<char>,
}

impl View for GeneratedSql {
    type V = GeneratedSqlView;

    closed spec fn view(&self) -> GeneratedSqlView {
        GeneratedSqlView { raw_text: self.raw_text@, sanitized: self.sanitized@ }
    }
}

impl GeneratedSql {
    #[verifier::type_invariant]
    spec fn is_runnable(self) -> bool {
        &&& self.sanitized@ == clean_text(self.raw_text@)
        &&& self.sanitized@.len() > 0
    }

    /// Cleans `raw` and keeps both forms. Fails with `Extraction` exactly
    /// when nothing is left after cleaning.
    pub fn from_raw(raw: String) -> (r: Result<GeneratedSql, PipelineError>)
        ensures
            match r {
                Ok(sql) => {
                    &&& clean_text(raw@).len() > 0
                    &&& sql@.raw_text == raw@
                    &&& sql@.sanitized == clean_text(raw@)
                },
                Err(e) => clean_text(raw@).len() == 0 && e == PipelineError::Extraction,
            },
    {
        let sanitized = SqlSanitizer::clean(raw.as_str());
        if sanitized.as_str().unicode_len() == 0 {
            Err(PipelineError::Extraction)
        } else {
            Ok(GeneratedSql { raw_text: raw, sanitized })
        }
    }

    /// The generator's text, untouched.
    pub fn raw_text(&self) -> (s: &String)
        ensures
            s@ == self@.raw_text,
    {
        &self.raw_text
    }

    /// The statement to run: never empty, never holding a fence marker.
    pub fn sanitized(&self) -> (s: &String)
        ensures
            s@ == self@.sanitized,
            s@ == clean_text(self@.raw_text),
            s@.len() > 0,
            no_fence(s@),
    {
        proof {
            use_type_invariant(self);
            lemma_clean_text_is_clean(self.raw_text@);
        }
        &self.sanitized
    }
}

} // verus!

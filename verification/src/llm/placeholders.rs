//! What resolving placeholders guarantees: in a text whose every `{` opens a known
//! placeholder, resolving with names that hold no `{` leaves no placeholder behind, and
//! so does the system block built from such texts; a text without `{` is left as it is.
use vstd::prelude::*;
use crate::llm::prompt::{
    character_parts, field_of, labeled, length_example, optional_resolved, prompt_blocks, quarter,
    resolved, response_contract, style_examples_label, system_block_text, system_sections,
    template_text,
};
use crate::domain::persona::{Message, Persona};
use crate::text::{
    contains, int_to_decimal, is_blank, join, nat_to_decimal, occurs_at, replace_all, trim,
};

verus! {

/// The placeholders of prompt texts, in the order they are resolved.
pub open spec fn placeholders() -> Seq<Seq<char>> {
    seq![
        "{{char}}"@,
        "{{user}}"@,
        "{{response_length_limit}}"@,
        "{{response_length_example}}"@,
    ]
}

/// `s` holds no `{`.
pub open spec fn no_open_brace(s: Seq<char>) -> bool {
    forall|i: int| 0 <= i < s.len() ==> s[i] != '{'
}

/// A pattern that opens with `{{` and holds no other `{`.
pub open spec fn braced(p: Seq<char>) -> bool {
    &&& p.len() >= 3
    &&& p[0] == '{'
    &&& p[1] == '{'
    &&& forall|k: int| 2 <= k < p.len() ==> p[k] != '{'
}

/// Every pattern of `ps` is braced.
pub open spec fn all_braced(ps: Seq<Seq<char>>) -> bool {
    forall|i: int| 0 <= i < ps.len() ==> braced(#[trigger] ps[i])
}

/// No pattern of `ps` is a prefix of another.
pub open spec fn prefix_free(ps: Seq<Seq<char>>) -> bool {
    forall|i: int, j: int|
        0 <= i < ps.len() && 0 <= j < ps.len() && i != j ==> !(#[trigger] ps[i]).is_prefix_of(
            #[trigger] ps[j],
        )
}

/// The index of the first pattern of `ps` that occurs at the start of `s`, or -1.
pub open spec fn match_index(s: Seq<char>, ps: Seq<Seq<char>>) -> int
    decreases ps.len(),
{
    if ps.len() == 0 {
        -1
    } else if occurs_at(s, ps[0], 0) {
        0
    } else {
        let m = match_index(s, ps.drop_first());
        if m < 0 {
            -1
        } else {
            m + 1
        }
    }
}

/// Every `{` of `s` opens an occurrence of a pattern of `ps`, read from the left.
pub open spec fn template_ok(s: Seq<char>, ps: Seq<Seq<char>>) -> bool
    decreases s.len(),
{
    if s.len() == 0 {
        true
    } else if s[0] != '{' {
        template_ok(s.drop_first(), ps)
    } else {
        let k = match_index(s, ps);
        &&& 0 <= k < ps.len()
        &&& 0 < ps[k].len() <= s.len()
        &&& template_ok(s.skip(ps[k].len() as int), ps)
    }
}

proof fn lemma_match_index(s: Seq<char>, ps: Seq<Seq<char>>)
    ensures
        -1 <= match_index(s, ps) < ps.len(),
        match_index(s, ps) >= 0 ==> occurs_at(s, ps[match_index(s, ps)], 0),
        match_index(s, ps) == -1 ==> forall|k: int| 0 <= k < ps.len() ==> !occurs_at(s, #[trigger] ps[k], 0),
    decreases ps.len(),
{
    if ps.len() > 0 && !occurs_at(s, ps[0], 0) {
        lemma_match_index(s, ps.drop_first());
        if match_index(s, ps.drop_first()) == -1 {
            assert forall|k: int| 0 <= k < ps.len() implies !occurs_at(s, #[trigger] ps[k], 0) by {
                if k > 0 {
                    assert(ps[k] == ps.drop_first()[k - 1]);
                }
            }
        }
    }
}

proof fn lemma_match_unique(s: Seq<char>, ps: Seq<Seq<char>>, j: int)
    requires
        prefix_free(ps),
        0 <= j < ps.len(),
        occurs_at(s, ps[j], 0),
    ensures
        match_index(s, ps) == j,
{
    lemma_match_index(s, ps);
    let m = match_index(s, ps);
    if m != j {
        if m == -1 {
            assert(!occurs_at(s, ps[j], 0));
        } else if ps[m].len() <= ps[j].len() {
            assert(ps[m] =~= ps[j].subrange(0, ps[m].len() as int));
            assert(ps[m].is_prefix_of(ps[j]));
        } else {
            assert(ps[j] =~= ps[m].subrange(0, ps[j].len() as int));
            assert(ps[j].is_prefix_of(ps[m]));
        }
    }
}

proof fn lemma_free_prefix_ok(a: Seq<char>, t: Seq<char>, ps: Seq<Seq<char>>)
    requires
        no_open_brace(a),
        template_ok(t, ps),
    ensures
        template_ok(a + t, ps),
    decreases a.len(),
{
    if a.len() > 0 {
        assert((a + t).drop_first() =~= a.drop_first() + t);
        lemma_free_prefix_ok(a.drop_first(), t, ps);
    } else {
        assert(a + t =~= t);
    }
}

proof fn lemma_placeholder_prefix_ok(j: int, t: Seq<char>, ps: Seq<Seq<char>>)
    requires
        all_braced(ps),
        prefix_free(ps),
        0 <= j < ps.len(),
        template_ok(t, ps),
    ensures
        template_ok(ps[j] + t, ps),
{
    let q = ps[j];
    let s = q + t;
    assert(braced(q));
    assert(s.subrange(0, q.len() as int) =~= q);
    lemma_match_unique(s, ps, j);
    assert(s.skip(q.len() as int) =~= t);
}

/// Where `pat` occurs at none of the first `k` positions of `s`, replacing it keeps those
/// `k` chars as they are.
proof fn lemma_replace_skips(s: Seq<char>, pat: Seq<char>, rep: Seq<char>, k: int)
    requires
        pat.len() > 0,
        0 <= k <= s.len(),
        forall|j: int| 0 <= j < k ==> !occurs_at(s, pat, j),
    ensures
        replace_all(s, pat, rep) == s.take(k) + replace_all(s.skip(k), pat, rep),
    decreases k,
{
    if k == 0 {
        assert(s.take(0) + s =~= s);
        assert(s.skip(0) =~= s);
    } else {
        let t = s.drop_first();
        assert(!occurs_at(s, pat, 0));
        assert forall|j: int| 0 <= j < k - 1 implies !occurs_at(t, pat, j) by {
            assert(!occurs_at(s, pat, j + 1));
            if j + pat.len() <= t.len() {
                assert(t.subrange(j, j + pat.len()) =~= s.subrange(j + 1, j + 1 + pat.len()));
            }
        }
        lemma_replace_skips(t, pat, rep, k - 1);
        assert(t.skip(k - 1) =~= s.skip(k));
        assert(seq![s[0]] + t.take(k - 1) =~= s.take(k));
    }
}

/// Replacing the first pattern of `ps` by a text without `{` keeps every `{` opening one
/// of the other patterns.
proof fn lemma_replace_first_ok(s: Seq<char>, ps: Seq<Seq<char>>, rep: Seq<char>)
    requires
        ps.len() > 0,
        all_braced(ps),
        prefix_free(ps),
        no_open_brace(rep),
        template_ok(s, ps),
    ensures
        template_ok(replace_all(s, ps[0], rep), ps.drop_first()),
    decreases s.len(),
{
    let pat = ps[0];
    let rest = ps.drop_first();
    assert(braced(pat));
    assert(all_braced(rest)) by {
        assert forall|i: int| 0 <= i < rest.len() implies braced(#[trigger] rest[i]) by {
            assert(rest[i] == ps[i + 1]);
        }
    }
    assert(prefix_free(rest)) by {
        assert forall|i: int, j: int|
            0 <= i < rest.len() && 0 <= j < rest.len() && i != j implies !(#[trigger] rest[i]).is_prefix_of(
                #[trigger] rest[j],
            ) by {
            assert(rest[i] == ps[i + 1]);
            assert(rest[j] == ps[j + 1]);
        }
    }
    if s.len() == 0 {
    } else if s[0] != '{' {
        assert(!occurs_at(s, pat, 0)) by {
            if occurs_at(s, pat, 0) {
                assert(s.subrange(0, pat.len() as int)[0] == s[0]);
            }
        }
        lemma_replace_first_ok(s.drop_first(), ps, rep);
        lemma_free_prefix_ok(seq![s[0]], replace_all(s.drop_first(), pat, rep), rest);
    } else {
        let k = match_index(s, ps);
        lemma_match_index(s, ps);
        let q = ps[k];
        let n = q.len() as int;
        lemma_replace_first_ok(s.skip(n), ps, rep);
        if k == 0 {
            lemma_free_prefix_ok(rep, replace_all(s.skip(n), pat, rep), rest);
        } else {
            assert(braced(q));
            assert(s.subrange(0, n) == q);
            assert forall|j: int| 0 <= j < n implies !occurs_at(s, pat, j) by {
                if j == 0 {
                    if occurs_at(s, pat, 0) {
                        lemma_match_unique(s, ps, 0);
                    }
                } else if occurs_at(s, pat, j) {
                    assert(s.subrange(j, j + pat.len())[0] == pat[0]);
                    assert(s[j] == q[j]);
                    if j == 1 {
                        assert(s.subrange(j, j + pat.len())[1] == pat[1]);
                        assert(s[2] == q[2]);
                    }
                }
            }
            lemma_replace_skips(s, pat, rep, n);
            assert(s.take(n) =~= q);
            assert(q == rest[k - 1]);
            lemma_placeholder_prefix_ok(k - 1, replace_all(s.skip(n), pat, rep), rest);
        }
    }
}

proof fn lemma_ok_without_patterns(s: Seq<char>)
    requires
        template_ok(s, Seq::<Seq<char>>::empty()),
    ensures
        no_open_brace(s),
    decreases s.len(),
{
    if s.len() > 0 {
        lemma_ok_without_patterns(s.drop_first());
        assert forall|i: int| 0 <= i < s.len() implies s[i] != '{' by {
            if i > 0 {
                assert(s[i] == s.drop_first()[i - 1]);
            }
        }
    }
}

proof fn lemma_decimal_no_brace(n: nat)
    ensures
        no_open_brace(nat_to_decimal(n)),
    decreases n,
{
    if n >= 10 {
        lemma_decimal_no_brace(n / 10);
    }
}

proof fn lemma_numbers_no_brace(limit: i64)
    ensures
        no_open_brace(int_to_decimal(limit as int)),
        no_open_brace(length_example(limit)),
{
    reveal_strlit("about ");
    reveal_strlit(" words");
    let l = limit as int;
    lemma_decimal_no_brace(if l < 0 { (-l) as nat } else { l as nat });
    let q = crate::llm::prompt::quarter(l);
    lemma_decimal_no_brace(if q < 0 { (-q) as nat } else { q as nat });
    let d = int_to_decimal(q);
    assert(no_open_brace(d));
    assert(no_open_brace(length_example(limit))) by {
        let e = length_example(limit);
        assert forall|i: int| 0 <= i < e.len() implies e[i] != '{' by {
            if i < 6 {
                assert(e[i] == "about "@[i]);
            } else if i < 6 + d.len() {
                assert(e[i] == d[i - 6]);
            } else {
                assert(e[i] == " words"@[i - 6 - d.len()]);
            }
        }
    }
}

/// The placeholders are braced and none is a prefix of another.
proof fn lemma_placeholders_shape()
    ensures
        all_braced(placeholders()),
        prefix_free(placeholders()),
{
    reveal_strlit("{{char}}");
    reveal_strlit("{{user}}");
    reveal_strlit("{{response_length_limit}}");
    reveal_strlit("{{response_length_example}}");
    let ps = placeholders();
    assert forall|i: int, j: int|
        0 <= i < ps.len() && 0 <= j < ps.len() && i != j implies !(#[trigger] ps[i]).is_prefix_of(
            #[trigger] ps[j],
        ) by {
        if ps[i].is_prefix_of(ps[j]) {
            assert(ps[i][2] == ps[j][2]);
            assert(ps[i][18] == ps[j][18] || ps[i].len() <= 18);
            assert(ps[i][3] == ps[j][3]);
        }
    }
}

/// Resolving a text whose every `{` opens a known placeholder, with names that hold no
/// `{`, leaves no `{` and so no placeholder behind.
pub proof fn lemma_resolved_leaves_no_placeholder(
    text: Seq<char>,
    char_name: Seq<char>,
    user_name: Seq<char>,
    limit: i64,
)
    requires
        template_ok(text, placeholders()),
        no_open_brace(char_name),
        no_open_brace(user_name),
    ensures
        no_open_brace(resolved(text, char_name, user_name, limit)),
        forall|k: int|
            0 <= k < placeholders().len() ==> !contains(
                resolved(text, char_name, user_name, limit),
                #[trigger] placeholders()[k],
            ),
{
    lemma_placeholders_shape();
    lemma_numbers_no_brace(limit);
    let p0 = placeholders();
    let p1 = p0.drop_first();
    let p2 = p1.drop_first();
    let p3 = p2.drop_first();
    lemma_replace_first_ok(text, p0, char_name);
    let s1 = replace_all(text, "{{char}}"@, char_name);
    assert(p1[0] == "{{user}}"@);
    lemma_replace_first_ok(s1, p1, user_name);
    let s2 = replace_all(s1, "{{user}}"@, user_name);
    assert(p2[0] == "{{response_length_limit}}"@);
    lemma_replace_first_ok(s2, p2, int_to_decimal(limit as int));
    let s3 = replace_all(s2, "{{response_length_limit}}"@, int_to_decimal(limit as int));
    assert(p3[0] == "{{response_length_example}}"@);
    lemma_replace_first_ok(s3, p3, length_example(limit));
    assert(p3.drop_first() =~= Seq::<Seq<char>>::empty());
    let r = resolved(text, char_name, user_name, limit);
    lemma_ok_without_patterns(r);
    assert forall|k: int| 0 <= k < p0.len() implies !contains(r, #[trigger] p0[k]) by {
        assert(braced(p0[k]));
        if contains(r, p0[k]) {
            let i = choose|i: int| occurs_at(r, p0[k], i);
            assert(r.subrange(i, i + p0[k].len())[0] == r[i]);
        }
    }
}

/// Replacing a pattern that opens with `{` leaves a text without `{` as it is.
proof fn lemma_replace_absent(s: Seq<char>, pat: Seq<char>, rep: Seq<char>)
    requires
        pat.len() > 0,
        pat[0] == '{',
        no_open_brace(s),
    ensures
        replace_all(s, pat, rep) == s,
    decreases s.len(),
{
    if s.len() > 0 {
        assert(!occurs_at(s, pat, 0)) by {
            if occurs_at(s, pat, 0) {
                assert(s.subrange(0, pat.len() as int)[0] == s[0]);
            }
        }
        lemma_replace_absent(s.drop_first(), pat, rep);
        assert(seq![s[0]] + s.drop_first() =~= s);
    }
}

/// A text without `{` holds no placeholder, and resolving it gives it back unchanged.
pub proof fn lemma_resolved_keeps_plain_text(text: Seq<char>, char_name: Seq<char>, user_name: Seq<char>, limit: i64)
    requires
        no_open_brace(text),
    ensures
        resolved(text, char_name, user_name, limit) == text,
{
    lemma_placeholders_shape();
    let p0 = placeholders();
    assert(braced(p0[0]) && braced(p0[1]) && braced(p0[2]) && braced(p0[3]));
    lemma_replace_absent(text, "{{char}}"@, char_name);
    lemma_replace_absent(text, "{{user}}"@, user_name);
    lemma_replace_absent(text, "{{response_length_limit}}"@, int_to_decimal(limit as int));
    lemma_replace_absent(text, "{{response_length_example}}"@, length_example(limit));
}

proof fn lemma_concat_no_brace(a: Seq<char>, b: Seq<char>)
    requires
        no_open_brace(a),
        no_open_brace(b),
    ensures
        no_open_brace(a + b),
{
    assert forall|i: int| 0 <= i < (a + b).len() implies (a + b)[i] != '{' by {
        if i < a.len() {
            assert((a + b)[i] == a[i]);
        } else {
            assert((a + b)[i] == b[i - a.len()]);
        }
    }
}

proof fn lemma_join_no_brace(parts: Seq<Seq<char>>, sep: Seq<char>)
    requires
        no_open_brace(sep),
        forall|i: int| 0 <= i < parts.len() ==> no_open_brace(#[trigger] parts[i]),
    ensures
        no_open_brace(join(parts, sep)),
    decreases parts.len(),
{
    if parts.len() > 1 {
        let init = parts.drop_last();
        assert forall|i: int| 0 <= i < init.len() implies no_open_brace(#[trigger] init[i]) by {
            assert(init[i] == parts[i]);
        }
        lemma_join_no_brace(init, sep);
        lemma_concat_no_brace(join(init, sep), sep);
        assert(no_open_brace(parts[parts.len() - 1]));
        lemma_concat_no_brace(join(init, sep) + sep, parts.last());
    } else if parts.len() == 1 {
        assert(no_open_brace(parts[0]));
    }
}

proof fn lemma_labeled_no_brace(label: Seq<char>, value: Option<Seq<char>>)
    requires
        no_open_brace(label),
        value matches Some(v) ==> no_open_brace(v),
    ensures
        forall|i: int| 0 <= i < labeled(label, value).len() ==> no_open_brace(#[trigger] labeled(label, value)[i]),
{
    if let Some(v) = value {
        lemma_concat_no_brace(label, v);
        assert(labeled(label, value)[0] == label + v);
    }
}

proof fn lemma_field_no_brace(text: Seq<char>, char_name: Seq<char>, user_name: Seq<char>, limit: i64)
    requires
        template_ok(trim(text), placeholders()),
        no_open_brace(char_name),
        no_open_brace(user_name),
    ensures
        optional_resolved(text, char_name, user_name, limit) matches Some(v) ==> no_open_brace(v),
{
    if !is_blank(text) {
        lemma_resolved_leaves_no_placeholder(trim(text), char_name, user_name, limit);
    }
}

proof fn lemma_list_concat_no_brace(a: Seq<Seq<char>>, b: Seq<Seq<char>>)
    requires
        forall|i: int| 0 <= i < a.len() ==> no_open_brace(#[trigger] a[i]),
        forall|i: int| 0 <= i < b.len() ==> no_open_brace(#[trigger] b[i]),
    ensures
        forall|i: int| 0 <= i < (a + b).len() ==> no_open_brace(#[trigger] (a + b)[i]),
{
    assert forall|i: int| 0 <= i < (a + b).len() implies no_open_brace(#[trigger] (a + b)[i]) by {
        if i < a.len() {
            assert((a + b)[i] == a[i]);
        } else {
            assert((a + b)[i] == b[i - a.len()]);
        }
    }
}

/// The persona texts that the system block resolves: the selected template as it is,
/// and every optional field once trimmed, hold `{` only where a known placeholder
/// opens; the names hold none.
pub open spec fn persona_texts_ok(p: Persona, user_name: Seq<char>) -> bool {
    &&& no_open_brace(p.name@)
    &&& no_open_brace(user_name)
    &&& template_ok(template_text(p), placeholders())
    &&& template_ok(trim(p.appearance@), placeholders())
    &&& template_ok(trim(p.description@), placeholders())
    &&& template_ok(trim(p.personality@), placeholders())
    &&& template_ok(trim(p.speech_style@), placeholders())
    &&& template_ok(trim(p.scenario@), placeholders())
    &&& template_ok(trim(p.character_goals@), placeholders())
    &&& template_ok(trim(p.message_example@), placeholders())
}

/// The system block of a persona whose texts hold only known placeholders holds no
/// `{`, so no unresolved placeholder.
pub proof fn lemma_system_block_leaves_no_placeholder(p: Persona, user_name: Seq<char>)
    requires
        persona_texts_ok(p, user_name),
    ensures
        no_open_brace(system_block_text(p, user_name)),
{
    reveal_strlit("# Role\nYou are ");
    reveal_strlit(".");
    reveal_strlit("# Model Instructions\n");
    reveal_strlit("# Character\n");
    reveal_strlit("\n\n");
    reveal_strlit("Appearance:\n");
    reveal_strlit("Description:\n");
    reveal_strlit("Personality:\n");
    reveal_strlit("Speech Style:\n");
    reveal_strlit("# Scenario\n");
    reveal_strlit("# Character Goals\n");
    reveal_strlit("# Style Examples\nUse these as style references, not current conversation events.\n");
    reveal_strlit("# Response Contract\nKeep the response under ");
    reveal_strlit(" characters (about ");
    reveal_strlit(" words).");
    let name = p.name@;
    let limit = p.response_length_limit;
    lemma_numbers_no_brace(limit);
    let q = quarter(limit as int);
    lemma_decimal_no_brace(if q < 0 { (-q) as nat } else { q as nat });

    // # Role
    let role = "# Role\nYou are "@ + name + "."@;
    lemma_concat_no_brace("# Role\nYou are "@, name);
    lemma_concat_no_brace("# Role\nYou are "@ + name, "."@);
    let s1: Seq<Seq<char>> = seq![role];

    // # Model Instructions
    let s2: Seq<Seq<char>> = if is_blank(template_text(p)) {
        Seq::empty()
    } else {
        seq!["# Model Instructions\n"@ + resolved(template_text(p), name, user_name, limit)]
    };
    if !is_blank(template_text(p)) {
        lemma_resolved_leaves_no_placeholder(template_text(p), name, user_name, limit);
        lemma_concat_no_brace("# Model Instructions\n"@, resolved(template_text(p), name, user_name, limit));
    }

    // # Character
    lemma_field_no_brace(p.appearance@, name, user_name, limit);
    lemma_field_no_brace(p.description@, name, user_name, limit);
    lemma_field_no_brace(p.personality@, name, user_name, limit);
    lemma_field_no_brace(p.speech_style@, name, user_name, limit);
    lemma_field_no_brace(p.scenario@, name, user_name, limit);
    lemma_field_no_brace(p.character_goals@, name, user_name, limit);
    lemma_field_no_brace(p.message_example@, name, user_name, limit);
    let a = labeled("Appearance:\n"@, field_of(p, user_name, p.appearance@));
    let d = labeled("Description:\n"@, field_of(p, user_name, p.description@));
    let pe = labeled("Personality:\n"@, field_of(p, user_name, p.personality@));
    let sp = labeled("Speech Style:\n"@, field_of(p, user_name, p.speech_style@));
    lemma_labeled_no_brace("Appearance:\n"@, field_of(p, user_name, p.appearance@));
    lemma_labeled_no_brace("Description:\n"@, field_of(p, user_name, p.description@));
    lemma_labeled_no_brace("Personality:\n"@, field_of(p, user_name, p.personality@));
    lemma_labeled_no_brace("Speech Style:\n"@, field_of(p, user_name, p.speech_style@));
    lemma_list_concat_no_brace(a, d);
    lemma_list_concat_no_brace(a + d, pe);
    lemma_list_concat_no_brace(a + d + pe, sp);
    let parts = character_parts(p, user_name);
    assert(parts == a + d + pe + sp);
    let s3: Seq<Seq<char>> = if parts.len() > 0 {
        seq!["# Character\n"@ + join(parts, "\n\n"@)]
    } else {
        Seq::empty()
    };
    if parts.len() > 0 {
        lemma_join_no_brace(parts, "\n\n"@);
        lemma_concat_no_brace("# Character\n"@, join(parts, "\n\n"@));
    }

    // # Scenario, # Character Goals, # Style Examples
    let sc = labeled("# Scenario\n"@, field_of(p, user_name, p.scenario@));
    let cg = labeled("# Character Goals\n"@, field_of(p, user_name, p.character_goals@));
    let ex = labeled(style_examples_label(), field_of(p, user_name, p.message_example@));
    lemma_labeled_no_brace("# Scenario\n"@, field_of(p, user_name, p.scenario@));
    lemma_labeled_no_brace("# Character Goals\n"@, field_of(p, user_name, p.character_goals@));
    lemma_labeled_no_brace(style_examples_label(), field_of(p, user_name, p.message_example@));

    // # Response Contract
    let rc = response_contract(limit);
    let head = "# Response Contract\nKeep the response under "@ + int_to_decimal(limit as int);
    lemma_concat_no_brace("# Response Contract\nKeep the response under "@, int_to_decimal(limit as int));
    lemma_concat_no_brace(head, " characters (about "@);
    lemma_concat_no_brace(head + " characters (about "@, int_to_decimal(q));
    lemma_concat_no_brace(head + " characters (about "@ + int_to_decimal(q), " words)."@);
    let s7: Seq<Seq<char>> = seq![rc];

    lemma_list_concat_no_brace(s1, s2);
    lemma_list_concat_no_brace(s1 + s2, s3);
    lemma_list_concat_no_brace(s1 + s2 + s3, sc);
    lemma_list_concat_no_brace(s1 + s2 + s3 + sc, cg);
    lemma_list_concat_no_brace(s1 + s2 + s3 + sc + cg, ex);
    lemma_list_concat_no_brace(s1 + s2 + s3 + sc + cg + ex, s7);
    assert(system_sections(p, user_name) == s1 + s2 + s3 + sc + cg + ex + s7);
    lemma_join_no_brace(system_sections(p, user_name), "\n\n"@);
}

/// The blocks the library writes into a prompt leave no placeholder unresolved: the
/// system block, and the post-history instructions when they hold only known
/// placeholders.
pub proof fn lemma_prompt_leaves_no_placeholder(
    p: Persona,
    msgs: Seq<Message>,
    summary: Option<Seq<char>>,
    user_name: Seq<char>,
)
    requires
        persona_texts_ok(p, user_name),
        template_ok(p.post_history_instructions@, placeholders()),
    ensures
        no_open_brace(prompt_blocks(p, msgs, summary, user_name)[0].1),
        !is_blank(p.post_history_instructions@) ==> no_open_brace(
            prompt_blocks(p, msgs, summary, user_name).last().1,
        ),
{
    lemma_system_block_leaves_no_placeholder(p, user_name);
    crate::llm::prompt::lemma_prompt_frame(p, msgs, summary, user_name);
    lemma_resolved_leaves_no_placeholder(
        p.post_history_instructions@,
        p.name@,
        user_name,
        p.response_length_limit,
    );
}

} // verus!

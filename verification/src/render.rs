use vstd::prelude::*;

verus! {

#[verifier::external_type_specification]
#[verifier::external_body]
pub struct ExTera(tera::Tera);

#[verifier::external_type_specification]
#[verifier::external_body]
pub struct ExContext(tera::Context);

#[verifier::external_type_specification]
#[verifier::external_body]
pub struct ExTeraError(tera::Error);

/// The variables that a template context holds, each with its text.
pub uninterp spec fn context_entries(c: tera::Context) -> Map<Seq<char>, Seq<char>>;

/// `tera::Context::new`: a context that holds no variable.
#[verifier::external_body]
fn context_new() -> (ctx: tera::Context)
    ensures
        context_entries(ctx) =~= Map::empty(),
{
    tera::Context::new()
}

/// `tera::Context::insert` with a text value: the variable `key` now holds
/// `value`, and the others are unchanged (the source inserts into the context's
/// map; a `&str` always converts to a JSON string).
#[verifier::external_body]
fn context_insert(c: &mut tera::Context, key: &str, value: &str)
    ensures
        context_entries(*final(c)) == context_entries(*old(c)).insert(key@, value@),
{
    c.insert(key, value);
}

/// The names of the templates that a template engine holds.
pub uninterp spec fn tera_template_names(t: tera::Tera) -> Set<Seq<char>>;

/// Whether the engine holds a template of the given name: looks the name up
/// among the engine's templates (`Tera::templates`, the map that
/// `Tera::render` looks a template up in before it renders anything).
#[verifier::external_body]
fn tera_has_template(t: &tera::Tera, name: &str) -> (r: bool)
    ensures
        r == tera_template_names(*t).contains(name@),
{
    t.templates.contains_key(name)
}

/// The variables that a list of substitutions sets: each key to its value,
/// a later pair winning over an earlier one with the same key.
pub open spec fn substitution_map(pairs: Seq<(Seq<char>, Seq<char>)>) -> Map<Seq<char>, Seq<char>>
    decreases pairs.len(),
{
    if pairs.len() == 0 {
        Map::empty()
    } else {
        substitution_map(pairs.drop_last()).insert(pairs.last().0, pairs.last().1)
    }
}

/// A pair of the substitutions that no later pair overrides sets its key to
/// its value, whatever that value is.
pub proof fn lemma_last_pair_wins(pairs: Seq<(Seq<char>, Seq<char>)>, i: int)
    requires
        0 <= i < pairs.len(),
        forall|j: int| i < j < pairs.len() ==> (#[trigger] pairs[j]).0 != pairs[i].0,
    ensures
        substitution_map(pairs).contains_key(pairs[i].0),
        substitution_map(pairs)[pairs[i].0] == pairs[i].1,
    decreases pairs.len(),
{
    let n = pairs.len() as int;
    if i < n - 1 {
        let prev = pairs.drop_last();
        assert forall|j: int| i < j < prev.len() implies (#[trigger] prev[j]).0 != prev[i].0 by {
            assert(prev[j] == pairs[j]);
        }
        lemma_last_pair_wins(prev, i);
        assert(pairs[n - 1].0 != pairs[i].0);
    }
}

/// The substitutions set exactly the keys of their pairs.
pub proof fn lemma_substitution_keys(pairs: Seq<(Seq<char>, Seq<char>)>, k: Seq<char>)
    ensures
        substitution_map(pairs).contains_key(k) <==> exists|j: int| 0 <= j < pairs.len() && (#[trigger] pairs[j]).0 == k,
    decreases pairs.len(),
{
    if pairs.len() > 0 {
        let prev = pairs.drop_last();
        lemma_substitution_keys(prev, k);
        if exists|j: int| 0 <= j < prev.len() && (#[trigger] prev[j]).0 == k {
            let j = choose|j: int| 0 <= j < prev.len() && (#[trigger] prev[j]).0 == k;
            assert(pairs[j] == prev[j]);
        }
        if exists|j: int| 0 <= j < pairs.len() && (#[trigger] pairs[j]).0 == k {
            let j = choose|j: int| 0 <= j < pairs.len() && (#[trigger] pairs[j]).0 == k;
            if j < pairs.len() - 1 {
                assert(prev[j] == pairs[j]);
            }
        }
    }
}

pub open spec fn pairs_view(pairs: Seq<(&str, &str)>) -> Seq<(Seq<char>, Seq<char>)> {
    pairs.map_values(|p: (&str, &str)| (p.0@, p.1@))
}

/// The template context of a list of substitutions.
pub fn build_context(substitution: &Vec<(&str, &str)>) -> (c: tera::Context)
    ensures
        context_entries(c) == substitution_map(pairs_view(substitution@)),
{
    let mut context = context_new();
    let n = substitution.len();
    let ghost pv = pairs_view(substitution@);
    let mut i: usize = 0;
    assert(pv.take(0) =~= Seq::<(Seq<char>, Seq<char>)>::empty());
    while i < n
        invariant
            n == substitution@.len(),
            pv == pairs_view(substitution@),
            i <= n,
            context_entries(context) == substitution_map(pv.take(i as int)),
        decreases n - i,
    {
        let (key, value) = substitution[i];
        context_insert(&mut context, key, value);
        proof {
            assert(pv.take(i + 1).drop_last() =~= pv.take(i as int));
            assert(pv.take(i + 1).last() == (key@, value@));
        }
        i = i + 1;
    }
    assert(pv.take(n as int) =~= pv);
    context
}

/// What rendering a page comes to: the engine is asked to render the page
/// with the context, or, when it holds no template of that name, the page
/// file's own text is used.
pub enum RenderPlan {
    UseFile,
    Render(tera::Context),
}

/// Decides how a page is rendered: when the engine holds the template `page`,
/// it is rendered with the context of the substitutions; otherwise the page
/// file's text stands (rendering would fail with "template not found").
pub fn plan_render(tera: &tera::Tera, page: &str, substitution: &Vec<(&str, &str)>) -> (r: RenderPlan)
    ensures
        r is UseFile <==> !tera_template_names(*tera).contains(page@),
        r matches RenderPlan::Render(c) ==> context_entries(c) == substitution_map(pairs_view(substitution@)),
{
    if tera_has_template(tera, page) {
        RenderPlan::Render(build_context(substitution))
    } else {
        RenderPlan::UseFile
    }
}

/// The answer of a rendering: the rendered page, or, when rendering failed,
/// the page file's own text together with the error to report.
pub fn render_outcome(rendered: Result<String, tera::Error>, file_content: String) -> (r: (String, Option<tera::Error>))
    ensures
        match rendered {
            Ok(s) => r.0@ == s@ && r.1 is None,
            Err(e) => r.0@ == file_content@ && r.1 == Some(e),
        },
{
    match rendered {
        Ok(s) => (s, None),
        Err(e) => (file_content, Some(e)),
    }
}

} // verus!

use vstd::prelude::*;

use crate::model::{map_of, pair_views, Context, CtxValue, Scalar, ValueModel};
use crate::text::{comment_license, hyphens_to_underscores};

verus! {

/// The templates that an engine holds: each name with its source.
pub uninterp spec fn engine_templates(env: minijinja::Environment<'static>) -> Map<Seq<char>, Seq<char>>;

/// The names of the filters that an engine holds.
pub uninterp spec fn engine_filters(env: minijinja::Environment<'static>) -> Set<Seq<char>>;

/// Whether `source` compiles as a template under the engine's default
/// syntax, which this library never changes.
pub uninterp spec fn compiles(source: Seq<char>) -> bool;

/// The text of the template `name` of an engine that holds `templates` and
/// this library's two filters, rendered against the context `ctx`; `None`
/// where the engine has no such template or rendering fails. The engine's
/// defaults are fixed, and the filters and the conversion of the context
/// are functions of their inputs, so this depends on the arguments alone.
pub uninterp spec fn rendered(
    templates: Map<Seq<char>, Seq<char>>,
    name: Seq<char>,
    ctx: Seq<(Seq<char>, ValueModel)>,
) -> Option<Seq<char>>;

/// The two filters that the templates use.
pub open spec fn has_library_filters(filters: Set<Seq<char>>) -> bool {
    filters.contains("comment_license"@) && filters.contains("hypens_to_underscores"@)
}

/// Relies on `minijinja::Environment::new`: an engine with the default
/// filters, tests and globals and no template.
#[verifier::external_body]
fn engine_new() -> (r: minijinja::Environment<'static>)
    ensures
        forall|k: Seq<char>| !engine_templates(r).dom().contains(k),
{
    minijinja::Environment::new()
}

/// Relies on `minijinja::Environment::add_filter`: registers the two filters
/// of the templates, `comment_license` and `hypens_to_underscores`, each a
/// call of the verified function of that name. The templates stay as they
/// are.
#[verifier::external_body]
fn engine_add_filters(env: &mut minijinja::Environment<'static>)
    ensures
        engine_templates(*final(env)) == engine_templates(*old(env)),
        engine_filters(*final(env)) == engine_filters(*old(env)).insert("comment_license"@).insert(
            "hypens_to_underscores"@,
        ),
{
    env.add_filter("comment_license", |text: String, marker: String| comment_license(&text, &marker));
    env.add_filter("hypens_to_underscores", |name: String| hyphens_to_underscores(&name));
}

/// Relies on `minijinja::Environment::add_template_owned`: compiles
/// `source` and holds it as the template `name`, in place of any template of
/// that name; fails, with the engine's message, where the source has a
/// syntax error. The filters stay as they are.
#[verifier::external_body]
fn engine_add_template(env: &mut minijinja::Environment<'static>, name: String, source: String) -> (r: Result<(), String>)
    ensures
        r is Ok <==> compiles(source@),
        r is Ok ==> engine_templates(*final(env)) == engine_templates(*old(env)).insert(name@, source@),
        engine_filters(*final(env)) == engine_filters(*old(env)),
{
    env.add_template_owned(name, source).map_err(|e| e.to_string())
}

/// Relies on `minijinja::Environment::get_template` (without a loader it
/// finds exactly the templates held) and `minijinja::Template::render`: the
/// template `name` rendered against the context, whose entries are handed
/// to the engine as a map built by the verified `ctx_value`; fails, with the
/// engine's message, where there is no such template or rendering fails.
#[verifier::external_body]
fn render_one(env: &minijinja::Environment<'static>, name: &str, ctx: &Context) -> (r: Result<String, String>)
    requires
        has_library_filters(engine_filters(*env)),
    ensures
        r is Ok <==> rendered(engine_templates(*env), name@, ctx@) is Some,
        r matches Ok(t) ==> rendered(engine_templates(*env), name@, ctx@) == Some(t@),
        !engine_templates(*env).dom().contains(name@) ==> r is Err,
{
    let value = minijinja::Value::from_iter(ctx.entries.iter().map(|e| (e.0.clone(), ctx_value(&e.1))));
    env.get_template(name).and_then(|t| t.render(value)).map_err(|e| e.to_string())
}

/// Relies on `minijinja::Value: From<String>`: a string value.
#[verifier::external_body]
fn value_text(s: String) -> (r: minijinja::Value) {
    minijinja::Value::from(s)
}

/// Relies on `minijinja::Value: From<()>`: the none value.
#[verifier::external_body]
fn value_none() -> (r: minijinja::Value) {
    minijinja::Value::from(())
}

/// Relies on `minijinja::Value: FromIterator<Value>`: a sequence value.
#[verifier::external_body]
fn value_list(items: Vec<minijinja::Value>) -> (r: minijinja::Value) {
    minijinja::Value::from_iter(items)
}

/// Relies on `minijinja::Value: FromIterator<(String, Value)>`: a map value.
#[verifier::external_body]
fn value_map(entries: Vec<(String, minijinja::Value)>) -> (r: minijinja::Value) {
    minijinja::Value::from_iter(entries)
}

/// The engine value of a scalar.
fn scalar_value(s: &Scalar) -> minijinja::Value {
    match s {
        Scalar::Text(t) => value_text(t.clone()),
        Scalar::Lines(ls) => {
            let mut items: Vec<minijinja::Value> = Vec::new();
            let mut i: usize = 0;
            while i < ls.len()
                decreases ls.len() - i,
            {
                items.push(value_text(ls[i].clone()));
                i = i + 1;
            }
            value_list(items)
        },
        Scalar::Nothing => value_none(),
    }
}

/// The engine value of a context value.
pub fn ctx_value(v: &CtxValue) -> minijinja::Value {
    match v {
        CtxValue::Plain(s) => scalar_value(s),
        CtxValue::Record(fields) => {
            let mut entries: Vec<(String, minijinja::Value)> = Vec::new();
            let mut i: usize = 0;
            while i < fields.len()
                decreases fields.len() - i,
            {
                entries.push((fields[i].0.clone(), scalar_value(&fields[i].1)));
                i = i + 1;
            }
            value_map(entries)
        },
    }
}

/// Every source of `ts` compiles.
pub open spec fn all_compile(ts: Seq<(Seq<char>, Seq<char>)>) -> bool {
    forall|t: int| 0 <= t < ts.len() ==> compiles(#[trigger] ts[t].1)
}

/// Every file of `fs` renders with the templates `ts` against `ctx`.
pub open spec fn all_render(
    ts: Seq<(Seq<char>, Seq<char>)>,
    fs: Seq<(Seq<char>, Seq<char>)>,
    ctx: Seq<(Seq<char>, ValueModel)>,
) -> bool {
    forall|i: int| 0 <= i < fs.len() ==> (rendered(map_of(ts), #[trigger] fs[i].1, ctx) is Some)
}

/// An engine with the two filters of the templates and every `(name,
/// source)` pair of `templates` compiled, a later pair in place of an
/// earlier one of the same name. Fails with the engine's message where a
/// source does not compile.
pub fn build_environment(templates: &Vec<(String, String)>) -> (r: Result<minijinja::Environment<'static>, String>)
    ensures
        r is Ok <==> all_compile(pair_views(templates@)),
        r matches Ok(env) ==> engine_templates(env) == map_of(pair_views(templates@))
            && has_library_filters(engine_filters(env)),
{
    let ghost ts = pair_views(templates@);
    let mut env = engine_new();
    engine_add_filters(&mut env);
    let mut t: usize = 0;
    proof {
        assert(engine_templates(env) =~= map_of(ts.take(0)));
    }
    while t < templates.len()
        invariant
            t <= templates.len(),
            ts == pair_views(templates@),
            engine_templates(env) == map_of(ts.take(t as int)),
            has_library_filters(engine_filters(env)),
            forall|j: int| 0 <= j < t ==> compiles(#[trigger] ts[j].1),
        decreases templates.len() - t,
    {
        let added = engine_add_template(&mut env, templates[t].0.clone(), templates[t].1.clone());
        if added.is_err() {
            proof {
                assert(!compiles(ts[t as int].1));
            }
            return Err(added.unwrap_err());
        }
        proof {
            assert(ts.take(t + 1).drop_last() =~= ts.take(t as int));
        }
        t = t + 1;
    }
    proof {
        assert(ts.take(t as int) =~= ts);
    }
    Ok(env)
}

/// Renders each file against the context, in the order of `files`: the
/// path of each with the text that its template produced. The templates are
/// the `(name, source)` pairs of `templates`. Fails with the engine's
/// message where a template does not compile, is missing, or fails to
/// render.
pub fn render_files(
    templates: &Vec<(String, String)>,
    files: &Vec<(String, String)>,
    ctx: &Context,
) -> (r: Result<Vec<(String, String)>, String>)
    ensures
        r is Ok <==> all_compile(pair_views(templates@)) && all_render(
            pair_views(templates@),
            pair_views(files@),
            ctx@,
        ),
        r matches Ok(out) ==> out.len() == files.len() && forall|i: int|
            0 <= i < files.len() ==> #[trigger] out[i].0@ == files[i].0@ && rendered(
                map_of(pair_views(templates@)),
                files[i].1@,
                ctx@,
            ) == Some(out[i].1@),
        (exists|i: int|
            0 <= i < files.len() && !map_of(pair_views(templates@)).dom().contains(
                #[trigger] files[i].1@,
            )) ==> r is Err,
{
    let ghost ts = pair_views(templates@);
    let ghost fs = pair_views(files@);
    let env = match build_environment(templates) {
        Ok(env) => env,
        Err(message) => {
            return Err(message);
        },
    };
    let mut out: Vec<(String, String)> = Vec::new();
    let mut i: usize = 0;
    while i < files.len()
        invariant
            i <= files.len(),
            ts == pair_views(templates@),
            fs == pair_views(files@),
            all_compile(ts),
            engine_templates(env) == map_of(ts),
            has_library_filters(engine_filters(env)),
            out.len() == i,
            forall|j: int|
                0 <= j < i ==> #[trigger] out[j].0@ == files[j].0@ && rendered(
                    map_of(ts),
                    files[j].1@,
                    ctx@,
                ) == Some(out[j].1@),
            forall|j: int| 0 <= j < i ==> map_of(ts).dom().contains(#[trigger] files[j].1@),
        decreases files.len() - i,
    {
        let text = render_one(&env, files[i].1.as_str(), ctx);
        match text {
            Ok(text) => {
                let ghost before = out@;
                out.push((files[i].0.clone(), text));
                proof {
                    assert forall|j: int| 0 <= j < i + 1 implies #[trigger] out[j].0@ == files[j].0@
                        && rendered(map_of(ts), files[j].1@, ctx@) == Some(out[j].1@) by {
                        if j < i {
                            assert(out[j] == before[j]);
                        }
                    }
                }
            },
            Err(message) => {
                proof {
                    assert(fs[i as int].1 == files[i as int].1@);
                    assert(!(rendered(map_of(ts), fs[i as int].1, ctx@) is Some));
                }
                return Err(message);
            },
        }
        i = i + 1;
    }
    proof {
        assert forall|j: int| 0 <= j < fs.len() implies (rendered(map_of(ts), #[trigger] fs[j].1, ctx@) is Some) by {
            assert(fs[j].1 == files[j].1@);
            assert(out[j].0@ == files[j].0@);
        }
    }
    Ok(out)
}

} // verus!

//! Rendering templates through the `tera` engine, behind trusted wrappers.
//!
//! Every engine this library builds is a *standard engine*: a fresh `tera`
//! instance whose filter table is extended with the four case-conversion
//! filters and whose time, randomness and environment functions are
//! replaced by failing ones, and every template handed to it lies within
//! the supported subset of `crate::template_syntax` — name interpolations
//! with case filters, nothing else.  Under those two conditions rendering
//! is a pure, total function of the template text and the context: the
//! engine only looks names up in the context and applies this library's
//! verified filters, so the panic and non-termination paths of its full
//! language (unchecked modulo and float arithmetic, self-recursive macros,
//! panicking builtin filters) are out of reach.  The body template is
//! rendered on an engine that holds it by name; each path template is
//! rendered as a one-off on a fresh engine with the same context.

use std::collections::HashMap;
use vstd::prelude::*;

use crate::template_syntax::supported_template;
use crate::text::views_of;

verus! {

#[verifier::external_type_specification]
#[verifier::external_body]
pub struct ExTera(tera::Tera);

#[verifier::external_type_specification]
#[verifier::external_body]
pub struct ExContext(tera::Context);

#[verifier::external_type_specification]
#[verifier::external_body]
pub struct ExTeraError(tera::Error);

/// A map of strings with no entries.
pub open spec fn empty_str_map() -> Map<Seq<char>, Seq<char>> {
    Map::empty()
}

/// The templates an engine holds, as a map from template name to source
/// text.
pub uninterp spec fn tera_templates(t: tera::Tera) -> Map<Seq<char>, Seq<char>>;

/// Whether the engine carries this library's standard configuration: the
/// built-in filters plus the four case filters, with the `date` filter and
/// the `range`, `now`, `get_random` and `get_env` functions replaced by
/// failing ones.
pub uninterp spec fn standard_engine(t: tera::Tera) -> bool;

/// The entries of a render context, as a map from name to string value.
/// Every context this library builds holds string values only.
pub uninterp spec fn ctx_entries(c: tera::Context) -> Map<Seq<char>, Seq<char>>;

/// Whether registering `text` under `name` succeeds on an engine that holds
/// `templates`: the text must parse and any inheritance it declares must
/// resolve.
pub uninterp spec fn tera_add_ok(
    templates: Map<Seq<char>, Seq<char>>,
    name: Seq<char>,
    text: Seq<char>,
) -> bool;

/// What rendering the template registered under `name` produces on a
/// standard engine holding `templates`, in the context `ctx`: the output
/// text, or `None` when rendering fails.
pub uninterp spec fn tera_rendered(
    templates: Map<Seq<char>, Seq<char>>,
    name: Seq<char>,
    ctx: Map<Seq<char>, Seq<char>>,
) -> Option<Seq<char>>;

/// What rendering `input` as a one-off template on a fresh standard engine
/// produces in the context `ctx`: the output text, or `None` when the input
/// does not parse or fails to render.
pub uninterp spec fn tera_str_rendered(input: Seq<char>, ctx: Map<Seq<char>, Seq<char>>) -> Option<
    Seq<char>,
>;

/// The message an engine error displays: the content model of
/// `tera::Error`.
pub uninterp spec fn tera_error_message(e: tera::Error) -> Seq<char>;

/// The message of the error reported when registering `text` under `name`
/// fails on an engine holding `templates`: a function of those three alone.
pub uninterp spec fn tera_add_err_of(
    templates: Map<Seq<char>, Seq<char>>,
    name: Seq<char>,
    text: Seq<char>,
) -> Seq<char>;

/// The message of the error reported when rendering the template under
/// `name` fails on a standard engine holding `templates` in context `ctx`.
pub uninterp spec fn tera_render_err_of(
    templates: Map<Seq<char>, Seq<char>>,
    name: Seq<char>,
    ctx: Map<Seq<char>, Seq<char>>,
) -> Seq<char>;

/// The message of the error reported when rendering `input` as a one-off
/// template on a fresh standard engine fails in context `ctx`.
pub uninterp spec fn tera_str_err_of(input: Seq<char>, ctx: Map<Seq<char>, Seq<char>>) -> Seq<char>;

/// Relies on `tera::Error::msg`: an error value carrying the message.
#[verifier::external_body]
fn engine_error(msg: &str) -> tera::Error {
    tera::Error::msg(msg)
}

/// The replacement for the engine's time, randomness and environment
/// functions: it always fails, so rendering depends on the supplied strings
/// alone.
pub(crate) fn unavailable_function(_args: &HashMap<String, tera::Value>) -> (r: Result<
    tera::Value,
    tera::Error,
>)
    ensures
        r is Err,
{
    Err(engine_error("this function is not available"))
}

/// The replacement for the engine's `date` filter, whose builtin can panic
/// on out-of-range timestamps: it always fails, so rendering never panics.
pub(crate) fn unavailable_filter(
    _v: &tera::Value,
    _args: &HashMap<String, tera::Value>,
) -> (r: Result<tera::Value, tera::Error>)
    ensures
        r is Err,
{
    Err(engine_error("this filter is not available"))
}

/// Relies on `tera::Tera::default`, `Tera::register_function` and
/// `Tera::register_filter`: builds the library's standard engine, with no
/// templates and the four case filters added.  The `now`, `get_random` and
/// `get_env` functions are replaced by failing ones so rendering reads no
/// clock, randomness or environment; `range` and the `date` filter are
/// replaced too (the builtins can loop forever or panic).  The supported
/// template subset cannot call functions or builtin filters at all, so the
/// replacements are defence in depth.
#[verifier::external_body]
fn standard_engine_new() -> (r: tera::Tera)
    ensures
        tera_templates(r) == empty_str_map(),
        standard_engine(r),
{
    let mut t = tera::Tera::default();
    t.register_function("now", unavailable_function);
    t.register_function("get_random", unavailable_function);
    t.register_function("get_env", unavailable_function);
    t.register_function("range", unavailable_function);
    t.register_filter("date", unavailable_filter);
    t.register_filter("kebab", crate::filters::kebab_filter_fn);
    t.register_filter("pascal", crate::filters::pascal_filter_fn);
    t.register_filter("camel", crate::filters::camel_filter_fn);
    t.register_filter("snake", crate::filters::snake_filter_fn);
    t
}

/// Relies on `tera::Tera::add_raw_template`: success, and the error
/// reported on failure, depend on the text and the templates already held;
/// on success the text is registered under the name; the filter and
/// function tables are untouched.  Registration of a supported-subset
/// template parses a flat token stream, so the call returns.
#[verifier::external_body]
fn tera_add_template(t: &mut tera::Tera, name: &str, text: &str) -> (r: Result<(), tera::Error>)
    requires
        supported_template(text@),
    ensures
        r is Ok <==> tera_add_ok(tera_templates(*old(t)), name@, text@),
        r is Ok ==> tera_templates(*final(t)) == tera_templates(*old(t)).insert(name@, text@),
        r matches Err(e) ==> tera_error_message(e) == tera_add_err_of(
            tera_templates(*old(t)),
            name@,
            text@,
        ),
        standard_engine(*old(t)) ==> standard_engine(*final(t)),
{
    t.add_raw_template(name, text)
}

/// Relies on `tera::Context::new`: a context with no entries.
#[verifier::external_body]
pub(crate) fn context_new() -> (r: tera::Context)
    ensures
        ctx_entries(r) == empty_str_map(),
{
    tera::Context::new()
}

/// Relies on `tera::Context::insert` with a string value: the entry is
/// added, replacing any previous binding of the name.
#[verifier::external_body]
pub(crate) fn context_insert(c: &mut tera::Context, key: &str, value: &str)
    ensures
        ctx_entries(*final(c)) == ctx_entries(*old(c)).insert(key@, value@),
{
    c.insert(key, value);
}

/// Relies on `tera::Tera::render`: on a standard engine that holds only
/// supported-subset templates the call returns — evaluation is name lookup
/// plus this library's filters — and the outcome, output or error, is a
/// function of the templates held, the name looked up and the context.
#[verifier::external_body]
fn tera_render(t: &tera::Tera, name: &str, ctx: &tera::Context) -> (r: Result<String, tera::Error>)
    requires
        standard_engine(*t),
        forall|n: Seq<char>|
            #[trigger] tera_templates(*t).dom().contains(n) ==> supported_template(
                tera_templates(*t)[n],
            ),
    ensures
        match r {
            Result::Ok(s) => tera_rendered(tera_templates(*t), name@, ctx_entries(*ctx))
                == Option::Some(s@),
            Result::Err(e) => tera_rendered(tera_templates(*t), name@, ctx_entries(*ctx)) is None
                && tera_error_message(e) == tera_render_err_of(
                tera_templates(*t),
                name@,
                ctx_entries(*ctx),
            ),
        },
{
    t.render(name, ctx)
}

/// Relies on `tera::Tera::render_str`: on a fresh standard engine a
/// supported-subset input renders to completion, and the outcome — output
/// or error — is a function of the input text and the context.
#[verifier::external_body]
fn tera_render_str(t: &mut tera::Tera, input: &str, ctx: &tera::Context) -> (r: Result<
    String,
    tera::Error,
>)
    requires
        standard_engine(*old(t)),
        tera_templates(*old(t)) == empty_str_map(),
        supported_template(input@),
    ensures
        match r {
            Result::Ok(s) => tera_str_rendered(input@, ctx_entries(*ctx)) == Option::Some(s@),
            Result::Err(e) => tera_str_rendered(input@, ctx_entries(*ctx)) is None
                && tera_error_message(e) == tera_str_err_of(input@, ctx_entries(*ctx)),
        },
{
    t.render_str(input, ctx)
}

/// Relies on the `Display` implementation of `tera::Error` for the engine's
/// message.
#[verifier::external_body]
pub(crate) fn tera_error_text(e: &tera::Error) -> (r: String)
    ensures
        r@ == tera_error_message(*e),
{
    e.to_string()
}

/// Builds a standard engine holding `text` under `name`, ready to render.
/// Fails when the text does not register.
pub(crate) fn engine_with_template(name: &str, text: &str) -> (r: Result<tera::Tera, tera::Error>)
    requires
        supported_template(text@),
    ensures
        r matches Ok(t) ==> tera_add_ok(empty_str_map(), name@, text@) && standard_engine(t)
            && tera_templates(t) == empty_str_map().insert(name@, text@),
        r matches Err(e) ==> !tera_add_ok(empty_str_map(), name@, text@) && tera_error_message(e)
            == tera_add_err_of(empty_str_map(), name@, text@),
{
    let mut t = standard_engine_new();
    match tera_add_template(&mut t, name, text) {
        Result::Ok(()) => Ok(t),
        Result::Err(e) => Err(e),
    }
}

/// Renders the template registered under `name` on the engine.
pub(crate) fn render_registered(t: &tera::Tera, name: &str, ctx: &tera::Context) -> (r: Result<
    String,
    tera::Error,
>)
    requires
        standard_engine(*t),
        forall|n: Seq<char>|
            #[trigger] tera_templates(*t).dom().contains(n) ==> supported_template(
                tera_templates(*t)[n],
            ),
    ensures
        match r {
            Result::Ok(s) => tera_rendered(tera_templates(*t), name@, ctx_entries(*ctx))
                == Option::Some(s@),
            Result::Err(e) => tera_rendered(tera_templates(*t), name@, ctx_entries(*ctx)) is None
                && tera_error_message(e) == tera_render_err_of(
                tera_templates(*t),
                name@,
                ctx_entries(*ctx),
            ),
        },
{
    tera_render(t, name, ctx)
}

/// Renders one path template as a one-off on a fresh standard engine.
fn render_one_path(path: &str, ctx: &tera::Context) -> (r: Result<String, tera::Error>)
    requires
        supported_template(path@),
    ensures
        match r {
            Result::Ok(s) => tera_str_rendered(path@, ctx_entries(*ctx)) == Option::Some(s@),
            Result::Err(e) => tera_str_rendered(path@, ctx_entries(*ctx)) is None
                && tera_error_message(e) == tera_str_err_of(path@, ctx_entries(*ctx)),
        },
{
    let mut t = standard_engine_new();
    tera_render_str(&mut t, path, ctx)
}

/// What rendering a list of path templates in context `ctx` produces: every
/// output in order, or `None` as soon as any of them fails.
pub open spec fn rendered_paths(paths: Seq<Seq<char>>, ctx: Map<Seq<char>, Seq<char>>) -> Option<
    Seq<Seq<char>>,
>
    decreases paths.len(),
{
    if paths.len() == 0 {
        Option::Some(Seq::<Seq<char>>::empty())
    } else {
        match (rendered_paths(paths.drop_last(), ctx), tera_str_rendered(paths.last(), ctx)) {
            (Option::Some(rs), Option::Some(r)) => Option::Some(rs.push(r)),
            _ => Option::None,
        }
    }
}

/// Rendering the path list is a one-to-one mapping: when it succeeds there
/// is exactly one output per template, in the same order — no entry is
/// dropped or added.
pub proof fn lemma_rendered_paths_len(
    paths: Seq<Seq<char>>,
    ctx: Map<Seq<char>, Seq<char>>,
    r: Seq<Seq<char>>,
)
    requires
        rendered_paths(paths, ctx) == Option::Some(r),
    ensures
        r.len() == paths.len(),
        forall|i: int|
            0 <= i < paths.len() ==> Option::Some(#[trigger] r[i]) == tera_str_rendered(
                paths[i],
                ctx,
            ),
    decreases paths.len(),
{
    if paths.len() > 0 {
        let rest = rendered_paths(paths.drop_last(), ctx)->0;
        lemma_rendered_paths_len(paths.drop_last(), ctx, rest);
        assert forall|i: int| 0 <= i < paths.len() implies Option::Some(#[trigger] r[i])
            == tera_str_rendered(paths[i], ctx) by {
            if i < paths.len() - 1 {
                assert(paths.drop_last()[i] == paths[i]);
                assert(r[i] == rest[i]);
            }
        }
    }
}

/// The message of the first path template that fails to render, in list
/// order.  Meaningful only when some path fails.
pub open spec fn first_path_error(paths: Seq<Seq<char>>, ctx: Map<Seq<char>, Seq<char>>) -> Seq<
    char,
>
    decreases paths.len(),
{
    if paths.len() == 0 {
        Seq::<char>::empty()
    } else if tera_str_rendered(paths.first(), ctx) is None {
        tera_str_err_of(paths.first(), ctx)
    } else {
        first_path_error(paths.drop_first(), ctx)
    }
}

/// When every path before `i` renders and `i` does not, the first failure
/// is at `i`.
proof fn lemma_first_path_error_at(paths: Seq<Seq<char>>, ctx: Map<Seq<char>, Seq<char>>, i: int)
    requires
        0 <= i < paths.len(),
        forall|j: int| 0 <= j < i ==> tera_str_rendered(#[trigger] paths[j], ctx) is Some,
        tera_str_rendered(paths[i], ctx) is None,
    ensures
        first_path_error(paths, ctx) == tera_str_err_of(paths[i], ctx),
    decreases i,
{
    if i > 0 {
        assert(tera_str_rendered(paths.first(), ctx) is Some);
        assert forall|j: int| 0 <= j < i - 1 implies tera_str_rendered(
            #[trigger] paths.drop_first()[j],
            ctx,
        ) is Some by {
            assert(paths.drop_first()[j] == paths[j + 1]);
        }
        assert(paths.drop_first()[i - 1] == paths[i]);
        lemma_first_path_error_at(paths.drop_first(), ctx, i - 1);
    }
}

/// One failing path template makes the whole list fail.
proof fn lemma_rendered_paths_fails(paths: Seq<Seq<char>>, ctx: Map<Seq<char>, Seq<char>>, i: int)
    requires
        0 <= i < paths.len(),
        tera_str_rendered(paths[i], ctx) is None,
    ensures
        rendered_paths(paths, ctx) is None,
    decreases paths.len(),
{
    if i < paths.len() - 1 {
        assert(paths.drop_last()[i] == paths[i]);
        lemma_rendered_paths_fails(paths.drop_last(), ctx, i);
    }
}

/// Renders every path template with the same context, in order.  Fails as
/// soon as any template fails, returning that engine error.
pub(crate) fn render_strings(paths: &Vec<String>, context: &tera::Context) -> (r: Result<
    Vec<String>,
    tera::Error,
>)
    requires
        forall|i: int|
            0 <= i < paths@.len() ==> supported_template(#[trigger] views_of(paths@)[i]),
    ensures
        match r {
            Result::Ok(v) => rendered_paths(views_of(paths@), ctx_entries(*context))
                == Option::Some(views_of(v@)),
            Result::Err(e) => rendered_paths(views_of(paths@), ctx_entries(*context)) is None
                && tera_error_message(e) == first_path_error(
                views_of(paths@),
                ctx_entries(*context),
            ),
        },
{
    let ghost all = views_of(paths@);
    let ghost cm = ctx_entries(*context);
    let mut out: Vec<String> = Vec::new();
    let mut i: usize = 0;
    proof {
        assert(all.take(0) =~= Seq::<Seq<char>>::empty());
        assert(views_of(out@) =~= Seq::<Seq<char>>::empty());
    }
    while i < paths.len()
        invariant
            i <= paths.len(),
            all == views_of(paths@),
            cm == ctx_entries(*context),
            forall|j: int| 0 <= j < all.len() ==> supported_template(#[trigger] all[j]),
            rendered_paths(all.take(i as int), cm) == Option::Some(views_of(out@)),
        decreases paths.len() - i,
    {
        proof {
            assert(all[i as int] == paths@[i as int]@);
        }
        match render_one_path(paths[i].as_str(), context) {
            Result::Ok(s) => {
                let ghost before = out@;
                out.push(s);
                proof {
                    assert(all.take(i + 1).drop_last() =~= all.take(i as int));
                    assert(all.take(i + 1).last() == paths@[i as int]@);
                    assert(views_of(out@) =~= views_of(before).push(s@));
                }
            },
            Result::Err(e) => {
                proof {
                    assert(all[i as int] == paths@[i as int]@);
                    lemma_rendered_paths_fails(all, cm, i as int);
                    lemma_rendered_paths_len(all.take(i as int), cm, views_of(out@));
                    assert forall|j: int| 0 <= j < i implies tera_str_rendered(
                        #[trigger] all[j],
                        cm,
                    ) is Some by {
                        assert(Option::Some(views_of(out@)[j]) == tera_str_rendered(
                            all.take(i as int)[j],
                            cm,
                        ));
                        assert(all.take(i as int)[j] == all[j]);
                    }
                    lemma_first_path_error_at(all, cm, i as int);
                }
                return Err(e);
            },
        }
        i = i + 1;
    }
    proof {
        assert(all.take(paths@.len() as int) =~= all);
    }
    Ok(out)
}

} // verus!

//! The command template: the declared argument names, path templates and
//! body decoded from a markdown document, and the binding of caller-supplied
//! positional values into a rendered command descriptor.

use vstd::prelude::*;

use crate::aider_command::{AiderCommand, CommandDescriptorView};
use crate::errors::TemplateError;
use crate::frontmatter::{decode, kept_strings, yaml_error_of, yaml_key_items, yaml_parses};
use crate::markdown_doc::{split_doc, MarkdownDoc};
use crate::render::{
    ctx_entries, empty_str_map, engine_with_template, first_path_error, lemma_rendered_paths_len,
    render_registered, render_strings, rendered_paths, tera_add_err_of, tera_add_ok,
    tera_error_text, tera_render_err_of, tera_rendered, tera_str_rendered,
};
use crate::render;
use crate::template_syntax::{
    supported_template, template_supported, unsupported_template_message,
    unsupported_template_text,
};
use crate::text::{all_blank, views_of};

verus! {

/// A parsed command template: the ordered argument names, the body and path
/// templates, and the identity the body is registered under.
#[derive(Debug)]
pub struct CommandTemplate {
    argument_names: Vec<String>,
    template_body: String,
    template_name: String,
    /// File paths which will be passed as read-only (using `--read`)
    read_only: Vec<String>,
    /// File paths to be edited (passed using `--file`)
    edit: Vec<String>,
}

/// The mathematical content of a [`CommandTemplate`].
pub struct TemplateSpecView {
    pub argument_names: Seq<Seq<char>>,
    pub template_body: Seq<char>,
    pub template_name: Seq<char>,
    pub read_only: Seq<Seq<char>>,
    pub edit: Seq<Seq<char>>,
}

impl View for CommandTemplate {
    type V = TemplateSpecView;

    closed spec fn view(&self) -> TemplateSpecView {
        TemplateSpecView {
            argument_names: views_of(self.argument_names@),
            template_body: self.template_body@,
            template_name: self.template_name@,
            read_only: views_of(self.read_only@),
            edit: views_of(self.edit@),
        }
    }
}

/// What parsing the document `s` under the identity `name` must yield: the
/// body and identity carried over, and the three lists decoded from the
/// frontmatter — all empty when it is blank.
pub open spec fn parsed_template(t: TemplateSpecView, s: Seq<char>, name: Seq<char>) -> bool {
    let fm = split_doc(s).0;
    &&& t.template_body == split_doc(s).1
    &&& t.template_name == name
    &&& if all_blank(fm) {
        t.argument_names == Seq::<Seq<char>>::empty() && t.read_only == Seq::<Seq<char>>::empty()
            && t.edit == Seq::<Seq<char>>::empty()
    } else {
        t.argument_names == kept_strings(yaml_key_items(fm, "args"@)) && t.read_only
            == kept_strings(yaml_key_items(fm, "read"@)) && t.edit == kept_strings(
            yaml_key_items(fm, "edit"@),
        )
    }
}

/// The context that binds the first `n` declared names to the values in the
/// same positions, later bindings of a repeated name replacing earlier ones.
pub open spec fn bindings(names: Seq<Seq<char>>, vals: Seq<Seq<char>>, n: int) -> Map<
    Seq<char>,
    Seq<char>,
>
    decreases n,
{
    if n <= 0 {
        Map::<Seq<char>, Seq<char>>::empty()
    } else {
        bindings(names, vals, n - 1).insert(names[n - 1], vals[n - 1])
    }
}

/// What applying positional values to a template spec yields.
pub enum RenderOutcome {
    /// Too few values: carries the first declared name with no value.
    MissingArgument(Seq<char>),
    /// The body or a path template failed to register or render: carries
    /// the engine's message for the first failure.
    RenderFailure(Seq<char>),
    /// Every render succeeded: carries the full descriptor.
    Rendered(CommandDescriptorView),
}

/// Every template of the list lies within the supported subset.
pub open spec fn all_templates_supported(paths: Seq<Seq<char>>) -> bool {
    forall|i: int| 0 <= i < paths.len() ==> supported_template(#[trigger] paths[i])
}

/// The body and every path template of the spec lie within the supported
/// subset.
pub open spec fn spec_templates_supported(t: TemplateSpecView) -> bool {
    supported_template(t.template_body) && all_templates_supported(t.read_only)
        && all_templates_supported(t.edit)
}

/// The outcome of applying `vals` to the template spec `t`: with fewer
/// values than declared names, the first unbound name; a template outside
/// the supported subset is refused; otherwise the body is rendered under
/// `t`'s identity and every path template as a one-off, all in the context
/// that binds the declared names to the values in the same positions —
/// values beyond the declared names are ignored.  A failure carries the
/// engine's message for the first failing step: registration, the body,
/// the read-only paths, then the editable paths.
pub open spec fn apply_args_spec(t: TemplateSpecView, vals: Seq<Seq<char>>) -> RenderOutcome {
    if vals.len() < t.argument_names.len() {
        RenderOutcome::MissingArgument(t.argument_names[vals.len() as int])
    } else if !spec_templates_supported(t) {
        RenderOutcome::RenderFailure(unsupported_template_message())
    } else {
        let ctx = bindings(t.argument_names, vals, t.argument_names.len() as int);
        if !tera_add_ok(empty_str_map(), t.template_name, t.template_body) {
            RenderOutcome::RenderFailure(
                tera_add_err_of(empty_str_map(), t.template_name, t.template_body),
            )
        } else {
            let tm = empty_str_map().insert(t.template_name, t.template_body);
            match tera_rendered(tm, t.template_name, ctx) {
                Option::None => RenderOutcome::RenderFailure(
                    tera_render_err_of(tm, t.template_name, ctx),
                ),
                Option::Some(msg) => match rendered_paths(t.read_only, ctx) {
                    Option::None => RenderOutcome::RenderFailure(
                        first_path_error(t.read_only, ctx),
                    ),
                    Option::Some(ro) => match rendered_paths(t.edit, ctx) {
                        Option::None => RenderOutcome::RenderFailure(
                            first_path_error(t.edit, ctx),
                        ),
                        Option::Some(ed) => RenderOutcome::Rendered(
                            CommandDescriptorView { message: msg, read_only: ro, edit: ed },
                        ),
                    },
                },
            }
        }
    }
}

impl CommandTemplate {
    /// Splits the document, decodes its frontmatter and keeps its body as
    /// the template registered under `name`.  Succeeds exactly when the
    /// frontmatter is blank or parses as YAML; a parse failure is reported
    /// as a frontmatter error.
    pub fn parse_with_name(s: &str, name: &str) -> (r: Result<CommandTemplate, TemplateError>)
        ensures
            r is Ok <==> (all_blank(split_doc(s@).0) || yaml_parses(split_doc(s@).0)),
            r matches Ok(t) ==> parsed_template(t@, s@, name@),
            r matches Err(e) ==> (e matches TemplateError::FrontmatterParse(m) && m@
                == yaml_error_of(split_doc(s@).0)),
    {
        let doc = MarkdownDoc::parse(s);
        match decode(doc.frontmatter.as_str()) {
            Result::Err(e) => Err(e),
            Result::Ok(lists) => {
                let (args, read, edit) = lists;
                Ok(
                    CommandTemplate {
                        argument_names: args,
                        template_body: doc.body,
                        template_name: name.to_owned(),
                        read_only: read,
                        edit,
                    },
                )
            },
        }
    }

    /// The declared argument names, in order.
    pub fn argument_names(&self) -> (r: &Vec<String>)
        ensures
            views_of(r@) == self@.argument_names,
    {
        &self.argument_names
    }

    /// The read-only path templates, in order.
    pub fn read_only(&self) -> (r: &Vec<String>)
        ensures
            views_of(r@) == self@.read_only,
    {
        &self.read_only
    }

    /// The editable path templates, in order.
    pub fn edit(&self) -> (r: &Vec<String>)
        ensures
            views_of(r@) == self@.edit,
    {
        &self.edit
    }

    /// Binds the supplied positional values to the declared argument names
    /// and renders the body and every path template with that one context.
    /// With fewer values than declared names, fails naming the first
    /// unbound name; a template that does not register or render fails as a
    /// render error; no partial result is returned.
    pub fn apply_args(&self, args: &Vec<String>) -> (r: Result<AiderCommand, TemplateError>)
        ensures
            match r {
                Result::Ok(c) => apply_args_spec(self@, views_of(args@))
                    == RenderOutcome::Rendered(c@),
                Result::Err(e) => match e {
                    TemplateError::MissingArgument(m) => apply_args_spec(self@, views_of(args@))
                        == RenderOutcome::MissingArgument(m@),
                    TemplateError::Render(m) => apply_args_spec(self@, views_of(args@))
                        == RenderOutcome::RenderFailure(m@),
                    TemplateError::FrontmatterParse(_) => false,
                },
            },
    {
        if args.len() < self.argument_names.len() {
            let missing = self.argument_names[args.len()].clone();
            return Err(TemplateError::MissingArgument(missing));
        }
        if !template_supported(self.template_body.as_str()) {
            return Err(TemplateError::Render(unsupported_template_text()));
        }
        let mut ri: usize = 0;
        while ri < self.read_only.len()
            invariant
                ri <= self.read_only.len(),
                self.argument_names.len() <= args.len(),
                forall|j: int|
                    0 <= j < ri ==> supported_template(#[trigger] views_of(self.read_only@)[j]),
            decreases self.read_only.len() - ri,
        {
            proof {
                assert(views_of(self.read_only@)[ri as int] == self.read_only@[ri as int]@);
            }
            if !template_supported(self.read_only[ri].as_str()) {
                proof {
                    assert(!all_templates_supported(self@.read_only));
                }
                return Err(TemplateError::Render(unsupported_template_text()));
            }
            ri = ri + 1;
        }
        let mut ei: usize = 0;
        while ei < self.edit.len()
            invariant
                ei <= self.edit.len(),
                self.argument_names.len() <= args.len(),
                forall|j: int|
                    0 <= j < ei ==> supported_template(#[trigger] views_of(self.edit@)[j]),
            decreases self.edit.len() - ei,
        {
            proof {
                assert(views_of(self.edit@)[ei as int] == self.edit@[ei as int]@);
            }
            if !template_supported(self.edit[ei].as_str()) {
                proof {
                    assert(!all_templates_supported(self@.edit));
                }
                return Err(TemplateError::Render(unsupported_template_text()));
            }
            ei = ei + 1;
        }
        let tera = match engine_with_template(
            self.template_name.as_str(),
            self.template_body.as_str(),
        ) {
            Result::Ok(t) => t,
            Result::Err(e) => {
                return Err(TemplateError::Render(tera_error_text(&e)));
            },
        };
        let ghost names = views_of(self.argument_names@);
        let ghost vals = views_of(args@);
        let mut context = render::context_new();
        let mut i: usize = 0;
        while i < self.argument_names.len()
            invariant
                i <= self.argument_names.len(),
                self.argument_names.len() <= args.len(),
                names == views_of(self.argument_names@),
                vals == views_of(args@),
                ctx_entries(context) == bindings(names, vals, i as int),
            decreases self.argument_names.len() - i,
        {
            render::context_insert(
                &mut context,
                self.argument_names[i].as_str(),
                args[i].as_str(),
            );
            i = i + 1;
        }
        proof {
            let tm = crate::render::tera_templates(tera);
            assert forall|n: Seq<char>| #[trigger] tm.dom().contains(n) implies supported_template(
                tm[n],
            ) by {
                assert(n == self.template_name@);
                assert(tm[n] == self.template_body@);
            }
        }
        let message = match render_registered(&tera, self.template_name.as_str(), &context) {
            Result::Ok(s) => s,
            Result::Err(e) => {
                return Err(TemplateError::Render(tera_error_text(&e)));
            },
        };
        let read_only = match render_strings(&self.read_only, &context) {
            Result::Ok(v) => v,
            Result::Err(e) => {
                return Err(TemplateError::Render(tera_error_text(&e)));
            },
        };
        let edit = match render_strings(&self.edit, &context) {
            Result::Ok(v) => v,
            Result::Err(e) => {
                return Err(TemplateError::Render(tera_error_text(&e)));
            },
        };
        Ok(AiderCommand { message, read_only, edit })
    }
}

/// Binding contexts agree whenever the first `n` values agree.
proof fn lemma_bindings_prefix(names: Seq<Seq<char>>, v1: Seq<Seq<char>>, v2: Seq<Seq<char>>, n: int)
    requires
        n <= names.len(),
        n <= v1.len(),
        n <= v2.len(),
        forall|i: int| 0 <= i < n ==> v1[i] == v2[i],
    ensures
        bindings(names, v1, n) == bindings(names, v2, n),
    decreases n,
{
    if n > 0 {
        lemma_bindings_prefix(names, v1, v2, n - 1);
    }
}

/// Values beyond the declared argument names do not affect the outcome:
/// only the first values, one per declared name, are bound.
pub proof fn lemma_excess_values_ignored(
    t: TemplateSpecView,
    v1: Seq<Seq<char>>,
    v2: Seq<Seq<char>>,
)
    requires
        t.argument_names.len() <= v1.len(),
        t.argument_names.len() <= v2.len(),
        forall|i: int| 0 <= i < t.argument_names.len() ==> v1[i] == v2[i],
    ensures
        apply_args_spec(t, v1) == apply_args_spec(t, v2),
{
    lemma_bindings_prefix(t.argument_names, v1, v2, t.argument_names.len() as int);
}

/// The body and every path template render with the exact same bound
/// values: in a successful outcome the message and each path all come from
/// the one context that binds the declared names to the supplied values,
/// and there is exactly one rendered path per path template, in order.
pub proof fn lemma_paths_share_the_bound_values(
    t: TemplateSpecView,
    vals: Seq<Seq<char>>,
    c: CommandDescriptorView,
)
    requires
        apply_args_spec(t, vals) == RenderOutcome::Rendered(c),
    ensures
        ({
            let ctx = bindings(t.argument_names, vals, t.argument_names.len() as int);
            &&& vals.len() >= t.argument_names.len()
            &&& tera_rendered(
                empty_str_map().insert(t.template_name, t.template_body),
                t.template_name,
                ctx,
            ) == Option::Some(c.message)
            &&& c.read_only.len() == t.read_only.len()
            &&& c.edit.len() == t.edit.len()
            &&& forall|i: int|
                0 <= i < t.read_only.len() ==> Option::Some(#[trigger] c.read_only[i])
                    == tera_str_rendered(t.read_only[i], ctx)
            &&& forall|i: int|
                0 <= i < t.edit.len() ==> Option::Some(#[trigger] c.edit[i]) == tera_str_rendered(
                    t.edit[i],
                    ctx,
                )
        }),
{
    let ctx = bindings(t.argument_names, vals, t.argument_names.len() as int);
    lemma_rendered_paths_len(t.read_only, ctx, c.read_only);
    lemma_rendered_paths_len(t.edit, ctx, c.edit);
}

/// Applying the same values to the same template spec twice yields
/// identical descriptors: the outcome is a function of the spec and the
/// values alone.
pub proof fn lemma_apply_args_repeatable(
    t: TemplateSpecView,
    vals: Seq<Seq<char>>,
    c1: CommandDescriptorView,
    c2: CommandDescriptorView,
)
    requires
        apply_args_spec(t, vals) == RenderOutcome::Rendered(c1),
        apply_args_spec(t, vals) == RenderOutcome::Rendered(c2),
    ensures
        c1 == c2,
{
}

} // verus!
